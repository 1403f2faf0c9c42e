//! The date model: shape interpretation, display rendering, and the
//! citation key built on top of them.

use crossref_rs::{
    CalendarDate, Contributor, Date, DateField, DateParts, to_citekey,
};

fn date_from_parts(parts: Vec<Vec<Option<u32>>>) -> Date {
    Date {
        date_parts: DateParts(parts),
        timestamp: 0,
        date_time: "1970-01-01T00:00:00Z".to_string(),
    }
}

fn contributor_with_family(family: Option<&str>) -> Contributor {
    Contributor {
        prefix: None,
        suffix: None,
        family: family.map(|f| f.to_string()),
        given: None,
        name: None,
        orcid: None,
        authenticated_orcid: None,
        affiliation: vec![],
        sequence: "first".to_string(),
    }
}

#[test]
fn empty_parts_yield_nothing() {
    assert_eq!(None, DateParts(vec![]).as_date());
}

#[test]
fn one_tuple_yields_single() {
    let parts = DateParts(vec![vec![Some(2020), Some(1), Some(1)]]);
    assert_eq!(
        Some(DateField::Single(CalendarDate::new(2020, 1, 1))),
        parts.as_date()
    );
}

#[test]
fn year_only_tuple_completes_with_sentinel() {
    let parts = DateParts(vec![vec![Some(2017)]]);
    assert_eq!(
        Some(DateField::Single(CalendarDate::new(2017, 0, 0))),
        parts.as_date()
    );
}

#[test]
fn two_tuples_yield_range() {
    let parts = DateParts(vec![vec![Some(2020), Some(1)], vec![Some(2021), Some(6)]]);
    assert_eq!(
        Some(DateField::Range {
            from: CalendarDate::new(2020, 1, 0),
            to: CalendarDate::new(2021, 6, 0),
        }),
        parts.as_date()
    );
}

#[test]
fn many_tuples_yield_multi_in_input_order() {
    let parts = DateParts(vec![
        vec![Some(2021)],
        vec![Some(2019)],
        vec![Some(2020)],
    ]);
    assert_eq!(
        Some(DateField::Multi(vec![
            CalendarDate::new(2021, 0, 0),
            CalendarDate::new(2019, 0, 0),
            CalendarDate::new(2020, 0, 0),
        ])),
        parts.as_date()
    );
}

#[test]
fn missing_year_spoils_the_reading() {
    assert_eq!(None, DateParts(vec![vec![None]]).as_date());
    assert_eq!(
        None,
        DateParts(vec![vec![Some(2020)], vec![None]]).as_date()
    );
    // A tuple with more than three numbers has no reading either.
    assert_eq!(
        None,
        DateParts(vec![vec![Some(2020), Some(1), Some(1), Some(7)]]).as_date()
    );
    // An empty inner tuple has no reading.
    assert_eq!(None, DateParts(vec![vec![]]).as_date());
}

#[test]
fn date_field_year() {
    assert_eq!(2020, DateField::Single(CalendarDate::new(2020, 1, 1)).year());
    assert_eq!(
        2019,
        DateField::Range {
            from: CalendarDate::new(2019, 1, 1),
            to: CalendarDate::new(2021, 1, 1),
        }
        .year()
    );
    assert_eq!(
        2018,
        DateField::Multi(vec![
            CalendarDate::new(2018, 1, 1),
            CalendarDate::new(2022, 1, 1),
        ])
        .year()
    );
}

#[test]
fn date_to_string_renders_each_shape() {
    assert_eq!(
        "2020-01-01",
        &date_from_parts(vec![vec![Some(2020), Some(1), Some(1)]]).to_string()
    );
    assert_eq!(
        "2020-01-01-2021-02-03",
        &date_from_parts(vec![
            vec![Some(2020), Some(1), Some(1)],
            vec![Some(2021), Some(2), Some(3)],
        ])
        .to_string()
    );
    assert_eq!(
        "2018-00-00,2019-00-00,2020-00-00",
        &date_from_parts(vec![vec![Some(2018)], vec![Some(2019)], vec![Some(2020)]])
            .to_string()
    );
    assert_eq!("", &date_from_parts(vec![]).to_string());
    assert_eq!("", &date_from_parts(vec![vec![None]]).to_string());
}

#[test]
fn citekey_single_author() {
    let year = Some(date_from_parts(vec![vec![Some(2019), Some(1), Some(1)]]));
    let key = to_citekey(vec![contributor_with_family(Some("Smith"))], year);
    assert_eq!(Some("Smith2019".to_string()), key);
}

#[test]
fn citekey_two_authors() {
    let year = Some(date_from_parts(vec![vec![Some(2019)]]));
    let key = to_citekey(
        vec![
            contributor_with_family(Some("Smith")),
            contributor_with_family(Some("Jones")),
        ],
        year,
    );
    assert_eq!(Some("Smith&Jones2019".to_string()), key);
}

#[test]
fn citekey_many_authors() {
    let year = Some(date_from_parts(vec![vec![Some(2019)]]));
    let key = to_citekey(
        vec![
            contributor_with_family(Some("Smith")),
            contributor_with_family(Some("Jones")),
            contributor_with_family(Some("Lee")),
        ],
        year,
    );
    assert_eq!(Some("SmithEtAl2019".to_string()), key);
}

#[test]
fn citekey_needs_authors_and_year() {
    assert_eq!(None, to_citekey(vec![], None));
    assert_eq!(
        None,
        to_citekey(vec![contributor_with_family(None)], None)
    );
    let year = Some(date_from_parts(vec![]));
    assert_eq!(
        None,
        to_citekey(vec![contributor_with_family(Some("Smith"))], year)
    );
}
