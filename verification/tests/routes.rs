//! Route-compiler behavior: parameter rendering, fixed ordering, the
//! sample override, cursor paging, and the journals route quirks.

use crossref_rs::{
    Component, CrossrefQueryParam, CrossrefRoute, FacetCount, FieldQuery, JournalResultControl,
    Journals, Order, ResultControl, Sort, Visibility, WorkElement, WorkResultControl, Works,
    WorksFilter, WorksQuery,
};
use crossref_rs::{CalendarDate, CrossrefParams, CrossrefQuery, ErrorKind, Funders, Type, WorkListQuery};

#[test]
fn serialize_works_ident() {
    let works = Works::doi("10.1037/0003-066X.59.1.29");

    assert_eq!("/works/10.1037/0003-066X.59.1.29", &works.route().unwrap())
}

#[test]
fn free_text_terms_round_trip() {
    let query = WorksQuery::empty().queries(&["economic", "geography"]);
    assert_eq!("/works?query=economic+geography", &query.route().unwrap());

    let with_rows = query.result_control(WorkResultControl::Standard(ResultControl::Rows(10)));
    assert_eq!(
        "/works?query=economic+geography&rows=10",
        &with_rows.route().unwrap()
    );
}

#[test]
fn sample_overrides_everything() {
    let query = WorksQuery::new("machine learning")
        .filter(WorksFilter::HasFunder)
        .sort(Sort::Score)
        .order(Order::Desc)
        .sample(5);
    assert_eq!("sample=5", &query.route().unwrap());
}

#[test]
fn filters_join_into_one_parameter() {
    let query = WorksQuery::empty()
        .filter(WorksFilter::HasFunder)
        .filter(WorksFilter::Member("15".to_string()));
    assert_eq!(
        "/works?filter=has-funder:true,member:15",
        &query.route().unwrap()
    );
}

#[test]
fn cursor_lifecycle() {
    let empty = WorkResultControl::new_cursor();
    assert_eq!("cursor=*", &empty.param());

    let token = WorkResultControl::cursor("abc");
    assert_eq!("cursor=abc", &token.param());

    let with_rows = WorkResultControl::Cursor {
        token: Some("abc".to_string()),
        rows: Some(20),
    };
    assert_eq!("cursor=abc&rows=20", &with_rows.param());
}

#[test]
fn cursor_inside_route() {
    let query = WorksQuery::new("ontologies").new_cursor();
    assert_eq!("/works?query=ontologies&cursor=*", &query.route().unwrap());

    let next = WorksQuery::new("ontologies")
        .result_control(WorkResultControl::Standard(ResultControl::Rows(20)))
        .next_cursor("tok");
    assert_eq!("/works?query=ontologies&cursor=tok&rows=20", &next.route().unwrap());
}

#[test]
fn full_parameter_order() {
    let query = WorksQuery::empty()
        .query("room at the bottom")
        .field_query(FieldQuery::author("richard feynman"))
        .filter(WorksFilter::HasOrcid)
        .elements(vec![WorkElement::DOI, WorkElement::Title])
        .facet(FacetCount::new("publisher-name", None))
        .sort(Sort::Created)
        .order(Order::Asc)
        .result_control(WorkResultControl::Standard(ResultControl::RowsOffset {
            rows: 10,
            offset: 20,
        }));
    assert_eq!(
        "/works?query=room+at+the+bottom&query.author=richard+feynman&filter=has-orcid:true&select=DOI,title&facet=publisher-name:*&sort=created&order=asc&rows=10&offset=20",
        &query.route().unwrap()
    );
}

#[test]
fn field_query_collapses_whitespace() {
    let fq = FieldQuery::container_title("  Economic   Geography ");
    assert_eq!("query.container-title=Economic+Geography", &fq.param());
}

#[test]
fn date_filter_renders_padded() {
    let f = WorksFilter::FromPubDate(CalendarDate::new(2020, 1, 5));
    let query = WorksQuery::empty().filter(f);
    assert_eq!("/works?filter=from-pub-date:2020-01-05", &query.route().unwrap());
}

#[test]
fn visibility_and_type_filters() {
    let query = WorksQuery::empty()
        .filter(WorksFilter::ReferenceVisibility(Visibility::Open))
        .filter(WorksFilter::Type(Type::JournalArticle));
    assert_eq!(
        "/works?filter=reference-visibility:open,type:journal-article",
        &query.route().unwrap()
    );
}

#[test]
fn agency_route() {
    let works = Works::agency_for_doi("10.5555/12345678");
    assert_eq!("/works/10.5555/12345678/agency", &works.route().unwrap());
}

#[test]
fn combined_route_binds_parent() {
    let combined: Journals = WorksQuery::new("ontologies").into_combined("0013-0095");
    assert_eq!(
        "/journals/0013-0095/works?query=ontologies",
        &combined.route().unwrap()
    );
}

#[test]
fn work_list_query_route() {
    let wlq: WorkListQuery = WorksQuery::new("ontologies").into_combined_query::<Funders>("100000015");
    assert_eq!(
        "/funders/100000015/works?query=ontologies",
        &wlq.route().unwrap()
    );
    assert_eq!("ontologies", wlq.query().free_form_queries[0]);
}

#[test]
fn journals_identifier_route() {
    let j = Journals::Identifier("2167-8359".to_string());
    assert_eq!("/journals/2167-8359", &j.route().unwrap());
}

#[test]
fn journals_query_route_keeps_upstream_slash_quirk() {
    let plain = Journals::Query("economic geography".to_string(), None);
    assert_eq!("/journals?query=economic+geography", &plain.route().unwrap());

    let control = Some(JournalResultControl::new_from_limit(10));
    let with_control = Journals::Query("economic geography".to_string(), control);
    assert_eq!(
        "/journals/?query=economic+geography&rows=10",
        &with_control.route().unwrap()
    );

    let only_control = Journals::Query(
        String::new(),
        Some(JournalResultControl::new_from_limit(10)),
    );
    assert_eq!("/journals/?rows=10", &only_control.route().unwrap());
}

#[test]
fn journal_result_control_renders_in_order() {
    let c = JournalResultControl::new(Some(10), Some(2), Some(true), Some("score".to_string()));
    assert_eq!("rows=10&offset=2&sample=true&sort=score", &c.to_string());

    let empty = JournalResultControl::new(None, None, None, None);
    assert_eq!("", &empty.to_string());

    let built = JournalResultControl::new_from_offset(7).limit(3).sample(false);
    assert_eq!("rows=3&offset=7&sample=false", &built.to_string());
}

#[test]
fn journal_result_control_parses_back() {
    let c = JournalResultControl::try_from("rows=10&offset=2&sample=true&sort=score".to_string())
        .unwrap();
    assert_eq!(Some(10), c.limit);
    assert_eq!(Some(2), c.offset);
    assert_eq!(Some(true), c.sample);
    assert_eq!(Some("score".to_string()), c.sort);

    let sorted = JournalResultControl::new_from_sort("score".to_string());
    let round = JournalResultControl::try_from(sorted.to_string()).unwrap();
    assert_eq!(Some("score".to_string()), round.sort);
    assert_eq!(None, round.limit);
}

#[test]
fn journal_result_control_rejects_bad_input() {
    let bad = JournalResultControl::try_from("rows=ten".to_string());
    assert_eq!(
        Err(ErrorKind::InvalidResultControl {
            error: "rows=ten".to_string()
        }),
        bad
    );

    assert!(JournalResultControl::try_from("nonsense".to_string()).is_err());
    assert!(JournalResultControl::try_from("".to_string()).is_err());
    assert!(JournalResultControl::try_from("rows=1=2".to_string()).is_err());
    assert!(JournalResultControl::try_from("pages=3".to_string()).is_err());
    assert!(
        JournalResultControl::try_from("rows=99999999999999999999".to_string()).is_err()
    );
}

#[test]
fn rows_offset_renders_as_one_key() {
    let rc = ResultControl::RowsOffset { rows: 0, offset: 0 };
    assert_eq!("rows=0&offset=0", &rc.param());
}

#[test]
fn component_routes() {
    assert_eq!("/works", &Component::Works.route().unwrap());
    assert_eq!("/journals", &Component::Journals.route().unwrap());
    assert_eq!("journals", Component::Journals.as_str());
}

#[test]
fn to_url_prefixes_base_path() {
    let works = Works::doi("10.1/x");
    assert_eq!(
        "https://api.crossref.org/works/10.1/x",
        &works.to_url("https://api.crossref.org").unwrap()
    );
}

#[test]
fn work_list_query_from_and_query_mut() {
    let mut wlq = WorkListQuery::from(WorksQuery::new("a"));
    wlq.query_mut().free_form_queries.push("b".to_string());
    assert_eq!("/works?query=a+b", &wlq.route().unwrap());
}

#[test]
fn crossref_params_getters() {
    let query = WorksQuery::new("x")
        .filter(WorksFilter::HasOrcid)
        .sort(Sort::Score)
        .order(Order::Asc)
        .result_control(WorkResultControl::Standard(ResultControl::Rows(5)));
    assert_eq!(1, query.query_terms().len());
    assert_eq!(1, query.filters().len());
    assert!(CrossrefParams::sort(&query).is_some());
    assert!(CrossrefParams::order(&query).is_some());
    assert!(query.facets().is_empty());
    assert!(matches!(
        CrossrefParams::result_control(&query),
        Some(ResultControl::Rows(5))
    ));

    let cursor = WorksQuery::empty().new_cursor();
    assert!(CrossrefParams::result_control(&cursor).is_none());
}

#[test]
fn visibility_wire_names() {
    assert_eq!("open", Visibility::Open.as_str());
    assert_eq!("limited", Visibility::Limited.as_str());
    assert_eq!("closed", Visibility::Closed.as_str());
}

#[test]
fn facet_with_count_renders_number() {
    let query = WorksQuery::empty().facet(FacetCount::new("publisher-name", Some(5)));
    assert_eq!("/works?facet=publisher-name:5", &query.route().unwrap());
}

#[test]
fn license_delay_filter_keeps_upstream_true_quirk() {
    // The upstream encoder renders the delay filter's value as the
    // literal `true`, dropping the number; that behavior is kept.
    let query = WorksQuery::empty().filter(WorksFilter::LicenseDelay(30));
    assert_eq!("/works?filter=license.delay:true", &query.route().unwrap());
}
