//! The resilient decoder: required fields gate correctness, optional
//! fields absorb malformed input, and envelopes carry their metadata.

use crossref_rs::{
    CalendarDate, DateField, ErrorKind, FacetItem, Journal, JournalList, Json, Work, WorkList,
};

/// Converts a parsed `serde_json` tree into the crate's own JSON model.
fn json_of_value(v: &serde_json::Value) -> Json {
    match v {
        serde_json::Value::Null => Json::Null,
        serde_json::Value::Bool(b) => Json::Bool(*b),
        serde_json::Value::Number(n) => {
            if let Some(i) = n.as_i64() {
                Json::Int(i)
            } else if let Some(u) = n.as_u64() {
                Json::UInt(u)
            } else {
                Json::NumText(n.to_string())
            }
        }
        serde_json::Value::String(s) => Json::Str(s.clone()),
        serde_json::Value::Array(items) => {
            Json::Array(items.iter().map(json_of_value).collect())
        }
        serde_json::Value::Object(members) => Json::Object(
            members
                .iter()
                .map(|(k, v)| (k.clone(), json_of_value(v)))
                .collect(),
        ),
    }
}

fn parse(s: &str) -> Json {
    json_of_value(&serde_json::from_str::<serde_json::Value>(s).unwrap())
}

const MINIMAL_WORK: &str = r##"{
    "title": ["T"],
    "DOI": "10.1/x",
    "member": "1",
    "type": "journal-article",
    "created": {
        "date-parts": [[2020, 1, 1]],
        "timestamp": 0,
        "date-time": "2020-01-01T00:00:00Z"
    },
    "indexed": {
        "date-parts": [[2020, 1, 1]],
        "timestamp": 0,
        "date-time": "2020-01-01T00:00:00Z"
    },
    "publisher": "P"
}"##;

#[test]
fn minimal_work_decodes_end_to_end() {
    let work = Work::try_from(&parse(MINIMAL_WORK)).unwrap();
    assert_eq!("P", &work.publisher);
    assert_eq!("10.1/x", &work.doi);
    assert_eq!("1", &work.member);
    assert_eq!("journal-article", &work.type_);
    assert_eq!(vec!["T".to_string()], work.title);
    assert_eq!(None, work.container_title);
    assert_eq!(
        Some(DateField::Single(CalendarDate::new(2020, 1, 1))),
        work.created.as_date_field()
    );
}

#[test]
fn work_missing_doi_fails_with_named_field() {
    let broken = r##"{
        "title": ["T"],
        "member": "1",
        "type": "journal-article",
        "created": {
            "date-parts": [[2020, 1, 1]],
            "timestamp": 0,
            "date-time": "2020-01-01T00:00:00Z"
        },
        "indexed": {
            "date-parts": [[2020, 1, 1]],
            "timestamp": 0,
            "date-time": "2020-01-01T00:00:00Z"
        },
        "publisher": "P"
    }"##;
    let result = Work::try_from(&parse(broken));
    assert_eq!(
        Err(ErrorKind::MissingField {
            msg: "DOI".to_string()
        }),
        result.map(|_| ())
    );
}

#[test]
fn work_missing_abstract_decodes_to_absent() {
    let work = Work::try_from(&parse(MINIMAL_WORK)).unwrap();
    assert_eq!(None, work.abstract_);
    assert_eq!(None, work.author);
    assert!(work.relation.is_none());
}

#[test]
fn work_wrongly_typed_required_field_is_distinct() {
    let broken = MINIMAL_WORK.replace("\"publisher\": \"P\"", "\"publisher\": 7");
    let result = Work::try_from(&parse(&broken));
    assert_eq!(
        Err(ErrorKind::InvalidTypeName {
            name: "publisher".to_string()
        }),
        result.map(|_| ())
    );
}

#[test]
fn work_from_non_object_is_a_message_type_error() {
    let result = Work::try_from(&Json::Null);
    assert!(matches!(
        result,
        Err(ErrorKind::InvalidMessageType { .. })
    ));
}

#[test]
fn malformed_optional_list_decodes_to_absent() {
    // An author entry without the required affiliation list is malformed;
    // the optional author field absorbs it instead of failing the work.
    let with_author = MINIMAL_WORK.replace(
        "\"publisher\": \"P\"",
        "\"publisher\": \"P\", \"author\": [{\"family\": \"Ray\"}]",
    );
    let work = Work::try_from(&parse(&with_author)).unwrap();
    assert_eq!(None, work.author);

    let good_author = MINIMAL_WORK.replace(
        "\"publisher\": \"P\"",
        "\"publisher\": \"P\", \"author\": [{\"family\": \"Ray\", \"sequence\": \"first\", \"affiliation\": []}]",
    );
    let work = Work::try_from(&parse(&good_author)).unwrap();
    let authors = work.author.unwrap();
    assert_eq!(1, authors.len());
    assert_eq!(Some("Ray".to_string()), authors[0].family);
}

#[test]
fn serialize_work() {
    let work_str = r##"{
    "indexed": {
      "date-parts": [
        [
          2019,
          2,
          26
        ]
      ],
      "date-time": "2019-02-26T10:43:14Z",
      "timestamp": 1551177794515
    },
    "reference-count": 105,
    "publisher": "American Psychological Association (APA)",
    "issue": "1",
    "content-domain": {
      "domain": [],
      "crossmark-restriction": false
    },
    "short-container-title": [
      "American Psychologist"
    ],
    "DOI": "10.1037/0003-066x.59.1.29",
    "type": "journal-article",
    "created": {
      "date-parts": [
        [
          2004,
          1,
          21
        ]
      ],
      "date-time": "2004-01-21T14:31:19Z",
      "timestamp": 1074695479000
    },
    "page": "29-40",
    "source": "Crossref",
    "is-referenced-by-count": 84,
    "title": [
      "How the Mind Hurts and Heals the Body."
    ],
    "prefix": "10.1037",
    "volume": "59",
    "author": [
      {
        "given": "Oakley",
        "family": "Ray",
        "sequence": "first",
        "affiliation": []
      }
    ],
    "member": "15",
    "published-online": {
      "date-parts": [
        [
          2004
        ]
      ]
    },
    "container-title": [
      "American Psychologist"
    ],
    "original-title": [],
    "language": "en",
    "link": [
      {
        "URL": "http://psycnet.apa.org/journals/amp/59/1/29.pdf",
        "content-type": "unspecified",
        "content-version": "vor",
        "intended-application": "similarity-checking"
      }
    ],
    "deposited": {
      "date-parts": [
        [
          2018,
          4,
          8
        ]
      ],
      "date-time": "2018-04-08T18:56:17Z",
      "timestamp": 1523213777000
    },
    "score": 1,
    "subtitle": [],
    "short-title": [],
    "issued": {
      "date-parts": [
        [
          null
        ]
      ]
    },
    "references-count": 105,
    "journal-issue": {
      "published-online": {
        "date-parts": [
          [
            2004
          ]
        ]
      },
      "issue": "1"
    },
    "alternative-id": [
      "2004-10043-004",
      "14736318"
    ],
    "URL": "http://dx.doi.org/10.1037/0003-066x.59.1.29",
    "relation": {},
    "ISSN": [
      "1935-990X",
      "0003-066X"
    ],
    "issn-type": [
      {
        "value": "0003-066X",
        "type": "print"
      },
      {
        "value": "1935-990X",
        "type": "electronic"
      }
    ]
  }
"##;

    let work = Work::try_from(&parse(work_str)).unwrap();
    assert_eq!("American Psychological Association (APA)", &work.publisher);
    assert_eq!("15", &work.member);
    assert_eq!(Some("en".to_string()), work.language);
    assert_eq!(Some(105), work.references_count);
    let issn_type = work.issn_type.unwrap();
    assert_eq!(2, issn_type.len());
    assert_eq!("print", &issn_type[0].type_);
    // The issued date is present but its only tuple lacks a year.
    assert_eq!(None, work.issued.unwrap().as_date_field());
    assert_eq!(Some(vec![]), work.subtitle);
    assert!(matches!(work.score, Some(Json::Int(1))));
}

#[test]
fn work_list_envelope_decodes() {
    let list = r##"{
        "facets": {
            "publisher-name": {
                "value-count": 1,
                "values": { "Wiley": 7 }
            }
        },
        "total-results": 1,
        "items-per-page": 20,
        "query": { "start-index": 0, "search-terms": "geography" },
        "items": [MINIMAL],
        "next-cursor": "tok"
    }"##
    .replace("MINIMAL", MINIMAL_WORK);
    let wl = WorkList::try_from(&parse(&list)).unwrap();
    assert_eq!(1, wl.total_results);
    assert_eq!(Some(20), wl.items_per_page);
    assert_eq!(Some("tok".to_string()), wl.next_cursor);
    assert_eq!(1, wl.items.len());
    assert_eq!("10.1/x", &wl.items[0].doi);
    assert_eq!(0, wl.query.as_ref().unwrap().start_index);
    assert_eq!(
        Some("geography".to_string()),
        wl.query.unwrap().search_terms
    );
    assert_eq!(1, wl.facets.len());
    assert_eq!("publisher-name", &wl.facets[0].0);
    assert_eq!(
        FacetItem {
            value_count: 1,
            values: vec![("Wiley".to_string(), 7)],
        },
        wl.facets[0].1
    );
}

#[test]
fn work_list_without_facets_fails() {
    let list = r##"{ "total-results": 0, "items": [] }"##;
    assert_eq!(
        Err(ErrorKind::MissingField {
            msg: "facets".to_string()
        }),
        WorkList::try_from(&parse(list)).map(|_| ())
    );
}

#[test]
fn journal_decodes_and_sorts_breakdowns() {
    let journal = r##"{
        "last-status-check-time": 1553905011298,
        "counts": {
            "total-dois": 100,
            "current-dois": 10,
            "backfile-dois": 90
        },
        "breakdowns": {
            "dois-by-issued-year": [[2020, 5], [2018, 3], [2019, 4]]
        },
        "publisher": "Clark University",
        "title": "Economic Geography",
        "subjects": ["Economics"],
        "flags": { "deposits": true, "deposits-articles": false },
        "ISSN": ["0013-0095"],
        "issn-type": [{ "value": "0013-0095", "type": "print" }]
    }"##;
    let j = Journal::try_from(&parse(journal)).unwrap();
    assert_eq!(Some(1553905011298), j.last_status_check_time);
    assert_eq!(100, j.counts.total_dois);
    assert_eq!(vec![(2018, 3), (2019, 4), (2020, 5)], j.breakdowns);
    assert_eq!("Economic Geography", &j.title);
    assert!(j.coverage.is_none());
    assert_eq!(
        vec![
            ("deposits".to_string(), true),
            ("deposits-articles".to_string(), false)
        ],
        j.flags
    );
    assert_eq!(vec!["0013-0095".to_string()], j.issn);
    assert_eq!("print", &j.issn_type[0].type_);
}

#[test]
fn breakdown_sort_is_stable_for_equal_years() {
    let journal = r##"{
        "last-status-check-time": 1,
        "counts": { "total-dois": 0, "current-dois": 0, "backfile-dois": 0 },
        "breakdowns": {
            "dois-by-issued-year": [[2020, 1], [2019, 9], [2020, 2]]
        },
        "publisher": "P",
        "title": "T",
        "subjects": [],
        "flags": {},
        "ISSN": [],
        "issn-type": []
    }"##;
    let j = Journal::try_from(&parse(journal)).unwrap();
    assert_eq!(vec![(2019, 9), (2020, 1), (2020, 2)], j.breakdowns);
}

#[test]
fn journal_list_envelope_decodes() {
    let list = r##"{
        "total-results": 0,
        "items": []
    }"##;
    let jl = JournalList::try_from(&parse(list)).unwrap();
    assert_eq!(0, jl.total_results);
    assert_eq!(None, jl.items_per_page);
    assert_eq!(None, jl.query);
    assert!(jl.facets.is_empty());
    assert!(jl.items.is_empty());
}

#[test]
fn error_text_names_the_failure() {
    let e = ErrorKind::MissingField {
        msg: "DOI".to_string(),
    };
    assert_eq!("missing field: DOI", &e.text());
    let e = ErrorKind::InvalidTypeName {
        name: "title".to_string(),
    };
    assert_eq!("invalid type for field: title", &e.text());
}

#[test]
fn journal_missing_counts_fails() {
    let journal = r##"{ "last-status-check-time": 1 }"##;
    assert_eq!(
        Err(ErrorKind::MissingField {
            msg: "counts".to_string()
        }),
        Journal::try_from(&parse(journal)).map(|_| ())
    );
}
