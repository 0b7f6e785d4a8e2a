use crates_io_cn::search::{
    list, list_page, read_reply, search, search_page, Hit, ListParams, Matching, Page, ReplyError,
    SearchParams,
};
use crates_io_cn::crate_req::{CrateDocument, NewCrateDependency};
use crates_io_cn::text::strip_quotes;
use serde_json::Value;

fn hit(id: &str, name: &str, vers: &str) -> Hit {
    Hit {
        id: id.to_string(),
        name: name.to_string(),
        vers: vers.to_string(),
    }
}

fn list_params(page: Option<u32>, per_page: Option<u32>) -> ListParams {
    ListParams { page, per_page }
}

fn search_params(q: &str, version: Option<&str>) -> SearchParams {
    SearchParams {
        q: q.to_string(),
        version: version.map(|version| version.to_string()),
        per_page: None,
        page: None,
    }
}

const BODY: &str = r#"{
    "took": 3,
    "hits": {
        "total": { "value": 12, "relation": "eq" },
        "hits": [
            { "_id": "serde/1.0.0", "_source": { "name": "serde", "vers": "1.0.0", "yanked": false } },
            { "_id": "odd", "_source": { "name": "a\"b\\c", "vers": 7 } },
            { "_id": null, "_source": {} }
        ]
    }
}"#;

#[test]
fn the_first_ten_are_listed_where_nothing_is_said() {
    let page = Page::new(None, None);
    assert_eq!(page.current_page, 1);
    assert_eq!(page.per_page, 10);
    assert_eq!(page.offset(), 0);
}

#[test]
fn zero_is_taken_as_one() {
    let page = Page::new(Some(0), Some(0));
    assert_eq!(page.current_page, 1);
    assert_eq!(page.per_page, 1);
}

#[test]
fn pages_follow_on_each_other() {
    for number in 1..50 {
        let page = Page::new(Some(number), Some(7));
        let following = Page::new(Some(number + 1), Some(7));
        assert_eq!(following.offset(), page.offset() + 7);
    }
    assert_eq!(Page::new(Some(1), Some(7)).offset(), 0);
}

#[test]
fn far_pages_wrap_around() {
    let page = Page::new(Some(0x1_0001), Some(0x1_0001));
    assert_eq!(page.offset(), 0x1_0000);
    assert_eq!(Page::new(Some(u32::MAX), Some(1)).offset(), u32::MAX - 1);
}

#[test]
fn a_list_is_a_page_of_all_crates() {
    let query = list_params(Some(3), Some(20)).query();
    assert!(matches!(query.matching, Matching::All));
    assert_eq!(query.size, 20);
    assert_eq!(query.from, 40);
}

#[test]
fn a_search_looks_for_the_name() {
    let mut params = search_params("serde", None);
    params.page = Some(2);
    params.per_page = Some(5);
    let query = params.query();
    match query.matching {
        Matching::Name { name } => assert_eq!(name, "serde"),
        _ => panic!("no version was named"),
    }
    assert_eq!(query.size, 5);
    assert_eq!(query.from, 5);
    for blank in ["", "  ", "\t\u{3000}\u{85}\n"] {
        match search_params("serde", Some(blank)).query().matching {
            Matching::Name { name } => assert_eq!(name, "serde"),
            _ => panic!("only white space was named"),
        }
    }
}

#[test]
fn a_search_looks_for_the_trimmed_version_too() {
    for version in ["1.0.0", " 1.0.0", "\u{a0}1.0.0 \u{2003}"] {
        match search_params(" serde ", Some(version)).query().matching {
            Matching::NameAndVersion { name, version } => {
                assert_eq!(name, " serde ");
                assert_eq!(version, "1.0.0");
            }
            _ => panic!("a version was named"),
        }
    }
    match search_params("serde", Some(" 1 \u{200b}")).query().matching {
        Matching::NameAndVersion { version, .. } => assert_eq!(version, "1 \u{200b}"),
        _ => panic!("a version was named"),
    }
}

fn json(text: &str) -> Value {
    serde_json::from_str(text).unwrap()
}

#[test]
fn questions_are_put_in_json() {
    assert_eq!(
        list_params(Some(3), Some(20)).query().to_json(),
        json(r#"{"query":{"match_all":{}},"size":20,"from":40}"#)
    );
    assert_eq!(
        search_params("a \"b\"", None).query().to_json(),
        json(r#"{"query":{"match":{"name":"a \"b\""}},"size":10,"from":0}"#)
    );
    assert_eq!(
        search_params("serde", Some(" 1.0 ")).query().to_json(),
        json(
            r#"{"query":{"bool":{"must":[{"match":{"name":"serde"}},{"match":{"vers":"1.0"}}]}},
                "size":10,"from":0}"#
        )
    );
}

fn document(name: &str, vers: &str) -> CrateDocument {
    CrateDocument {
        name: name.to_string(),
        vers: vers.to_string(),
        deps: None,
        cksum: None,
        yanked: None,
        links: None,
    }
}

#[test]
fn documents_are_put_in_json() {
    assert_eq!(
        document("serde", "1.0.0").to_json(),
        json(
            r#"{"name":"serde","vers":"1.0.0","deps":null,"cksum":null,"yanked":null,"links":null}"#
        )
    );
    let dependency = |registry: Option<&str>, explicit: Option<&str>, target: Option<&str>| {
        NewCrateDependency {
            optional: true,
            default_features: false,
            name: "d".to_string(),
            features: vec!["x".to_string(), "y".to_string()],
            req: "^1".to_string(),
            target: target.map(|target| target.to_string()),
            kind: "dev".to_string(),
            registry: registry.map(|registry| registry.to_string()),
            explicit_name_in_toml: explicit.map(|explicit| explicit.to_string()),
        }
    };
    let mut full = document("serde", "1.0.0");
    full.deps = Some(vec![
        dependency(None, None, None),
        dependency(Some("r"), Some("e"), Some("unix")),
    ]);
    full.cksum = Some("00".to_string());
    full.yanked = Some(true);
    full.links = Some("z".to_string());
    assert_eq!(
        full.to_json(),
        json(
            r#"{"name":"serde","vers":"1.0.0","cksum":"00","yanked":true,"links":"z","deps":[
                {"optional":true,"default_features":false,"name":"d","features":["x","y"],
                 "req":"^1","target":null,"kind":"dev"},
                {"optional":true,"default_features":false,"name":"d","features":["x","y"],
                 "req":"^1","target":"unix","kind":"dev","registry":"r",
                 "explicit_name_in_toml":"e"}]}"#
        )
    );
}

#[test]
fn an_indexed_crate_is_found_as_it_is() {
    let body = format!(
        r#"{{"hits":{{"total":{{"value":1}},"hits":[{{"_id":"serde/1.0.0+a","_source":{}}}]}}}}"#,
        document("serde", "1.0.0+a").to_json()
    );
    let listed = list(&list_params(None, None), &body).unwrap();
    assert_eq!(listed.crates[0].id, "serde/1.0.0+a");
    assert_eq!(listed.crates[0].name, "serde");
    assert_eq!(listed.crates[0].version, "1.0.0+a");
    let found = search(&body).unwrap();
    assert_eq!(found.crates[0].name, "serde");
    assert_eq!(
        found.crates[0].description,
        Some("serde/1.0.0+a".to_string())
    );
    assert_eq!(found.crates[0].max_version, "1.0.0+a");
}

#[test]
fn quotes_are_stripped_wherever_they_stand() {
    assert_eq!(strip_quotes("\"serde\""), "serde");
    assert_eq!(strip_quotes("\"a\\\"b\""), "a\\b");
    assert_eq!(strip_quotes("null"), "null");
    assert_eq!(strip_quotes("\"\""), "");
    assert_eq!(strip_quotes("é\"ü"), "éü");
}

#[test]
fn a_reply_is_read_as_json_texts() {
    let reply = read_reply(BODY).unwrap();
    assert_eq!(reply.total, Some(12));
    let hits = reply.hits.unwrap();
    assert_eq!(hits.len(), 3);
    assert_eq!(hits[0].id, "\"serde/1.0.0\"");
    assert_eq!(hits[0].name, "\"serde\"");
    assert_eq!(hits[0].vers, "\"1.0.0\"");
    assert_eq!(hits[1].name, "\"a\\\"b\\\\c\"");
    assert_eq!(hits[1].vers, "7");
    assert_eq!(hits[2].id, "null");
    assert_eq!(hits[2].name, "null");
}

#[test]
fn crates_are_listed_without_quotes() {
    let hits = vec![hit("\"x\"", "\"serde\"", "\"1.0.0\"")];
    let page = list_page(&list_params(Some(2), None), None, &hits);
    assert_eq!(page.crates.len(), 1);
    assert_eq!(page.crates[0].id, "serde/1.0.0");
    assert_eq!(page.crates[0].name, "serde");
    assert_eq!(page.crates[0].version, "1.0.0");
    assert_eq!(page.meta.total, 0);
    assert_eq!(page.meta.current_page, 2);
    assert_eq!(page.meta.per_page, 10);
}

#[test]
fn crates_found_are_described_by_their_document() {
    let hits = vec![hit("\"serde/1.0.0\"", "\"serde\"", "\"1.0.0\"")];
    let found = search_page(9, &hits);
    assert_eq!(found.meta.total, 9);
    assert_eq!(found.crates.len(), 1);
    assert_eq!(found.crates[0].name, "serde");
    assert_eq!(
        found.crates[0].description,
        Some("serde/1.0.0".to_string())
    );
    assert_eq!(found.crates[0].max_version, "1.0.0");
}

#[test]
fn a_reply_is_listed() {
    let page = list(&list_params(None, Some(3)), BODY).unwrap();
    assert_eq!(page.meta.total, 12);
    assert_eq!(page.meta.current_page, 1);
    assert_eq!(page.meta.per_page, 3);
    let ids: Vec<&str> = page.crates.iter().map(|item| item.id.as_str()).collect();
    assert_eq!(ids, ["serde/1.0.0", "a\\b\\\\c/7", "null/null"]);
}

#[test]
fn a_list_without_a_total_has_none() {
    let page = list(&list_params(None, None), r#"{"hits":{"hits":[]}}"#).unwrap();
    assert_eq!(page.meta.total, 0);
    assert!(page.crates.is_empty());
    let negative = r#"{"hits":{"total":{"value":-1},"hits":[]}}"#;
    assert_eq!(list(&list_params(None, None), negative).unwrap().meta.total, 0);
}

#[test]
fn a_reply_is_searched() {
    let found = search(BODY).unwrap();
    assert_eq!(found.meta.total, 12);
    assert_eq!(found.crates[0].name, "serde");
    assert_eq!(
        found.crates[0].description,
        Some("serde/1.0.0".to_string())
    );
    assert_eq!(found.crates[2].description, Some("null".to_string()));
}

#[test]
fn a_reply_that_cannot_be_read_is_refused() {
    let params = list_params(None, None);
    assert_eq!(list(&params, "{").unwrap_err(), ReplyError::Unparsable);
    assert_eq!(list(&params, "{}").unwrap_err(), ReplyError::NoHits);
    assert_eq!(
        list(&params, r#"{"hits":{"hits":{}}}"#).unwrap_err(),
        ReplyError::NoHits
    );
    assert_eq!(search("").unwrap_err(), ReplyError::Unparsable);
    assert_eq!(search("[]").unwrap_err(), ReplyError::NoTotal);
    assert_eq!(
        search(r#"{"hits":{"hits":[]}}"#).unwrap_err(),
        ReplyError::NoTotal
    );
    assert_eq!(
        search(r#"{"hits":{"total":{"value":1}}}"#).unwrap_err(),
        ReplyError::NoHits
    );
}
