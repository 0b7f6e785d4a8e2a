use bytes::Bytes;
use crates_io_cn::alike::Alike;
use crates_io_cn::crate_req::{crate_key, requests_in, CrateReq, NewCrateDependency};
use crates_io_cn::digest::md5_hash;
use crates_io_cn::krate::{
    already_stored, begin, enter, sync_answer, take_in, ActiveDownloads, Begin, Crate, CrateError,
    DownloadBuffer, HeadOutcome, HeaderText, Piece, ResponseHead, TeeStep,
};
use crates_io_cn::table::Table;
use crates_io_cn::transfer::{TransferAction, TransferEvent, TransferState};
use std::collections::hash_map::DefaultHasher;
use std::hash::{Hash, Hasher};

fn request(name: &str, version: &str) -> CrateReq {
    CrateReq {
        name: name.to_string(),
        version: version.to_string(),
        deps: None,
        features: None,
        cksum: None,
        yanked: None,
        links: None,
    }
}

fn dependency(name: &str) -> NewCrateDependency {
    NewCrateDependency {
        optional: false,
        default_features: true,
        name: name.to_string(),
        features: vec!["std".to_string()],
        req: "^1".to_string(),
        target: None,
        kind: "normal".to_string(),
        registry: None,
        explicit_name_in_toml: None,
    }
}

fn features(entries: &[(&str, &[&str])]) -> Table<String, Vec<String>> {
    let mut table = Table::new();
    for (key, values) in entries {
        table.insert(
            key.to_string(),
            values.iter().map(|value| value.to_string()).collect(),
        );
    }
    table
}

fn full_request() -> CrateReq {
    CrateReq {
        name: "serde".to_string(),
        version: "1.0.0".to_string(),
        deps: Some(vec![dependency("a"), dependency("b")]),
        features: Some(features(&[("default", &["std"]), ("std", &[])])),
        cksum: Some("00".to_string()),
        yanked: Some(false),
        links: Some("z".to_string()),
    }
}

fn text(value: &str) -> HeaderText {
    HeaderText::Text(value.to_string())
}

fn response(status: u16, content_length: Option<u64>, content_type: HeaderText) -> ResponseHead {
    ResponseHead {
        status,
        content_length,
        content_type,
    }
}

#[test]
fn key_and_address_are_made_of_name_and_version() {
    let req = request("serde", "1.0.0");
    assert_eq!(req.key(), "serde/1.0.0");
    assert_eq!(crate_key("serde", "1.0.0"), "serde/1.0.0");
    assert_eq!(
        req.download_uri(),
        "https://crates.io/api/v1/crates/serde/1.0.0/download"
    );
}

#[test]
fn keys_differ_where_names_have_no_slash() {
    assert!(crate_key("a", "1") != crate_key("a", "2"));
    assert!(crate_key("a", "1") != crate_key("b", "1"));
    assert_eq!(crate_key("a/b", "c"), crate_key("a", "b/c"));
}

#[test]
fn document_leaves_the_features_out() {
    let document = full_request().document();
    assert_eq!(document.name, "serde");
    assert_eq!(document.vers, "1.0.0");
    assert_eq!(document.deps.unwrap(), vec![dependency("a"), dependency("b")]);
    assert_eq!(document.cksum, Some("00".to_string()));
    assert_eq!(document.yanked, Some(false));
    assert_eq!(document.links, Some("z".to_string()));
}

#[test]
fn requests_are_equal_where_all_parts_are() {
    let req = full_request();
    assert!(req == full_request());
    assert!(req == req.clone());
    let mut other = full_request();
    other.yanked = Some(true);
    assert!(req != other);
    let mut other = full_request();
    other.yanked = None;
    assert!(req != other);
    let mut other = full_request();
    other.links = None;
    assert!(req != other);
    let mut other = full_request();
    other.cksum = Some("01".to_string());
    assert!(req != other);
    let mut other = full_request();
    other.deps = Some(vec![dependency("a")]);
    assert!(req != other);
    let mut other = full_request();
    other.deps = Some(vec![dependency("b"), dependency("a")]);
    assert!(req != other);
    let mut other = full_request();
    other.version = "1.0.1".to_string();
    assert!(req != other);
    assert!(request("a", "1") != request("b", "1"));
}

#[test]
fn features_are_compared_as_a_table() {
    let a = features(&[("default", &["std"]), ("std", &[])]);
    let b = features(&[("std", &[]), ("default", &["std"])]);
    assert!(a.alike(&b));
    assert!(a.alike(&a.duplicate()));
    assert!(!a.alike(&features(&[("default", &["std"])])));
    assert!(!features(&[("default", &["std"])]).alike(&a));
    assert!(!a.alike(&features(&[("default", &[]), ("std", &[])])));
    let replaced = features(&[("default", &[]), ("std", &[]), ("default", &["std"])]);
    assert!(a.alike(&replaced));
}

#[test]
fn dependencies_are_equal_where_all_parts_are() {
    let base = dependency("a");
    assert!(base == dependency("a"));
    assert!(base == base.clone());
    let hash = |dependency: &NewCrateDependency| {
        let mut hasher = DefaultHasher::new();
        dependency.hash(&mut hasher);
        hasher.finish()
    };
    assert_eq!(hash(&base), hash(&base.clone()));
    let mut other = dependency("a");
    other.optional = true;
    assert!(base != other);
    let mut other = dependency("a");
    other.default_features = false;
    assert!(base != other);
    let mut other = dependency("a");
    other.features = vec![];
    assert!(base != other);
    let mut other = dependency("a");
    other.req = "^2".to_string();
    assert!(base != other);
    let mut other = dependency("a");
    other.target = Some("unix".to_string());
    assert!(base != other);
    let mut other = dependency("a");
    other.kind = "dev".to_string();
    assert!(base != other);
    let mut other = dependency("a");
    other.registry = Some("r".to_string());
    assert!(base != other);
    let mut other = dependency("a");
    other.explicit_name_in_toml = Some("n".to_string());
    assert!(base != other);
}

#[test]
fn lines_that_are_no_requests_are_passed_over() {
    let lines = vec![
        Some(request("a", "3")),
        None,
        Some(request("a", "2")),
        None,
        Some(request("a", "1")),
    ];
    let versions: Vec<String> = requests_in(lines).into_iter().map(|r| r.version).collect();
    assert_eq!(versions, ["3", "2", "1"]);
    assert!(requests_in(vec![]).is_empty());
}

#[test]
fn a_table_holds_one_value_for_each_key() {
    let mut table: Table<String, u32> = Table::new();
    assert!(table.get(&"a".to_string()).is_none());
    table.insert("a".to_string(), 1);
    table.insert("b".to_string(), 2);
    table.insert("a".to_string(), 3);
    assert_eq!(table.get(&"a".to_string()), Some(&3));
    assert_eq!(table.get(&"b".to_string()), Some(&2));
    assert_eq!(table.remove(&"a".to_string()), Some(3));
    assert_eq!(table.remove(&"a".to_string()), None);
    assert_eq!(table.get(&"a".to_string()), None);
    assert_eq!(table.get(&"b".to_string()), Some(&2));
}

#[test]
fn a_crate_is_fetched_once_while_active() {
    let mut active: ActiveDownloads<u32> = Table::new();
    let req = request("serde", "1.0.0");
    match begin(&active, &req) {
        Begin::Fetch(uri) => assert_eq!(uri, req.download_uri()),
        Begin::Active(_) => panic!("nothing is active"),
    }
    active.insert(req.clone(), 7);
    assert!(matches!(begin(&active, &req), Begin::Active(7)));
    let other = request("serde", "1.0.1");
    assert!(matches!(begin(&active, &other), Begin::Fetch(_)));
    active.remove(&req);
    assert!(matches!(begin(&active, &req), Begin::Fetch(_)));
}

#[test]
fn a_download_that_failed_is_tried_again() {
    let mut active: ActiveDownloads<u32> = Table::new();
    let req = request("serde", "1.0.0");
    let other = request("serde", "1.0.1");
    let entered: Result<TransferState, CrateError> = enter(&mut active, &other, Ok(1));
    assert_eq!(entered, Ok(TransferState::Receiving));
    let entered = enter(&mut active, &req, Err(CrateError::FetchFail));
    assert_eq!(entered, Err(CrateError::FetchFail));
    assert!(matches!(begin(&active, &req), Begin::Fetch(_)));
    assert!(matches!(begin(&active, &other), Begin::Active(1)));
    let entered = enter(&mut active, &other, Err(CrateError::MissingField));
    assert_eq!(entered, Err(CrateError::MissingField));
    assert!(matches!(begin(&active, &other), Begin::Active(1)));
    let entered: Result<TransferState, CrateError> = enter(&mut active, &req, Ok(2));
    assert_eq!(entered, Ok(TransferState::Receiving));
    assert!(matches!(begin(&active, &req), Begin::Active(2)));
}

#[test]
fn a_crate_stays_active_until_the_index_answered() {
    let mut state = TransferState::Receiving;
    let actions = run(
        &mut state,
        &[
            TransferEvent::Ended,
            TransferEvent::Head { stored: false },
            TransferEvent::Put { ok: true },
        ],
    );
    assert!(!actions.contains(&TransferAction::Forget));
    assert_eq!(state, TransferState::Indexing);
}

#[test]
fn a_copy_of_a_crate_is_the_same() {
    let req = request("serde", "1.0.0");
    let krate = Crate::create(&req, response(200, Some(42), text("application/gzip"))).unwrap();
    let copy = krate.clone();
    assert_eq!(copy.name, krate.name);
    assert_eq!(copy.version, krate.version);
    assert_eq!(copy.content_type, krate.content_type);
    assert_eq!(copy.content_length, krate.content_length);
}

#[test]
fn a_crate_begins_with_what_the_source_announced() {
    let req = request("serde", "1.0.0");
    let krate = Crate::create(&req, response(200, Some(42), text("application/gzip"))).unwrap();
    assert_eq!(krate.name, "serde");
    assert_eq!(krate.version, "1.0.0");
    assert_eq!(krate.content_type, "application/gzip");
    assert_eq!(krate.content_length, 42);
}

#[test]
fn a_bad_answer_is_refused() {
    let req = request("serde", "1.0.0");
    assert_eq!(
        Crate::create(&req, response(404, None, HeaderText::Missing)).unwrap_err(),
        CrateError::FetchFail
    );
    assert_eq!(
        Crate::create(&req, response(201, Some(1), text("t"))).unwrap_err(),
        CrateError::FetchFail
    );
    assert_eq!(
        Crate::create(&req, response(200, None, HeaderText::Unreadable)).unwrap_err(),
        CrateError::MissingField
    );
    assert_eq!(
        Crate::create(&req, response(200, Some(1), HeaderText::Missing)).unwrap_err(),
        CrateError::MissingField
    );
    assert_eq!(
        Crate::create(&req, response(200, Some(1), HeaderText::Unreadable)).unwrap_err(),
        CrateError::UnreadableHeader
    );
}

#[test]
fn a_refused_crate_is_not_found() {
    let req = request("serde", "1.0.0");
    let refused = Crate::create(&req, response(403, Some(1), text("t")));
    let answer = sync_answer(refused.is_ok());
    assert_eq!(answer.status, 404);
    assert_eq!(answer.content_type, None);
    let given = Crate::create(&req, response(200, Some(1), text("t")));
    let answer = sync_answer(given.is_ok());
    assert_eq!(answer.status, 200);
    assert_eq!(answer.content_type, Some("application/x-tar".to_string()));
}

#[test]
fn a_buffer_keeps_all_that_was_received() {
    let mut buffer = DownloadBuffer::new(5);
    assert_eq!(buffer.len(), 0);
    assert_eq!(buffer.receive(b"hel"), 3);
    assert_eq!(buffer.receive(b""), 0);
    assert_eq!(buffer.receive(b"lo!"), 3);
    assert_eq!(buffer.len(), 6);
    assert_eq!(&buffer.content()[..], b"hello!");
    assert_eq!(buffer.len(), 6);
}

#[test]
fn chunks_make_up_the_content() {
    let req = request("serde", "1.0.0");
    let krate = Crate::create(&req, response(200, Some(6), text("t"))).unwrap();
    let mut tee = krate.tee();
    let mut buffer = DownloadBuffer::new(krate.content_length);
    let mut sent = Vec::new();
    for piece in [&b""[..], &b"ab"[..], &b"cde"[..], &b""[..]] {
        buffer.receive(piece);
        let chunk = tee.next_chunk(&buffer);
        assert_eq!(&chunk[..], piece);
        sent.extend_from_slice(&chunk);
        assert_eq!(tee.sent(), sent.len());
        assert_eq!(tee.after_send(true), TeeStep::AwaitMore);
        assert_eq!(tee.after_wait(true), TeeStep::SendMore);
    }
    buffer.receive(b"f");
    sent.extend_from_slice(&tee.next_chunk(&buffer));
    assert_eq!(tee.after_send(true), TeeStep::Stop);
    assert_eq!(sent, b"abcdef");
}

#[test]
fn a_tee_stops_where_nobody_listens_or_nothing_comes() {
    let req = request("serde", "1.0.0");
    let krate = Crate::create(&req, response(200, Some(6), text("t"))).unwrap();
    let mut tee = krate.tee();
    let buffer = DownloadBuffer::new(6);
    tee.next_chunk(&buffer);
    assert_eq!(tee.after_send(false), TeeStep::Stop);
    assert_eq!(tee.after_wait(false), TeeStep::AwaitClose);
}

#[test]
fn a_tee_passes_on_more_than_was_announced() {
    let req = request("serde", "1.0.0");
    let krate = Crate::create(&req, response(200, Some(1), text("t"))).unwrap();
    let mut tee = krate.tee();
    let mut buffer = DownloadBuffer::new(1);
    buffer.receive(b"ab");
    assert_eq!(&tee.next_chunk(&buffer)[..], b"ab");
    assert_eq!(tee.after_send(true), TeeStep::AwaitMore);
}

#[test]
fn stored_content_is_recognised_by_its_digest() {
    let outcome = |status: u16, content_md5: HeaderText| {
        Some(HeadOutcome {
            status,
            content_md5,
        })
    };
    let md5 = md5_hash(b"hello");
    assert!(already_stored(&outcome(200, text(&md5)), b"hello"));
    assert!(already_stored(&outcome(403, text(&md5)), b"hello"));
    assert!(!already_stored(&outcome(404, text(&md5)), b"hello"));
    assert!(!already_stored(&outcome(200, text(&md5)), b"hello!"));
    assert!(!already_stored(&outcome(200, HeaderText::Missing), b"hello"));
    assert!(!already_stored(&outcome(200, HeaderText::Unreadable), b"hello"));
    assert!(!already_stored(&None, b"hello"));
}

#[test]
fn missing_headers_have_placeholders() {
    assert_eq!(HeaderText::Missing.or_placeholder(), "null");
    assert_eq!(HeaderText::Unreadable.or_placeholder(), "invalid");
    assert_eq!(text("x").or_placeholder(), "x");
}

fn run(state: &mut TransferState, events: &[TransferEvent]) -> Vec<TransferAction> {
    events.iter().map(|event| state.step(*event)).collect()
}

#[test]
fn a_crate_is_stored_indexed_and_forgotten() {
    let mut state = TransferState::Receiving;
    let actions = run(
        &mut state,
        &[
            TransferEvent::Chunk,
            TransferEvent::Chunk,
            TransferEvent::Ended,
            TransferEvent::Head { stored: false },
            TransferEvent::Put { ok: false },
            TransferEvent::Put { ok: true },
            TransferEvent::Indexed,
        ],
    );
    assert_eq!(
        actions,
        [
            TransferAction::AwaitChunk,
            TransferAction::AwaitChunk,
            TransferAction::HeadObject,
            TransferAction::PutObject,
            TransferAction::PutObject,
            TransferAction::IndexDocument,
            TransferAction::Forget,
        ]
    );
    assert_eq!(state, TransferState::Done);
}

#[test]
fn a_crate_is_given_up_after_ten_refusals() {
    let mut state = TransferState::Checking;
    let mut action = state.step(TransferEvent::Head { stored: false });
    let mut puts = 0;
    while action == TransferAction::PutObject {
        puts += 1;
        action = state.step(TransferEvent::Put { ok: false });
    }
    assert_eq!(puts, 10);
    assert_eq!(action, TransferAction::Stop);
    assert_eq!(state, TransferState::Done);
}

#[test]
fn the_tenth_attempt_may_succeed() {
    let mut state = TransferState::Checking;
    state.step(TransferEvent::Head { stored: false });
    for _ in 0..9 {
        assert_eq!(
            state.step(TransferEvent::Put { ok: false }),
            TransferAction::PutObject
        );
    }
    assert_eq!(
        state.step(TransferEvent::Put { ok: true }),
        TransferAction::IndexDocument
    );
    assert_eq!(state.step(TransferEvent::Indexed), TransferAction::Forget);
}

#[test]
fn stored_content_is_left_alone() {
    let mut state = TransferState::Checking;
    assert_eq!(
        state.step(TransferEvent::Head { stored: true }),
        TransferAction::Stop
    );
    assert_eq!(
        state.step(TransferEvent::Put { ok: true }),
        TransferAction::Ignore
    );
    assert_eq!(state, TransferState::Done);
}

#[test]
fn a_broken_download_is_stored_as_far_as_it_came() {
    let mut state = TransferState::Receiving;
    assert_eq!(
        run(&mut state, &[TransferEvent::Chunk, TransferEvent::Broken]),
        [TransferAction::AwaitChunk, TransferAction::HeadObject]
    );
    assert_eq!(state, TransferState::Checking);
}

#[test]
fn events_that_do_not_belong_are_ignored() {
    let mut state = TransferState::Receiving;
    assert_eq!(state.step(TransferEvent::Indexed), TransferAction::Ignore);
    assert_eq!(state, TransferState::Receiving);
}

fn data(bytes: &[u8]) -> Piece {
    Piece::Data(Bytes::copy_from_slice(bytes))
}

#[test]
fn what_is_received_is_the_pieces_before_the_error() {
    let mut state = TransferState::Receiving;
    let mut buffer = DownloadBuffer::new(4);
    let mut taken = |piece: Piece| {
        let (action, signal) = take_in(&mut state, &mut buffer, piece);
        (action, signal, buffer.content())
    };
    let (action, signal, content) = taken(data(b"ab"));
    assert_eq!((action, signal), (TransferAction::AwaitChunk, Some(2)));
    assert_eq!(&content[..], b"ab");
    let (action, signal, content) = taken(data(b""));
    assert_eq!((action, signal), (TransferAction::AwaitChunk, Some(0)));
    assert_eq!(&content[..], b"ab");
    let (action, signal, content) = taken(data(b"cde"));
    assert_eq!((action, signal), (TransferAction::AwaitChunk, Some(3)));
    assert_eq!(&content[..], b"abcde");
    let (action, signal, content) = taken(Piece::Broken);
    assert_eq!((action, signal), (TransferAction::HeadObject, None));
    assert_eq!(&content[..], b"abcde");
    for late in [data(b"f"), Piece::Ended, Piece::Broken] {
        let (action, signal, content) = taken(late);
        assert_eq!((action, signal), (TransferAction::Ignore, None));
        assert_eq!(&content[..], b"abcde");
    }
    assert_eq!(state, TransferState::Checking);
}

#[test]
fn receiving_ends_with_the_crate() {
    let mut state = TransferState::Receiving;
    let mut buffer = DownloadBuffer::new(0);
    assert_eq!(
        take_in(&mut state, &mut buffer, Piece::Ended),
        (TransferAction::HeadObject, None)
    );
    assert_eq!(buffer.len(), 0);
    assert_eq!(state, TransferState::Checking);
}

#[test]
fn receiving_is_never_resumed() {
    let events = [
        TransferEvent::Chunk,
        TransferEvent::Broken,
        TransferEvent::Ended,
        TransferEvent::Head { stored: false },
        TransferEvent::Put { ok: false },
        TransferEvent::Put { ok: true },
        TransferEvent::Indexed,
    ];
    for ending in [TransferEvent::Broken, TransferEvent::Ended] {
        for first in events {
            for second in events {
                for third in events {
                    let mut state = TransferState::Receiving;
                    run(&mut state, &[ending, first, second, third]);
                    assert_ne!(state, TransferState::Receiving);
                }
            }
        }
    }
}

#[test]
fn a_tee_passes_on_what_was_received() {
    let req = request("serde", "1.0.0");
    let krate = Crate::create(&req, response(200, Some(9), text("t"))).unwrap();
    let mut tee = krate.tee();
    let mut state = TransferState::Receiving;
    let mut buffer = DownloadBuffer::new(9);
    let mut sent = Vec::new();
    for (i, piece) in [data(b"ab"), data(b"c"), data(b"de"), Piece::Broken, data(b"f")]
        .into_iter()
        .enumerate()
    {
        take_in(&mut state, &mut buffer, piece);
        if i % 2 == 0 {
            sent.extend_from_slice(&tee.next_chunk(&buffer));
        }
    }
    assert_eq!(sent, b"abcde");
}
