//! The state of the index synchronisation, as a repository manager reports it.

use crate::alike::Alike;
use crate::clock;
use crate::json;
use crate::json::JsonTree;
use serde_json::Value;
use vstd::prelude::*;

verus! {

/// A report on the index synchronisation.
#[derive(Debug)]
pub struct SyncStatus {
    pub id: String,
    pub name: String,
    /// What kind of task it is.
    pub kind: String,
    pub message: String,
    pub current_state: String,
    pub last_run_result: String,
    pub next_run: Option<String>,
    pub last_run: String,
}

/// The parts of a report.
pub struct StatusView {
    pub id: Seq<char>,
    pub name: Seq<char>,
    pub kind: Seq<char>,
    pub message: Seq<char>,
    pub current_state: Seq<char>,
    pub last_run_result: Seq<char>,
    pub next_run: Option<Seq<char>>,
    pub last_run: Seq<char>,
}

impl View for SyncStatus {
    type V = StatusView;

    open spec fn view(&self) -> StatusView {
        StatusView {
            id: self.id@,
            name: self.name@,
            kind: self.kind@,
            message: self.message@,
            current_state: self.current_state@,
            last_run_result: self.last_run_result@,
            next_run: self.next_run.model(),
            last_run: self.last_run@,
        }
    }
}

/// The JSON of a report.
pub open spec fn status_tree(status: StatusView) -> JsonTree {
    JsonTree::Object(
        map![
            "id"@ => JsonTree::Text(status.id),
            "name"@ => JsonTree::Text(status.name),
            "type"@ => JsonTree::Text(status.kind),
            "message"@ => JsonTree::Text(status.message),
            "currentState"@ => JsonTree::Text(status.current_state),
            "lastRunResult"@ => JsonTree::Text(status.last_run_result),
            "nextRun"@ => json::text_or_null(status.next_run),
            "lastRun"@ => JsonTree::Text(status.last_run),
        ],
    )
}

impl SyncStatus {
    /// The JSON of the report.
    pub fn to_json(&self) -> (value: Value)
        ensures
            json::json_of(value) == status_tree(self@),
    {
        let value = json::empty_object();
        let value = json::with_member(value, "id", json::from_text(self.id.as_str()));
        let value = json::with_member(value, "name", json::from_text(self.name.as_str()));
        let value = json::with_member(value, "type", json::from_text(self.kind.as_str()));
        let value = json::with_member(value, "message", json::from_text(self.message.as_str()));
        let value = json::with_member(
            value,
            "currentState",
            json::from_text(self.current_state.as_str()),
        );
        let value = json::with_member(
            value,
            "lastRunResult",
            json::from_text(self.last_run_result.as_str()),
        );
        let value = json::with_member(value, "nextRun", json::from_text_or_null(&self.next_run));
        json::with_member(value, "lastRun", json::from_text(self.last_run.as_str()))
    }
}

/// The report with the time `last_run`. All else in it is fixed.
pub open spec fn status_at(last_run: Seq<char>) -> StatusView {
    StatusView {
        id: "carte-index-sync"@,
        name: "Sync"@,
        kind: "script"@,
        message: "Execute script"@,
        current_state: "WAITING"@,
        last_run_result: "INTERRUPTED"@,
        next_run: None,
        last_run,
    }
}

/// The report with the time `last_run`.
pub fn sync_status_at(last_run: String) -> (status: SyncStatus)
    ensures
        status@ == status_at(last_run@),
{
    SyncStatus {
        id: "carte-index-sync".to_owned(),
        name: "Sync".to_owned(),
        kind: "script".to_owned(),
        message: "Execute script".to_owned(),
        current_state: "WAITING".to_owned(),
        last_run_result: "INTERRUPTED".to_owned(),
        next_run: None,
        last_run,
    }
}

/// The report with the time of the call.
pub fn sync_status() -> (status: SyncStatus)
    ensures
        clock::is_utc_timestamp(status@.last_run, false),
        status@ == status_at(status@.last_run),
{
    sync_status_at(clock::utc_now(false))
}

} // verus!
