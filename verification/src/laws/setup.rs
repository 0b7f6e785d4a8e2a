//! Setting up the search index, following the crate index and reporting on it.

use crate::elastic;
use crate::elastic::IndexSetup;
use crate::json;
use crate::json::JsonTree;
use crate::schedule;
use crate::schedule::UpdatePause;
use crate::status;
use crate::status::SyncStatus;
use crate::text;
use serde_json::Value;
use std::cmp::Ordering;
use vstd::prelude::*;

verus! {

/// The search index is created exactly where it was not found, and said to be
/// there exactly where it was.
pub proof fn law_index_is_created_where_there_is_none(status: u16, setup: IndexSetup)
    requires
        call_ensures(elastic::index_setup, (status,), setup),
    ensures
        setup == IndexSetup::Create <==> status == 404,
        setup == IndexSetup::ReportExisting <==> status == 200,
        setup == IndexSetup::ReportAnswer <==> status != 404 && status != 200,
{
}

/// Whether a JSON value describes a field of the type `kind`, and says nothing
/// else of it.
pub open spec fn is_field(tree: JsonTree, kind: Seq<char>) -> bool {
    &&& tree is Object
    &&& tree->Object_0.dom() == set!["type"@]
    &&& tree->Object_0["type"@] == JsonTree::Text(kind)
}

/// The members of an object that is the only member of another, under the name
/// `key`.
pub open spec fn sole_member(tree: JsonTree, key: Seq<char>) -> Map<Seq<char>, JsonTree>
    recommends
        is_sole_member(tree, key),
{
    tree->Object_0[key]->Object_0
}

/// Whether `tree` is an object with one member, an object under the name `key`.
pub open spec fn is_sole_member(tree: JsonTree, key: Seq<char>) -> bool {
    &&& tree is Object
    &&& tree->Object_0.dom() == set![key]
    &&& tree->Object_0[key] is Object
}

/// Every part of a document is described to the search index: names, versions
/// and the texts of dependencies as texts, checksums and links as keywords,
/// truth values as such.
pub proof fn law_document_fields_are_described(mappings: Value)
    requires
        call_ensures(elastic::index_mappings, (), mappings),
    ensures
        ({
            let tree = json::json_of(mappings);
            let inner = JsonTree::Object(sole_member(tree, "mappings"@));
            let fields = sole_member(inner, "properties"@);
            let deps = sole_member(fields["deps"@], "properties"@);
            &&& is_sole_member(tree, "mappings"@)
            &&& is_sole_member(inner, "properties"@)
            &&& fields.dom() == set![
                "name"@,
                "vers"@,
                "deps"@,
                "cksum"@,
                "features"@,
                "yanked"@,
                "links"@,
            ]
            &&& is_field(fields["name"@], "text"@)
            &&& is_field(fields["vers"@], "text"@)
            &&& is_field(fields["cksum"@], "keyword"@)
            &&& is_field(fields["features"@], "object"@)
            &&& is_field(fields["yanked"@], "boolean"@)
            &&& is_field(fields["links"@], "keyword"@)
            &&& is_sole_member(fields["deps"@], "properties"@)
            &&& deps.dom() == set![
                "optional"@,
                "default_features"@,
                "name"@,
                "feature"@,
                "req"@,
                "target"@,
                "kind"@,
            ]
            &&& is_field(deps["optional"@], "boolean"@)
            &&& is_field(deps["default_features"@], "boolean"@)
            &&& is_field(deps["name"@], "text"@)
            &&& is_field(deps["feature"@], "nested"@)
            &&& is_field(deps["req"@], "text"@)
            &&& is_field(deps["target"@], "text"@)
            &&& is_field(deps["kind"@], "text"@)
        }),
{
    reveal_strlit("name");
    reveal_strlit("vers");
    reveal_strlit("deps");
    reveal_strlit("cksum");
    reveal_strlit("features");
    reveal_strlit("yanked");
    reveal_strlit("links");
    reveal_strlit("optional");
    reveal_strlit("default_features");
    reveal_strlit("feature");
    reveal_strlit("req");
    reveal_strlit("target");
    reveal_strlit("kind");
    assert("name"@[0] == 'n' && "vers"@[0] == 'v' && "deps"@[0] == 'd' && "kind"@[0] == 'k');
    assert("cksum"@[0] == 'c' && "links"@[0] == 'l');
    assert("features"@[0] == 'f' && "optional"@[0] == 'o');
    assert("yanked"@[0] == 'y' && "target"@[0] == 't');
    assert("default_features"@.len() == 16);
    assert("optional"@.len() == 8);
    assert("features"@.len() == 8);
    assert("feature"@.len() == 7);
    assert("req"@.len() == 3);
    assert("target"@.len() == 6);
    assert("yanked"@.len() == 6);
    assert("kind"@.len() == 4);
    assert("name"@.len() == 4);
    assert("vers"@.len() == 4);
    assert("deps"@.len() == 4);
    assert("cksum"@.len() == 5);
    assert("links"@.len() == 5);
    let tree = json::json_of(mappings);
    let fields = elastic::document_fields();
    let deps = elastic::dependency_fields();
    assert(tree->Object_0.dom() =~= set!["mappings"@]);
    let inner = JsonTree::Object(sole_member(tree, "mappings"@));
    assert(inner->Object_0.dom() =~= set!["properties"@]);
    assert(sole_member(inner, "properties"@) == fields);
    assert(fields["deps"@]->Object_0.dom() =~= set!["properties"@]);
    assert(sole_member(fields["deps"@], "properties"@) == deps);
    assert(fields.dom() =~= set![
        "name"@,
        "vers"@,
        "deps"@,
        "cksum"@,
        "features"@,
        "yanked"@,
        "links"@,
    ]);
    assert(deps.dom() =~= set![
        "optional"@,
        "default_features"@,
        "name"@,
        "feature"@,
        "req"@,
        "target"@,
        "kind"@,
    ]);
    lemma_field("text"@);
    lemma_field("keyword"@);
    lemma_field("object"@);
    lemma_field("boolean"@);
    lemma_field("nested"@);
}

proof fn lemma_field(kind: Seq<char>)
    ensures
        is_field(elastic::field_tree(kind), kind),
{
    assert(elastic::field_tree(kind)->Object_0.dom() =~= set!["type"@]);
}

/// An update that succeeded is followed by the next five minutes after it
/// began, one that failed by the next ten seconds later.
pub proof fn law_failed_update_is_repeated_sooner(
    succeeded: bool,
    pause: UpdatePause,
    after_success: UpdatePause,
    after_failure: UpdatePause,
)
    requires
        call_ensures(schedule::pause_after_update, (succeeded,), pause),
        call_ensures(schedule::pause_after_update, (true,), after_success),
        call_ensures(schedule::pause_after_update, (false,), after_failure),
    ensures
        pause is SinceBegin <==> succeeded,
        pause is For <==> !succeeded,
        after_success->SinceBegin_0 == 5 * 60,
        after_failure->For_0 == 10,
{
}

/// Whether a file stands before another is turned round with the two files, and
/// the one that was modified later stands first.
pub proof fn law_later_file_comes_first(
    modified: i128,
    other: i128,
    order: Ordering,
    turned_round: Ordering,
)
    requires
        call_ensures(schedule::newest_first, (modified, other), order),
        call_ensures(schedule::newest_first, (other, modified), turned_round),
    ensures
        order is Less <==> modified > other,
        order is Equal <==> modified == other,
        order is Less <==> turned_round is Greater,
        order is Equal <==> turned_round is Equal,
{
}

/// Nothing waits exactly where both ends of the channel are empty.
pub proof fn law_nothing_waits_in_an_empty_channel(
    receiver_empty: bool,
    sender_empty: bool,
    waiting: bool,
)
    requires
        call_ensures(schedule::crates_waiting, (receiver_empty, sender_empty), waiting),
    ensures
        receiver_empty && sender_empty ==> !waiting,
        !receiver_empty ==> waiting,
        !sender_empty ==> waiting,
{
}

/// Below the directory at which the walk begins, a file is looked at exactly
/// where its name is text and has no dot in front; at that directory, whatever
/// its name begins with.
pub proof fn law_dot_files_are_hidden(file_name: Option<&str>, depth: usize, visible: bool)
    requires
        call_ensures(text::is_not_hidden, (file_name, depth), visible),
    ensures
        file_name is None ==> !visible,
        file_name is Some && depth == 0 ==> visible,
        file_name is Some && depth > 0 ==> (visible <==> file_name->Some_0@.len() == 0
            || file_name->Some_0@[0] != '.'),
{
}

/// Whether the members of an object are those of a report of the given time:
/// all but the time is fixed.
pub open spec fn is_report(members: Map<Seq<char>, JsonTree>, last_run: Seq<char>) -> bool {
    &&& members.contains_pair("id"@, JsonTree::Text("carte-index-sync"@))
    &&& members.contains_pair("name"@, JsonTree::Text("Sync"@))
    &&& members.contains_pair("type"@, JsonTree::Text("script"@))
    &&& members.contains_pair("message"@, JsonTree::Text("Execute script"@))
    &&& members.contains_pair("currentState"@, JsonTree::Text("WAITING"@))
    &&& members.contains_pair("lastRunResult"@, JsonTree::Text("INTERRUPTED"@))
    &&& members.contains_pair("nextRun"@, JsonTree::Null)
    &&& members.contains_pair("lastRun"@, JsonTree::Text(last_run))
    &&& members.dom() == set![
        "id"@,
        "name"@,
        "type"@,
        "message"@,
        "currentState"@,
        "lastRunResult"@,
        "nextRun"@,
        "lastRun"@,
    ]
}

/// A report says when the last run was, and is the same in all else.
pub proof fn law_report_says_when(last_run: String, report: &SyncStatus, value: Value)
    requires
        call_ensures(status::sync_status_at, (last_run,), *report),
        call_ensures(SyncStatus::to_json, (report,), value),
    ensures
        json::json_of(value) is Object,
        is_report(json::json_of(value)->Object_0, last_run@),
{
    lemma_report(last_run@);
}

/// A report made now is one of a point in time in UTC.
pub proof fn law_report_made_now(report: &SyncStatus, value: Value)
    requires
        call_ensures(status::sync_status, (), *report),
        call_ensures(SyncStatus::to_json, (report,), value),
    ensures
        json::json_of(value) is Object,
        is_report(json::json_of(value)->Object_0, report.last_run@),
        crate::clock::is_utc_timestamp(report.last_run@, false),
{
    lemma_report(report@.last_run);
}

proof fn lemma_report(last_run: Seq<char>)
    ensures
        is_report(status::status_tree(status::status_at(last_run))->Object_0, last_run),
{
    reveal_strlit("id");
    reveal_strlit("name");
    reveal_strlit("type");
    reveal_strlit("message");
    reveal_strlit("currentState");
    reveal_strlit("lastRunResult");
    reveal_strlit("nextRun");
    reveal_strlit("lastRun");
    assert("name"@[0] == 'n' && "type"@[0] == 't');
    assert("message"@[0] == 'm' && "nextRun"@[0] == 'n' && "lastRun"@[0] == 'l');
    assert("id"@.len() == 2);
    assert("name"@.len() == 4);
    assert("type"@.len() == 4);
    assert("message"@.len() == 7);
    assert("currentState"@.len() == 12);
    assert("lastRunResult"@.len() == 13);
    assert("nextRun"@.len() == 7);
    assert("lastRun"@.len() == 7);
    let members = status::status_tree(status::status_at(last_run))->Object_0;
    assert(members.dom() =~= set![
        "id"@,
        "name"@,
        "type"@,
        "message"@,
        "currentState"@,
        "lastRunResult"@,
        "nextRun"@,
        "lastRun"@,
    ]);
}

} // verus!
