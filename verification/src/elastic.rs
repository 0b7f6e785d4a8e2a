//! Setting up the search index.

use crate::json;
use crate::json::JsonTree;
use serde_json::Value;
use vstd::prelude::*;

verus! {

/// What is to be done about the search index.
#[derive(Clone, Copy, Debug, PartialEq, Eq, Structural)]
pub enum IndexSetup {
    /// Create it.
    Create,
    /// Say that it is there.
    ReportExisting,
    /// Say what the server answered.
    ReportAnswer,
}

/// What is to be done about the search index, where asking whether it is there
/// was answered with `status`.
pub fn index_setup(status: u16) -> (setup: IndexSetup)
    ensures
        setup == if status == 404 {
            IndexSetup::Create
        } else if status == 200 {
            IndexSetup::ReportExisting
        } else {
            IndexSetup::ReportAnswer
        },
{
    match status {
        404 => IndexSetup::Create,
        200 => IndexSetup::ReportExisting,
        _ => IndexSetup::ReportAnswer,
    }
}

/// How a field of the type `kind` is described.
pub open spec fn field_tree(kind: Seq<char>) -> JsonTree {
    JsonTree::Object(map!["type"@ => JsonTree::Text(kind)])
}

/// How the fields of a dependency are described.
pub open spec fn dependency_fields() -> Map<Seq<char>, JsonTree> {
    map![
        "optional"@ => field_tree("boolean"@),
        "default_features"@ => field_tree("boolean"@),
        "name"@ => field_tree("text"@),
        "feature"@ => field_tree("nested"@),
        "req"@ => field_tree("text"@),
        "target"@ => field_tree("text"@),
        "kind"@ => field_tree("text"@),
    ]
}

/// How the fields of a document are described.
pub open spec fn document_fields() -> Map<Seq<char>, JsonTree> {
    map![
        "name"@ => field_tree("text"@),
        "vers"@ => field_tree("text"@),
        "deps"@ => JsonTree::Object(map!["properties"@ => JsonTree::Object(dependency_fields())]),
        "cksum"@ => field_tree("keyword"@),
        "features"@ => field_tree("object"@),
        "yanked"@ => field_tree("boolean"@),
        "links"@ => field_tree("keyword"@),
    ]
}

/// What the search index is created with.
pub open spec fn mappings_tree() -> JsonTree {
    JsonTree::Object(
        map!["mappings"@ => JsonTree::Object(
            map!["properties"@ => JsonTree::Object(document_fields())],
        )],
    )
}

/// `object` with a field of the type `kind`.
fn with_field(object: Value, name: &str, kind: &str) -> (extended: Value)
    requires
        json::json_of(object) is Object,
    ensures
        json::json_of(extended) == JsonTree::Object(
            json::json_of(object)->Object_0.insert(name@, field_tree(kind@)),
        ),
{
    let field = json::with_member(json::empty_object(), "type", json::from_text(kind));
    json::with_member(object, name, field)
}

/// What the search index is created with.
pub fn index_mappings() -> (mappings: Value)
    ensures
        json::json_of(mappings) == mappings_tree(),
{
    let dependency = with_field(json::empty_object(), "optional", "boolean");
    let dependency = with_field(dependency, "default_features", "boolean");
    let dependency = with_field(dependency, "name", "text");
    let dependency = with_field(dependency, "feature", "nested");
    let dependency = with_field(dependency, "req", "text");
    let dependency = with_field(dependency, "target", "text");
    let dependency = with_field(dependency, "kind", "text");
    let deps = json::with_member(json::empty_object(), "properties", dependency);
    let document = with_field(json::empty_object(), "name", "text");
    let document = with_field(document, "vers", "text");
    let document = json::with_member(document, "deps", deps);
    let document = with_field(document, "cksum", "keyword");
    let document = with_field(document, "features", "object");
    let document = with_field(document, "yanked", "boolean");
    let document = with_field(document, "links", "keyword");
    let properties = json::with_member(json::empty_object(), "properties", document);
    json::with_member(json::empty_object(), "mappings", properties)
}

} // verus!
