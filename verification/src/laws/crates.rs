//! Requests for crates, and the documents in the search index.

use crate::alike::Alike;
use crate::crate_req;
use crate::crate_req::{CrateDocument, CrateReq, NewCrateDependency};
use crate::json;
use crate::json::JsonTree;
use crate::table::Table;
use serde_json::Value;
use vstd::prelude::*;

verus! {

/// A key is the name, a slash and the version: both can be cut out of it.
pub proof fn law_key_is_name_and_version(name: &str, version: &str, key: String)
    requires
        call_ensures(crate_req::crate_key, (name, version), key),
    ensures
        key@.len() == name@.len() + 1 + version@.len(),
        key@.take(name@.len() as int) == name@,
        key@[name@.len() as int] == '/',
        key@.skip(name@.len() as int + 1) == version@,
{
    reveal_strlit("/");
    assert(key@.take(name@.len() as int) =~= name@);
    assert(key@.skip(name@.len() as int + 1) =~= version@);
}

/// A crate is stored and indexed under the key of its name and its version, and
/// fetched from the address that holds that very key.
pub proof fn law_crate_is_fetched_by_its_key(
    krate_req: &CrateReq,
    key: String,
    uri: String,
    made: String,
    name: &str,
    version: &str,
)
    requires
        call_ensures(CrateReq::key, (krate_req,), key),
        call_ensures(CrateReq::download_uri, (krate_req,), uri),
        name@ == krate_req.name@,
        version@ == krate_req.version@,
        call_ensures(crate_req::crate_key, (name, version), made),
    ensures
        key@ == made@,
        key@.take(krate_req.name@.len() as int) == krate_req.name@,
        key@[krate_req.name@.len() as int] == '/',
        key@.skip(krate_req.name@.len() as int + 1) == krate_req.version@,
        uri@ == "https://crates.io/api/v1/crates/"@ + key@ + "/download"@,
{
    law_key_is_name_and_version(name, version, made);
    assert(uri@ =~= "https://crates.io/api/v1/crates/"@ + key@ + "/download"@);
}

/// Whether two texts that may be missing are both missing or the same.
pub open spec fn same_text(a: Option<String>, b: Option<String>) -> bool {
    &&& a is Some <==> b is Some
    &&& a is Some ==> a->Some_0@ == b->Some_0@
}

/// Whether two lists of texts are the same.
pub open spec fn same_texts(a: Vec<String>, b: Vec<String>) -> bool {
    &&& a@.len() == b@.len()
    &&& forall|i: int| 0 <= i < a@.len() ==> (#[trigger] a@[i])@ == b@[i]@
}

/// Whether two dependencies are the same in every part.
pub open spec fn same_dependency(a: NewCrateDependency, b: NewCrateDependency) -> bool {
    &&& a.optional == b.optional
    &&& a.default_features == b.default_features
    &&& a.name@ == b.name@
    &&& same_texts(a.features, b.features)
    &&& a.req@ == b.req@
    &&& same_text(a.target, b.target)
    &&& a.kind@ == b.kind@
    &&& same_text(a.registry, b.registry)
    &&& same_text(a.explicit_name_in_toml, b.explicit_name_in_toml)
}

/// Whether two lists of dependencies are both missing or the same.
pub open spec fn same_dependencies(
    a: Option<Vec<NewCrateDependency>>,
    b: Option<Vec<NewCrateDependency>>,
) -> bool {
    &&& a is Some <==> b is Some
    &&& a is Some ==> {
        &&& a->Some_0@.len() == b->Some_0@.len()
        &&& forall|i: int|
            0 <= i < a->Some_0@.len() ==> same_dependency(
                #[trigger] a->Some_0@[i],
                b->Some_0@[i],
            )
    }
}

/// Whether two tables of features are both missing or the same, entry by entry.
pub open spec fn same_features(
    a: Option<Table<String, Vec<String>>>,
    b: Option<Table<String, Vec<String>>>,
) -> bool {
    &&& a is Some <==> b is Some
    &&& a is Some ==> {
        &&& a->Some_0@.dom() == b->Some_0@.dom()
        &&& forall|name: Seq<char>| #[trigger]
            a->Some_0@.dom().contains(name) ==> same_texts(a->Some_0@[name], b->Some_0@[name])
    }
}

/// Whether two requests are the same in every part.
pub open spec fn same_request(a: CrateReq, b: CrateReq) -> bool {
    &&& a.name@ == b.name@
    &&& a.version@ == b.version@
    &&& same_dependencies(a.deps, b.deps)
    &&& same_features(a.features, b.features)
    &&& same_text(a.cksum, b.cksum)
    &&& a.yanked == b.yanked
    &&& same_text(a.links, b.links)
}

proof fn lemma_same_texts(a: Vec<String>, b: Vec<String>)
    ensures
        a.model() == b.model() <==> same_texts(a, b),
{
    if a.model() == b.model() {
        assert(a@.len() == a.model().len() && b@.len() == b.model().len());
        assert forall|i: int| 0 <= i < a@.len() implies (#[trigger] a@[i])@ == b@[i]@ by {
            assert(a.model()[i] == b.model()[i]);
        }
    }
    if same_texts(a, b) {
        assert(a.model() =~= b.model());
    }
}

proof fn lemma_same_dependency(a: NewCrateDependency, b: NewCrateDependency)
    ensures
        a.model() == b.model() <==> same_dependency(a, b),
{
    lemma_same_texts(a.features, b.features);
}

proof fn lemma_same_dependencies(
    a: Option<Vec<NewCrateDependency>>,
    b: Option<Vec<NewCrateDependency>>,
)
    ensures
        a.model() == b.model() <==> same_dependencies(a, b),
{
    if a is Some && b is Some {
        let x = a->Some_0;
        let y = b->Some_0;
        assert forall|i: int| 0 <= i < x@.len() && i < y@.len() implies ((
        #[trigger] x@[i]).model() == y@[i].model() <==> same_dependency(x@[i], y@[i])) by {
            lemma_same_dependency(x@[i], y@[i]);
        }
        if a.model() == b.model() {
            assert(x.model() == y.model());
            assert(x@.len() == x.model().len() && y@.len() == y.model().len());
            assert forall|i: int| 0 <= i < x@.len() implies same_dependency(
                #[trigger] x@[i],
                y@[i],
            ) by {
                assert(x.model()[i] == y.model()[i]);
                lemma_same_dependency(x@[i], y@[i]);
            }
        }
        if same_dependencies(a, b) {
            assert forall|i: int| 0 <= i < x@.len() implies #[trigger] x.model()[i]
                == y.model()[i] by {
                assert(same_dependency(x@[i], y@[i]));
            }
            assert(x.model() =~= y.model());
        }
    }
}

proof fn lemma_same_features(
    a: Option<Table<String, Vec<String>>>,
    b: Option<Table<String, Vec<String>>>,
)
    ensures
        a.model() == b.model() <==> same_features(a, b),
{
    if a is Some && b is Some {
        let x = a->Some_0;
        let y = b->Some_0;
        if a.model() == b.model() {
            assert(x.model() == y.model());
            assert(x@.dom() =~= x.model().dom());
            assert(y@.dom() =~= y.model().dom());
            assert forall|name: Seq<char>| #[trigger] x@.dom().contains(name) implies same_texts(
                x@[name],
                y@[name],
            ) by {
                assert(x.model()[name] == y.model()[name]);
                lemma_same_texts(x@[name], y@[name]);
            }
        }
        if same_features(a, b) {
            assert forall|name: Seq<char>| #[trigger] x@.dom().contains(name) implies x@[name].model()
                == y@[name].model() by {
                lemma_same_texts(x@[name], y@[name]);
            }
            assert(x.model() =~= y.model());
        }
    }
}

/// Requests are taken for the same exactly where they are the same in every
/// part: the name, the version, the dependencies, the features, the checksum,
/// whether they are yanked, and what they link to.
pub proof fn law_requests_are_compared_in_every_part(a: CrateReq, b: CrateReq)
    ensures
        a.model() == b.model() <==> same_request(a, b),
{
    lemma_same_dependencies(a.deps, b.deps);
    lemma_same_features(a.features, b.features);
}

/// Dependencies are taken for the same exactly where they are the same in every
/// part.
pub proof fn law_dependencies_are_compared_in_every_part(
    a: NewCrateDependency,
    b: NewCrateDependency,
)
    ensures
        a.model() == b.model() <==> same_dependency(a, b),
{
    lemma_same_dependency(a, b);
}

/// Comparing two requests says exactly whether they are the same in every part,
/// and a copy of a request is.
pub proof fn law_requests_are_compared_and_copied(
    a: &CrateReq,
    b: &CrateReq,
    same: bool,
    equal: bool,
    copy: CrateReq,
    cloned: CrateReq,
)
    requires
        call_ensures(CrateReq::alike, (a, b), same),
        call_ensures(CrateReq::eq, (a, b), equal),
        call_ensures(CrateReq::duplicate, (a,), copy),
        call_ensures(CrateReq::clone, (a,), cloned),
    ensures
        same <==> same_request(*a, *b),
        equal <==> same_request(*a, *b),
        same_request(copy, *a),
        same_request(cloned, *a),
{
    law_requests_are_compared_in_every_part(*a, *b);
    law_requests_are_compared_in_every_part(copy, *a);
    law_requests_are_compared_in_every_part(cloned, *a);
}

/// Comparing two dependencies says exactly whether they are the same in every
/// part, and a copy of a dependency is.
pub proof fn law_dependencies_are_compared_and_copied(
    a: &NewCrateDependency,
    b: &NewCrateDependency,
    same: bool,
    equal: bool,
    copy: NewCrateDependency,
    cloned: NewCrateDependency,
)
    requires
        call_ensures(NewCrateDependency::alike, (a, b), same),
        call_ensures(NewCrateDependency::eq, (a, b), equal),
        call_ensures(NewCrateDependency::duplicate, (a,), copy),
        call_ensures(NewCrateDependency::clone, (a,), cloned),
    ensures
        same <==> same_dependency(*a, *b),
        equal <==> same_dependency(*a, *b),
        same_dependency(copy, *a),
        same_dependency(cloned, *a),
{
    lemma_same_dependency(*a, *b);
    lemma_same_dependency(copy, *a);
    lemma_same_dependency(cloned, *a);
}

/// Whether a member of a JSON value is a text that may be missing, and null
/// where it is.
pub open spec fn is_text_or_null(tree: JsonTree, text: Option<String>) -> bool {
    match tree {
        JsonTree::Text(held) => text is Some && text->Some_0@ == held,
        JsonTree::Null => text is None,
        _ => false,
    }
}

/// Whether a JSON value is the list of the given texts.
pub open spec fn is_list_of(tree: JsonTree, items: Vec<String>) -> bool {
    match tree {
        JsonTree::Array(held) => held.len() == items@.len() && forall|i: int|
            0 <= i < held.len() ==> #[trigger] held[i] == JsonTree::Text(items@[i]@),
        _ => false,
    }
}

/// Whether the members of an object say of a dependency what it holds: each of
/// its parts under its name, a missing target as null, and a missing registry
/// or other name not at all.
pub open spec fn describes_dependency(
    members: Map<Seq<char>, JsonTree>,
    dependency: NewCrateDependency,
) -> bool {
    &&& members.contains_pair("optional"@, JsonTree::Bool(dependency.optional))
    &&& members.contains_pair("default_features"@, JsonTree::Bool(dependency.default_features))
    &&& members.contains_pair("name"@, JsonTree::Text(dependency.name@))
    &&& members.contains_pair("req"@, JsonTree::Text(dependency.req@))
    &&& members.contains_pair("kind"@, JsonTree::Text(dependency.kind@))
    &&& members.contains_key("features"@) && is_list_of(
        members["features"@],
        dependency.features,
    )
    &&& members.contains_key("target"@) && is_text_or_null(
        members["target"@],
        dependency.target,
    )
    &&& members.contains_key("registry"@) <==> dependency.registry is Some
    &&& dependency.registry is Some ==> members["registry"@] == JsonTree::Text(
        dependency.registry->Some_0@,
    )
    &&& members.contains_key("explicit_name_in_toml"@) <==> dependency.explicit_name_in_toml is Some
    &&& dependency.explicit_name_in_toml is Some ==> members["explicit_name_in_toml"@]
        == JsonTree::Text(dependency.explicit_name_in_toml->Some_0@)
    &&& members.dom().subset_of(
        set![
            "optional"@,
            "default_features"@,
            "name"@,
            "features"@,
            "req"@,
            "target"@,
            "kind"@,
            "registry"@,
            "explicit_name_in_toml"@,
        ],
    )
}

/// The names of a dependency's parts are all different.
proof fn lemma_dependency_names()
    ensures
        "optional"@.len() == 8 && "optional"@[0] == 'o',
        "default_features"@.len() == 16,
        "name"@.len() == 4 && "name"@[0] == 'n',
        "features"@.len() == 8 && "features"@[0] == 'f',
        "req"@.len() == 3,
        "target"@.len() == 6,
        "kind"@.len() == 4 && "kind"@[0] == 'k',
        "registry"@.len() == 8 && "registry"@[0] == 'r',
        "explicit_name_in_toml"@.len() == 21,
{
    reveal_strlit("optional");
    reveal_strlit("default_features");
    reveal_strlit("name");
    reveal_strlit("features");
    reveal_strlit("req");
    reveal_strlit("target");
    reveal_strlit("kind");
    reveal_strlit("registry");
    reveal_strlit("explicit_name_in_toml");
}

proof fn lemma_dependency_described(dependency: NewCrateDependency)
    ensures
        crate_req::dependency_tree(dependency.model()) is Object,
        describes_dependency(
            crate_req::dependency_tree(dependency.model())->Object_0,
            dependency,
        ),
{
    lemma_dependency_names();
    let members = crate_req::dependency_tree(dependency.model())->Object_0;
    assert(is_list_of(members["features"@], dependency.features)) by {
        let items = dependency.features;
        let held = members["features"@];
        assert(held == json::texts(items.model()));
        assert(items.model().len() == items@.len());
        assert forall|i: int| 0 <= i < items@.len() implies #[trigger] held->Array_0[i]
            == JsonTree::Text(items@[i]@) by {
            assert(items.model()[i] == items@[i]@);
        }
    }
}

/// Whether the members of an object say of a document what it holds: each of
/// its parts under its name, and nothing else. What is missing is null.
pub open spec fn describes_document(
    members: Map<Seq<char>, JsonTree>,
    document: CrateDocument,
) -> bool {
    &&& members.contains_pair("name"@, JsonTree::Text(document.name@))
    &&& members.contains_pair("vers"@, JsonTree::Text(document.vers@))
    &&& members.contains_key("cksum"@) && is_text_or_null(members["cksum"@], document.cksum)
    &&& members.contains_key("links"@) && is_text_or_null(members["links"@], document.links)
    &&& members.contains_key("yanked"@) && match members["yanked"@] {
        JsonTree::Bool(yanked) => document.yanked == Some(yanked),
        JsonTree::Null => document.yanked is None,
        _ => false,
    }
    &&& members.contains_key("deps"@) && match members["deps"@] {
        JsonTree::Array(items) => {
            &&& document.deps is Some
            &&& items.len() == document.deps->Some_0@.len()
            &&& forall|i: int|
                0 <= i < items.len() ==> (#[trigger] items[i]) is Object && describes_dependency(
                    items[i]->Object_0,
                    document.deps->Some_0@[i],
                )
        },
        JsonTree::Null => document.deps is None,
        _ => false,
    }
    &&& members.dom() == set!["name"@, "vers"@, "cksum"@, "links"@, "yanked"@, "deps"@]
}

proof fn lemma_document_names()
    ensures
        "name"@.len() == 4 && "name"@[0] == 'n',
        "vers"@.len() == 4 && "vers"@[0] == 'v',
        "deps"@.len() == 4 && "deps"@[0] == 'd',
        "cksum"@.len() == 5 && "cksum"@[0] == 'c',
        "yanked"@.len() == 6,
        "links"@.len() == 5 && "links"@[0] == 'l',
{
    reveal_strlit("name");
    reveal_strlit("vers");
    reveal_strlit("deps");
    reveal_strlit("cksum");
    reveal_strlit("yanked");
    reveal_strlit("links");
}

proof fn lemma_document_described(document: CrateDocument)
    ensures
        crate_req::document_tree(document@) is Object,
        describes_document(crate_req::document_tree(document@)->Object_0, document),
{
    lemma_document_names();
    let members = crate_req::document_tree(document@)->Object_0;
    assert(members.dom() =~= set!["name"@, "vers"@, "cksum"@, "links"@, "yanked"@, "deps"@]);
    if document.deps is Some {
        let deps = document.deps->Some_0;
        let items = members["deps"@]->Array_0;
        assert(deps.model().len() == deps@.len());
        assert forall|i: int| 0 <= i < items.len() implies (#[trigger] items[i]) is Object
            && describes_dependency(items[i]->Object_0, deps@[i]) by {
            assert(deps.model()[i] == deps@[i].model());
            assert(items[i] == crate_req::dependency_tree(deps@[i].model()));
            lemma_dependency_described(deps@[i]);
        }
    }
}

/// The JSON of a document gives back what the document holds, part by part: in
/// particular, whether the crate is yanked.
pub proof fn law_document_says_what_it_holds(document: &CrateDocument, value: Value)
    requires
        call_ensures(CrateDocument::to_json, (document,), value),
    ensures
        json::json_of(value) is Object,
        describes_document(json::json_of(value)->Object_0, *document),
{
    lemma_document_described(*document);
}

/// Whether two documents are the same in every part.
pub open spec fn same_document(a: CrateDocument, b: CrateDocument) -> bool {
    &&& a.name@ == b.name@
    &&& a.vers@ == b.vers@
    &&& same_dependencies(a.deps, b.deps)
    &&& same_text(a.cksum, b.cksum)
    &&& a.yanked == b.yanked
    &&& same_text(a.links, b.links)
}

proof fn lemma_same_list(tree: JsonTree, a: Vec<String>, b: Vec<String>)
    requires
        is_list_of(tree, a),
        is_list_of(tree, b),
    ensures
        same_texts(a, b),
{
    assert forall|i: int| 0 <= i < a@.len() implies (#[trigger] a@[i])@ == b@[i]@ by {
        assert(tree->Array_0[i] == JsonTree::Text(a@[i]@));
        assert(tree->Array_0[i] == JsonTree::Text(b@[i]@));
    }
}

proof fn lemma_described_dependency(
    members: Map<Seq<char>, JsonTree>,
    a: NewCrateDependency,
    b: NewCrateDependency,
)
    requires
        describes_dependency(members, a),
        describes_dependency(members, b),
    ensures
        same_dependency(a, b),
{
    lemma_same_list(members["features"@], a.features, b.features);
}

/// Different documents have different JSON: no part of one is lost in it.
pub proof fn law_documents_are_told_apart(
    a: &CrateDocument,
    b: &CrateDocument,
    value_of_a: Value,
    value_of_b: Value,
)
    requires
        call_ensures(CrateDocument::to_json, (a,), value_of_a),
        call_ensures(CrateDocument::to_json, (b,), value_of_b),
        json::json_of(value_of_a) == json::json_of(value_of_b),
    ensures
        same_document(*a, *b),
{
    lemma_document_described(*a);
    lemma_document_described(*b);
    let members = json::json_of(value_of_a)->Object_0;
    assert(describes_document(members, *a));
    assert(describes_document(members, *b));
    if a.deps is Some {
        let items = members["deps"@]->Array_0;
        assert forall|i: int| 0 <= i < a.deps->Some_0@.len() implies same_dependency(
            #[trigger] a.deps->Some_0@[i],
            b.deps->Some_0@[i],
        ) by {
            assert(items[i] is Object);
            lemma_described_dependency(
                items[i]->Object_0,
                a.deps->Some_0@[i],
                b.deps->Some_0@[i],
            );
        }
    }
}

/// The document of a request holds its name, its version, its dependencies,
/// its checksum, whether it is yanked and what it links to, unchanged.
pub proof fn law_document_is_of_the_request(krate_req: &CrateReq, document: CrateDocument)
    requires
        call_ensures(CrateReq::document, (krate_req,), document),
    ensures
        document.name@ == krate_req.name@,
        document.vers@ == krate_req.version@,
        same_dependencies(document.deps, krate_req.deps),
        same_text(document.cksum, krate_req.cksum),
        document.yanked == krate_req.yanked,
        same_text(document.links, krate_req.links),
{
    lemma_same_dependencies(document.deps, krate_req.deps);
    assert(document@.cksum == document.cksum.model());
    assert(document@.links == document.links.model());
}

/// The lines of a file are gone through one after the other: the requests in
/// two runs of lines are those in the first and then those in the second. One
/// line gives its request, or nothing.
pub proof fn law_requests_are_read_line_by_line(
    first: Vec<Option<CrateReq>>,
    second: Vec<Option<CrateReq>>,
    all: Vec<Option<CrateReq>>,
    in_first: Vec<CrateReq>,
    in_second: Vec<CrateReq>,
    in_all: Vec<CrateReq>,
)
    requires
        all@ == first@ + second@,
        call_ensures(crate_req::requests_in, (first,), in_first),
        call_ensures(crate_req::requests_in, (second,), in_second),
        call_ensures(crate_req::requests_in, (all,), in_all),
    ensures
        in_all@ == in_first@ + in_second@,
        first@.len() == 0 ==> in_first@.len() == 0,
        first@.len() == 1 && first@[0] is None ==> in_first@.len() == 0,
        first@.len() == 1 && first@[0] is Some ==> in_first@ == seq![first@[0]->Some_0],
{
    lemma_requests_of_parts(first@, second@);
    reveal_with_fuel(crate_req::requests_among, 2);
    if first@.len() == 1 {
        assert(first@.drop_last() =~= Seq::empty());
        assert(first@.last() == first@[0]);
        if first@[0] is Some {
            assert(in_first@ =~= seq![first@[0]->Some_0]);
        }
    }
}

proof fn lemma_requests_of_parts(a: Seq<Option<CrateReq>>, b: Seq<Option<CrateReq>>)
    ensures
        crate_req::requests_among(a + b) == crate_req::requests_among(a)
            + crate_req::requests_among(b),
    decreases b.len(),
{
    if b.len() == 0 {
        assert(a + b =~= a);
        assert(crate_req::requests_among(a) + crate_req::requests_among(b)
            =~= crate_req::requests_among(a));
    } else {
        lemma_requests_of_parts(a, b.drop_last());
        assert((a + b).drop_last() =~= a + b.drop_last());
        assert((a + b).last() == b.last());
        assert(crate_req::requests_among(a + b) =~= crate_req::requests_among(a)
            + crate_req::requests_among(b));
    }
}

} // verus!
