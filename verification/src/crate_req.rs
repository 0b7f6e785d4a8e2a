//! Requests for crates, and what is derived from them.

use crate::alike::Alike;
use crate::json;
use crate::json::JsonTree;
use crate::table::Table;
use serde_json::Value;
use vstd::prelude::*;

verus! {

/// A dependency of a crate, as the index lists it.
#[derive(Debug, Hash)]
pub struct NewCrateDependency {
    pub optional: bool,
    pub default_features: bool,
    pub name: String,
    pub features: Vec<String>,
    pub req: String,
    pub target: Option<String>,
    pub kind: String,
    pub registry: Option<String>,
    pub explicit_name_in_toml: Option<String>,
}

/// The parts of a dependency.
pub struct DependencyModel {
    pub optional: bool,
    pub default_features: bool,
    pub name: Seq<char>,
    pub features: Seq<Seq<char>>,
    pub req: Seq<char>,
    pub target: Option<Seq<char>>,
    pub kind: Seq<char>,
    pub registry: Option<Seq<char>>,
    pub explicit_name_in_toml: Option<Seq<char>>,
}

impl Alike for NewCrateDependency {
    type Model = DependencyModel;

    open spec fn model(&self) -> DependencyModel {
        DependencyModel {
            optional: self.optional,
            default_features: self.default_features,
            name: self.name@,
            features: self.features.model(),
            req: self.req@,
            target: self.target.model(),
            kind: self.kind@,
            registry: self.registry.model(),
            explicit_name_in_toml: self.explicit_name_in_toml.model(),
        }
    }

    fn alike(&self, other: &Self) -> (same: bool) {
        self.optional == other.optional && self.default_features == other.default_features
            && self.name.alike(&other.name) && self.features.alike(&other.features)
            && self.req.alike(&other.req) && self.target.alike(&other.target) && self.kind.alike(
            &other.kind,
        ) && self.registry.alike(&other.registry) && self.explicit_name_in_toml.alike(
            &other.explicit_name_in_toml,
        )
    }

    fn duplicate(&self) -> (copy: Self) {
        NewCrateDependency {
            optional: self.optional,
            default_features: self.default_features,
            name: self.name.duplicate(),
            features: self.features.duplicate(),
            req: self.req.duplicate(),
            target: self.target.duplicate(),
            kind: self.kind.duplicate(),
            registry: self.registry.duplicate(),
            explicit_name_in_toml: self.explicit_name_in_toml.duplicate(),
        }
    }
}

impl Clone for NewCrateDependency {
    fn clone(&self) -> (copy: Self)
        ensures
            copy.model() == self.model(),
    {
        self.duplicate()
    }
}

impl PartialEq for NewCrateDependency {
    fn eq(&self, other: &Self) -> (same: bool) {
        self.alike(other)
    }
}

impl vstd::std_specs::cmp::PartialEqSpecImpl for NewCrateDependency {
    open spec fn obeys_eq_spec() -> bool {
        true
    }

    open spec fn eq_spec(&self, other: &Self) -> bool {
        self.model() == other.model()
    }
}

impl Eq for NewCrateDependency {

}

/// A crate that is asked for: what the index says of one version of it, or as
/// much of that as is known.
#[derive(Debug)]
pub struct CrateReq {
    pub name: String,
    pub version: String,
    pub deps: Option<Vec<NewCrateDependency>>,
    pub features: Option<Table<String, Vec<String>>>,
    pub cksum: Option<String>,
    pub yanked: Option<bool>,
    pub links: Option<String>,
}

/// The parts of a request for a crate.
pub struct CrateReqModel {
    pub name: Seq<char>,
    pub version: Seq<char>,
    pub deps: Option<Seq<DependencyModel>>,
    pub features: Option<Map<Seq<char>, Seq<Seq<char>>>>,
    pub cksum: Option<Seq<char>>,
    pub yanked: Option<bool>,
    pub links: Option<Seq<char>>,
}

impl Alike for CrateReq {
    type Model = CrateReqModel;

    open spec fn model(&self) -> CrateReqModel {
        CrateReqModel {
            name: self.name@,
            version: self.version@,
            deps: self.deps.model(),
            features: self.features.model(),
            cksum: self.cksum.model(),
            yanked: self.yanked,
            links: self.links.model(),
        }
    }

    fn alike(&self, other: &Self) -> (same: bool) {
        self.name.alike(&other.name) && self.version.alike(&other.version) && self.deps.alike(
            &other.deps,
        ) && self.features.alike(&other.features) && self.cksum.alike(&other.cksum)
            && self.yanked.alike(&other.yanked) && self.links.alike(&other.links)
    }

    fn duplicate(&self) -> (copy: Self) {
        CrateReq {
            name: self.name.duplicate(),
            version: self.version.duplicate(),
            deps: self.deps.duplicate(),
            features: self.features.duplicate(),
            cksum: self.cksum.duplicate(),
            yanked: self.yanked.duplicate(),
            links: self.links.duplicate(),
        }
    }
}

impl Clone for CrateReq {
    fn clone(&self) -> (copy: Self)
        ensures
            copy.model() == self.model(),
    {
        self.duplicate()
    }
}

impl PartialEq for CrateReq {
    fn eq(&self, other: &Self) -> (same: bool) {
        self.alike(other)
    }
}

impl vstd::std_specs::cmp::PartialEqSpecImpl for CrateReq {
    open spec fn obeys_eq_spec() -> bool {
        true
    }

    open spec fn eq_spec(&self, other: &Self) -> bool {
        self.model() == other.model()
    }
}

impl Eq for CrateReq {

}

/// The name under which a version of a crate is stored and indexed.
pub open spec fn crate_key_text(name: Seq<char>, version: Seq<char>) -> Seq<char> {
    name + "/"@ + version
}

/// The name under which a version of a crate is stored and indexed.
pub fn crate_key(name: &str, version: &str) -> (key: String)
    ensures
        key@ == crate_key_text(name@, version@),
{
    let mut key = name.to_owned();
    key.append("/");
    key.append(version);
    key
}

/// Where a version of a crate is fetched from.
pub open spec fn download_uri_text(name: Seq<char>, version: Seq<char>) -> Seq<char> {
    "https://crates.io/api/v1/crates/"@ + name + "/"@ + version + "/download"@
}

/// What the search index holds of a version of a crate. Its features are not
/// indexed.
#[derive(Debug)]
pub struct CrateDocument {
    pub name: String,
    pub vers: String,
    pub deps: Option<Vec<NewCrateDependency>>,
    pub cksum: Option<String>,
    pub yanked: Option<bool>,
    pub links: Option<String>,
}

/// The parts of what the search index holds of a version of a crate.
pub struct DocumentModel {
    pub name: Seq<char>,
    pub vers: Seq<char>,
    pub deps: Option<Seq<DependencyModel>>,
    pub cksum: Option<Seq<char>>,
    pub yanked: Option<bool>,
    pub links: Option<Seq<char>>,
}

impl View for CrateDocument {
    type V = DocumentModel;

    open spec fn view(&self) -> DocumentModel {
        DocumentModel {
            name: self.name@,
            vers: self.vers@,
            deps: self.deps.model(),
            cksum: self.cksum.model(),
            yanked: self.yanked,
            links: self.links.model(),
        }
    }
}

/// `members` with the text `text` under the name `key`, where there is one.
pub open spec fn with_text_if_any(
    members: Map<Seq<char>, JsonTree>,
    key: Seq<char>,
    text: Option<Seq<char>>,
) -> Map<Seq<char>, JsonTree> {
    match text {
        Some(text) => members.insert(key, JsonTree::Text(text)),
        None => members,
    }
}

/// The JSON of a dependency. A registry or another name is a member only where
/// there is one.
pub open spec fn dependency_tree(dependency: DependencyModel) -> JsonTree {
    let members =
        map![
        "optional"@ => JsonTree::Bool(dependency.optional),
        "default_features"@ => JsonTree::Bool(dependency.default_features),
        "name"@ => JsonTree::Text(dependency.name),
        "features"@ => json::texts(dependency.features),
        "req"@ => JsonTree::Text(dependency.req),
        "target"@ => json::text_or_null(dependency.target),
        "kind"@ => JsonTree::Text(dependency.kind),
    ];
    let members = with_text_if_any(members, "registry"@, dependency.registry);
    JsonTree::Object(
        with_text_if_any(members, "explicit_name_in_toml"@, dependency.explicit_name_in_toml),
    )
}

/// The JSON of the dependencies: null where they are not known.
pub open spec fn dependencies_tree(deps: Option<Seq<DependencyModel>>) -> JsonTree {
    match deps {
        Some(deps) => JsonTree::Array(Seq::new(deps.len(), |i: int| dependency_tree(deps[i]))),
        None => JsonTree::Null,
    }
}

/// The JSON of what the search index holds of a version of a crate. What is
/// not known is null.
pub open spec fn document_tree(document: DocumentModel) -> JsonTree {
    JsonTree::Object(
        map![
            "name"@ => JsonTree::Text(document.name),
            "vers"@ => JsonTree::Text(document.vers),
            "deps"@ => dependencies_tree(document.deps),
            "cksum"@ => json::text_or_null(document.cksum),
            "yanked"@ => match document.yanked {
                Some(yanked) => JsonTree::Bool(yanked),
                None => JsonTree::Null,
            },
            "links"@ => json::text_or_null(document.links),
        ],
    )
}

/// The members `name` and `vers` of a document are the crate's.
pub(crate) proof fn lemma_document_names_the_crate(document: DocumentModel)
    ensures
        json::member_of(document_tree(document), "name"@) == JsonTree::Text(document.name),
        json::member_of(document_tree(document), "vers"@) == JsonTree::Text(document.vers),
{
    reveal_strlit("name");
    reveal_strlit("vers");
    reveal_strlit("deps");
    reveal_strlit("cksum");
    reveal_strlit("yanked");
    reveal_strlit("links");
    assert("name"@[0] != "vers"@[0]);
    assert("name"@[0] != "deps"@[0]);
    assert("vers"@[0] != "deps"@[0]);
}

/// `object` with the text `text` under the name `key`, where there is one.
fn with_optional_text(object: Value, key: &str, text: &Option<String>) -> (extended: Value)
    requires
        json::json_of(object) is Object,
    ensures
        json::json_of(extended) == JsonTree::Object(
            with_text_if_any(json::json_of(object)->Object_0, key@, text.model()),
        ),
{
    match text {
        Some(text) => json::with_member(object, key, json::from_text(text.as_str())),
        None => object,
    }
}

impl NewCrateDependency {
    /// The JSON of the dependency.
    fn to_json(&self) -> (value: Value)
        ensures
            json::json_of(value) == dependency_tree(self.model()),
    {
        let value = json::empty_object();
        let value = json::with_member(value, "optional", json::from_bool(self.optional));
        let value = json::with_member(
            value,
            "default_features",
            json::from_bool(self.default_features),
        );
        let value = json::with_member(value, "name", json::from_text(self.name.as_str()));
        let value = json::with_member(value, "features", json::from_texts(&self.features));
        let value = json::with_member(value, "req", json::from_text(self.req.as_str()));
        let value = json::with_member(value, "target", json::from_text_or_null(&self.target));
        let value = json::with_member(value, "kind", json::from_text(self.kind.as_str()));
        let value = with_optional_text(value, "registry", &self.registry);
        with_optional_text(value, "explicit_name_in_toml", &self.explicit_name_in_toml)
    }
}

/// The JSON of the dependencies.
fn dependencies_to_json(deps: &Option<Vec<NewCrateDependency>>) -> (value: Value)
    ensures
        json::json_of(value) == dependencies_tree(deps.model()),
{
    match deps {
        Some(deps) => {
            let mut values: Vec<Value> = Vec::new();
            let mut i: usize = 0;
            while i < deps.len()
                invariant
                    i <= deps@.len(),
                    values@.len() == i,
                    forall|j: int|
                        0 <= j < i ==> json::json_of(#[trigger] values@[j]) == dependency_tree(
                            deps@[j].model(),
                        ),
                decreases deps@.len() - i,
            {
                values.push(deps[i].to_json());
                i += 1;
            }
            proof {
                assert(Seq::new(values@.len(), |j: int| json::json_of(values@[j])) =~= Seq::new(
                    deps.model().len(),
                    |j: int| dependency_tree(deps.model()[j]),
                ));
            }
            json::from_items(values)
        },
        None => json::null(),
    }
}

impl CrateDocument {
    /// The JSON that the document is put in.
    pub fn to_json(&self) -> (value: Value)
        ensures
            json::json_of(value) == document_tree(self@),
    {
        let value = json::empty_object();
        let value = json::with_member(value, "name", json::from_text(self.name.as_str()));
        let value = json::with_member(value, "vers", json::from_text(self.vers.as_str()));
        let value = json::with_member(value, "deps", dependencies_to_json(&self.deps));
        let value = json::with_member(value, "cksum", json::from_text_or_null(&self.cksum));
        let yanked = match self.yanked {
            Some(yanked) => json::from_bool(yanked),
            None => json::null(),
        };
        let value = json::with_member(value, "yanked", yanked);
        json::with_member(value, "links", json::from_text_or_null(&self.links))
    }
}

impl CrateReq {
    /// The name under which the crate is stored and indexed.
    pub fn key(&self) -> (key: String)
        ensures
            key@ == crate_key_text(self.name@, self.version@),
    {
        crate_key(self.name.as_str(), self.version.as_str())
    }

    /// Where the crate is fetched from.
    pub fn download_uri(&self) -> (uri: String)
        ensures
            uri@ == download_uri_text(self.name@, self.version@),
    {
        let mut uri = "https://crates.io/api/v1/crates/".to_owned();
        uri.append(self.name.as_str());
        uri.append("/");
        uri.append(self.version.as_str());
        uri.append("/download");
        uri
    }

    /// What the search index is to hold of the crate.
    pub fn document(&self) -> (document: CrateDocument)
        ensures
            document@ == (DocumentModel {
                name: self.name@,
                vers: self.version@,
                deps: self.deps.model(),
                cksum: self.cksum.model(),
                yanked: self.yanked,
                links: self.links.model(),
            }),
    {
        CrateDocument {
            name: self.name.duplicate(),
            vers: self.version.duplicate(),
            deps: self.deps.duplicate(),
            cksum: self.cksum.duplicate(),
            yanked: self.yanked.duplicate(),
            links: self.links.duplicate(),
        }
    }
}

/// The requests among `lines`, in the same order. A line that is no request
/// is passed over.
pub open spec fn requests_among(lines: Seq<Option<CrateReq>>) -> Seq<CrateReq>
    decreases lines.len(),
{
    if lines.len() == 0 {
        Seq::empty()
    } else {
        match lines.last() {
            Some(krate_req) => requests_among(lines.drop_last()).push(krate_req),
            None => requests_among(lines.drop_last()),
        }
    }
}

/// The requests among the lines of a file of the index, in the same order. A
/// line that is no request is passed over.
pub fn requests_in(lines: Vec<Option<CrateReq>>) -> (requests: Vec<CrateReq>)
    ensures
        requests@ == requests_among(lines@),
{
    let mut requests: Vec<CrateReq> = Vec::new();
    let ghost all = lines@;
    for line in it: lines
        invariant
            it.seq() == all,
            requests@ == requests_among(all.take(it.index() as int)),
    {
        proof {
            assert(all.take(it.index() + 1).drop_last() =~= all.take(it.index() as int));
        }
        if let Some(krate_req) = line {
            requests.push(krate_req);
        }
    }
    assert(all.take(all.len() as int) =~= all);
    requests
}

/// Different crates, and different versions of a crate, have different keys,
/// where no slash is part of a crate's name.
pub proof fn law_keys_tell_crates_apart(
    name: Seq<char>,
    version: Seq<char>,
    other_name: Seq<char>,
    other_version: Seq<char>,
)
    requires
        !name.contains('/'),
        !other_name.contains('/'),
        crate_key_text(name, version) == crate_key_text(other_name, other_version),
    ensures
        name == other_name,
        version == other_version,
{
    reveal_strlit("/");
    let key = crate_key_text(name, version);
    let other = crate_key_text(other_name, other_version);
    assert(key[name.len() as int] == '/');
    assert(other[other_name.len() as int] == '/');
    if name.len() < other_name.len() {
        assert(other[name.len() as int] == other_name[name.len() as int]);
        assert(other_name.contains(other_name[name.len() as int]));
    } else if other_name.len() < name.len() {
        assert(key[other_name.len() as int] == name[other_name.len() as int]);
        assert(name.contains(name[other_name.len() as int]));
    }
    assert(name =~= key.take(name.len() as int));
    assert(other_name =~= other.take(name.len() as int));
    assert(version =~= key.skip(name.len() as int + 1));
    assert(other_version =~= other.skip(name.len() as int + 1));
}

} // verus!
