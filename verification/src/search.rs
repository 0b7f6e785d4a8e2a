//! Listing and searching the crates in the search index.

use crate::alike::Alike;
use crate::crate_req;
use crate::json;
use crate::json::JsonTree;
use crate::text;
use serde_json::Value;
use vstd::prelude::*;

verus! {

/// What a list of crates is asked for with.
#[derive(Debug)]
pub struct ListParams {
    pub page: Option<u32>,
    pub per_page: Option<u32>,
}

/// What crates are searched for with.
#[derive(Debug)]
pub struct SearchParams {
    pub q: String,
    pub version: Option<String>,
    pub per_page: Option<u32>,
    pub page: Option<u32>,
}

/// A page of crates: pages are counted from one.
#[derive(Clone, Copy, Debug, PartialEq, Eq, Structural)]
pub struct Page {
    pub current_page: u32,
    pub per_page: u32,
}

/// The page that is asked for: the first where none is named, of ten crates
/// where no size is named. Zero is taken as one.
pub open spec fn page_asked_for(page: Option<u32>, per_page: Option<u32>) -> Page {
    Page {
        current_page: match page {
            Some(page) => if page == 0 {
                1
            } else {
                page
            },
            None => 1,
        },
        per_page: match per_page {
            Some(per_page) => if per_page == 0 {
                1
            } else {
                per_page
            },
            None => 10,
        },
    }
}

impl Page {
    /// The page that is asked for.
    pub fn new(page: Option<u32>, per_page: Option<u32>) -> (asked: Page)
        ensures
            asked == page_asked_for(page, per_page),
            asked.current_page >= 1,
            asked.per_page >= 1,
    {
        let current_page: u32 = page.unwrap_or(1);
        let per_page: u32 = per_page.unwrap_or(10);
        Page {
            current_page: if current_page == 0 {
                1
            } else {
                current_page
            },
            per_page: if per_page == 0 {
                1
            } else {
                per_page
            },
        }
    }

    /// How many crates stand before the page.
    pub open spec fn crates_before(self) -> int {
        (self.current_page - 1) * self.per_page
    }

    /// How many crates stand before the page, as far as 32 bits can tell.
    pub fn offset(&self) -> (offset: u32)
        requires
            self.current_page >= 1,
        ensures
            offset == self.crates_before() % 0x1_0000_0000,
            self.crates_before() <= u32::MAX ==> offset == self.crates_before(),
    {
        proof {
            assert((self.current_page - 1) * self.per_page >= 0) by (nonlinear_arith)
                requires
                    self.current_page >= 1,
            ;
        }
        (self.current_page - 1).wrapping_mul(self.per_page)
    }
}

/// Pages of one size follow on each other without a gap or an overlap.
pub proof fn law_pages_follow_on_each_other(current_page: u32, per_page: u32)
    requires
        1 <= current_page < u32::MAX,
    ensures
        ({
            let page = Page { current_page, per_page };
            let following = Page { current_page: (current_page + 1) as u32, per_page };
            following.crates_before() == page.crates_before() + per_page
        }),
        (Page { current_page: 1, per_page }).crates_before() == 0,
{
    assert((current_page + 1 - 1) * per_page == (current_page - 1) * per_page + per_page)
        by (nonlinear_arith);
    assert((1 - 1) * per_page == 0) by (nonlinear_arith);
}

/// Which crates the search index is asked for.
#[derive(Debug)]
pub enum Matching {
    /// All of them.
    All,
    /// Those whose name matches.
    Name { name: String },
    /// Those whose name and whose version match.
    NameAndVersion { name: String, version: String },
}

/// Which crates the search index is asked for.
pub enum MatchingView {
    All,
    Name { name: Seq<char> },
    NameAndVersion { name: Seq<char>, version: Seq<char> },
}

impl View for Matching {
    type V = MatchingView;

    open spec fn view(&self) -> MatchingView {
        match self {
            Matching::All => MatchingView::All,
            Matching::Name { name } => MatchingView::Name { name: name@ },
            Matching::NameAndVersion { name, version } => MatchingView::NameAndVersion {
                name: name@,
                version: version@,
            },
        }
    }
}

/// A question to the search index.
#[derive(Debug)]
pub struct ElasticQuery {
    /// Which crates are asked for.
    pub matching: Matching,
    /// How many of them at most.
    pub size: u32,
    /// How many of them are passed over.
    pub from: u32,
}

/// The part of a question that asks for documents whose `field` matches
/// `text`.
pub open spec fn match_tree(field: Seq<char>, text: Seq<char>) -> JsonTree {
    JsonTree::Object(map!["match"@ => JsonTree::Object(map![field => JsonTree::Text(text)])])
}

/// The part of a question that says which crates are asked for.
pub open spec fn matching_tree(matching: MatchingView) -> JsonTree {
    match matching {
        MatchingView::All => JsonTree::Object(
            map!["match_all"@ => JsonTree::Object(Map::empty())],
        ),
        MatchingView::Name { name } => match_tree("name"@, name),
        MatchingView::NameAndVersion { name, version } => JsonTree::Object(
            map!["bool"@ => JsonTree::Object(
                map!["must"@ => JsonTree::Array(
                    seq![match_tree("name"@, name), match_tree("vers"@, version)],
                )],
            )],
        ),
    }
}

/// The JSON that a question is put in.
pub open spec fn query_tree(matching: MatchingView, size: u32, from: u32) -> JsonTree {
    JsonTree::Object(
        map![
            "query"@ => matching_tree(matching),
            "size"@ => JsonTree::Unsigned(size as u64),
            "from"@ => JsonTree::Unsigned(from as u64),
        ],
    )
}

/// Asks for documents whose `field` matches `text`.
fn match_value(field: &str, text: &str) -> (value: Value)
    ensures
        json::json_of(value) == match_tree(field@, text@),
{
    let fields = json::with_member(json::empty_object(), field, json::from_text(text));
    json::with_member(json::empty_object(), "match", fields)
}

impl Matching {
    /// The part of a question that says which crates are asked for.
    fn to_json(&self) -> (value: Value)
        ensures
            json::json_of(value) == matching_tree(self@),
    {
        match self {
            Matching::All => json::with_member(
                json::empty_object(),
                "match_all",
                json::empty_object(),
            ),
            Matching::Name { name } => match_value("name", name.as_str()),
            Matching::NameAndVersion { name, version } => {
                let mut parts: Vec<Value> = Vec::new();
                parts.push(match_value("name", name.as_str()));
                parts.push(match_value("vers", version.as_str()));
                proof {
                    assert(Seq::new(parts@.len(), |i: int| json::json_of(parts@[i])) =~= seq![
                        match_tree("name"@, name@),
                        match_tree("vers"@, version@),
                    ]);
                }
                let must = json::with_member(
                    json::empty_object(),
                    "must",
                    json::from_items(parts),
                );
                json::with_member(json::empty_object(), "bool", must)
            },
        }
    }
}

impl ElasticQuery {
    /// The JSON that the question is put in.
    pub fn to_json(&self) -> (value: Value)
        ensures
            json::json_of(value) == query_tree(self.matching@, self.size, self.from),
    {
        let value = json::with_member(json::empty_object(), "query", self.matching.to_json());
        let value = json::with_member(value, "size", json::from_unsigned(self.size as u64));
        json::with_member(value, "from", json::from_unsigned(self.from as u64))
    }
}

impl ListParams {
    /// The page that is asked for.
    pub fn page(&self) -> (page: Page)
        ensures
            page == page_asked_for(self.page, self.per_page),
    {
        Page::new(self.page, self.per_page)
    }

    /// The question to the search index: a page of all crates.
    pub fn query(&self) -> (query: ElasticQuery)
        ensures
            query.matching@ == MatchingView::All,
            query.size == page_asked_for(self.page, self.per_page).per_page,
            query.from == page_asked_for(self.page, self.per_page).crates_before() % 0x1_0000_0000,
    {
        let page = Page::new(self.page, self.per_page);
        ElasticQuery { matching: Matching::All, size: page.per_page, from: page.offset() }
    }
}

/// What a search for `q` and `version` looks for: by name alone where no
/// version is named or only white space.
pub open spec fn matching_for(q: Seq<char>, version: Option<Seq<char>>) -> MatchingView {
    match version {
        Some(version) => if text::trimmed(version).len() == 0 {
            MatchingView::Name { name: q }
        } else {
            MatchingView::NameAndVersion { name: q, version: text::trimmed(version) }
        },
        None => MatchingView::Name { name: q },
    }
}

/// Naming a version of nothing but white space is naming none.
pub proof fn law_blank_version_is_no_version(q: Seq<char>, version: Seq<char>)
    requires
        forall|i: int| 0 <= i < version.len() ==> text::is_white_space(#[trigger] version[i]),
    ensures
        matching_for(q, Some(version)) == matching_for(q, None),
{
    lemma_blank_is_trimmed_away(version);
}

/// Of nothing but white space, nothing is left.
proof fn lemma_blank_is_trimmed_away(text: Seq<char>)
    requires
        forall|i: int| 0 <= i < text.len() ==> text::is_white_space(#[trigger] text[i]),
    ensures
        text::trimmed(text).len() == 0,
    decreases text.len(),
{
    if text.len() > 0 {
        let rest = text.drop_first();
        assert forall|i: int| 0 <= i < rest.len() implies text::is_white_space(
            #[trigger] rest[i],
        ) by {
            assert(rest[i] == text[i + 1]);
        }
        lemma_blank_is_trimmed_away(rest);
    }
}

impl SearchParams {
    /// The question to the search index: a page of the crates that match.
    pub fn query(&self) -> (query: ElasticQuery)
        ensures
            query.matching@ == matching_for(self.q@, self.version.model()),
            query.size == page_asked_for(self.page, self.per_page).per_page,
            query.from == page_asked_for(self.page, self.per_page).crates_before() % 0x1_0000_0000,
    {
        let page = Page::new(self.page, self.per_page);
        let version = match &self.version {
            Some(version) => version.as_str().trim(),
            None => "",
        };
        proof {
            reveal_strlit("");
        }
        let matching = if version.is_empty() {
            Matching::Name { name: self.q.clone() }
        } else {
            Matching::NameAndVersion { name: self.q.clone(), version: version.to_owned() }
        };
        ElasticQuery { matching, size: page.per_page, from: page.offset() }
    }
}

/// A crate that the search index found: what it said of it, each part as JSON
/// text.
#[derive(Debug)]
pub struct Hit {
    /// The name of the document.
    pub id: String,
    /// The name of the crate.
    pub name: String,
    /// The version of the crate.
    pub vers: String,
}

/// An answer of the search index.
#[derive(Debug)]
pub struct Reply {
    /// How many crates match in all.
    pub total: Option<u64>,
    /// The crates found.
    pub hits: Option<Vec<Hit>>,
}

/// What is wrong with an answer of the search index.
#[derive(Clone, Copy, Debug, PartialEq, Eq, Structural)]
pub enum ReplyError {
    /// It is no JSON.
    Unparsable,
    /// It does not say how many crates match.
    NoTotal,
    /// It lists no crates.
    NoHits,
}

/// Where an answer says how many crates match.
pub open spec fn total_in(reply: JsonTree) -> Option<u64> {
    json::unsigned_of(
        json::member_of(json::member_of(json::member_of(reply, "hits"@), "total"@), "value"@),
    )
}

/// Where an answer lists the crates found.
pub open spec fn hits_in(reply: JsonTree) -> Option<Seq<JsonTree>> {
    match json::member_of(json::member_of(reply, "hits"@), "hits"@) {
        JsonTree::Array(items) => Some(items),
        _ => None,
    }
}

/// The name of the document of a crate found.
pub open spec fn id_in(hit: JsonTree) -> JsonTree {
    json::member_of(hit, "_id"@)
}

/// The name of a crate found.
pub open spec fn name_in(hit: JsonTree) -> JsonTree {
    json::member_of(json::member_of(hit, "_source"@), "name"@)
}

/// The version of a crate found.
pub open spec fn vers_in(hit: JsonTree) -> JsonTree {
    json::member_of(json::member_of(hit, "_source"@), "vers"@)
}

/// Whether `hit` is what an answer says of a crate in `item`.
pub open spec fn reads_hit(hit: Hit, item: JsonTree) -> bool {
    &&& json::writes(hit.id@, id_in(item))
    &&& json::writes(hit.name@, name_in(item))
    &&& json::writes(hit.vers@, vers_in(item))
}

/// Whether `hits` are what an answer says of the crates in `items`.
pub open spec fn reads_hits(hits: Seq<Hit>, items: Seq<JsonTree>) -> bool {
    &&& hits.len() == items.len()
    &&& forall|i: int| 0 <= i < hits.len() ==> reads_hit(#[trigger] hits[i], items[i])
}

/// Reads what the answer says of one crate.
fn read_hit(item: &Value) -> (hit: Hit)
    ensures
        reads_hit(hit, json::json_of(*item)),
{
    let source = json::member(item, "_source");
    Hit {
        id: json::to_text(json::member(item, "_id")),
        name: json::to_text(json::member(source, "name")),
        vers: json::to_text(json::member(source, "vers")),
    }
}

/// Reads an answer of the search index.
pub fn read_reply(body: &str) -> (reply: Result<Reply, ReplyError>)
    ensures
        match json::parsed_json(body@) {
            Some(tree) => reply is Ok && reply->Ok_0.total == total_in(tree) && match hits_in(
                tree,
            ) {
                Some(items) => reply->Ok_0.hits is Some && reads_hits(
                    reply->Ok_0.hits->Some_0@,
                    items,
                ),
                None => reply->Ok_0.hits is None,
            },
            None => reply == Err::<Reply, ReplyError>(ReplyError::Unparsable),
        },
{
    let value = match json::parse_json(body) {
        Ok(value) => value,
        Err(_) => {
            return Err(ReplyError::Unparsable);
        },
    };
    let found = json::member(&value, "hits");
    let total = json::as_u64(json::member(json::member(found, "total"), "value"));
    let hits = match json::as_array(json::member(found, "hits")) {
        Some(items) => {
            let mut hits: Vec<Hit> = Vec::new();
            let mut i: usize = 0;
            while i < items.len()
                invariant
                    i <= items@.len(),
                    hits@.len() == i,
                    forall|j: int|
                        0 <= j < i ==> reads_hit(#[trigger] hits@[j], json::json_of(items@[j])),
                decreases items@.len() - i,
            {
                hits.push(read_hit(&items[i]));
                i += 1;
            }
            Some(hits)
        },
        None => None,
    };
    Ok(Reply { total, hits })
}

/// How many crates match a search.
#[derive(Clone, Copy, Debug, PartialEq, Eq, Structural)]
pub struct TotalCrates {
    pub total: u64,
}

/// A crate found by a search.
#[derive(Debug)]
pub struct CratePackage {
    pub name: String,
    pub description: Option<String>,
    pub max_version: String,
}

/// The parts of a crate found by a search.
pub struct PackageView {
    pub name: Seq<char>,
    pub description: Option<Seq<char>>,
    pub max_version: Seq<char>,
}

impl View for CratePackage {
    type V = PackageView;

    open spec fn view(&self) -> PackageView {
        PackageView {
            name: self.name@,
            description: self.description.model(),
            max_version: self.max_version@,
        }
    }
}

/// The crates found by a search.
#[derive(Debug)]
pub struct Crates {
    pub crates: Vec<CratePackage>,
    pub meta: TotalCrates,
}

/// How many crates there are, and which page of them is listed.
#[derive(Clone, Copy, Debug, PartialEq, Eq, Structural)]
pub struct PageResults {
    pub total: u64,
    pub current_page: u32,
    pub per_page: u32,
}

/// A crate in a list.
#[derive(Debug)]
pub struct CrateItem {
    pub id: String,
    pub name: String,
    pub version: String,
}

/// The parts of a crate in a list.
pub struct ItemView {
    pub id: Seq<char>,
    pub name: Seq<char>,
    pub version: Seq<char>,
}

impl View for CrateItem {
    type V = ItemView;

    open spec fn view(&self) -> ItemView {
        ItemView { id: self.id@, name: self.name@, version: self.version@ }
    }
}

/// A list of crates.
#[derive(Debug)]
pub struct CratesList {
    pub crates: Vec<CrateItem>,
    pub meta: PageResults,
}

/// How a crate is listed of which the search index gave the name and the
/// version as the JSON texts `name` and `vers`.
pub open spec fn item_for(name: Seq<char>, vers: Seq<char>) -> ItemView {
    ItemView {
        id: crate_req::crate_key_text(text::unquoted(name), text::unquoted(vers)),
        name: text::unquoted(name),
        version: text::unquoted(vers),
    }
}

/// How a crate found is shown of which the search index gave the document's
/// name, the name and the version as the JSON texts `id`, `name` and `vers`.
pub open spec fn package_for(id: Seq<char>, name: Seq<char>, vers: Seq<char>) -> PackageView {
    PackageView {
        name: text::unquoted(name),
        description: Some(text::unquoted(id)),
        max_version: text::unquoted(vers),
    }
}

/// What is said of the page that is listed.
pub open spec fn list_meta(params: ListParams, total: Option<u64>) -> PageResults {
    let page = page_asked_for(params.page, params.per_page);
    PageResults {
        total: match total {
            Some(total) => total,
            None => 0,
        },
        current_page: page.current_page,
        per_page: page.per_page,
    }
}

/// Lists the crates found.
pub fn list_page(params: &ListParams, total: Option<u64>, hits: &Vec<Hit>) -> (list: CratesList)
    ensures
        list.meta == list_meta(*params, total),
        list.crates@.len() == hits@.len(),
        forall|i: int|
            0 <= i < hits@.len() ==> (#[trigger] list.crates@[i])@ == item_for(
                hits@[i].name@,
                hits@[i].vers@,
            ),
{
    let page = params.page();
    let mut crates: Vec<CrateItem> = Vec::new();
    let mut i: usize = 0;
    while i < hits.len()
        invariant
            i <= hits@.len(),
            crates@.len() == i,
            forall|j: int|
                0 <= j < i ==> (#[trigger] crates@[j])@ == item_for(hits@[j].name@, hits@[j].vers@),
        decreases hits@.len() - i,
    {
        let name = text::strip_quotes(hits[i].name.as_str());
        let version = text::strip_quotes(hits[i].vers.as_str());
        let id = crate_req::crate_key(name.as_str(), version.as_str());
        crates.push(CrateItem { id, name, version });
        i += 1;
    }
    CratesList {
        crates,
        meta: PageResults {
            total: total.unwrap_or(0),
            current_page: page.current_page,
            per_page: page.per_page,
        },
    }
}

/// Shows the crates found.
pub fn search_page(total: u64, hits: &Vec<Hit>) -> (found: Crates)
    ensures
        found.meta == (TotalCrates { total }),
        found.crates@.len() == hits@.len(),
        forall|i: int|
            0 <= i < hits@.len() ==> (#[trigger] found.crates@[i])@ == package_for(
                hits@[i].id@,
                hits@[i].name@,
                hits@[i].vers@,
            ),
{
    let mut crates: Vec<CratePackage> = Vec::new();
    let mut i: usize = 0;
    while i < hits.len()
        invariant
            i <= hits@.len(),
            crates@.len() == i,
            forall|j: int|
                0 <= j < i ==> (#[trigger] crates@[j])@ == package_for(
                    hits@[j].id@,
                    hits@[j].name@,
                    hits@[j].vers@,
                ),
        decreases hits@.len() - i,
    {
        crates.push(
            CratePackage {
                name: text::strip_quotes(hits[i].name.as_str()),
                description: Some(text::strip_quotes(hits[i].id.as_str())),
                max_version: text::strip_quotes(hits[i].vers.as_str()),
            },
        );
        i += 1;
    }
    Crates { crates, meta: TotalCrates { total } }
}

/// What a JSON value is shown as: its JSON text without the quotes.
pub open spec fn shown(tree: JsonTree) -> Seq<char> {
    text::unquoted(json::json_text(tree))
}

/// Whether `text` shows `tree`. A plain text is shown as it is, and null as
/// `null`.
pub open spec fn shows(text: Seq<char>, tree: JsonTree) -> bool {
    &&& text == shown(tree)
    &&& tree is Null ==> text == "null"@
    &&& match tree {
        JsonTree::Text(inner) => json::is_plain(inner) ==> text == inner,
        _ => true,
    }
}

/// Taking the quotes out of a JSON text shows what it writes.
proof fn lemma_shows(text: Seq<char>, tree: JsonTree)
    requires
        json::writes(text, tree),
    ensures
        shows(text::unquoted(text), tree),
{
    reveal(Seq::filter);
    match tree {
        JsonTree::Null => {
            reveal_strlit("null");
            lemma_unquoted_plain("null"@);
        },
        JsonTree::Text(inner) => {
            if json::is_plain(inner) {
                assert(text.drop_last() =~= seq!['"'] + inner);
                assert(text.last() == '"');
                assert(text::unquoted(text) == text::unquoted(seq!['"'] + inner));
                lemma_unquoted_after_quote(inner);
                lemma_unquoted_plain(inner);
            }
        },
        _ => {},
    }
}

/// A text without quotes is left as it is.
proof fn lemma_unquoted_plain(text: Seq<char>)
    requires
        forall|i: int| 0 <= i < text.len() ==> (#[trigger] text[i]) != '"',
    ensures
        text::unquoted(text) == text,
    decreases text.len(),
{
    reveal(Seq::filter);
    if text.len() > 0 {
        lemma_unquoted_plain(text.drop_last());
        assert(text.last() == text[text.len() - 1]);
        assert(text.drop_last().push(text.last()) =~= text);
    }
}

/// A leading quote goes.
proof fn lemma_unquoted_after_quote(text: Seq<char>)
    ensures
        text::unquoted(seq!['"'] + text) == text::unquoted(text),
    decreases text.len(),
{
    reveal(Seq::filter);
    let quoted = seq!['"'] + text;
    if text.len() == 0 {
        assert(quoted.drop_last() =~= Seq::<char>::empty());
        assert(quoted.last() == '"');
        assert(text =~= Seq::<char>::empty());
    } else {
        assert(quoted.drop_last() =~= seq!['"'] + text.drop_last());
        assert(quoted.last() == text.last());
        lemma_unquoted_after_quote(text.drop_last());
    }
}

/// Lists the crates in an answer of the search index. It fails where the
/// answer is no JSON or lists no crates. Where the answer does not say how
/// many there are, there are taken to be none.
pub fn list(params: &ListParams, body: &str) -> (list: Result<CratesList, ReplyError>)
    ensures
        match json::parsed_json(body@) {
            None => list == Err::<CratesList, ReplyError>(ReplyError::Unparsable),
            Some(tree) => match hits_in(tree) {
                None => list == Err::<CratesList, ReplyError>(ReplyError::NoHits),
                Some(items) => {
                    &&& list is Ok
                    &&& list->Ok_0.meta == list_meta(*params, total_in(tree))
                    &&& list->Ok_0.crates@.len() == items.len()
                    &&& forall|i: int|
                        0 <= i < items.len() ==> lists((#[trigger] list->Ok_0.crates@[i])@, items[i])
                },
            },
        },
{
    let reply = match read_reply(body) {
        Ok(reply) => reply,
        Err(error) => {
            return Err(error);
        },
    };
    match &reply.hits {
        Some(hits) => {
            let list = list_page(params, reply.total, hits);
            proof {
                let items = hits_in(json::parsed_json(body@)->Some_0)->Some_0;
                assert forall|i: int| 0 <= i < items.len() implies lists(
                    (#[trigger] list.crates@[i])@,
                    items[i],
                ) by {
                    assert(reads_hit(hits@[i], items[i]));
                    lemma_shows(hits@[i].name@, name_in(items[i]));
                    lemma_shows(hits@[i].vers@, vers_in(items[i]));
                }
            }
            Ok(list)
        },
        None => Err(ReplyError::NoHits),
    }
}

/// Whether `item` lists the crate that an answer describes in `hit`.
pub open spec fn lists(item: ItemView, hit: JsonTree) -> bool {
    &&& shows(item.name, name_in(hit))
    &&& shows(item.version, vers_in(hit))
    &&& item.id == crate_req::crate_key_text(item.name, item.version)
}

/// Whether `package` shows the crate that an answer describes in `hit`.
pub open spec fn finds(package: PackageView, hit: JsonTree) -> bool {
    &&& shows(package.name, name_in(hit))
    &&& package.description is Some
    &&& shows(package.description->Some_0, id_in(hit))
    &&& shows(package.max_version, vers_in(hit))
}

/// A crate that was indexed is listed, and found, by the name, the version and
/// the key that it was indexed with. Names and versions are plain: no
/// character of them is written in JSON in another way.
pub proof fn law_indexed_crate_is_found_as_it_is(
    document: crate_req::DocumentModel,
    hit: JsonTree,
    item: ItemView,
    package: PackageView,
)
    requires
        json::member_of(hit, "_source"@) == crate_req::document_tree(document),
        json::member_of(hit, "_id"@) == JsonTree::Text(
            crate_req::crate_key_text(document.name, document.vers),
        ),
        json::is_plain(document.name),
        json::is_plain(document.vers),
        lists(item, hit),
        finds(package, hit),
    ensures
        item == (ItemView {
            id: crate_req::crate_key_text(document.name, document.vers),
            name: document.name,
            version: document.vers,
        }),
        package == (PackageView {
            name: document.name,
            description: Some(crate_req::crate_key_text(document.name, document.vers)),
            max_version: document.vers,
        }),
{
    crate_req::lemma_document_names_the_crate(document);
    let key = crate_req::crate_key_text(document.name, document.vers);
    assert(json::is_plain(key)) by {
        reveal_strlit("/");
        assert forall|i: int| 0 <= i < key.len() implies (#[trigger] key[i]) != '"' && key[i]
            != '\\' && key[i] as u32 >= 0x20 by {
            if i < document.name.len() {
                assert(key[i] == document.name[i]);
            } else if i == document.name.len() {
                assert(key[i] == '/');
            } else {
                assert(key[i] == document.vers[i - document.name.len() - 1]);
            }
        }
    }
}

/// Shows the crates in an answer of the search index. It fails where the
/// answer is no JSON, does not say how many crates match, or lists none.
pub fn search(body: &str) -> (found: Result<Crates, ReplyError>)
    ensures
        match json::parsed_json(body@) {
            None => found == Err::<Crates, ReplyError>(ReplyError::Unparsable),
            Some(tree) => match (total_in(tree), hits_in(tree)) {
                (None, _) => found == Err::<Crates, ReplyError>(ReplyError::NoTotal),
                (Some(_), None) => found == Err::<Crates, ReplyError>(ReplyError::NoHits),
                (Some(total), Some(items)) => {
                    &&& found is Ok
                    &&& found->Ok_0.meta == (TotalCrates { total })
                    &&& found->Ok_0.crates@.len() == items.len()
                    &&& forall|i: int|
                        0 <= i < items.len() ==> finds(
                            (#[trigger] found->Ok_0.crates@[i])@,
                            items[i],
                        )
                },
            },
        },
{
    let reply = match read_reply(body) {
        Ok(reply) => reply,
        Err(error) => {
            return Err(error);
        },
    };
    let total = match reply.total {
        Some(total) => total,
        None => {
            return Err(ReplyError::NoTotal);
        },
    };
    match &reply.hits {
        Some(hits) => {
            let found = search_page(total, hits);
            proof {
                let items = hits_in(json::parsed_json(body@)->Some_0)->Some_0;
                assert forall|i: int| 0 <= i < items.len() implies finds(
                    (#[trigger] found.crates@[i])@,
                    items[i],
                ) by {
                    assert(reads_hit(hits@[i], items[i]));
                    lemma_shows(hits@[i].id@, id_in(items[i]));
                    lemma_shows(hits@[i].name@, name_in(items[i]));
                    lemma_shows(hits@[i].vers@, vers_in(items[i]));
                }
            }
            Ok(found)
        },
        None => Err(ReplyError::NoHits),
    }
}

} // verus!
