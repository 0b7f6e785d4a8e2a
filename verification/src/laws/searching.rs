//! Listing and searching crates.

use crate::json;
use crate::json::JsonTree;
use crate::search;
use crate::search::{
    CrateItem, CratePackage, Crates, CratesList, ElasticQuery, Hit, ListParams, Page, Reply,
    ReplyError, SearchParams,
};
use crate::text;
use serde_json::Value;
use vstd::prelude::*;

verus! {

/// A number that may be missing: `default` where it is, and at least one.
pub open spec fn at_least_one(given: Option<u32>, default: int) -> int {
    if given is None {
        default
    } else if given->Some_0 >= 1 {
        given->Some_0 as int
    } else {
        1
    }
}

/// The page and the size are the ones asked for: the first page and ten crates
/// where nothing is asked for, and one where zero is.
pub proof fn law_page_is_the_one_asked_for(
    page: Option<u32>,
    per_page: Option<u32>,
    asked: Page,
    params: &ListParams,
    listed: Page,
)
    requires
        call_ensures(Page::new, (page, per_page), asked),
        call_ensures(ListParams::page, (params,), listed),
    ensures
        asked.current_page == at_least_one(page, 1),
        asked.per_page == at_least_one(per_page, 10),
        listed.current_page == at_least_one(params.page, 1),
        listed.per_page == at_least_one(params.per_page, 10),
{
}

/// The first page has no crates before it, and each page as many more than the
/// one before it as a page holds, as far as 32 bits can tell.
pub proof fn law_offset_grows_by_the_size(
    page: &Page,
    following: &Page,
    offset: u32,
    following_offset: u32,
)
    requires
        page.current_page >= 1,
        following.current_page == page.current_page + 1,
        following.per_page == page.per_page,
        call_ensures(Page::offset, (page,), offset),
        call_ensures(Page::offset, (following,), following_offset),
    ensures
        page.current_page == 1 ==> offset == 0,
        (following_offset - offset - page.per_page) % 0x1_0000_0000 == 0,
        (page.current_page - 1) * page.per_page <= u32::MAX ==> offset == (page.current_page - 1)
            * page.per_page,
{
    assert(following.crates_before() == page.crates_before() + page.per_page) by {
        assert((page.current_page + 1 - 1) * page.per_page == (page.current_page - 1)
            * page.per_page + page.per_page) by (nonlinear_arith);
    }
    if page.current_page == 1 {
        assert((1 - 1) * page.per_page == 0) by (nonlinear_arith);
    }
}

/// Whether `tree` is an object that has `inner` under the name `key`.
pub open spec fn holds_at(tree: JsonTree, key: Seq<char>, inner: JsonTree) -> bool {
    tree is Object && tree->Object_0.contains_pair(key, inner)
}

/// Whether `tree` is an object that has `inner` under the name `key`, and
/// nothing else.
pub open spec fn holds_only(tree: JsonTree, key: Seq<char>, inner: JsonTree) -> bool {
    holds_at(tree, key, inner) && tree->Object_0.dom() == set![key]
}

/// Whether `tree` asks for documents whose `field` matches `text`.
pub open spec fn asks_to_match(tree: JsonTree, field: Seq<char>, text: Seq<char>) -> bool {
    exists|fields: JsonTree| #[trigger]
        holds_only(tree, "match"@, fields) && holds_only(fields, field, JsonTree::Text(text))
}

/// Whether `tree` asks for all documents.
pub open spec fn asks_for_all(tree: JsonTree) -> bool {
    holds_only(tree, "match_all"@, JsonTree::Object(Map::empty()))
}

/// Whether `tree` asks for documents of which both hold: that the name matches
/// `name`, and that the version matches `version`.
pub open spec fn asks_for_both(tree: JsonTree, name: Seq<char>, version: Seq<char>) -> bool {
    exists|inner: JsonTree, parts: Seq<JsonTree>|
        #![trigger holds_only(inner, "must"@, JsonTree::Array(parts))]
        {
            &&& holds_only(tree, "bool"@, inner)
            &&& holds_only(inner, "must"@, JsonTree::Array(parts))
            &&& parts.len() == 2
            &&& asks_to_match(parts[0], "name"@, name)
            &&& asks_to_match(parts[1], "vers"@, version)
        }
}

/// Whether a question in JSON is for the page asked for: `size` is how many
/// crates a page holds, and `from` how many stand before it. It has nothing
/// else but what it asks for.
pub open spec fn asks_for_page(tree: JsonTree, page: Option<u32>, per_page: Option<u32>) -> bool {
    let current = at_least_one(page, 1);
    let size = at_least_one(per_page, 10);
    &&& tree is Object
    &&& tree->Object_0.dom() == set!["query"@, "size"@, "from"@]
    &&& tree->Object_0["size"@] is Unsigned
    &&& tree->Object_0["size"@]->Unsigned_0 == size
    &&& tree->Object_0["from"@] is Unsigned
    &&& (tree->Object_0["from"@]->Unsigned_0 - (current - 1) * size) % 0x1_0000_0000 == 0
    &&& (current - 1) * size <= u32::MAX ==> tree->Object_0["from"@]->Unsigned_0 == (current - 1)
        * size
}

proof fn lemma_query(query: ElasticQuery, page: Option<u32>, per_page: Option<u32>, value: Value)
    requires
        query.size == search::page_asked_for(page, per_page).per_page,
        query.from == search::page_asked_for(page, per_page).crates_before() % 0x1_0000_0000,
        call_ensures(ElasticQuery::to_json, (&query,), value),
    ensures
        asks_for_page(json::json_of(value), page, per_page),
        json::json_of(value)->Object_0["query"@] == search::matching_tree(query.matching@),
{
    reveal_strlit("query");
    reveal_strlit("size");
    reveal_strlit("from");
    assert("size"@[0] == 's' && "from"@[0] == 'f');
    let members = json::json_of(value)->Object_0;
    assert(members.dom() =~= set!["query"@, "size"@, "from"@]);
    let asked = search::page_asked_for(page, per_page);
    assert(asked.current_page == at_least_one(page, 1));
    assert(asked.per_page == at_least_one(per_page, 10));
    let before = asked.crates_before();
    assert(before >= 0) by (nonlinear_arith)
        requires
            before == (asked.current_page - 1) * asked.per_page,
            asked.current_page >= 1,
    ;
}

proof fn lemma_match(field: Seq<char>, text: Seq<char>)
    ensures
        asks_to_match(search::match_tree(field, text), field, text),
{
    let tree = search::match_tree(field, text);
    let fields = tree->Object_0["match"@];
    assert(tree->Object_0.dom() =~= set!["match"@]);
    assert(fields->Object_0.dom() =~= set![field]);
    assert(holds_only(tree, "match"@, fields));
}

/// A list asks the search index for the page asked for of all crates.
pub proof fn law_list_asks_for_its_page(params: &ListParams, query: ElasticQuery, value: Value)
    requires
        call_ensures(ListParams::query, (params,), query),
        call_ensures(ElasticQuery::to_json, (&query,), value),
    ensures
        asks_for_page(json::json_of(value), params.page, params.per_page),
        asks_for_all(json::json_of(value)->Object_0["query"@]),
{
    lemma_query(query, params.page, params.per_page, value);
    let tree = json::json_of(value)->Object_0["query"@];
    assert(tree->Object_0.dom() =~= set!["match_all"@]);
}

/// Whether `rest` is what is left of `text` without white space around it.
pub open spec fn is_core_of(rest: Seq<char>, text: Seq<char>) -> bool {
    &&& exists|lead: Seq<char>, trail: Seq<char>|
        #![trigger lead + rest + trail]
        {
            &&& text == lead + rest + trail
            &&& forall|i: int| 0 <= i < lead.len() ==> text::is_white_space(#[trigger] lead[i])
            &&& forall|i: int| 0 <= i < trail.len() ==> text::is_white_space(#[trigger] trail[i])
        }
    &&& rest.len() > 0 ==> !text::is_white_space(rest[0]) && !text::is_white_space(
        rest[rest.len() - 1],
    )
}

proof fn lemma_trimmed(text: Seq<char>)
    ensures
        is_core_of(text::trimmed(text), text),
    decreases text.len(),
{
    let rest = text::trimmed(text);
    if text.len() == 0 {
        assert(text =~= Seq::empty() + rest + Seq::empty());
    } else if text::is_white_space(text.first()) {
        lemma_trimmed(text.drop_first());
        let (lead, trail) = choose|lead: Seq<char>, trail: Seq<char>|
            #![trigger lead + rest + trail]
            {
                &&& text.drop_first() == lead + rest + trail
                &&& forall|i: int| 0 <= i < lead.len() ==> text::is_white_space(#[trigger] lead[i])
                &&& forall|i: int|
                    0 <= i < trail.len() ==> text::is_white_space(#[trigger] trail[i])
            };
        let longer = seq![text.first()] + lead;
        assert(text.drop_first() == lead + rest + trail);
        assert(text =~= seq![text.first()] + text.drop_first());
        assert(text =~= longer + rest + trail);
        assert forall|i: int| 0 <= i < longer.len() implies text::is_white_space(
            #[trigger] longer[i],
        ) by {
            if i > 0 {
                assert(longer[i] == lead[i - 1]);
            }
        }
    } else if text::is_white_space(text.last()) {
        lemma_trimmed(text.drop_last());
        let (lead, trail) = choose|lead: Seq<char>, trail: Seq<char>|
            #![trigger lead + rest + trail]
            {
                &&& text.drop_last() == lead + rest + trail
                &&& forall|i: int| 0 <= i < lead.len() ==> text::is_white_space(#[trigger] lead[i])
                &&& forall|i: int|
                    0 <= i < trail.len() ==> text::is_white_space(#[trigger] trail[i])
            };
        let longer = trail.push(text.last());
        assert(text.drop_last() == lead + rest + trail);
        assert(text =~= text.drop_last().push(text.last()));
        assert(text =~= lead + rest + longer);
        assert forall|i: int| 0 <= i < longer.len() implies text::is_white_space(
            #[trigger] longer[i],
        ) by {
            if i < trail.len() {
                assert(longer[i] == trail[i]);
            }
        }
    } else {
        assert(text =~= Seq::empty() + rest + Seq::empty());
    }
}

/// A search asks the search index for the page asked for of the crates that
/// match: by the name alone where no version is named, or nothing but white
/// space, and otherwise by the name and by the version without white space
/// around it.
pub proof fn law_search_asks_for_its_page(params: &SearchParams, query: ElasticQuery, value: Value)
    requires
        call_ensures(SearchParams::query, (params,), query),
        call_ensures(ElasticQuery::to_json, (&query,), value),
    ensures
        asks_for_page(json::json_of(value), params.page, params.per_page),
        ({
            let tree = json::json_of(value)->Object_0["query"@];
            if params.version is None {
                asks_to_match(tree, "name"@, params.q@)
            } else {
                exists|version: Seq<char>| #[trigger]
                    is_core_of(version, params.version->Some_0@) && (if version.len() == 0 {
                        asks_to_match(tree, "name"@, params.q@)
                    } else {
                        asks_for_both(tree, params.q@, version)
                    })
            }
        }),
{
    lemma_query(query, params.page, params.per_page, value);
    let tree = json::json_of(value)->Object_0["query"@];
    lemma_match("name"@, params.q@);
    if params.version is Some {
        let version = text::trimmed(params.version->Some_0@);
        lemma_trimmed(params.version->Some_0@);
        assert(is_core_of(version, params.version->Some_0@));
        if version.len() > 0 {
            lemma_match("vers"@, version);
            let inner = tree->Object_0["bool"@];
            let parts = inner->Object_0["must"@]->Array_0;
            assert(tree->Object_0.dom() =~= set!["bool"@]);
            assert(inner->Object_0.dom() =~= set!["must"@]);
            assert(holds_only(inner, "must"@, JsonTree::Array(parts)));
            assert(asks_for_both(tree, params.q@, version));
        }
    }
}

/// What is asked for of a page and of the one after it differs in `from` alone,
/// which grows by exactly the size of a page, as far as 32 bits can tell.
pub proof fn law_next_page_begins_where_this_one_ends(
    params: &SearchParams,
    following: &SearchParams,
    query: ElasticQuery,
    following_query: ElasticQuery,
    value: Value,
    following_value: Value,
)
    requires
        params.q@ == following.q@,
        params.version == following.version,
        params.per_page == following.per_page,
        following.page is Some,
        following.page->Some_0 == at_least_one(params.page, 1) + 1,
        call_ensures(SearchParams::query, (params,), query),
        call_ensures(ElasticQuery::to_json, (&query,), value),
        call_ensures(SearchParams::query, (following,), following_query),
        call_ensures(ElasticQuery::to_json, (&following_query,), following_value),
    ensures
        ({
            let this = json::json_of(value)->Object_0;
            let next = json::json_of(following_value)->Object_0;
            let size = this["size"@]->Unsigned_0;
            &&& next["query"@] == this["query"@]
            &&& next["size"@] == this["size"@]
            &&& (next["from"@]->Unsigned_0 - this["from"@]->Unsigned_0 - size) % 0x1_0000_0000 == 0
            &&& at_least_one(params.page, 1) * size <= u32::MAX ==> next["from"@]->Unsigned_0
                == this["from"@]->Unsigned_0 + size
        }),
{
    lemma_query(query, params.page, params.per_page, value);
    lemma_query(following_query, following.page, following.per_page, following_value);
    let current = at_least_one(params.page, 1);
    let size = at_least_one(params.per_page, 10);
    assert((current + 1 - 1) * size == (current - 1) * size + size) by (nonlinear_arith);
    assert((current - 1) * size <= current * size) by (nonlinear_arith)
        requires
            size >= 1,
    ;
    assert(current * size == (current + 1 - 1) * size);
}

/// What stands under the name `key`: null where nothing does.
pub open spec fn value_at(tree: JsonTree, key: Seq<char>) -> JsonTree {
    if tree is Object && tree->Object_0.contains_key(key) {
        tree->Object_0[key]
    } else {
        JsonTree::Null
    }
}

/// Where an answer lists what was found.
pub open spec fn found_in(reply: JsonTree) -> JsonTree {
    value_at(value_at(reply, "hits"@), "hits"@)
}

/// Where an answer says how much was found.
pub open spec fn count_in(reply: JsonTree) -> JsonTree {
    value_at(value_at(value_at(reply, "hits"@), "total"@), "value"@)
}

/// Whether `shown` shows the JSON value `tree`: by its JSON text without the
/// quotes, which of a plain text is the text itself.
pub open spec fn is_shown_as(shown: Seq<char>, tree: JsonTree) -> bool {
    &&& shown == text::unquoted(json::json_text(tree))
    &&& tree is Text && json::is_plain(tree->Text_0) ==> shown == tree->Text_0
    &&& tree is Null ==> shown == "null"@
}

/// Whether an item shows what was found: its name, its version and, as its id,
/// both with a slash between them.
pub open spec fn item_shows(item: CrateItem, hit: JsonTree) -> bool {
    &&& is_shown_as(item.name@, value_at(value_at(hit, "_source"@), "name"@))
    &&& is_shown_as(item.version@, value_at(value_at(hit, "_source"@), "vers"@))
    &&& item.id@ == item.name@ + "/"@ + item.version@
}

/// Whether a package shows what was found: its name, its version and, as its
/// description, the name of the document.
pub open spec fn package_shows(package: CratePackage, hit: JsonTree) -> bool {
    &&& is_shown_as(package.name@, value_at(value_at(hit, "_source"@), "name"@))
    &&& is_shown_as(package.max_version@, value_at(value_at(hit, "_source"@), "vers"@))
    &&& package.description is Some
    &&& is_shown_as(package.description->Some_0@, value_at(hit, "_id"@))
}

/// A list shows exactly what the answer lists, in its order, and says how much
/// there is and which page of what size was asked for. It fails exactly where
/// the answer is no JSON or lists nothing.
pub proof fn law_list_shows_what_was_found(
    params: &ListParams,
    body: &str,
    listed: Result<CratesList, ReplyError>,
)
    requires
        call_ensures(search::list, (params, body), listed),
    ensures
        json::parsed_json(body@) is None <==> listed == Err::<CratesList, ReplyError>(
            ReplyError::Unparsable,
        ),
        json::parsed_json(body@) is Some && !(found_in(json::parsed_json(body@)->Some_0) is Array)
            <==> listed == Err::<CratesList, ReplyError>(ReplyError::NoHits),
        listed is Ok ==> {
            let reply = json::parsed_json(body@)->Some_0;
            let found = found_in(reply)->Array_0;
            let list = listed->Ok_0;
            &&& list.crates@.len() == found.len()
            &&& forall|i: int|
                0 <= i < found.len() ==> item_shows(#[trigger] list.crates@[i], found[i])
            &&& count_in(reply) is Unsigned ==> list.meta.total == count_in(reply)->Unsigned_0
            &&& !(count_in(reply) is Unsigned) ==> list.meta.total == 0
            &&& list.meta.current_page == at_least_one(params.page, 1)
            &&& list.meta.per_page == at_least_one(params.per_page, 10)
        },
{
    if listed is Ok {
        let reply = json::parsed_json(body@)->Some_0;
        let found = found_in(reply)->Array_0;
        let list = listed->Ok_0;
        assert forall|i: int| 0 <= i < found.len() implies item_shows(
            #[trigger] list.crates@[i],
            found[i],
        ) by {
            assert(search::lists(list.crates@[i]@, found[i]));
        }
    }
}

/// A search shows exactly what the answer lists, in its order, and says how
/// much there is. It fails exactly where the answer is no JSON, does not say
/// how much there is, or lists nothing.
pub proof fn law_search_shows_what_was_found(body: &str, searched: Result<Crates, ReplyError>)
    requires
        call_ensures(search::search, (body,), searched),
    ensures
        json::parsed_json(body@) is None <==> searched == Err::<Crates, ReplyError>(
            ReplyError::Unparsable,
        ),
        json::parsed_json(body@) is Some && !(count_in(json::parsed_json(body@)->Some_0)
            is Unsigned) <==> searched == Err::<Crates, ReplyError>(ReplyError::NoTotal),
        json::parsed_json(body@) is Some && count_in(json::parsed_json(body@)->Some_0)
            is Unsigned && !(found_in(json::parsed_json(body@)->Some_0) is Array) <==> searched
            == Err::<Crates, ReplyError>(ReplyError::NoHits),
        searched is Ok ==> {
            let reply = json::parsed_json(body@)->Some_0;
            let found = found_in(reply)->Array_0;
            let crates = searched->Ok_0;
            &&& crates.crates@.len() == found.len()
            &&& forall|i: int|
                0 <= i < found.len() ==> package_shows(#[trigger] crates.crates@[i], found[i])
            &&& crates.meta.total == count_in(reply)->Unsigned_0
        },
{
    if searched is Ok {
        let reply = json::parsed_json(body@)->Some_0;
        let found = found_in(reply)->Array_0;
        let crates = searched->Ok_0;
        assert forall|i: int| 0 <= i < found.len() implies package_shows(
            #[trigger] crates.crates@[i],
            found[i],
        ) by {
            let package = crates.crates@[i];
            assert(search::finds(package@, found[i]));
            assert(package@.description is Some);
        }
    }
}

/// Whether `text` is the JSON text of `tree`.
pub open spec fn is_json_of(text: Seq<char>, tree: JsonTree) -> bool {
    text == json::json_text(tree)
}

/// Reading an answer gives how much was found and, of all that was found and in
/// its order, the JSON texts of the document's name, the crate's name and its
/// version.
pub proof fn law_answer_is_read_as_it_is(body: &str, read: Result<Reply, ReplyError>)
    requires
        call_ensures(search::read_reply, (body,), read),
    ensures
        read is Ok <==> json::parsed_json(body@) is Some,
        read is Err ==> read->Err_0 == ReplyError::Unparsable,
        read is Ok ==> {
            let reply = json::parsed_json(body@)->Some_0;
            let count = count_in(reply);
            let found = found_in(reply);
            let read = read->Ok_0;
            &&& read.total == if count is Unsigned {
                Some(count->Unsigned_0)
            } else {
                None
            }
            &&& read.hits is Some <==> found is Array
            &&& read.hits is Some ==> {
                &&& read.hits->Some_0@.len() == found->Array_0.len()
                &&& forall|i: int|
                    #![trigger read.hits->Some_0@[i]]
                    0 <= i < found->Array_0.len() ==> {
                        let hit = read.hits->Some_0@[i];
                        let item = found->Array_0[i];
                        &&& is_json_of(hit.id@, value_at(item, "_id"@))
                        &&& is_json_of(hit.name@, value_at(value_at(item, "_source"@), "name"@))
                        &&& is_json_of(hit.vers@, value_at(value_at(item, "_source"@), "vers"@))
                    }
            }
        },
{
    if read is Ok && read->Ok_0.hits is Some {
        let found = found_in(json::parsed_json(body@)->Some_0)->Array_0;
        let hits = read->Ok_0.hits->Some_0@;
        assert forall|i: int|
            #![trigger hits[i]]
            0 <= i < found.len() implies is_json_of(hits[i].id@, value_at(found[i], "_id"@))
            && is_json_of(hits[i].name@, value_at(value_at(found[i], "_source"@), "name"@))
            && is_json_of(hits[i].vers@, value_at(value_at(found[i], "_source"@), "vers"@)) by {
            assert(search::reads_hit(hits[i], found[i]));
        }
    }
}

/// A page of a list has an item for each crate found, in the same order, with
/// its name and its version without quotes and both as its id. It is the page
/// that the search index was asked for: of its size, and from where it begins.
pub proof fn law_page_lists_the_crates_found(
    params: &ListParams,
    total: Option<u64>,
    hits: &Vec<Hit>,
    list: CratesList,
    query: ElasticQuery,
)
    requires
        call_ensures(search::list_page, (params, total, hits), list),
        call_ensures(ListParams::query, (params,), query),
    ensures
        list.crates@.len() == hits@.len(),
        forall|i: int|
            #![trigger list.crates@[i]]
            0 <= i < hits@.len() ==> {
                &&& list.crates@[i].name@ == text::unquoted(hits@[i].name@)
                &&& list.crates@[i].version@ == text::unquoted(hits@[i].vers@)
                &&& list.crates@[i].id@ == list.crates@[i].name@ + "/"@ + list.crates@[i].version@
            },
        total is Some ==> list.meta.total == total->Some_0,
        total is None ==> list.meta.total == 0,
        list.meta.per_page == query.size,
        list.meta.current_page == at_least_one(params.page, 1),
        (query.from - (list.meta.current_page - 1) * list.meta.per_page) % 0x1_0000_0000 == 0,
{
    assert forall|i: int|
        #![trigger list.crates@[i]]
        0 <= i < hits@.len() implies list.crates@[i].name@ == text::unquoted(hits@[i].name@)
        && list.crates@[i].version@ == text::unquoted(hits@[i].vers@) && list.crates@[i].id@
        == list.crates@[i].name@ + "/"@ + list.crates@[i].version@ by {
        assert(list.crates@[i]@ == search::item_for(hits@[i].name@, hits@[i].vers@));
    }
    let before = search::page_asked_for(params.page, params.per_page).crates_before();
    assert(before == (list.meta.current_page - 1) * list.meta.per_page);
}

/// A search has a package for each crate found, in the same order, with its
/// name, its version and, as its description, the document's name, all without
/// quotes.
pub proof fn law_search_shows_the_crates_found(total: u64, hits: &Vec<Hit>, found: Crates)
    requires
        call_ensures(search::search_page, (total, hits), found),
    ensures
        found.crates@.len() == hits@.len(),
        forall|i: int|
            #![trigger found.crates@[i]]
            0 <= i < hits@.len() ==> {
                &&& found.crates@[i].name@ == text::unquoted(hits@[i].name@)
                &&& found.crates@[i].max_version@ == text::unquoted(hits@[i].vers@)
                &&& found.crates@[i].description is Some
                &&& found.crates@[i].description->Some_0@ == text::unquoted(hits@[i].id@)
            },
        found.meta.total == total,
{
    assert forall|i: int|
        #![trigger found.crates@[i]]
        0 <= i < hits@.len() implies found.crates@[i].name@ == text::unquoted(hits@[i].name@)
        && found.crates@[i].max_version@ == text::unquoted(hits@[i].vers@)
        && found.crates@[i].description is Some && found.crates@[i].description->Some_0@
        == text::unquoted(hits@[i].id@) by {
        let package = found.crates@[i];
        assert(package@ == search::package_for(hits@[i].id@, hits@[i].name@, hits@[i].vers@));
        assert(package@.description == Some(text::unquoted(hits@[i].id@)));
    }
}

} // verus!
