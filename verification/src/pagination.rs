//! How a caller goes through a paginated collection, and what it then holds.
//!
//! A page carries its items and, unless it is the last one, a token. The
//! caller hands that token to the next call as it got it. The functions here
//! say what comes of doing so until a page has no token.
use vstd::prelude::*;
use crate::error::FleetErrorView;
use crate::json::JsonView;
use crate::serialize::{
    collection_of, each_of, machine_of, machine_page_of, next_page_token_of, optional_array,
    unit_of, unit_page_of, unit_state_of, unit_state_page_of,
};

verus! {

/// The items that a caller has after going through a collection: it asks
/// for the page behind `token`, keeps the items, and asks again with the
/// token of that page, until a page has none or `calls` pages were asked
/// for. `serve` is what the daemon answers to a token, `key` the name of the
/// array in its envelopes, `decode` the decoder of one item.
pub open spec fn walk<T>(
    serve: spec_fn(Option<Seq<char>>) -> JsonView,
    key: Seq<char>,
    decode: spec_fn(JsonView) -> Result<T, FleetErrorView>,
    token: Option<Seq<char>>,
    calls: nat,
) -> Result<Seq<T>, FleetErrorView>
    decreases calls,
{
    if calls == 0 {
        Ok(Seq::empty())
    } else {
        match collection_of(serve(token), key, decode) {
            Err(e) => Err(e),
            Ok(items) => match next_page_token_of(serve(token)) {
                None => Ok(items),
                Some(next) => match walk(serve, key, decode, Some(next), (calls - 1) as nat) {
                    Err(e) => Err(e),
                    Ok(rest) => Ok(items + rest),
                },
            },
        }
    }
}

/// The token that leads to page `i`: none for the first page, and for every
/// other page the token that came with the page before.
pub open spec fn token_to(tokens: Seq<Seq<char>>, i: int) -> Option<Seq<char>> {
    if i == 0 {
        None
    } else {
        Some(tokens[i - 1])
    }
}

/// Whether `serve` hands out `pages` one by one: the first page to a call
/// without a token, every page but the last together with the token that
/// leads to the next one, and the last page without a token.
pub open spec fn serves_pages(
    serve: spec_fn(Option<Seq<char>>) -> JsonView,
    key: Seq<char>,
    pages: Seq<Seq<JsonView>>,
    tokens: Seq<Seq<char>>,
) -> bool {
    &&& pages.len() >= 1
    &&& tokens.len() == pages.len() - 1
    &&& forall|i: int|
        0 <= i < pages.len() ==> {
            &&& optional_array(#[trigger] serve(token_to(tokens, i)), key) == Ok::<
                Seq<JsonView>,
                FleetErrorView,
            >(pages[i])
            &&& next_page_token_of(serve(token_to(tokens, i))) == if i < pages.len() - 1 {
                Some(tokens[i])
            } else {
                None
            }
        }
}

/// The items of the pages from page `from` on, in order.
pub open spec fn items_from(pages: Seq<Seq<JsonView>>, from: int) -> Seq<JsonView>
    decreases pages.len() - from,
{
    if from < 0 || from >= pages.len() {
        Seq::empty()
    } else {
        pages[from] + items_from(pages, from + 1)
    }
}

/// Decoding two sequences one after the other is decoding the two joined.
pub proof fn lemma_each_of_joined<T>(
    first: Seq<JsonView>,
    second: Seq<JsonView>,
    decode: spec_fn(JsonView) -> Result<T, FleetErrorView>,
)
    requires
        each_of(first, decode) is Ok,
        each_of(second, decode) is Ok,
    ensures
        each_of(first + second, decode) == Ok::<Seq<T>, FleetErrorView>(
            each_of(first, decode)->Ok_0 + each_of(second, decode)->Ok_0,
        ),
    decreases second.len(),
{
    if second.len() == 0 {
        assert(first + second =~= first);
        assert(each_of(first, decode)->Ok_0 + each_of(second, decode)->Ok_0 =~= each_of(
            first,
            decode,
        )->Ok_0);
    } else {
        lemma_each_of_joined(first, second.drop_last(), decode);
        assert((first + second).drop_last() =~= first + second.drop_last());
        assert((first + second).last() == second.last());
        let head = each_of(first, decode)->Ok_0;
        let middle = each_of(second.drop_last(), decode)->Ok_0;
        let item = decode(second.last())->Ok_0;
        assert((head + middle).push(item) =~= head + middle.push(item));
    }
}

/// Going through the pages from page `from` on yields the items of those
/// pages, each decoded once and in the order in which the daemon holds them.
pub proof fn lemma_walk_from<T>(
    serve: spec_fn(Option<Seq<char>>) -> JsonView,
    key: Seq<char>,
    decode: spec_fn(JsonView) -> Result<T, FleetErrorView>,
    pages: Seq<Seq<JsonView>>,
    tokens: Seq<Seq<char>>,
    from: int,
)
    requires
        serves_pages(serve, key, pages, tokens),
        forall|i: int| 0 <= i < pages.len() ==> each_of(#[trigger] pages[i], decode) is Ok,
        0 <= from < pages.len(),
    ensures
        each_of(items_from(pages, from), decode) is Ok,
        walk(serve, key, decode, token_to(tokens, from), (pages.len() - from) as nat) == each_of(
            items_from(pages, from),
            decode,
        ),
    decreases pages.len() - from,
{
    let envelope = serve(token_to(tokens, from));
    assert(optional_array(envelope, key) == Ok::<Seq<JsonView>, FleetErrorView>(pages[from]));
    assert(each_of(pages[from], decode) is Ok);
    if from == pages.len() - 1 {
        assert(items_from(pages, from + 1) =~= Seq::<JsonView>::empty());
        assert(items_from(pages, from) =~= pages[from]);
    } else {
        lemma_walk_from(serve, key, decode, pages, tokens, from + 1);
        lemma_each_of_joined(pages[from], items_from(pages, from + 1), decode);
        assert(token_to(tokens, from + 1) == Some(tokens[from]));
    }
}

/// Pagination: a first call without a token, followed by calls that each
/// carry the token of the page before, yields every item of the collection
/// exactly once and in order, and ends with the page that has no token.
pub proof fn lemma_walk_enumerates_all<T>(
    serve: spec_fn(Option<Seq<char>>) -> JsonView,
    key: Seq<char>,
    decode: spec_fn(JsonView) -> Result<T, FleetErrorView>,
    pages: Seq<Seq<JsonView>>,
    tokens: Seq<Seq<char>>,
)
    requires
        serves_pages(serve, key, pages, tokens),
        forall|i: int| 0 <= i < pages.len() ==> each_of(#[trigger] pages[i], decode) is Ok,
    ensures
        walk(serve, key, decode, None, pages.len()) == each_of(items_from(pages, 0), decode),
        walk(serve, key, decode, None, pages.len()) is Ok,
        next_page_token_of(serve(token_to(tokens, pages.len() - 1))) is None,
{
    lemma_walk_from(serve, key, decode, pages, tokens, 0);
}

/// A page that the client decodes is one step of [`walk`]: its items are
/// the collection of the envelope, and its token is the token of the
/// envelope.
pub proof fn lemma_pages_are_steps(envelope: JsonView)
    ensures
        unit_page_of(envelope) matches Ok(page) ==> collection_of(
            envelope,
            "units"@,
            |item: JsonView| unit_of(item),
        ) == Ok::<_, FleetErrorView>(page.units) && page.next_page_token == next_page_token_of(
            envelope,
        ),
        machine_page_of(envelope) matches Ok(page) ==> collection_of(
            envelope,
            "machines"@,
            |item: JsonView| machine_of(item),
        ) == Ok::<_, FleetErrorView>(page.machines) && page.next_page_token
            == next_page_token_of(envelope),
        unit_state_page_of(envelope) matches Ok(page) ==> collection_of(
            envelope,
            "states"@,
            |item: JsonView| unit_state_of(item),
        ) == Ok::<_, FleetErrorView>(page.states) && page.next_page_token == next_page_token_of(
            envelope,
        ),
{
}

} // verus!
