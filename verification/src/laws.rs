//! What holds of the service as a whole, stated over the models that the
//! contracts of the store and of the two operations use.

use vstd::prelude::*;
use crate::response::{not_found_view, redirect_view, STATUS_NOT_FOUND, STATUS_TEMPORARY_REDIRECT};
use crate::service::{first_free, is_first_free, resolve_view, shorten_outcome};
use crate::store::{lemma_find_row, lemma_with_row_wf, StoreView};

verus! {

/// A successful shorten with given candidates is one write under a code
/// that the store did not hold: the step that the other laws speak of.
pub proof fn law_shorten_is_one_write(
    store: StoreView,
    candidates: Seq<Seq<char>>,
    url: Seq<char>,
    created_at: int,
)
    requires
        shorten_outcome(store, candidates, url, created_at).0.is_ok(),
    ensures
        ({
            let outcome = shorten_outcome(store, candidates, url, created_at);
            let m = outcome.0.unwrap();
            &&& url.len() > 0
            &&& m == store.new_row(m.short_code, url, created_at)
            &&& !store.contains_code(m.short_code)
            &&& outcome.1 == store.with_row(m.short_code, url, created_at)
        }),
{
    let i = first_free(store, candidates).unwrap();
    assert(is_first_free(store, candidates, i));
}

/// A failed shorten leaves the store as it was.
pub proof fn law_failed_shorten_writes_nothing(
    store: StoreView,
    candidates: Seq<Seq<char>>,
    url: Seq<char>,
    created_at: int,
)
    requires
        shorten_outcome(store, candidates, url, created_at).0.is_err(),
    ensures
        shorten_outcome(store, candidates, url, created_at).1 == store,
{
}

/// Round trip: once a URL is stored under a fresh code, resolving that code
/// answers with a temporary redirect to exactly that URL.
pub proof fn law_round_trip(store: StoreView, code: Seq<char>, url: Seq<char>, created_at: int)
    requires
        store.wf(),
        !store.contains_code(code),
    ensures
        store.with_row(code, url, created_at).find(code) == Some(
            store.new_row(code, url, created_at),
        ),
        resolve_view(store.with_row(code, url, created_at).find(code)) == redirect_view(url),
{
    let after = store.with_row(code, url, created_at);
    lemma_with_row_wf(store, code, url, created_at);
    lemma_find_row(after, store.rows.len() as int);
}

/// Round trip through shorten: the code that a successful shorten returns
/// resolves, in the store that it leaves behind, to a temporary redirect to
/// exactly the URL that was submitted.
pub proof fn law_shorten_then_resolve(
    store: StoreView,
    candidates: Seq<Seq<char>>,
    url: Seq<char>,
    created_at: int,
)
    requires
        store.wf(),
        shorten_outcome(store, candidates, url, created_at).0.is_ok(),
    ensures
        resolve_view(
            shorten_outcome(store, candidates, url, created_at).1.find(
                shorten_outcome(store, candidates, url, created_at).0.unwrap().short_code,
            ),
        ) == redirect_view(url),
{
    let code = shorten_outcome(store, candidates, url, created_at).0.unwrap().short_code;
    law_shorten_is_one_write(store, candidates, url, created_at);
    law_round_trip(store, code, url, created_at);
}

/// Mappings are never changed: what a code resolved to before a write, it
/// resolves to after it.
pub proof fn law_writes_keep_mappings(
    store: StoreView,
    earlier: Seq<char>,
    code: Seq<char>,
    url: Seq<char>,
    created_at: int,
)
    requires
        store.wf(),
        store.contains_code(earlier),
        !store.contains_code(code),
    ensures
        store.with_row(code, url, created_at).find(earlier) == store.find(earlier),
{
    let after = store.with_row(code, url, created_at);
    let i = choose|i: int| 0 <= i < store.rows.len() && (#[trigger] store.rows[i]).short_code == earlier;
    lemma_with_row_wf(store, code, url, created_at);
    lemma_find_row(store, i);
    assert(after.rows[i] == store.rows[i]);
    lemma_find_row(after, i);
}

/// Codes are unique: two writes, each under a code that the store did not
/// hold at its time, carry different codes and different identifiers, and the
/// store that results holds no code twice.
pub proof fn law_codes_are_unique(
    store: StoreView,
    first_code: Seq<char>,
    first_url: Seq<char>,
    first_time: int,
    second_code: Seq<char>,
    second_url: Seq<char>,
    second_time: int,
)
    requires
        store.wf(),
        !store.contains_code(first_code),
        !store.with_row(first_code, first_url, first_time).contains_code(second_code),
    ensures
        first_code != second_code,
        store.new_row(first_code, first_url, first_time).id != store.with_row(
            first_code,
            first_url,
            first_time,
        ).new_row(second_code, second_url, second_time).id,
        store.with_row(first_code, first_url, first_time).with_row(
            second_code,
            second_url,
            second_time,
        ).unique_codes(),
{
    let middle = store.with_row(first_code, first_url, first_time);
    lemma_with_row_wf(store, first_code, first_url, first_time);
    lemma_with_row_wf(middle, second_code, second_url, second_time);
    assert(middle.rows[store.rows.len() as int].short_code == first_code);
}

/// A code that was never issued resolves to not-found: status 404, no
/// `Location`, never a redirect.
pub proof fn law_unissued_code_is_not_found(store: StoreView, code: Seq<char>)
    requires
        !store.contains_code(code),
    ensures
        resolve_view(store.find(code)) == not_found_view(),
        resolve_view(store.find(code)).status == STATUS_NOT_FOUND,
        resolve_view(store.find(code)).status != STATUS_TEMPORARY_REDIRECT,
        resolve_view(store.find(code)).location.is_none(),
{
}

/// Codes are drawn, not derived from the URL: shortening the same URL twice
/// gives two different codes, and both resolve to that URL.
pub proof fn law_same_url_twice(
    store: StoreView,
    first_code: Seq<char>,
    second_code: Seq<char>,
    url: Seq<char>,
    first_time: int,
    second_time: int,
)
    requires
        store.wf(),
        !store.contains_code(first_code),
        !store.with_row(first_code, url, first_time).contains_code(second_code),
    ensures
        first_code != second_code,
        resolve_view(
            store.with_row(first_code, url, first_time).with_row(
                second_code,
                url,
                second_time,
            ).find(first_code),
        ) == redirect_view(url),
        resolve_view(
            store.with_row(first_code, url, first_time).with_row(
                second_code,
                url,
                second_time,
            ).find(second_code),
        ) == redirect_view(url),
{
    let middle = store.with_row(first_code, url, first_time);
    law_codes_are_unique(store, first_code, url, first_time, second_code, url, second_time);
    law_round_trip(store, first_code, url, first_time);
    lemma_with_row_wf(store, first_code, url, first_time);
    assert(middle.rows[store.rows.len() as int].short_code == first_code);
    assert(middle.contains_code(first_code));
    law_writes_keep_mappings(middle, first_code, second_code, url, second_time);
    law_round_trip(middle, second_code, url, second_time);
}

} // verus!
