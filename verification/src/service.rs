//! The two operations of the service, shorten and resolve, over the mapping
//! store, and the answers that their outcomes turn into.

use vstd::prelude::*;
use vstd::string::*;
use crate::code::{generate_code, is_short_code};
use crate::response::{
    not_found_view, plain_view, redirect_view, unavailable_view, Response, ResponseView,
    STATUS_BAD_REQUEST, STATUS_INTERNAL_ERROR, STATUS_OK,
};
use crate::store::{MappingView, MemoryStore, StoreError, StoreView, UrlMapping};

verus! {

/// How many candidate codes one shorten request may try.
pub const MAX_ATTEMPTS: u32 = 5;

/// Why a shorten request failed.
#[derive(Clone, Copy, Debug, PartialEq, Eq, Structural)]
pub enum ShortenError {
    /// The URL to shorten is missing or empty.
    Validation,
    /// Every candidate code that was tried is already taken.
    GenerationExhausted,
    /// The store could not be written.
    StoreUnavailable,
}

/// What to do once the store has answered an insert.
#[derive(Debug)]
pub enum Attempt {
    /// The row is written: the request is served.
    Stored(UrlMapping),
    /// The code was taken: try another, with this many attempts still allowed.
    Retry { attempts_left: u32 },
    /// Give up with this error.
    Failed(ShortenError),
}

/// What an `Attempt` is, mathematically.
pub enum AttemptView {
    Stored(MappingView),
    Retry { attempts_left: int },
    Failed(ShortenError),
}

impl View for Attempt {
    type V = AttemptView;

    open spec fn view(&self) -> AttemptView {
        match *self {
            Attempt::Stored(m) => AttemptView::Stored(m@),
            Attempt::Retry { attempts_left } => AttemptView::Retry {
                attempts_left: attempts_left as int,
            },
            Attempt::Failed(e) => AttemptView::Failed(e),
        }
    }
}

/// The decision after an insert that was made with `attempts_left` attempts
/// allowed, this one included.
pub open spec fn attempt_view(outcome: Result<MappingView, StoreError>, attempts_left: int) -> AttemptView {
    match outcome {
        Ok(m) => AttemptView::Stored(m),
        Err(StoreError::DuplicateCode) => if attempts_left > 1 {
            AttemptView::Retry { attempts_left: attempts_left - 1 }
        } else {
            AttemptView::Failed(ShortenError::GenerationExhausted)
        },
        Err(StoreError::Unavailable) => AttemptView::Failed(ShortenError::StoreUnavailable),
    }
}

/// The view of an insert's outcome.
pub open spec fn outcome_view(outcome: Result<UrlMapping, StoreError>) -> Result<MappingView, StoreError> {
    match outcome {
        Ok(m) => Ok(m@),
        Err(e) => Err(e),
    }
}

/// Whether a submitted URL is accepted: any text but the empty one is.
pub open spec fn validation_view(url: Seq<char>) -> Result<(), ShortenError> {
    if url.len() == 0 {
        Err(ShortenError::Validation)
    } else {
        Ok(())
    }
}

/// The fully-qualified short URL: `http://`, the server, a slash, the code.
pub open spec fn short_url_text(server: Seq<char>, code: Seq<char>) -> Seq<char> {
    "http://"@ + server + "/"@ + code
}

/// The body of a successful shorten answer.
pub open spec fn shorten_body_text(server: Seq<char>, code: Seq<char>) -> Seq<char> {
    "Your shortened URL is: "@ + short_url_text(server, code)
}

/// The answer to a shorten request with the given outcome.
pub open spec fn shorten_view(server: Seq<char>, outcome: Result<MappingView, ShortenError>) -> ResponseView {
    match outcome {
        Ok(m) => plain_view(STATUS_OK as int, shorten_body_text(server, m.short_code)),
        Err(ShortenError::Validation) => plain_view(
            STATUS_BAD_REQUEST as int,
            "original_url is required"@,
        ),
        Err(ShortenError::GenerationExhausted) => plain_view(
            STATUS_INTERNAL_ERROR as int,
            "No free short code"@,
        ),
        Err(ShortenError::StoreUnavailable) => unavailable_view(),
    }
}

/// The answer to a resolve request, given what the lookup found.
pub open spec fn resolve_view(found: Option<MappingView>) -> ResponseView {
    match found {
        Some(m) => redirect_view(m.original_url),
        None => not_found_view(),
    }
}

/// Every one of the first `n` candidates is taken in `store`.
pub open spec fn all_taken(store: StoreView, candidates: Seq<Seq<char>>, n: int) -> bool {
    forall|k: int| 0 <= k < n ==> store.contains_code(#[trigger] candidates[k])
}

/// `i` is the first candidate that `store` does not hold yet.
pub open spec fn is_first_free(store: StoreView, candidates: Seq<Seq<char>>, i: int) -> bool {
    &&& 0 <= i < candidates.len()
    &&& all_taken(store, candidates, i)
    &&& !store.contains_code(candidates[i])
}

/// The codes of a list of candidates.
pub open spec fn candidate_views(candidates: Seq<String>) -> Seq<Seq<char>> {
    Seq::new(candidates.len(), |i: int| candidates[i]@)
}

/// A URL to shorten must be present; nothing else is asked of it.
pub fn validate_url(original_url: &str) -> (res: Result<(), ShortenError>)
    ensures
        res == validation_view(original_url@),
{
    if original_url.is_empty() {
        Err(ShortenError::Validation)
    } else {
        Ok(())
    }
}

/// Decides what follows an insert: done, another candidate, or failure.
/// `attempts_left` counts the attempts allowed, the one just made included.
pub fn after_attempt(outcome: Result<UrlMapping, StoreError>, attempts_left: u32) -> (next: Attempt)
    ensures
        next@ == attempt_view(outcome_view(outcome), attempts_left as int),
{
    match outcome {
        Ok(m) => Attempt::Stored(m),
        Err(StoreError::DuplicateCode) => {
            if attempts_left > 1 {
                Attempt::Retry { attempts_left: attempts_left - 1 }
            } else {
                Attempt::Failed(ShortenError::GenerationExhausted)
            }
        },
        Err(StoreError::Unavailable) => Attempt::Failed(ShortenError::StoreUnavailable),
    }
}

/// Builds the fully-qualified short URL for a code.
pub fn short_url(server: &str, code: &str) -> (url: String)
    ensures
        url@ == short_url_text(server@, code@),
{
    let mut url = String::from_str("http://");
    url.append(server);
    url.append("/");
    url.append(code);
    url
}

/// The index of the first candidate that `store` does not hold yet.
pub open spec fn first_free(store: StoreView, candidates: Seq<Seq<char>>) -> Option<int> {
    if exists|i: int| is_first_free(store, candidates, i) {
        Some(choose|i: int| is_first_free(store, candidates, i))
    } else {
        None
    }
}

/// What shortening `url` with the given candidates returns, and the store
/// that it leaves behind.
pub open spec fn shorten_outcome(
    store: StoreView,
    candidates: Seq<Seq<char>>,
    url: Seq<char>,
    created_at: int,
) -> (Result<MappingView, ShortenError>, StoreView) {
    if url.len() == 0 {
        (Err(ShortenError::Validation), store)
    } else {
        match first_free(store, candidates) {
            None => (Err(ShortenError::GenerationExhausted), store),
            Some(i) => if store.next_id >= u64::MAX {
                (Err(ShortenError::StoreUnavailable), store)
            } else {
                (
                    Ok(store.new_row(candidates[i], url, created_at)),
                    store.with_row(candidates[i], url, created_at),
                )
            },
        }
    }
}

/// The view of a shorten request's outcome.
pub open spec fn result_view(res: Result<UrlMapping, ShortenError>) -> Result<MappingView, ShortenError> {
    match res {
        Ok(m) => Ok(m@),
        Err(e) => Err(e),
    }
}

/// There is at most one first free candidate.
pub proof fn lemma_first_free_unique(store: StoreView, candidates: Seq<Seq<char>>, i: int)
    requires
        is_first_free(store, candidates, i),
    ensures
        first_free(store, candidates) == Some(i),
{
    let k = choose|k: int| is_first_free(store, candidates, k);
    if k < i {
        assert(store.contains_code(candidates[k]));
    } else if i < k {
        assert(store.contains_code(candidates[i]));
    }
}

/// Where every candidate is taken, none is free.
pub proof fn lemma_all_taken_none_free(store: StoreView, candidates: Seq<Seq<char>>)
    requires
        all_taken(store, candidates, candidates.len() as int),
    ensures
        first_free(store, candidates).is_none(),
{
    assert forall|i: int| !is_first_free(store, candidates, i) by {
        if 0 <= i < candidates.len() {
            assert(store.contains_code(candidates[i]));
        }
    }
}

/// Shortens `original_url` with the given candidate codes, tried in order:
/// the first one that the store does not hold yet becomes the mapping's code.
/// With no free candidate the request fails and the store stays as it was.
pub fn shorten_with_candidates(
    store: &mut MemoryStore,
    candidates: &Vec<String>,
    original_url: &str,
    created_at: i64,
) -> (res: Result<UrlMapping, ShortenError>)
    requires
        old(store)@.wf(),
    ensures
        final(store)@.wf(),
        result_view(res) == shorten_outcome(
            old(store)@,
            candidate_views(candidates@),
            original_url@,
            created_at as int,
        ).0,
        final(store)@ == shorten_outcome(
            old(store)@,
            candidate_views(candidates@),
            original_url@,
            created_at as int,
        ).1,
{
    if validate_url(original_url).is_err() {
        return Err(ShortenError::Validation);
    }
    let ghost codes = candidate_views(candidates@);
    let ghost before = store@;
    let mut i: usize = 0;
    while i < candidates.len()
        invariant
            i <= candidates.len(),
            store@ == before,
            before == old(store)@,
            before.wf(),
            original_url@.len() > 0,
            codes == candidate_views(candidates@),
            all_taken(before, codes, i as int),
        decreases candidates.len() - i,
    {
        assert(codes[i as int] == candidates@[i as int]@);
        let outcome = store.insert(candidates[i].as_str(), original_url, created_at);
        match outcome {
            Ok(m) => {
                proof {
                    lemma_first_free_unique(before, codes, i as int);
                }
                return Ok(m);
            },
            Err(StoreError::Unavailable) => {
                proof {
                    lemma_first_free_unique(before, codes, i as int);
                }
                return Err(ShortenError::StoreUnavailable);
            },
            Err(StoreError::DuplicateCode) => {},
        }
        i += 1;
    }
    proof {
        lemma_all_taken_none_free(before, codes);
    }
    Err(ShortenError::GenerationExhausted)
}

/// Codes that one shorten request may have drawn: well-formed, and no more
/// of them than `MAX_ATTEMPTS`.
pub open spec fn is_draw_sequence(drawn: Seq<Seq<char>>) -> bool {
    &&& drawn.len() <= MAX_ATTEMPTS
    &&& forall|i: int| 0 <= i < drawn.len() ==> is_short_code(#[trigger] drawn[i])
}

/// A shorten that drew the codes `drawn`, in this order, returns `res` and
/// leaves `after`: it is the shorten with those candidates, and it gave up
/// for want of a free code only after `MAX_ATTEMPTS` draws.
pub open spec fn explained_by_draws(
    before: StoreView,
    drawn: Seq<Seq<char>>,
    url: Seq<char>,
    created_at: int,
    res: Result<MappingView, ShortenError>,
    after: StoreView,
) -> bool {
    &&& is_draw_sequence(drawn)
    &&& shorten_outcome(before, drawn, url, created_at) == (res, after)
    &&& res == Err::<MappingView, ShortenError>(ShortenError::GenerationExhausted)
        ==> drawn.len() == MAX_ATTEMPTS
}

/// Shortens `original_url`: draws random codes until one is free, at most
/// `MAX_ATTEMPTS` of them, and writes the mapping under it.
///
/// Which code is drawn is a matter of chance, so is whether a draw collides.
/// Whatever was drawn, the outcome is that of `shorten_with_candidates` on
/// the codes drawn. In an empty store nothing can collide: there a present
/// URL is always shortened, as long as an identifier is left for it.
pub fn shorten(store: &mut MemoryStore, original_url: &str, created_at: i64) -> (res: Result<
    UrlMapping,
    ShortenError,
>)
    requires
        old(store)@.wf(),
    ensures
        final(store)@.wf(),
        exists|drawn: Seq<Seq<char>>|
            explained_by_draws(
                old(store)@,
                drawn,
                original_url@,
                created_at as int,
                result_view(res),
                final(store)@,
            ),
        original_url@.len() > 0 && old(store)@.rows.len() == 0 && old(store)@.next_id < u64::MAX
            ==> res.is_ok(),
        match res {
            Ok(m) => {
                &&& original_url@.len() > 0
                &&& is_short_code(m@.short_code)
                &&& !old(store)@.contains_code(m@.short_code)
                &&& old(store)@.next_id < u64::MAX
                &&& m@ == old(store)@.new_row(m@.short_code, original_url@, created_at as int)
                &&& final(store)@ == old(store)@.with_row(
                    m@.short_code,
                    original_url@,
                    created_at as int,
                )
            },
            Err(ShortenError::Validation) => {
                &&& original_url@.len() == 0
                &&& final(store)@ == old(store)@
            },
            Err(ShortenError::GenerationExhausted) => {
                &&& original_url@.len() > 0
                &&& old(store)@.rows.len() > 0
                &&& final(store)@ == old(store)@
            },
            Err(ShortenError::StoreUnavailable) => {
                &&& original_url@.len() > 0
                &&& old(store)@.next_id == u64::MAX
                &&& final(store)@ == old(store)@
            },
        },
{
    let ghost before = store@;
    let ghost url = original_url@;
    let ghost time = created_at as int;
    if validate_url(original_url).is_err() {
        assert(explained_by_draws(
            before,
            Seq::<Seq<char>>::empty(),
            url,
            time,
            Err(ShortenError::Validation),
            before,
        ));
        return Err(ShortenError::Validation);
    }
    let ghost mut drawn: Seq<Seq<char>> = Seq::empty();
    let mut attempts_left: u32 = MAX_ATTEMPTS;
    loop
        invariant
            store@ == before,
            before == old(store)@,
            before.wf(),
            url == original_url@,
            time == created_at as int,
            url.len() > 0,
            1 <= attempts_left <= MAX_ATTEMPTS,
            drawn.len() == MAX_ATTEMPTS - attempts_left,
            is_draw_sequence(drawn),
            all_taken(before, drawn, drawn.len() as int),
        decreases attempts_left,
    {
        let code = generate_code();
        let outcome = store.insert(code.as_str(), original_url, created_at);
        let ghost earlier = drawn;
        proof {
            drawn = earlier.push(code@);
            assert forall|k: int| 0 <= k < earlier.len() implies before.contains_code(
                #[trigger] drawn[k],
            ) by {
                assert(drawn[k] == earlier[k]);
            }
            if outcome.is_err() && outcome != Err::<UrlMapping, StoreError>(
                StoreError::Unavailable,
            ) {
                lemma_all_taken_none_free(before, drawn);
            } else {
                lemma_first_free_unique(before, drawn, earlier.len() as int);
            }
        }
        match after_attempt(outcome, attempts_left) {
            Attempt::Stored(m) => {
                assert(explained_by_draws(before, drawn, url, time, Ok(m@), store@));
                return Ok(m);
            },
            Attempt::Retry { attempts_left: left } => {
                attempts_left = left;
            },
            Attempt::Failed(e) => {
                assert(explained_by_draws(before, drawn, url, time, Err(e), store@));
                return Err(e);
            },
        }
    }
}

/// The answer to a shorten request, given its outcome.
pub fn shorten_response(server: &str, outcome: &Result<UrlMapping, ShortenError>) -> (response: Response)
    ensures
        response@ == shorten_view(server@, result_view(*outcome)),
{
    match outcome {
        Ok(m) => {
            let mut body = String::from_str("Your shortened URL is: ");
            let url = short_url(server, m.short_code.as_str());
            body.append(url.as_str());
            Response::plain(STATUS_OK, body)
        },
        Err(ShortenError::Validation) => Response::plain(
            STATUS_BAD_REQUEST,
            String::from_str("original_url is required"),
        ),
        Err(ShortenError::GenerationExhausted) => Response::plain(
            STATUS_INTERNAL_ERROR,
            String::from_str("No free short code"),
        ),
        Err(ShortenError::StoreUnavailable) => Response::unavailable(),
    }
}

/// The answer to a resolve request, given what the lookup found: a temporary
/// redirect to the stored URL, or not-found without a redirect.
pub fn resolve_response(found: &Option<UrlMapping>) -> (response: Response)
    ensures
        response@ == resolve_view(
            match *found {
                Some(m) => Some(m@),
                None => None,
            },
        ),
{
    match found {
        Some(m) => Response::redirect(m.original_url.as_str()),
        None => Response::not_found(),
    }
}

/// Resolves a short code against the store.
pub fn resolve(store: &MemoryStore, short_code: &str) -> (response: Response)
    requires
        store@.wf(),
    ensures
        response@ == resolve_view(store@.find(short_code@)),
{
    let found = store.lookup(short_code);
    resolve_response(&found)
}

} // verus!
