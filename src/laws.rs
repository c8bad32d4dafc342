//! Properties that hold across the operations of the library, stated over
//! the abstract models that the operations' contracts use.
use vstd::prelude::*;

use crate::bundle::text_of;
use crate::locale::{ascii_upper, detected_index, language_subtag};
use crate::resolver::ResolverModel;

verus! {

/// Selecting `requested` and then reading the active index gives
/// `requested` when it is below the number of languages, and 0 otherwise,
/// in particular whenever there are no languages.
pub proof fn lemma_selection_is_clamped(s: ResolverModel, requested: nat)
    ensures
        s.select(requested).index == (if requested < s.bundles.len() {
            requested
        } else {
            0
        }),
{
}

/// Resolution is a function of the active index and the name alone: two
/// states with the same catalog and the same active index resolve every
/// name alike, and subscribing or unsubscribing in between changes nothing.
pub proof fn lemma_resolve_is_pure(s: ResolverModel, t: ResolverModel, name: Seq<char>, id: u64)
    requires
        s.bundles == t.bundles,
        s.index == t.index,
    ensures
        s.resolve(name) == t.resolve(name),
        s.subscribe().resolve(name) == s.resolve(name),
        s.unsubscribe(id).resolve(name) == s.resolve(name),
{
}

/// After selecting a language that exists, every name resolves to what
/// that language's own bundle holds, whatever was active before.
pub proof fn lemma_select_then_resolve(s: ResolverModel, requested: nat, name: Seq<char>)
    requires
        requested < s.bundles.len(),
    ensures
        s.select(requested).resolve(name) == text_of(s.bundles[requested as int].resources, name),
{
}

/// A name that the active bundle lacks resolves to nothing, even where
/// other bundles hold it.
pub proof fn lemma_no_cross_language_fallback(s: ResolverModel, name: Seq<char>)
    requires
        s.index < s.bundles.len() ==> text_of(s.bundles[s.index as int].resources, name) is None,
    ensures
        s.resolve(name) is None,
{
}

/// Detection looks at the language subtag only, without regard to ASCII
/// case: two locales whose first two characters agree up to case select the
/// same language, whatever follows them.
pub proof fn lemma_detect_ignores_case_and_region(a: Seq<char>, b: Seq<char>, codes: Seq<Seq<char>>)
    requires
        a.len() >= 2,
        b.len() >= 2,
        ascii_upper(a[0]) == ascii_upper(b[0]),
        ascii_upper(a[1]) == ascii_upper(b[1]),
    ensures
        detected_index(Some(a), codes) == detected_index(Some(b), codes),
{
    assert(language_subtag(a) == language_subtag(b));
}

/// An absent locale selects no language.
pub proof fn lemma_absent_locale_detects_nothing(codes: Seq<Seq<char>>)
    ensures
        detected_index(None, codes) is None,
{
}

/// After any selection every live subscriber is notified, in registration
/// order, and each notification carries the index that is active after the
/// selection, never the one before it.
pub proof fn lemma_subscribers_observe_new_index(s: ResolverModel, requested: nat)
    ensures
        s.select(requested).notifications().len() == s.subscribers.len(),
        forall|k: int|
            0 <= k < s.subscribers.len() ==> #[trigger] s.select(requested).notifications()[k] == (
            s.subscribers[k],
            s.select(requested).index,
        ),
{
}

} // verus!
