use vstd::prelude::*;

use crate::bundle::{codes_of, lookup_model, text_view, BundleModel, ContentBundleStore};
use crate::locale::{detect, detected_index, lemma_detected_index_in_range, locale_view};

verus! {

/// The index used for a selection of `requested` among `n` languages: the
/// requested one where it exists, otherwise the first.
pub open spec fn clamped_index(requested: int, n: int) -> int {
    if 0 <= requested < n {
        requested
    } else {
        0
    }
}

/// A language selection: an index into the catalog, which may be out of
/// range when it was set before the catalog was known.
#[derive(Clone, Copy, PartialEq, Eq, Structural, Debug)]
pub struct Language {
    pub index: usize,
}

impl Language {
    /// The text of `filename` under this selection. An index beyond the
    /// catalog falls back to the first language; an empty catalog has no
    /// text at all. No other language is consulted when the file is missing.
    pub fn load_file<'a>(&self, store: &'a ContentBundleStore, filename: &str) -> (r: Option<
        &'a str,
    >)
        ensures
            text_view(r) == lookup_model(
                store@,
                clamped_index(self.index as int, store@.len() as int),
                filename@,
            ),
    {
        let n = store.len();
        if n == 0 {
            return None;
        }
        let index = if self.index < n {
            self.index
        } else {
            0
        };
        store.lookup(index, filename)
    }
}

impl Default for Language {
    /// The process-wide default selection: the first language.
    fn default() -> (r: Self)
        ensures
            r.index == 0,
    {
        Language { index: 0 }
    }
}

/// Identifies one subscription to language changes.
#[derive(Clone, Copy, PartialEq, Eq, Structural, Hash, Debug)]
pub struct SubscriptionHandle {
    id: u64,
}

impl View for SubscriptionHandle {
    type V = u64;

    closed spec fn view(&self) -> u64 {
        self.id
    }
}

/// What one subscriber is told after a change of language: the index that
/// is active once the change is complete.
#[derive(Clone, Copy, PartialEq, Eq, Structural, Debug)]
pub struct Notification {
    pub handle: SubscriptionHandle,
    pub index: usize,
}

/// The notifications of a sequence, as (subscriber, index) pairs.
pub open spec fn notices_view(ns: Seq<Notification>) -> Seq<(u64, nat)> {
    ns.map_values(|n: Notification| (n.handle@, n.index as nat))
}

/// Abstract state of a resolver.
pub ghost struct ResolverModel {
    /// The catalog, which never changes.
    pub bundles: Seq<BundleModel>,
    /// The active language.
    pub index: nat,
    /// Identifiers of the live subscriptions, in registration order.
    pub subscribers: Seq<u64>,
    /// The identifier that the next subscription receives.
    pub next_id: nat,
}

impl ResolverModel {
    /// The active index names a bundle (or is 0 for an empty catalog), and
    /// every live subscription was handed out before `next_id`.
    pub open spec fn wf(self) -> bool {
        &&& (if self.bundles.len() == 0 {
            self.index == 0
        } else {
            self.index < self.bundles.len()
        })
        &&& forall|k: int| 0 <= k < self.subscribers.len() ==> #[trigger] self.subscribers[k] < self.next_id
    }

    /// The state after selecting `requested`: out-of-range requests select
    /// the first language.
    pub open spec fn select(self, requested: nat) -> Self {
        ResolverModel {
            index: clamped_index(requested as int, self.bundles.len() as int) as nat,
            ..self
        }
    }

    /// What a resource name resolves to in this state.
    pub open spec fn resolve(self, name: Seq<char>) -> Option<Seq<char>> {
        lookup_model(self.bundles, self.index as int, name)
    }

    /// The state after one more subscription.
    pub open spec fn subscribe(self) -> Self {
        ResolverModel {
            subscribers: self.subscribers.push(self.next_id as u64),
            next_id: self.next_id + 1,
            ..self
        }
    }

    /// The state after dropping the subscription `id`.
    pub open spec fn unsubscribe(self, id: u64) -> Self {
        ResolverModel { subscribers: self.subscribers.filter(|h: u64| h != id), ..self }
    }

    /// The notifications owed in this state: one per live subscription, in
    /// registration order, each carrying the active index.
    pub open spec fn notifications(self) -> Seq<(u64, nat)> {
        self.subscribers.map_values(|h: u64| (h, self.index))
    }
}

/// The single source of truth for the active language: owns the catalog,
/// holds the active index, resolves resources under it and keeps the list
/// of subscribers to changes.
pub struct LanguageResolver {
    store: ContentBundleStore,
    language: Language,
    subscribers: Vec<SubscriptionHandle>,
    next_id: u64,
}

impl View for LanguageResolver {
    type V = ResolverModel;

    closed spec fn view(&self) -> ResolverModel {
        ResolverModel {
            bundles: self.store@,
            index: self.language.index as nat,
            subscribers: self.subscribers@.map_values(|h: SubscriptionHandle| h@),
            next_id: self.next_id as nat,
        }
    }
}

/// The index a resolver starts with: the language that the environment
/// locale selects, or the first.
pub open spec fn initial_index(raw_locale: Option<Seq<char>>, bundles: Seq<BundleModel>) -> nat {
    match detected_index(raw_locale, codes_of(bundles)) {
        Some(i) => i as nat,
        None => 0,
    }
}

impl LanguageResolver {
    /// A resolver over `store`, starting in the language that `raw_locale`
    /// selects, or in the first one where it selects none.
    pub fn new(store: ContentBundleStore, raw_locale: Option<String>) -> (r: Self)
        ensures
            r@.wf(),
            r@.bundles == store@,
            r@.index == initial_index(locale_view(raw_locale), store@),
            r@.subscribers.len() == 0,
            r@.next_id == 0,
    {
        let codes = store.enumerate_languages();
        let index = match detect(raw_locale, &codes) {
            Some(i) => i,
            None => 0,
        };
        proof {
            lemma_detected_index_in_range(locale_view(raw_locale), codes_of(store@));
        }
        let r = LanguageResolver {
            store,
            language: Language { index },
            subscribers: Vec::new(),
            next_id: 0,
        };
        assert(r@.subscribers =~= Seq::<u64>::empty());
        r
    }

    /// The active language index.
    pub fn current_index(&self) -> (r: usize)
        ensures
            r == self@.index,
    {
        self.language.index
    }

    /// The identifiers of all languages, in catalog order.
    pub fn available_languages(&self) -> (r: Vec<String>)
        ensures
            crate::bundle::views_of(r@) == codes_of(self@.bundles),
    {
        self.store.enumerate_languages()
    }

    /// The identifier of the active language; empty for an empty catalog.
    pub fn current_language(&self) -> (r: &str)
        ensures
            r@ == (if self@.bundles.len() == 0 {
                Seq::<char>::empty()
            } else {
                self@.bundles[clamped_index(self@.index as int, self@.bundles.len() as int)].code
            }),
    {
        let n = self.store.len();
        if n == 0 {
            let r = "";
            proof {
                reveal_strlit("");
            }
            r
        } else if self.language.index < n {
            self.store.code(self.language.index)
        } else {
            self.store.code(0)
        }
    }

    /// The text of `resource_name` in the active language, or nothing.
    pub fn resolve(&self, resource_name: &str) -> (r: Option<&str>)
        ensures
            text_view(r) == self@.resolve(resource_name@),
    {
        let n = self.store.len();
        if self.language.index < n {
            self.store.lookup(self.language.index, resource_name)
        } else {
            None
        }
    }

    /// Makes `requested` the active language, or the first language where
    /// `requested` is out of range, and returns the notifications owed to
    /// the subscribers: one each, in registration order, all carrying the
    /// new index.
    pub fn set_language(&mut self, requested: usize) -> (r: Vec<Notification>)
        ensures
            final(self)@ == old(self)@.select(requested as nat),
            old(self)@.wf() ==> final(self)@.wf(),
            notices_view(r@) == final(self)@.notifications(),
    {
        let n = self.store.len();
        let index = if requested < n {
            requested
        } else {
            0
        };
        self.language = Language { index };
        let mut notes: Vec<Notification> = Vec::new();
        let mut k: usize = 0;
        while k < self.subscribers.len()
            invariant
                k <= self.subscribers@.len(),
                self.language.index == index,
                notes@.len() == k,
                forall|j: int|
                    0 <= j < k ==> #[trigger] notes@[j] == (Notification {
                        handle: self.subscribers@[j],
                        index,
                    }),
            decreases self.subscribers@.len() - k,
        {
            notes.push(Notification { handle: self.subscribers[k], index });
            k = k + 1;
        }
        assert(notices_view(notes@) =~= self@.notifications());
        assert(self@ =~= old(self)@.select(requested as nat));
        notes
    }

    /// Registers a new subscriber to language changes.
    pub fn subscribe(&mut self) -> (r: SubscriptionHandle)
        requires
            old(self)@.wf(),
            old(self)@.next_id < u64::MAX,
        ensures
            final(self)@ == old(self)@.subscribe(),
            final(self)@.wf(),
            r@ == old(self)@.next_id,
            !old(self)@.subscribers.contains(r@),
    {
        let h = SubscriptionHandle { id: self.next_id };
        self.next_id = self.next_id + 1;
        self.subscribers.push(h);
        assert(self@.subscribers =~= old(self)@.subscribers.push(h@));
        assert(self@ =~= old(self)@.subscribe());
        h
    }

    /// Ends the subscription `handle`. A handle that is no longer (or never
    /// was) registered is ignored.
    pub fn unsubscribe(&mut self, handle: SubscriptionHandle)
        ensures
            final(self)@ == old(self)@.unsubscribe(handle@),
            old(self)@.wf() ==> final(self)@.wf(),
    {
        let ghost subs = self@.subscribers;
        let ghost pred = |h: u64| h != handle@;
        let mut kept: Vec<SubscriptionHandle> = Vec::new();
        let mut k: usize = 0;
        while k < self.subscribers.len()
            invariant
                k <= self.subscribers@.len(),
                subs == self@.subscribers,
                pred == (|h: u64| h != handle@),
                kept@.map_values(|h: SubscriptionHandle| h@) == subs.subrange(0, k as int).filter(
                    pred,
                ),
                old(self)@.wf() ==> forall|j: int|
                    0 <= j < kept@.len() ==> #[trigger] kept@[j]@ < self.next_id,
                self.next_id == old(self)@.next_id,
            decreases self.subscribers@.len() - k,
        {
            let h = self.subscribers[k];
            proof {
                subs.subrange(0, k as int).lemma_filter_push(h@, pred);
                assert(subs.subrange(0, k + 1) =~= subs.subrange(0, k as int).push(h@));
            }
            if h.id != handle.id {
                proof {
                    if old(self)@.wf() {
                        assert(subs[k as int] < self.next_id);
                    }
                }
                kept.push(h);
            }
            k = k + 1;
            assert(kept@.map_values(|h: SubscriptionHandle| h@) =~= subs.subrange(0, k as int).filter(pred));
        }
        assert(subs.subrange(0, k as int) =~= subs);
        self.subscribers = kept;
        assert(self@ =~= old(self)@.unsubscribe(handle@));
    }
}

} // verus!
