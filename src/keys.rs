//! Stores of API keys: the backend's, keyed by provider and model, and an
//! adapter's, keyed by model.

use vstd::prelude::*;
use crate::{ApiKeySpec, Provider};

verus! {

/// A key of the backend's store: a provider and a model name, the empty name
/// standing for the provider's master key.
pub type KeyView = (Provider, Seq<char>);

/// The store key that an API key specification is filed under.
pub open spec fn key_of(e: ApiKeySpec) -> KeyView {
    (e.provider, e.model@)
}

/// The secret for `model` of `p`: the model's own key where there is one,
/// else the provider's master key.
pub open spec fn resolve_key(keys: Map<KeyView, Seq<char>>, p: Provider, model: Seq<char>) -> Option<
    Seq<char>,
> {
    if keys.contains_key((p, model)) {
        Some(keys[(p, model)])
    } else if keys.contains_key((p, Seq::empty())) {
        Some(keys[(p, Seq::empty())])
    } else {
        None
    }
}

/// Whether any key, master or model-specific, is stored for `p`.
pub open spec fn has_credential(keys: Map<KeyView, Seq<char>>, p: Provider) -> bool {
    exists|m: Seq<char>| keys.contains_key((p, m))
}

/// The store after applying `specs` in order to `keys`.
pub open spec fn apply_keys(keys: Map<KeyView, Seq<char>>, specs: Seq<ApiKeySpec>) -> Map<
    KeyView,
    Seq<char>,
>
    decreases specs.len(),
{
    if specs.len() == 0 {
        keys
    } else {
        apply_keys(keys, specs.drop_last()).insert(key_of(specs.last()), specs.last().key@)
    }
}

/// The secret of the last of `specs` filed under `k`, if any is.
pub open spec fn last_set(specs: Seq<ApiKeySpec>, k: KeyView) -> Option<Seq<char>>
    decreases specs.len(),
{
    if specs.len() == 0 {
        None
    } else if key_of(specs.last()) == k {
        Some(specs.last().key@)
    } else {
        last_set(specs.drop_last(), k)
    }
}

/// After any sequence of key settings, the secret under a key is the one set
/// last under it; a key that none of them names keeps what it held. In
/// particular a model-specific key never replaces the provider's master key,
/// nor the master key a model-specific one.
pub proof fn lemma_latest_key_wins(keys: Map<KeyView, Seq<char>>, specs: Seq<ApiKeySpec>, k: KeyView)
    ensures
        last_set(specs, k) matches Some(v) ==> apply_keys(keys, specs).contains_key(k)
            && apply_keys(keys, specs)[k] == v,
        last_set(specs, k) is None ==> apply_keys(keys, specs).contains_key(k) == keys.contains_key(
            k,
        ) && apply_keys(keys, specs)[k] == keys[k],
    decreases specs.len(),
{
    if specs.len() > 0 {
        lemma_latest_key_wins(keys, specs.drop_last(), k);
    }
}

/// Applying two sequences of key settings one after the other is applying
/// their concatenation.
pub proof fn lemma_apply_keys_concat(
    keys: Map<KeyView, Seq<char>>,
    first: Seq<ApiKeySpec>,
    second: Seq<ApiKeySpec>,
)
    ensures
        apply_keys(apply_keys(keys, first), second) == apply_keys(keys, first + second),
    decreases second.len(),
{
    if second.len() == 0 {
        assert(first + second =~= first);
    } else {
        lemma_apply_keys_concat(keys, first, second.drop_last());
        assert((first + second).drop_last() =~= first + second.drop_last());
        assert((first + second).last() == second.last());
    }
}

/// The store after a sequence of key-setting calls, each applying its keys
/// in order.
pub open spec fn apply_calls(keys: Map<KeyView, Seq<char>>, calls: Seq<Seq<ApiKeySpec>>) -> Map<
    KeyView,
    Seq<char>,
>
    decreases calls.len(),
{
    if calls.len() == 0 {
        keys
    } else {
        apply_keys(apply_calls(keys, calls.drop_last()), calls.last())
    }
}

/// Across any sequence of key-setting calls, the secret under a key is the
/// one set last under it in the latest call that names it; a key that no call
/// names keeps what it held. So a model-specific key never replaces the
/// provider's master key, nor the master key a model-specific one.
pub proof fn lemma_latest_key_wins_across_calls(
    keys: Map<KeyView, Seq<char>>,
    calls: Seq<Seq<ApiKeySpec>>,
    k: KeyView,
)
    ensures
        apply_calls(keys, calls) == apply_keys(keys, calls.flatten_alt()),
        last_set(calls.flatten_alt(), k) matches Some(v) ==> apply_calls(keys, calls).contains_key(
            k,
        ) && apply_calls(keys, calls)[k] == v,
        last_set(calls.flatten_alt(), k) is None ==> apply_calls(keys, calls).contains_key(k)
            == keys.contains_key(k) && apply_calls(keys, calls)[k] == keys[k],
    decreases calls.len(),
{
    if calls.len() > 0 {
        lemma_latest_key_wins_across_calls(keys, calls.drop_last(), k);
        lemma_apply_keys_concat(keys, calls.drop_last().flatten_alt(), calls.last());
    }
    lemma_latest_key_wins(keys, calls.flatten_alt(), k);
}

/// The backend's API keys, at most one secret per (provider, model).
pub struct KeyStore {
    entries: Vec<ApiKeySpec>,
    contents: Ghost<Map<KeyView, Seq<char>>>,
}

impl View for KeyStore {
    type V = Map<KeyView, Seq<char>>;

    closed spec fn view(&self) -> Map<KeyView, Seq<char>> {
        self.contents@
    }
}

impl KeyStore {
    /// The entries hold each key once, and the view maps exactly their keys
    /// to their secrets.
    pub closed spec fn wf(&self) -> bool {
        &&& forall|i: int, j: int|
            0 <= i < j < self.entries.len() ==> key_of(#[trigger] self.entries@[i]) != key_of(
                #[trigger] self.entries@[j],
            )
        &&& forall|i: int|
            0 <= i < self.entries.len() ==> {
                &&& self.contents@.contains_key(key_of(#[trigger] self.entries@[i]))
                &&& self.contents@[key_of(self.entries@[i])] == self.entries@[i].key@
            }
        &&& forall|k: KeyView|
            #[trigger] self.contents@.contains_key(k) ==> exists|i: int|
                0 <= i < self.entries.len() && key_of(#[trigger] self.entries@[i]) == k
    }

    /// An empty store.
    pub fn new() -> (r: Self)
        ensures
            r.wf(),
            r@ == Map::<KeyView, Seq<char>>::empty(),
    {
        KeyStore { entries: Vec::new(), contents: Ghost(Map::empty()) }
    }

    fn find(&self, provider: Provider, model: &String) -> (r: Option<usize>)
        requires
            self.wf(),
        ensures
            match r {
                Some(i) => i < self.entries.len() && key_of(self.entries@[i as int]) == (
                    provider,
                    model@,
                ),
                None => !self@.contains_key((provider, model@)),
            },
    {
        let mut i: usize = 0;
        while i < self.entries.len()
            invariant
                self.wf(),
                i <= self.entries.len(),
                forall|j: int| 0 <= j < i ==> key_of(#[trigger] self.entries@[j]) != (provider, model@),
            decreases self.entries.len() - i,
        {
            if self.entries[i].provider == provider && self.entries[i].model == *model {
                return Some(i);
            }
            i = i + 1;
        }
        None
    }

    /// The secret stored for exactly `(provider, model)`.
    pub fn get(&self, provider: Provider, model: &String) -> (r: Option<&String>)
        requires
            self.wf(),
        ensures
            self@.contains_key((provider, model@)) ==> (r matches Some(v) && v@ == self@[(
                provider,
                model@,
            )]),
            !self@.contains_key((provider, model@)) ==> r is None,
    {
        match self.find(provider, model) {
            Some(i) => Some(&self.entries[i].key),
            None => None,
        }
    }

    /// Stores `spec.key` under `(spec.provider, spec.model)`, replacing what
    /// was stored there and nothing else.
    pub fn insert(&mut self, spec: ApiKeySpec)
        requires
            old(self).wf(),
        ensures
            final(self).wf(),
            final(self)@ == old(self)@.insert(key_of(spec), spec.key@),
    {
        let ghost k = key_of(spec);
        let ghost m = self.contents@.insert(k, spec.key@);
        match self.find(spec.provider, &spec.model) {
            Some(i) => {
                self.entries.set(i, spec);
                self.contents = Ghost(m);
                assert forall|q: KeyView| #[trigger] m.contains_key(q) implies exists|j: int|
                    0 <= j < self.entries.len() && key_of(#[trigger] self.entries@[j]) == q by {
                    if q != k {
                        let j = choose|j: int|
                            0 <= j < old(self).entries.len() && key_of(
                                #[trigger] old(self).entries@[j],
                            ) == q;
                        assert(key_of(self.entries@[j]) == q);
                    } else {
                        assert(key_of(self.entries@[i as int]) == q);
                    }
                }
            },
            None => {
                self.entries.push(spec);
                self.contents = Ghost(m);
                assert forall|q: KeyView| #[trigger] m.contains_key(q) implies exists|j: int|
                    0 <= j < self.entries.len() && key_of(#[trigger] self.entries@[j]) == q by {
                    if q != k {
                        let j = choose|j: int|
                            0 <= j < old(self).entries.len() && key_of(
                                #[trigger] old(self).entries@[j],
                            ) == q;
                        assert(key_of(self.entries@[j]) == q);
                    } else {
                        assert(key_of(self.entries@[self.entries.len() - 1]) == q);
                    }
                }
            },
        }
    }

    /// The secret that a request for `model` of `provider` uses: the model's
    /// own key, else the provider's master key.
    pub fn resolve(&self, provider: Provider, model: &String) -> (r: Option<String>)
        requires
            self.wf(),
        ensures
            r matches Some(v) ==> resolve_key(self@, provider, model@) == Some(v@),
            r is None ==> resolve_key(self@, provider, model@) is None,
    {
        match self.get(provider, model) {
            Some(k) => Some(k.clone()),
            None => {
                let master = String::new();
                match self.get(provider, &master) {
                    Some(k) => Some(k.clone()),
                    None => None,
                }
            },
        }
    }

    /// Whether any key, master or model-specific, is stored for `provider`.
    pub fn has_credential(&self, provider: Provider) -> (r: bool)
        requires
            self.wf(),
        ensures
            r == has_credential(self@, provider),
    {
        let mut i: usize = 0;
        while i < self.entries.len()
            invariant
                self.wf(),
                i <= self.entries.len(),
                forall|j: int| 0 <= j < i ==> (#[trigger] self.entries@[j]).provider != provider,
            decreases self.entries.len() - i,
        {
            if self.entries[i].provider == provider {
                assert(self@.contains_key(key_of(self.entries@[i as int])));
                return true;
            }
            i = i + 1;
        }
        assert forall|m: Seq<char>| !self@.contains_key((provider, m)) by {
            if self@.contains_key((provider, m)) {
                let j = choose|j: int|
                    0 <= j < self.entries.len() && key_of(#[trigger] self.entries@[j]) == (provider, m);
                assert(self.entries@[j].provider == provider);
            }
        }
        false
    }
}

/// An adapter's model-specific keys, at most one secret per model name.
pub struct SecretMap {
    entries: Vec<(String, String)>,
    contents: Ghost<Map<Seq<char>, Seq<char>>>,
}

impl View for SecretMap {
    type V = Map<Seq<char>, Seq<char>>;

    closed spec fn view(&self) -> Map<Seq<char>, Seq<char>> {
        self.contents@
    }
}

impl SecretMap {
    /// The entries hold each model once, and the view maps exactly their
    /// models to their secrets.
    pub closed spec fn wf(&self) -> bool {
        &&& forall|i: int, j: int|
            0 <= i < j < self.entries.len() ==> (#[trigger] self.entries@[i]).0@ != (
            #[trigger] self.entries@[j]).0@
        &&& forall|i: int|
            0 <= i < self.entries.len() ==> {
                &&& self.contents@.contains_key((#[trigger] self.entries@[i]).0@)
                &&& self.contents@[self.entries@[i].0@] == self.entries@[i].1@
            }
        &&& forall|k: Seq<char>|
            #[trigger] self.contents@.contains_key(k) ==> exists|i: int|
                0 <= i < self.entries.len() && (#[trigger] self.entries@[i]).0@ == k
    }

    /// An empty map.
    pub fn new() -> (r: Self)
        ensures
            r.wf(),
            r@ == Map::<Seq<char>, Seq<char>>::empty(),
    {
        SecretMap { entries: Vec::new(), contents: Ghost(Map::empty()) }
    }

    fn find(&self, model: &String) -> (r: Option<usize>)
        requires
            self.wf(),
        ensures
            match r {
                Some(i) => i < self.entries.len() && self.entries@[i as int].0@ == model@,
                None => !self@.contains_key(model@),
            },
    {
        let mut i: usize = 0;
        while i < self.entries.len()
            invariant
                self.wf(),
                i <= self.entries.len(),
                forall|j: int| 0 <= j < i ==> (#[trigger] self.entries@[j]).0@ != model@,
            decreases self.entries.len() - i,
        {
            if self.entries[i].0 == *model {
                return Some(i);
            }
            i = i + 1;
        }
        None
    }

    /// The secret stored for `model`.
    pub fn get(&self, model: &String) -> (r: Option<&String>)
        requires
            self.wf(),
        ensures
            self@.contains_key(model@) ==> (r matches Some(v) && v@ == self@[model@]),
            !self@.contains_key(model@) ==> r is None,
    {
        match self.find(model) {
            Some(i) => Some(&self.entries[i].1),
            None => None,
        }
    }

    /// Stores `secret` for `model`, replacing what was stored for it.
    pub fn insert(&mut self, model: String, secret: String)
        requires
            old(self).wf(),
        ensures
            final(self).wf(),
            final(self)@ == old(self)@.insert(model@, secret@),
    {
        let ghost k = model@;
        let ghost m = self.contents@.insert(k, secret@);
        match self.find(&model) {
            Some(i) => {
                self.entries.set(i, (model, secret));
                self.contents = Ghost(m);
                assert forall|q: Seq<char>| #[trigger] m.contains_key(q) implies exists|j: int|
                    0 <= j < self.entries.len() && (#[trigger] self.entries@[j]).0@ == q by {
                    if q != k {
                        let j = choose|j: int|
                            0 <= j < old(self).entries.len() && (
                            #[trigger] old(self).entries@[j]).0@ == q;
                        assert(self.entries@[j].0@ == q);
                    } else {
                        assert(self.entries@[i as int].0@ == q);
                    }
                }
            },
            None => {
                self.entries.push((model, secret));
                self.contents = Ghost(m);
                assert forall|q: Seq<char>| #[trigger] m.contains_key(q) implies exists|j: int|
                    0 <= j < self.entries.len() && (#[trigger] self.entries@[j]).0@ == q by {
                    if q != k {
                        let j = choose|j: int|
                            0 <= j < old(self).entries.len() && (
                            #[trigger] old(self).entries@[j]).0@ == q;
                        assert(self.entries@[j].0@ == q);
                    } else {
                        assert(self.entries@[self.entries.len() - 1].0@ == q);
                    }
                }
            },
        }
    }
}

} // verus!
