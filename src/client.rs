//! The backend dispatcher: the state it owns and the decisions it takes on
//! each command and on each adapter result.

use vstd::prelude::*;
use vstd::string::StringExecFns;
use crate::error::Error;
use crate::failover::{
    CandidateView, FailoverDecision, FailoverSequence, RetryPolicy, backoff_ms, candidates_view,
};
use crate::keys::{KeyStore, KeyView, apply_keys};
use crate::providers::mistral::{default_model_info, is_default_model_info};
use crate::{ApiKeySpec, ModelInfo, Provider, provider_name};

verus! {

/// A prompt handed to an adapter and not yet answered to its caller.
pub struct PendingPrompt {
    /// The caller's reply conduit.
    pub reply_id: usize,
    pub prompt: String,
    /// How many retries were made so far.
    pub attempt: usize,
    /// This call's own copy of the fallback candidates, its cursor on the
    /// candidate last tried.
    pub sequence: FailoverSequence,
}

/// The prompts in flight, at most one per reply conduit.
pub struct PendingTable {
    entries: Vec<PendingPrompt>,
    contents: Ghost<Map<usize, PendingPrompt>>,
}

impl View for PendingTable {
    type V = Map<usize, PendingPrompt>;

    closed spec fn view(&self) -> Map<usize, PendingPrompt> {
        self.contents@
    }
}

impl PendingTable {
    /// Each reply conduit appears once, and the view maps exactly the entries'
    /// conduits to the entries.
    pub closed spec fn wf(&self) -> bool {
        &&& forall|i: int, j: int|
            0 <= i < j < self.entries.len() ==> (#[trigger] self.entries@[i]).reply_id != (
            #[trigger] self.entries@[j]).reply_id
        &&& forall|i: int|
            0 <= i < self.entries.len() ==> {
                &&& self.contents@.contains_key((#[trigger] self.entries@[i]).reply_id)
                &&& self.contents@[self.entries@[i].reply_id] == self.entries@[i]
            }
        &&& forall|k: usize|
            #[trigger] self.contents@.contains_key(k) ==> exists|i: int|
                0 <= i < self.entries.len() && (#[trigger] self.entries@[i]).reply_id == k
    }

    /// An empty table.
    pub fn new() -> (r: Self)
        ensures
            r.wf(),
            r@ == Map::<usize, PendingPrompt>::empty(),
    {
        PendingTable { entries: Vec::new(), contents: Ghost(Map::empty()) }
    }

    fn find(&self, reply_id: usize) -> (r: Option<usize>)
        requires
            self.wf(),
        ensures
            match r {
                Some(i) => i < self.entries.len() && self.entries@[i as int].reply_id == reply_id,
                None => !self@.contains_key(reply_id),
            },
    {
        let mut i: usize = 0;
        while i < self.entries.len()
            invariant
                self.wf(),
                i <= self.entries.len(),
                forall|j: int| 0 <= j < i ==> (#[trigger] self.entries@[j]).reply_id != reply_id,
            decreases self.entries.len() - i,
        {
            if self.entries[i].reply_id == reply_id {
                return Some(i);
            }
            i = i + 1;
        }
        None
    }

    /// Files `p` under its reply conduit, replacing what was filed there.
    pub fn insert(&mut self, p: PendingPrompt)
        requires
            old(self).wf(),
        ensures
            final(self).wf(),
            final(self)@ == old(self)@.insert(p.reply_id, p),
    {
        let ghost k = p.reply_id;
        let ghost m = self.contents@.insert(k, p);
        match self.find(p.reply_id) {
            Some(i) => {
                self.entries.set(i, p);
                self.contents = Ghost(m);
                assert forall|q: usize| #[trigger] m.contains_key(q) implies exists|j: int|
                    0 <= j < self.entries.len() && (#[trigger] self.entries@[j]).reply_id == q by {
                    if q != k {
                        let j = choose|j: int|
                            0 <= j < old(self).entries.len() && (
                            #[trigger] old(self).entries@[j]).reply_id == q;
                        assert(self.entries@[j].reply_id == q);
                    } else {
                        assert(self.entries@[i as int].reply_id == q);
                    }
                }
            },
            None => {
                self.entries.push(p);
                self.contents = Ghost(m);
                assert forall|q: usize| #[trigger] m.contains_key(q) implies exists|j: int|
                    0 <= j < self.entries.len() && (#[trigger] self.entries@[j]).reply_id == q by {
                    if q != k {
                        let j = choose|j: int|
                            0 <= j < old(self).entries.len() && (
                            #[trigger] old(self).entries@[j]).reply_id == q;
                        assert(self.entries@[j].reply_id == q);
                    } else {
                        assert(self.entries@[self.entries.len() - 1].reply_id == q);
                    }
                }
            },
        }
    }

    /// Takes out the entry filed under `reply_id`, if there is one.
    pub fn remove(&mut self, reply_id: usize) -> (r: Option<PendingPrompt>)
        requires
            old(self).wf(),
        ensures
            final(self).wf(),
            final(self)@ == old(self)@.remove(reply_id),
            old(self)@.contains_key(reply_id) ==> r == Some(old(self)@[reply_id]),
            !old(self)@.contains_key(reply_id) ==> r is None,
    {
        match self.find(reply_id) {
            Some(i) => {
                let ghost old_entries = self.entries@;
                let ghost m = self.contents@.remove(reply_id);
                let p = self.entries.remove(i);
                self.contents = Ghost(m);
                assert forall|j: int| 0 <= j < self.entries.len() implies #[trigger] self.entries@[j]
                    == (if j < i { old_entries[j] } else { old_entries[j + 1] }) by {}
                assert forall|q: usize| #[trigger] m.contains_key(q) implies exists|j: int|
                    0 <= j < self.entries.len() && (#[trigger] self.entries@[j]).reply_id == q by {
                    let j = choose|j: int|
                        0 <= j < old_entries.len() && (#[trigger] old_entries[j]).reply_id == q;
                    if j < i {
                        assert(self.entries@[j].reply_id == q);
                    } else {
                        assert(self.entries@[j - 1].reply_id == q);
                    }
                }
                assert(self.contents@ =~= old(self).contents@.remove(reply_id));
                Some(p)
            },
            None => {
                assert(self.contents@ =~= old(self).contents@.remove(reply_id));
                None
            },
        }
    }
}

/// Union of all possible handler commands to execute
pub enum HandlerCommand {
    SendPrompt { prompt: String, model: String, reply_id: usize },
    SetApiKeys(Vec<ApiKeySpec>),
    GetModelLists,
    SetModelFallbackPreference(Vec<(Provider, String)>),
    Shutdown,
}

/// What the dispatcher's loop is to do after a decision.
pub enum BackendAction {
    /// Hand `prompt` for `model` to the adapter of `provider` after waiting
    /// `delay_ms` milliseconds; its result comes back under `reply_id`.
    Forward { provider: Provider, prompt: String, model: String, reply_id: usize, delay_ms: u64 },
    /// Deliver `result` on the reply conduit `reply_id`.
    ReplyPrompt { reply_id: usize, result: Result<String, Error> },
    /// The keys are stored: pass each to the adapter of its provider, where
    /// there is one, and reply success.
    StoreKeys(Vec<ApiKeySpec>),
    /// Ask each of these adapters for its models and reply with what
    /// [`merge_model_lists`] makes of the answers.
    CollectModels(Vec<Provider>),
    /// Reply success.
    Acknowledge,
    /// Reply success, then stop processing commands.
    Stop,
    /// Drop the reply conduit unanswered.
    Discard,
}

/// Backend state machine for managing LLM requests
pub struct AllmBackendState {
    /// The provider, and the model description, that prompts go to first.
    pub current_model: (Provider, ModelInfo),
    pub api_keys: KeyStore,
    /// The candidates tried, in order, after a retryable failure.
    pub fallback_preferences: FailoverSequence,
    pub retry_policy: RetryPolicy,
    /// The providers that an adapter serves.
    pub adapters: Vec<Provider>,
    /// The prompts handed to adapters and not yet answered.
    pub in_flight: PendingTable,
    /// False once a shutdown was processed.
    pub running: bool,
}

impl AllmBackendState {
    pub open spec fn wf(&self) -> bool {
        &&& self.api_keys.wf()
        &&& self.fallback_preferences.wf()
        &&& self.in_flight.wf()
        &&& forall|id: usize| #[trigger]
            self.in_flight@.contains_key(id) ==> self.in_flight@[id].reply_id == id
                && self.in_flight@[id].sequence.wf()
    }

    /// Everything but the prompts in flight is the same in `self` and `other`.
    pub open spec fn same_settings(&self, other: &Self) -> bool {
        &&& self.current_model == other.current_model
        &&& self.api_keys == other.api_keys
        &&& self.fallback_preferences == other.fallback_preferences
        &&& self.retry_policy == other.retry_policy
        &&& self.adapters == other.adapters
        &&& self.running == other.running
    }

    /// Create a new backend state with default configuration: prompts go to
    /// Mistral's default model, the one adapter is Mistral's, and the key
    /// store is empty. The Mistral key belongs to the Mistral adapter, which
    /// the caller starts with it; the backend's store changes only through
    /// key-setting commands.
    pub fn new(_mistral_api_key: Option<String>) -> (r: Self)
        ensures
            r.wf(),
            r.running,
            r.current_model.0 == Provider::MistralAi,
            is_default_model_info(r.current_model.1),
            r.adapters@ == seq![Provider::MistralAi],
            r.api_keys@ == Map::<KeyView, Seq<char>>::empty(),
            r.fallback_preferences.providers@.len() == 0,
            r.fallback_preferences.current_index == 0,
            r.retry_policy == RetryPolicy::spec_default(),
            r.in_flight@ == Map::<usize, PendingPrompt>::empty(),
    {
        let mut adapters: Vec<Provider> = Vec::new();
        adapters.push(Provider::MistralAi);
        AllmBackendState {
            current_model: (Provider::MistralAi, default_model_info()),
            api_keys: KeyStore::new(),
            fallback_preferences: FailoverSequence::new(Vec::new()),
            retry_policy: RetryPolicy::default(),
            adapters,
            in_flight: PendingTable::new(),
            running: true,
        }
    }

    /// Whether an adapter serves `provider`.
    pub fn is_registered(&self, provider: Provider) -> (r: bool)
        ensures
            r == self.adapters@.contains(provider),
    {
        let mut i: usize = 0;
        while i < self.adapters.len()
            invariant
                i <= self.adapters.len(),
                forall|j: int| 0 <= j < i ==> self.adapters@[j] != provider,
            decreases self.adapters.len() - i,
        {
            if self.adapters[i] == provider {
                return true;
            }
            i = i + 1;
        }
        false
    }

    /// Records that an adapter serves `provider`.
    pub fn register_adapter(&mut self, provider: Provider)
        requires
            old(self).wf(),
        ensures
            final(self).wf(),
            final(self).adapters@.contains(provider),
            forall|p: Provider| p != provider ==> (final(self).adapters@.contains(p) == old(
                self,
            ).adapters@.contains(p)),
            final(self).current_model == old(self).current_model,
            final(self).api_keys == old(self).api_keys,
            final(self).fallback_preferences == old(self).fallback_preferences,
            final(self).retry_policy == old(self).retry_policy,
            final(self).in_flight == old(self).in_flight,
            final(self).running == old(self).running,
    {
        if !self.is_registered(provider) {
            self.adapters.push(provider);
            assert(self.adapters@[self.adapters.len() - 1] == provider);
            assert forall|p: Provider| p != provider implies self.adapters@.contains(p) == old(
                self,
            ).adapters@.contains(p) by {
                if self.adapters@.contains(p) {
                    let j = choose|j: int| 0 <= j < self.adapters.len() && self.adapters@[j] == p;
                    assert(old(self).adapters@[j] == p);
                }
                if old(self).adapters@.contains(p) {
                    let j = choose|j: int|
                        0 <= j < old(self).adapters.len() && old(self).adapters@[j] == p;
                    assert(self.adapters@[j] == p);
                }
            }
        }
    }

    /// Sends an attempt of the call `reply_id` to `model` of `provider`: where
    /// no adapter serves the provider, the caller is answered with
    /// `ProviderNotImplemented` and the call leaves the table; otherwise the
    /// prompt is forwarded to that adapter, which resolves the key, and the
    /// call is filed with `attempt` and `sequence`.
    fn route(
        &mut self,
        provider: Provider,
        model: String,
        prompt: String,
        reply_id: usize,
        attempt: usize,
        sequence: FailoverSequence,
        delay_ms: u64,
    ) -> (act: BackendAction)
        requires
            old(self).wf(),
            sequence.wf(),
        ensures
            final(self).wf(),
            final(self).same_settings(&*old(self)),
            !old(self).adapters@.contains(provider) ==> {
                &&& act matches BackendAction::ReplyPrompt {
                    reply_id: id,
                    result: Err(Error::ProviderNotImplemented(n)),
                }
                &&& id == reply_id
                &&& n@ == provider_name(provider)
                &&& final(self).in_flight@ == old(self).in_flight@.remove(reply_id)
            },
            old(self).adapters@.contains(provider) ==> {
                &&& act matches BackendAction::Forward {
                    provider: p,
                    prompt: t,
                    model: m,
                    reply_id: id,
                    delay_ms: d,
                }
                &&& p == provider && t == prompt && m == model && id == reply_id && d == delay_ms
                &&& final(self).in_flight@ == old(self).in_flight@.insert(
                    reply_id,
                    PendingPrompt { reply_id, prompt, attempt, sequence },
                )
            },
    {
        if !self.is_registered(provider) {
            let _ = self.in_flight.remove(reply_id);
            let name = String::from_str(provider.name());
            return BackendAction::ReplyPrompt {
                reply_id,
                result: Err(Error::ProviderNotImplemented(name)),
            };
        }
        let entry = PendingPrompt { reply_id, prompt: prompt.clone(), attempt, sequence };
        self.in_flight.insert(entry);
        BackendAction::Forward { provider, prompt, model, reply_id, delay_ms }
    }

    /// Processes one caller command.
    ///
    /// After a shutdown every command is discarded. Otherwise:
    /// a prompt goes to the current provider's adapter, with the caller's
    /// model, or is answered at once with `ProviderNotImplemented` where no
    /// adapter serves that provider; the adapter resolves the key. Its call
    /// starts with no retry made and its own copy of the fallback candidates,
    /// cursor on the first. That first attempt stands for candidate 0: a
    /// failover goes on with candidate 1, so where candidate 0 is not the
    /// current provider with the caller's model, it is never tried;
    /// keys are stored, the last one under a key winning, and passed on to
    /// the adapters;
    /// a model listing asks every adapter, one without a usable key adding
    /// nothing ([`merge_model_lists`]);
    /// a fallback preference replaces the candidates, cursor on the first;
    /// a shutdown stops the backend.
    pub fn handle(&mut self, cmd: HandlerCommand) -> (act: BackendAction)
        requires
            old(self).wf(),
        ensures
            final(self).wf(),
            !old(self).running ==> act is Discard && *final(self) == *old(self),
            old(self).running ==> match cmd {
                HandlerCommand::SendPrompt { prompt, model, reply_id } => {
                    let p = old(self).current_model.0;
                    &&& final(self).same_settings(&*old(self))
                    &&& !old(self).adapters@.contains(p) ==> {
                        &&& act matches BackendAction::ReplyPrompt {
                            reply_id: id,
                            result: Err(Error::ProviderNotImplemented(n)),
                        }
                        &&& id == reply_id
                        &&& n@ == provider_name(p)
                        &&& final(self).in_flight@ == old(self).in_flight@.remove(reply_id)
                    }
                    &&& old(self).adapters@.contains(p) ==> {
                        &&& act matches BackendAction::Forward {
                            provider: q,
                            prompt: t,
                            model: m,
                            reply_id: id,
                            delay_ms: d,
                        }
                        &&& q == p && t == prompt && m == model && id == reply_id && d == 0
                        &&& final(self).in_flight@.remove(reply_id) == old(self).in_flight@.remove(
                            reply_id,
                        )
                        &&& final(self).in_flight@.contains_key(reply_id)
                        &&& final(self).in_flight@[reply_id].prompt == prompt
                        &&& final(self).in_flight@[reply_id].attempt == 0
                        &&& final(self).in_flight@[reply_id].sequence.candidates()
                            == old(self).fallback_preferences.candidates()
                        &&& final(self).in_flight@[reply_id].sequence.current_index == 0
                    }
                },
                HandlerCommand::SetApiKeys(specs) => {
                    &&& act matches BackendAction::StoreKeys(v) && v == specs
                    &&& final(self).api_keys@ == apply_keys(old(self).api_keys@, specs@)
                    &&& final(self).current_model == old(self).current_model
                    &&& final(self).fallback_preferences == old(self).fallback_preferences
                    &&& final(self).retry_policy == old(self).retry_policy
                    &&& final(self).adapters == old(self).adapters
                    &&& final(self).in_flight == old(self).in_flight
                    &&& final(self).running
                },
                HandlerCommand::GetModelLists => {
                    &&& act matches BackendAction::CollectModels(v) && v@ == old(self).adapters@
                    &&& *final(self) == *old(self)
                },
                HandlerCommand::SetModelFallbackPreference(list) => {
                    &&& act is Acknowledge
                    &&& final(self).fallback_preferences.providers@ == list@
                    &&& final(self).fallback_preferences.current_index == 0
                    &&& final(self).current_model == old(self).current_model
                    &&& final(self).api_keys == old(self).api_keys
                    &&& final(self).retry_policy == old(self).retry_policy
                    &&& final(self).adapters == old(self).adapters
                    &&& final(self).in_flight == old(self).in_flight
                    &&& final(self).running
                },
                HandlerCommand::Shutdown => {
                    &&& act is Stop
                    &&& !final(self).running
                    &&& final(self).current_model == old(self).current_model
                    &&& final(self).api_keys == old(self).api_keys
                    &&& final(self).fallback_preferences == old(self).fallback_preferences
                    &&& final(self).retry_policy == old(self).retry_policy
                    &&& final(self).adapters == old(self).adapters
                    &&& final(self).in_flight == old(self).in_flight
                },
            },
    {
        if !self.running {
            return BackendAction::Discard;
        }
        match cmd {
            HandlerCommand::SendPrompt { prompt, model, reply_id } => {
                let provider = self.current_model.0;
                let mut sequence = FailoverSequence::new(
                    crate::failover::copy_candidates(&self.fallback_preferences.providers),
                );
                sequence.reset();
                self.route(provider, model, prompt, reply_id, 0, sequence, 0)
            },
            HandlerCommand::SetApiKeys(specs) => {
                let mut i: usize = 0;
                while i < specs.len()
                    invariant
                        self.api_keys.wf(),
                        self.current_model == old(self).current_model,
                        self.fallback_preferences == old(self).fallback_preferences,
                        self.retry_policy == old(self).retry_policy,
                        self.adapters == old(self).adapters,
                        self.in_flight == old(self).in_flight,
                        self.running == old(self).running,
                        i <= specs.len(),
                        self.api_keys@ == apply_keys(
                            old(self).api_keys@,
                            specs@.subrange(0, i as int),
                        ),
                    decreases specs.len() - i,
                {
                    self.api_keys.insert(specs[i].duplicate());
                    i = i + 1;
                    assert(specs@.subrange(0, i as int).drop_last() =~= specs@.subrange(
                        0,
                        i - 1,
                    ));
                }
                assert(specs@.subrange(0, specs.len() as int) =~= specs@);
                BackendAction::StoreKeys(specs)
            },
            HandlerCommand::GetModelLists => {
                let mut providers: Vec<Provider> = Vec::new();
                let mut i: usize = 0;
                while i < self.adapters.len()
                    invariant
                        i <= self.adapters.len(),
                        providers@ == self.adapters@.subrange(0, i as int),
                    decreases self.adapters.len() - i,
                {
                    providers.push(self.adapters[i]);
                    i = i + 1;
                    assert(providers@ =~= self.adapters@.subrange(0, i as int));
                }
                assert(self.adapters@.subrange(0, self.adapters.len() as int) =~= self.adapters@);
                BackendAction::CollectModels(providers)
            },
            HandlerCommand::SetModelFallbackPreference(list) => {
                self.fallback_preferences = FailoverSequence::new(list);
                BackendAction::Acknowledge
            },
            HandlerCommand::Shutdown => {
                self.running = false;
                BackendAction::Stop
            },
        }
    }

    /// Processes what an adapter answered to the call `reply_id`.
    ///
    /// After a shutdown, or for a call not in flight, the answer is discarded.
    /// A success goes to the caller. A failure goes to the caller too, unless
    /// the call's fallback candidates allow a retry
    /// ([`FailoverSequence::may_retry`]): then the next candidate is tried
    /// after the backoff for the retries made so far, the failure staying
    /// unseen by the caller. A candidate without an adapter ends the call with
    /// `ProviderNotImplemented`.
    pub fn prompt_result(&mut self, reply_id: usize, result: Result<String, Error>) -> (act:
        BackendAction)
        requires
            old(self).wf(),
        ensures
            final(self).wf(),
            final(self).same_settings(&*old(self)),
            !old(self).running || !old(self).in_flight@.contains_key(reply_id) ==> {
                &&& act is Discard
                &&& final(self).in_flight@ == old(self).in_flight@
            },
            old(self).running && old(self).in_flight@.contains_key(reply_id) ==> {
                let call = old(self).in_flight@[reply_id];
                let seq = call.sequence;
                let policy = old(self).retry_policy;
                match result {
                    Ok(text) => {
                        &&& act matches BackendAction::ReplyPrompt { reply_id: id, result: r }
                        &&& id == reply_id && r == Ok::<String, Error>(text)
                        &&& final(self).in_flight@ == old(self).in_flight@.remove(reply_id)
                    },
                    Err(e) => {
                        &&& !seq.may_retry(policy, call.attempt as nat, e) ==> {
                            &&& act matches BackendAction::ReplyPrompt { reply_id: id, result: r }
                            &&& id == reply_id && r == Err::<String, Error>(e)
                            &&& final(self).in_flight@ == old(self).in_flight@.remove(reply_id)
                        }
                        &&& seq.may_retry(policy, call.attempt as nat, e) ==> {
                            let next = seq.providers@[seq.current_index + 1];
                            let p = next.0;
                            &&& !old(self).adapters@.contains(p) ==> {
                                &&& act matches BackendAction::ReplyPrompt {
                                    reply_id: id,
                                    result: Err(Error::ProviderNotImplemented(n)),
                                }
                                &&& id == reply_id
                                &&& n@ == provider_name(p)
                                &&& final(self).in_flight@ == old(self).in_flight@.remove(reply_id)
                            }
                            &&& old(self).adapters@.contains(p) ==> {
                                &&& act matches BackendAction::Forward {
                                    provider: q,
                                    prompt: t,
                                    model: m,
                                    reply_id: id,
                                    delay_ms: d,
                                }
                                &&& q == p && t == call.prompt && m@ == next.1@ && id == reply_id
                                &&& d == backoff_ms(
                                    policy.initial_backoff_ms,
                                    policy.backoff_multiplier,
                                    call.attempt as nat,
                                )
                                &&& final(self).in_flight@.remove(reply_id) == old(
                                    self,
                                ).in_flight@.remove(reply_id)
                                &&& final(self).in_flight@.contains_key(reply_id)
                                &&& final(self).in_flight@[reply_id].prompt == call.prompt
                                &&& final(self).in_flight@[reply_id].attempt == call.attempt + 1
                                &&& final(self).in_flight@[reply_id].sequence.providers
                                    == seq.providers
                                &&& final(self).in_flight@[reply_id].sequence.current_index
                                    == seq.current_index + 1
                            }
                        }
                    },
                }
            },
    {
        if !self.running {
            return BackendAction::Discard;
        }
        let ghost before = self.in_flight@;
        let call = match self.in_flight.remove(reply_id) {
            Some(c) => c,
            None => {
                assert(self.in_flight@ =~= before);
                return BackendAction::Discard;
            },
        };
        assert(call.sequence.wf());
        match result {
            Ok(text) => BackendAction::ReplyPrompt { reply_id, result: Ok(text) },
            Err(e) => {
                let mut sequence = call.sequence;
                let decision = sequence.on_failure(&self.retry_policy, call.attempt, &e);
                match decision {
                    FailoverDecision::Retry { provider, model, backoff_ms } => {
                        let ghost removed = self.in_flight@;
                        let act = self.route(
                            provider,
                            model,
                            call.prompt,
                            reply_id,
                            call.attempt + 1,
                            sequence,
                            backoff_ms,
                        );
                        assert(removed.remove(reply_id) =~= removed);
                        act
                    },
                    FailoverDecision::GiveUp => BackendAction::ReplyPrompt {
                        reply_id,
                        result: Err(e),
                    },
                }
            },
        }
    }
}

/// The listing that adapter answers make, taken in order: each listed model
/// as a (provider, model) pair; an adapter without a usable key adds nothing;
/// any other failure is the listing's error, the first one winning.
pub open spec fn merged_models(results: Seq<(Provider, Result<Vec<String>, Error>)>) -> Result<
    Seq<CandidateView>,
    Error,
>
    decreases results.len(),
{
    if results.len() == 0 {
        Ok(Seq::empty())
    } else {
        match merged_models(results.drop_last()) {
            Err(e) => Err(e),
            Ok(acc) => {
                let p = results.last().0;
                match results.last().1 {
                    Ok(names) => Ok(acc + Seq::new(names@.len(), |i: int| (p, names@[i]@))),
                    Err(Error::MissingApiKey(_)) => Ok(acc),
                    Err(e) => Err(e),
                }
            },
        }
    }
}

/// Merges the answers of the adapters asked for their models into the reply
/// of a model listing, as [`merged_models`] states.
pub fn merge_model_lists(results: Vec<(Provider, Result<Vec<String>, Error>)>) -> (r: Result<
    Vec<(Provider, String)>,
    Error,
>)
    ensures
        match merged_models(results@) {
            Ok(s) => r matches Ok(v) && candidates_view(v@) == s,
            Err(e) => r == Err::<Vec<(Provider, String)>, Error>(e),
        },
{
    let mut out: Vec<(Provider, String)> = Vec::new();
    let mut i: usize = 0;
    assert(candidates_view(out@) =~= Seq::<CandidateView>::empty());
    assert(results@.subrange(0, 0) =~= Seq::<(Provider, Result<Vec<String>, Error>)>::empty());
    while i < results.len()
        invariant
            i <= results.len(),
            merged_models(results@.subrange(0, i as int)) == Ok::<Seq<CandidateView>, Error>(
                candidates_view(out@),
            ),
        decreases results.len() - i,
    {
        let ghost prefix = results@.subrange(0, i as int);
        let ghost next = results@.subrange(0, i + 1);
        assert(next.drop_last() =~= prefix);
        let p = results[i].0;
        match &results[i].1 {
            Ok(names) => {
                let ghost start = candidates_view(out@);
                let mut j: usize = 0;
                while j < names.len()
                    invariant
                        j <= names.len(),
                        candidates_view(out@) =~= start + Seq::new(
                            j as nat,
                            |k: int| (p, names@[k]@),
                        ),
                    decreases names.len() - j,
                {
                    let ghost before = out@;
                    out.push((p, names[j].clone()));
                    assert(candidates_view(out@) =~= candidates_view(before).push((p, names@[j as int]@)));
                    j = j + 1;
                }
                assert(Seq::new(names@.len(), |k: int| (p, names@[k]@)) =~= Seq::new(
                    j as nat,
                    |k: int| (p, names@[k]@),
                ));
            },
            Err(Error::MissingApiKey(_)) => {},
            Err(e) => {
                proof {
                    lemma_merged_error_stays(results@, i as nat);
                }
                return Err(e.duplicate());
            },
        }
        i = i + 1;
    }
    assert(results@.subrange(0, results.len() as int) =~= results@);
    Ok(out)
}

/// Once a prefix of the answers merges to an error, so does every longer one.
proof fn lemma_merged_error_stays(results: Seq<(Provider, Result<Vec<String>, Error>)>, i: nat)
    requires
        i < results.len(),
        merged_models(results.subrange(0, i as int)) is Ok,
        results[i as int].1 matches Err(e) && !(e is MissingApiKey),
    ensures
        merged_models(results) == Err::<Seq<CandidateView>, Error>(results[i as int].1->Err_0),
{
    lemma_merged_error_prefix(results, i, results.len());
    assert(results.subrange(0, results.len() as int) =~= results);
}

proof fn lemma_merged_error_prefix(
    results: Seq<(Provider, Result<Vec<String>, Error>)>,
    i: nat,
    k: nat,
)
    requires
        i < k <= results.len(),
        merged_models(results.subrange(0, i as int)) is Ok,
        results[i as int].1 matches Err(e) && !(e is MissingApiKey),
    ensures
        merged_models(results.subrange(0, k as int)) == Err::<Seq<CandidateView>, Error>(
            results[i as int].1->Err_0,
        ),
    decreases k - i,
{
    assert(results.subrange(0, k as int).drop_last() =~= results.subrange(0, k - 1));
    if k > i + 1 {
        lemma_merged_error_prefix(results, i, (k - 1) as nat);
    }
}

} // verus!
