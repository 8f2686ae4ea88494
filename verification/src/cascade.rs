//! The decisions of a cascade run, and the cooldown arithmetic.
//!
//! A [`CascadeRun`] walks the entries of a cascade in order.  Each call hands
//! it the outcome of the last action it asked for (is the entry on cooldown,
//! was an API key found, what did the provider reply) and returns the next
//! action.  The caller performs the actions: database, keyring and network
//! work stay with it.

use vstd::prelude::*;
use vstd::string::StringExecFns;

use crate::config::{
    entries_view, AppConfig, CascadeEntry, CascadeEntryV, ProviderConfig, ProviderConfigV,
    ProviderType,
};
use crate::error::{provider_error_text, ProviderError, ProviderErrorV};
use crate::json::str_or;
use crate::models::conversation::opt_str_view;
use crate::models::response::{LlmResponse, LlmResponseV};
use crate::providers::{entry_key_spec, make_entry_key, outcome_view, provider_for, Provider, ProviderV};
use crate::text::{join, seq_join, views};

verus! {

/// The cooldown of an entry after its first failure, in seconds.
pub const BASE_COOLDOWN_SECS: i64 = 30;

/// The longest cooldown, in seconds.
pub const MAX_COOLDOWN_SECS: i64 = 3600;

/// `2^n`.
pub open spec fn doubling(n: nat) -> nat
    decreases n,
{
    if n == 0 {
        1
    } else {
        2 * doubling((n - 1) as nat)
    }
}

/// The backoff for a failure level: 30 s doubled once per level, at most an hour.
pub open spec fn backoff_secs_spec(level: nat) -> int {
    let s = BASE_COOLDOWN_SECS * doubling(level);
    if s < MAX_COOLDOWN_SECS {
        s
    } else {
        MAX_COOLDOWN_SECS as int
    }
}

proof fn lemma_doubling_grows(a: nat, b: nat)
    requires
        a <= b,
    ensures
        doubling(a) <= doubling(b),
    decreases b,
{
    if a < b {
        lemma_doubling_grows(a, (b - 1) as nat);
    }
}

/// The backoff for a failure level, in seconds (`min(30 * 2^level, 3600)`).
pub fn backoff_secs(level: u32) -> (r: i64)
    ensures
        r == backoff_secs_spec(level as nat),
{
    let mut secs: i64 = BASE_COOLDOWN_SECS;
    let mut k: u32 = 0;
    while k < level && secs < MAX_COOLDOWN_SECS
        invariant
            k <= level,
            secs == BASE_COOLDOWN_SECS * doubling(k as nat),
        decreases level - k,
    {
        secs = secs * 2;
        k = k + 1;
    }
    proof {
        if k < level {
            lemma_doubling_grows(k as nat, level as nat);
            assert(BASE_COOLDOWN_SECS * doubling(k as nat) <= BASE_COOLDOWN_SECS * doubling(
                level as nat,
            )) by (nonlinear_arith)
                requires
                    doubling(k as nat) <= doubling(level as nat),
            ;
        }
    }
    if secs < MAX_COOLDOWN_SECS {
        secs
    } else {
        MAX_COOLDOWN_SECS
    }
}

/// The failure level for a count of recent failed attempts: one less than
/// the count (cut to 32 bits as `as u32` does), never below zero.
pub open spec fn cooldown_level_spec(count: i64) -> u32 {
    if count > 0 {
        let c = count as u32;
        if c > 0 {
            (c - 1) as u32
        } else {
            0
        }
    } else {
        0
    }
}

/// The failure level for a count of recent failed attempts.
pub fn cooldown_level(count: i64) -> (r: u32)
    ensures
        r == cooldown_level_spec(count),
{
    if count > 0 {
        (count as u32).saturating_sub(1)
    } else {
        0
    }
}

/// The backoff for an entry with `count` recent failed attempts, in seconds.
pub fn backoff_for_count(count: i64) -> (r: i64)
    ensures
        r == backoff_secs_spec(cooldown_level_spec(count) as nat),
{
    backoff_secs(cooldown_level(count))
}

/// How long a failed entry cools down.
#[derive(Clone, Copy, Debug, PartialEq, Eq, Structural)]
pub enum CooldownPlan {
    /// The seconds the provider asked for in its `retry-after` header.
    RetryAfter(u64),
    /// Exponential backoff from the entry's recent failures.
    Backoff,
}

/// A rate-limited reply that says when to retry is believed; every other
/// failure backs off.
pub open spec fn cooldown_plan_spec(e: ProviderErrorV) -> CooldownPlan {
    match e {
        ProviderErrorV::Http { status, retry_after, .. } => if status == 429 && retry_after is Some {
            CooldownPlan::RetryAfter(retry_after->0)
        } else {
            CooldownPlan::Backoff
        },
        _ => CooldownPlan::Backoff,
    }
}

/// How long the entry that failed with `e` cools down.
pub fn cooldown_plan(e: &ProviderError) -> (r: CooldownPlan)
    ensures
        r == cooldown_plan_spec(e@),
{
    if e.is_rate_limited() {
        match e.retry_after_seconds() {
            Some(secs) => CooldownPlan::RetryAfter(secs),
            None => CooldownPlan::Backoff,
        }
    } else {
        CooldownPlan::Backoff
    }
}

/// The seconds of a `retry-after` cooldown as a signed count (`as i64`).
pub fn retry_after_secs(secs: u64) -> (r: i64)
    ensures
        r == secs as i64,
{
    secs as i64
}

/// Where API keys for a provider are looked up: the keyring service (the
/// configured one, else the provider's name) and the environment variable (the
/// configured one, else the protocol's usual one).  Ollama needs no key.
pub open spec fn key_source_spec(provider_name: Seq<char>, cfg: ProviderConfigV) -> Option<
    (Seq<char>, Seq<char>),
> {
    let service = str_or(cfg.api_key_service, provider_name);
    match cfg.provider_type {
        ProviderType::Openai => Some((service, str_or(cfg.api_key_env, "OPENAI_API_KEY"@))),
        ProviderType::Anthropic => Some((service, str_or(cfg.api_key_env, "ANTHROPIC_API_KEY"@))),
        ProviderType::Gemini => Some((service, str_or(cfg.api_key_env, "GOOGLE_API_KEY"@))),
        ProviderType::Ollama => None,
    }
}

fn opt_or(o: &Option<String>, default: &str) -> (r: String)
    ensures
        r@ == str_or(opt_str_view(*o), default@),
{
    match o {
        Some(s) => s.clone(),
        None => String::from_str(default),
    }
}

/// Where API keys for a provider are looked up (keyring service, environment
/// variable); `None` for Ollama.
pub fn key_source(provider_name: &str, cfg: &ProviderConfig) -> (r: Option<(String, String)>)
    ensures
        match r {
            Some((s, e)) => key_source_spec(provider_name@, cfg@) == Some((s@, e@)),
            None => key_source_spec(provider_name@, cfg@) is None,
        },
{
    match cfg.provider_type {
        ProviderType::Openai => Some(
            (opt_or(&cfg.api_key_service, provider_name), opt_or(&cfg.api_key_env, "OPENAI_API_KEY")),
        ),
        ProviderType::Anthropic => Some(
            (
                opt_or(&cfg.api_key_service, provider_name),
                opt_or(&cfg.api_key_env, "ANTHROPIC_API_KEY"),
            ),
        ),
        ProviderType::Gemini => Some(
            (opt_or(&cfg.api_key_service, provider_name), opt_or(&cfg.api_key_env, "GOOGLE_API_KEY")),
        ),
        ProviderType::Ollama => None,
    }
}

/// Where a run stands.
#[derive(Clone, Copy, Debug, PartialEq, Eq, Structural)]
pub enum Phase {
    /// About to look for the next entry.
    Ready,
    /// Waiting to learn whether the current entry is on cooldown.
    AwaitingCooldown,
    /// Waiting for the current entry's API key.
    AwaitingKey,
    /// Waiting for the current entry's reply.
    AwaitingReply,
    /// Done: an entry succeeded or every entry was tried.
    Finished,
}

/// What the caller does next.
pub enum CascadeAction {
    /// Look up whether `entry_key` is on cooldown, then call [`CascadeRun::on_cooldown`].
    CheckCooldown { entry_key: String },
    /// Look up the API key (keyring service, then environment variable), then call
    /// [`CascadeRun::on_api_key`].
    ResolveKey { entry_key: String, service: String, env_var: String },
    /// Send the conversation with `provider`, log the attempt, then call
    /// [`CascadeRun::on_reply`].
    Send { entry_key: String, provider: Provider },
    /// The run succeeded with `response`.
    Succeeded { entry_key: String, response: LlmResponse },
    /// The entry failed: set its cooldown, then call [`CascadeRun::advance`].
    Failed { entry_key: String, http_status: Option<u16>, cooldown: CooldownPlan },
    /// Every entry was tried: persist the conversation and report `message`.
    Exhausted { message: String },
}

/// The model of a [`CascadeAction`].
pub enum CascadeActionV {
    CheckCooldown { entry_key: Seq<char> },
    ResolveKey { entry_key: Seq<char>, service: Seq<char>, env_var: Seq<char> },
    Send { entry_key: Seq<char>, provider: ProviderV },
    Succeeded { entry_key: Seq<char>, response: LlmResponseV },
    Failed { entry_key: Seq<char>, http_status: Option<u16>, cooldown: CooldownPlan },
    Exhausted { message: Seq<char> },
}

impl View for CascadeAction {
    type V = CascadeActionV;

    open spec fn view(&self) -> CascadeActionV {
        match self {
            CascadeAction::CheckCooldown { entry_key } => CascadeActionV::CheckCooldown {
                entry_key: entry_key@,
            },
            CascadeAction::ResolveKey { entry_key, service, env_var } => CascadeActionV::ResolveKey {
                entry_key: entry_key@,
                service: service@,
                env_var: env_var@,
            },
            CascadeAction::Send { entry_key, provider } => CascadeActionV::Send {
                entry_key: entry_key@,
                provider: provider@,
            },
            CascadeAction::Succeeded { entry_key, response } => CascadeActionV::Succeeded {
                entry_key: entry_key@,
                response: response@,
            },
            CascadeAction::Failed { entry_key, http_status, cooldown } => CascadeActionV::Failed {
                entry_key: entry_key@,
                http_status: *http_status,
                cooldown: *cooldown,
            },
            CascadeAction::Exhausted { message } => CascadeActionV::Exhausted { message: message@ },
        }
    }
}

/// The model of a [`CascadeRun`].
pub struct CascadeRunV {
    /// The cascade's name.
    pub name: Seq<char>,
    /// Its entries, in order.
    pub entries: Seq<CascadeEntryV>,
    /// The configuration of each entry's provider, `None` when it is not configured.
    pub configs: Seq<Option<ProviderConfigV>>,
    /// The entry being tried (or the next one, when `Ready`).
    pub index: nat,
    pub phase: Phase,
    /// One message per failed entry, in order.
    pub errors: Seq<Seq<char>>,
    /// The keys of the entries skipped because they were on cooldown, in order.
    pub skipped: Seq<Seq<char>>,
}

/// The cooldown key of entry `i`.
pub open spec fn key_at(s: CascadeRunV, i: int) -> Seq<char> {
    entry_key_spec(s.entries[i].provider, s.entries[i].model)
}

/// The well-formed states: one configuration slot per entry, the index in
/// range, and every entry before the index accounted for exactly once, as
/// skipped or as failed.
pub open spec fn run_wf(s: CascadeRunV) -> bool {
    &&& s.configs.len() == s.entries.len()
    &&& s.index <= s.entries.len()
    &&& s.skipped.len() + s.errors.len() == s.index
    &&& (s.phase == Phase::AwaitingCooldown || s.phase == Phase::AwaitingKey || s.phase
        == Phase::AwaitingReply) ==> s.index < s.entries.len() && s.configs[s.index as int] is Some
    &&& s.phase == Phase::AwaitingKey ==> key_source_spec(
        s.entries[s.index as int].provider,
        s.configs[s.index as int]->0,
    ) is Some
}

/// The report of a run in which no entry succeeded.
pub open spec fn failure_message(skipped: Seq<Seq<char>>, errors: Seq<Seq<char>>) -> Seq<char> {
    (if skipped.len() > 0 {
        "Skipped (on cooldown): "@ + seq_join(skipped, ", "@) + "\n"@
    } else {
        Seq::empty()
    }) + "Failed entries: "@ + seq_join(errors, "; "@)
}

/// The message for an entry whose provider is not configured.
pub open spec fn missing_provider_error(s: CascadeRunV, i: int) -> Seq<char> {
    key_at(s, i) + ": provider not found"@
}

/// Looking for the next entry: entries whose provider is not configured fail
/// on the spot; the first configured one is checked for cooldown; when none is
/// left the run is exhausted.
pub open spec fn advance_spec(s: CascadeRunV) -> (CascadeRunV, CascadeActionV)
    decreases s.entries.len() - s.index,
{
    if s.index >= s.entries.len() || s.configs.len() != s.entries.len() {
        (
            CascadeRunV { phase: Phase::Finished, ..s },
            CascadeActionV::Exhausted { message: failure_message(s.skipped, s.errors) },
        )
    } else if s.configs[s.index as int] is None {
        advance_spec(
            CascadeRunV {
                errors: s.errors.push(missing_provider_error(s, s.index as int)),
                index: s.index + 1,
                ..s
            },
        )
    } else {
        (
            CascadeRunV { phase: Phase::AwaitingCooldown, ..s },
            CascadeActionV::CheckCooldown { entry_key: key_at(s, s.index as int) },
        )
    }
}

/// After the cooldown check: an entry on cooldown is skipped; otherwise its
/// API key is looked up, or (Ollama) its provider is called right away.
pub open spec fn on_cooldown_spec(s: CascadeRunV, on_cooldown: bool) -> (CascadeRunV, CascadeActionV) {
    let i = s.index as int;
    let key = key_at(s, i);
    if on_cooldown {
        advance_spec(
            CascadeRunV {
                skipped: s.skipped.push(key),
                index: s.index + 1,
                phase: Phase::Ready,
                ..s
            },
        )
    } else {
        let cfg = s.configs[i]->0;
        match key_source_spec(s.entries[i].provider, cfg) {
            Some((service, env_var)) => (
                CascadeRunV { phase: Phase::AwaitingKey, ..s },
                CascadeActionV::ResolveKey { entry_key: key, service, env_var },
            ),
            None => (
                CascadeRunV { phase: Phase::AwaitingReply, ..s },
                CascadeActionV::Send {
                    entry_key: key,
                    provider: provider_for(cfg, s.entries[i].model, Seq::empty()),
                },
            ),
        }
    }
}

/// After the key lookup: without a key the entry fails with a missing-key
/// error; with one its provider is called.
pub open spec fn on_api_key_spec(s: CascadeRunV, key: Result<Seq<char>, Seq<char>>) -> (
    CascadeRunV,
    CascadeActionV,
) {
    let i = s.index as int;
    let entry_key = key_at(s, i);
    match key {
        Ok(k) => (
            CascadeRunV { phase: Phase::AwaitingReply, ..s },
            CascadeActionV::Send {
                entry_key,
                provider: provider_for(s.configs[i]->0, s.entries[i].model, k),
            },
        ),
        Err(_) => advance_spec(
            CascadeRunV {
                errors: s.errors.push(
                    entry_key + ": "@ + provider_error_text(
                        ProviderErrorV::MissingApiKey(s.entries[i].provider),
                    ),
                ),
                index: s.index + 1,
                phase: Phase::Ready,
                ..s
            },
        ),
    }
}

/// After the reply: a response ends the run with it; an error is recorded and
/// the entry gets a cooldown.
pub open spec fn on_reply_spec(s: CascadeRunV, outcome: Result<LlmResponseV, ProviderErrorV>) -> (
    CascadeRunV,
    CascadeActionV,
) {
    let entry_key = key_at(s, s.index as int);
    match outcome {
        Ok(r) => (
            CascadeRunV { phase: Phase::Finished, ..s },
            CascadeActionV::Succeeded { entry_key, response: r },
        ),
        Err(e) => (
            CascadeRunV {
                errors: s.errors.push(entry_key + ": "@ + provider_error_text(e)),
                index: s.index + 1,
                phase: Phase::Ready,
                ..s
            },
            CascadeActionV::Failed {
                entry_key,
                http_status: match e {
                    ProviderErrorV::Http { status, .. } => Some(status),
                    _ => None,
                },
                cooldown: cooldown_plan_spec(e),
            },
        ),
    }
}

/// The message when the cascade is not configured.
pub open spec fn not_found_message(name: Seq<char>) -> Seq<char> {
    "Cascade '"@ + name + "' not found in configuration"@
}

/// The message when the cascade has no entries.
pub open spec fn no_entries_message(name: Seq<char>) -> Seq<char> {
    "Cascade '"@ + name + "' has no entries"@
}

/// The configuration of each entry's provider.
pub open spec fn entry_configs(
    entries: Seq<CascadeEntryV>,
    providers: Map<Seq<char>, ProviderConfigV>,
) -> Seq<Option<ProviderConfigV>> {
    entries.map_values(
        |e: CascadeEntryV|
            if providers.contains_key(e.provider) {
                Some(providers[e.provider])
            } else {
                None
            },
    )
}

/// A cascade run in progress.
pub struct CascadeRun {
    name: String,
    entries: Vec<CascadeEntry>,
    configs: Vec<Option<ProviderConfig>>,
    index: usize,
    phase: Phase,
    errors: Vec<String>,
    skipped: Vec<String>,
}

/// The models of optional provider configurations.
pub open spec fn configs_view(s: Seq<Option<ProviderConfig>>) -> Seq<Option<ProviderConfigV>> {
    s.map_values(
        |c: Option<ProviderConfig>|
            match c {
                Some(x) => Some(x@),
                None => None,
            },
    )
}

impl View for CascadeRun {
    type V = CascadeRunV;

    closed spec fn view(&self) -> CascadeRunV {
        CascadeRunV {
            name: self.name@,
            entries: entries_view(self.entries@),
            configs: configs_view(self.configs@),
            index: self.index as nat,
            phase: self.phase,
            errors: views(self.errors@),
            skipped: views(self.skipped@),
        }
    }
}

impl CascadeRun {
    /// Starts a run of the cascade named `cascade_name`; fails when the cascade
    /// is not configured or has no entries.
    pub fn start(cascade_name: &str, config: &AppConfig) -> (r: Result<CascadeRun, String>)
        ensures
            match r {
                Ok(run) => {
                    &&& config.cascades@.contains_key(cascade_name@)
                    &&& config.cascades@[cascade_name@].len() > 0
                    &&& run@ == (CascadeRunV {
                        name: cascade_name@,
                        entries: config.cascades@[cascade_name@],
                        configs: entry_configs(config.cascades@[cascade_name@], config.providers@),
                        index: 0,
                        phase: Phase::Ready,
                        errors: Seq::empty(),
                        skipped: Seq::empty(),
                    })
                    &&& run_wf(run@)
                },
                Err(m) => if !config.cascades@.contains_key(cascade_name@) {
                    m@ == not_found_message(cascade_name@)
                } else {
                    config.cascades@[cascade_name@].len() == 0 && m@ == no_entries_message(
                        cascade_name@,
                    )
                },
            },
    {
        let cascade = match config.cascades.get(cascade_name) {
            Some(c) => c,
            None => {
                let mut m = String::from_str("Cascade '");
                m.append(cascade_name);
                m.append("' not found in configuration");
                return Err(m);
            },
        };
        if cascade.entries.len() == 0 {
            let mut m = String::from_str("Cascade '");
            m.append(cascade_name);
            m.append("' has no entries");
            return Err(m);
        }
        let ghost evs = entries_view(cascade.entries@);
        let mut entries: Vec<CascadeEntry> = Vec::new();
        let mut configs: Vec<Option<ProviderConfig>> = Vec::new();
        let mut i: usize = 0;
        while i < cascade.entries.len()
            invariant
                i <= cascade.entries@.len(),
                evs == entries_view(cascade.entries@),
                entries_view(entries@) == evs.subrange(0, i as int),
                configs_view(configs@) == entry_configs(evs.subrange(0, i as int), config.providers@),
            decreases cascade.entries@.len() - i,
        {
            let e = &cascade.entries[i];
            let copy = CascadeEntry { provider: e.provider.clone(), model: e.model.clone() };
            let cfg = match config.providers.get(e.provider.as_str()) {
                Some(c) => Some(c.copy()),
                None => None,
            };
            let ghost cfg_v = match &cfg {
                Some(x) => Some(x@),
                None => None::<ProviderConfigV>,
            };
            assert(cfg_v == (if config.providers@.contains_key(evs[i as int].provider) {
                Some(config.providers@[evs[i as int].provider])
            } else {
                None
            }));
            let ghost prev_configs = configs@;
            entries.push(copy);
            configs.push(cfg);
            proof {
                assert(configs_view(configs@) =~= configs_view(prev_configs).push(cfg_v));
                assert(evs.subrange(0, i + 1) =~= evs.subrange(0, i as int).push(evs[i as int]));
                assert(entries_view(entries@) =~= evs.subrange(0, i + 1));
                assert(configs_view(configs@) =~= entry_configs(evs.subrange(0, i + 1), config.providers@));
            }
            i = i + 1;
        }
        assert(evs.subrange(0, evs.len() as int) =~= evs);
        let run = CascadeRun {
            name: String::from_str(cascade_name),
            entries,
            configs,
            index: 0,
            phase: Phase::Ready,
            errors: Vec::new(),
            skipped: Vec::new(),
        };
        assert(run@.errors =~= Seq::<Seq<char>>::empty());
        assert(run@.skipped =~= Seq::<Seq<char>>::empty());
        Ok(run)
    }

    /// Where the run stands.
    pub fn phase(&self) -> (p: Phase)
        ensures
            p == self@.phase,
    {
        self.phase
    }

    fn current_key(&self) -> (r: String)
        requires
            self.index < self.entries@.len(),
        ensures
            r@ == key_at(self@, self.index as int),
    {
        let e = &self.entries[self.index];
        make_entry_key(e.provider.as_str(), e.model.as_str())
    }

    /// Looks for the next entry to try (see [`advance_spec`]).
    pub fn advance(&mut self) -> (a: CascadeAction)
        requires
            run_wf(old(self)@),
            old(self)@.phase == Phase::Ready,
        ensures
            (final(self)@, a@) == advance_spec(old(self)@),
            run_wf(final(self)@),
        decreases old(self)@.entries.len() - old(self)@.index,
    {
        let ghost s0 = self@;
        while self.index < self.entries.len() && self.configs[self.index].is_none()
            invariant
                run_wf(self@),
                self@.phase == Phase::Ready,
                advance_spec(self@) == advance_spec(s0),
            decreases self@.entries.len() - self@.index,
        {
            let ghost before = self@;
            let mut m = self.current_key();
            m.append(": provider not found");
            self.errors.push(m);
            assert(self.index < self.entries.len());
            self.index = self.index + 1;
            proof {
                assert(self@.errors =~= before.errors.push(missing_provider_error(before, before.index as int)));
                assert(self@ == CascadeRunV {
                    errors: before.errors.push(missing_provider_error(before, before.index as int)),
                    index: before.index + 1,
                    ..before
                });
            }
        }
        if self.index >= self.entries.len() {
            self.phase = Phase::Finished;
            let mut message = String::new();
            if self.skipped.len() > 0 {
                message.append("Skipped (on cooldown): ");
                let s = join(&self.skipped, ", ");
                message.append(s.as_str());
                message.append("\n");
            }
            message.append("Failed entries: ");
            let e = join(&self.errors, "; ");
            message.append(e.as_str());
            proof {
                let s = self@;
                assert(message@ =~= failure_message(s.skipped, s.errors));
            }
            CascadeAction::Exhausted { message }
        } else {
            self.phase = Phase::AwaitingCooldown;
            CascadeAction::CheckCooldown { entry_key: self.current_key() }
        }
    }

    /// Hands over whether the current entry is on cooldown (see [`on_cooldown_spec`]).
    pub fn on_cooldown(&mut self, on_cooldown: bool) -> (a: CascadeAction)
        requires
            run_wf(old(self)@),
            old(self)@.phase == Phase::AwaitingCooldown,
        ensures
            (final(self)@, a@) == on_cooldown_spec(old(self)@, on_cooldown),
            run_wf(final(self)@),
    {
        let ghost s0 = self@;
        let key = self.current_key();
        if on_cooldown {
            self.skipped.push(key);
            assert(self.index < self.entries.len());
            self.index = self.index + 1;
            self.phase = Phase::Ready;
            proof {
                assert(self@.skipped =~= s0.skipped.push(key_at(s0, s0.index as int)));
                assert(self@ == CascadeRunV {
                    skipped: s0.skipped.push(key_at(s0, s0.index as int)),
                    index: s0.index + 1,
                    phase: Phase::Ready,
                    ..s0
                });
            }
            return self.advance();
        }
        let i = self.index;
        let entry = &self.entries[i];
        let cfg = match &self.configs[i] {
            Some(c) => c,
            None => {
                proof {
                    assert(configs_view(self.configs@)[i as int] is Some);
                }
                return CascadeAction::Exhausted { message: String::new() };
            },
        };
        match key_source(entry.provider.as_str(), cfg) {
            Some((service, env_var)) => {
                self.phase = Phase::AwaitingKey;
                CascadeAction::ResolveKey { entry_key: key, service, env_var }
            },
            None => {
                let provider = Provider::from_config(cfg, entry.model.clone(), String::new());
                self.phase = Phase::AwaitingReply;
                CascadeAction::Send { entry_key: key, provider }
            },
        }
    }

    /// Hands over the outcome of the key lookup (see [`on_api_key_spec`]).
    pub fn on_api_key(&mut self, key: Result<String, String>) -> (a: CascadeAction)
        requires
            run_wf(old(self)@),
            old(self)@.phase == Phase::AwaitingKey,
        ensures
            (final(self)@, a@) == on_api_key_spec(
                old(self)@,
                match key {
                    Ok(k) => Ok(k@),
                    Err(e) => Err(e@),
                },
            ),
            run_wf(final(self)@),
    {
        let ghost s0 = self@;
        let entry_key = self.current_key();
        let i = self.index;
        match key {
            Ok(k) => {
                let cfg = match &self.configs[i] {
                    Some(c) => c,
                    None => {
                        proof {
                            assert(configs_view(self.configs@)[i as int] is Some);
                        }
                        return CascadeAction::Exhausted { message: String::new() };
                    },
                };
                let provider = Provider::from_config(cfg, self.entries[i].model.clone(), k);
                self.phase = Phase::AwaitingReply;
                CascadeAction::Send { entry_key, provider }
            },
            Err(_) => {
                let e = ProviderError::MissingApiKey(self.entries[i].provider.clone());
                let mut m = entry_key;
                m.append(": ");
                let t = e.to_text();
                m.append(t.as_str());
                self.errors.push(m);
                assert(self.index < self.entries.len());
                self.index = self.index + 1;
                self.phase = Phase::Ready;
                proof {
                    let msg = key_at(s0, s0.index as int) + ": "@ + provider_error_text(
                        ProviderErrorV::MissingApiKey(s0.entries[s0.index as int].provider),
                    );
                    assert(self@.errors =~= s0.errors.push(msg));
                    assert(self@ == CascadeRunV {
                        errors: s0.errors.push(msg),
                        index: s0.index + 1,
                        phase: Phase::Ready,
                        ..s0
                    });
                }
                self.advance()
            },
        }
    }

    /// Hands over what the provider replied (see [`on_reply_spec`]).
    pub fn on_reply(&mut self, outcome: Result<LlmResponse, ProviderError>) -> (a: CascadeAction)
        requires
            run_wf(old(self)@),
            old(self)@.phase == Phase::AwaitingReply,
        ensures
            (final(self)@, a@) == on_reply_spec(old(self)@, outcome_view(outcome)),
            run_wf(final(self)@),
    {
        let ghost s0 = self@;
        let entry_key = self.current_key();
        match outcome {
            Ok(response) => {
                self.phase = Phase::Finished;
                CascadeAction::Succeeded { entry_key, response }
            },
            Err(e) => {
                let http_status = e.http_status();
                let cooldown = cooldown_plan(&e);
                let mut m = entry_key.clone();
                m.append(": ");
                let t = e.to_text();
                m.append(t.as_str());
                self.errors.push(m);
                assert(self.index < self.entries.len());
                self.index = self.index + 1;
                self.phase = Phase::Ready;
                proof {
                    let msg = key_at(s0, s0.index as int) + ": "@ + provider_error_text(e@);
                    assert(self@.errors =~= s0.errors.push(msg));
                }
                CascadeAction::Failed { entry_key, http_status, cooldown }
            },
        }
    }
}

} // verus!
