//! What holds of every cascade run, whatever the database, the keyring and
//! the providers answer.

use vstd::prelude::*;

use crate::cascade::{
    entry_configs,
    cooldown_level_spec,
    advance_spec, backoff_secs_spec, doubling, failure_message, key_at, key_source_spec,
    on_api_key_spec, on_cooldown_spec, on_reply_spec, run_wf, CascadeActionV, CascadeRunV,
    CooldownPlan, Phase, BASE_COOLDOWN_SECS, MAX_COOLDOWN_SECS,
};
use crate::config::{ProviderConfigV, ProviderType};
use crate::error::ProviderErrorV;
use crate::providers::{default_base_url, provider_model, ProviderV};
use crate::models::response::LlmResponseV;

verus! {

/// What the outside world answers for entry `i` of a run: whether it is on
/// cooldown, what the key lookup gives, and what its provider replies.
pub struct Env {
    pub on_cooldown: spec_fn(nat) -> bool,
    pub key: spec_fn(nat) -> Result<Seq<char>, Seq<char>>,
    pub reply: spec_fn(nat) -> Result<LlmResponseV, ProviderErrorV>,
}

/// An order on actions under which every step of a run that keeps its index
/// goes down.
pub open spec fn action_rank(a: CascadeActionV) -> nat {
    match a {
        CascadeActionV::Failed { .. } => 4,
        CascadeActionV::CheckCooldown { .. } => 3,
        CascadeActionV::ResolveKey { .. } => 2,
        CascadeActionV::Send { .. } => 1,
        _ => 0,
    }
}

/// Looking for the next entry keeps the cascade, skips only unconfigured
/// entries (each recorded as a failure), and either stops at the first
/// configured one for its cooldown check or ends the run with the report.
pub proof fn lemma_advance(s: CascadeRunV)
    requires
        run_wf(s),
    ensures
        ({
            let (t, a) = advance_spec(s);
            &&& t.name == s.name && t.entries == s.entries && t.configs == s.configs
            &&& t.skipped == s.skipped
            &&& s.index <= t.index <= s.entries.len()
            &&& t.errors.len() == s.errors.len() + (t.index - s.index)
            &&& forall|k: int| s.index <= k < t.index ==> s.configs[k] is None
            &&& run_wf(t)
            &&& t.index < s.entries.len() ==> {
                &&& s.configs[t.index as int] is Some
                &&& t.phase == Phase::AwaitingCooldown
                &&& a == CascadeActionV::CheckCooldown { entry_key: key_at(t, t.index as int) }
            }
            &&& t.index == s.entries.len() ==> {
                &&& t.phase == Phase::Finished
                &&& a == CascadeActionV::Exhausted { message: failure_message(t.skipped, t.errors) }
            }
        }),
    decreases s.entries.len() - s.index,
{
    if s.index < s.entries.len() && s.configs[s.index as int] is None {
        let n = CascadeRunV {
            errors: s.errors.push(crate::cascade::missing_provider_error(s, s.index as int)),
            index: s.index + 1,
            ..s
        };
        lemma_advance(n);
    }
}

/// A run driven to its end: each action is answered from `env` until the run
/// succeeds or is exhausted.
pub open spec fn continue_run(t: CascadeRunV, a: CascadeActionV, env: Env) -> (
    CascadeRunV,
    CascadeActionV,
)
    decreases t.entries.len() - t.index, action_rank(a),
{
    if !run_wf(t) {
        (t, a)
    } else {
        match a {
            CascadeActionV::CheckCooldown { .. } => if t.phase == Phase::AwaitingCooldown {
                let next = on_cooldown_spec(t, (env.on_cooldown)(t.index));
                proof {
                    lemma_on_cooldown(t, (env.on_cooldown)(t.index));
                }
                continue_run(next.0, next.1, env)
            } else {
                (t, a)
            },
            CascadeActionV::ResolveKey { .. } => if t.phase == Phase::AwaitingKey {
                let next = on_api_key_spec(t, (env.key)(t.index));
                proof {
                    lemma_on_api_key(t, (env.key)(t.index));
                }
                continue_run(next.0, next.1, env)
            } else {
                (t, a)
            },
            CascadeActionV::Send { .. } => if t.phase == Phase::AwaitingReply {
                let next = on_reply_spec(t, (env.reply)(t.index));
                continue_run(next.0, next.1, env)
            } else {
                (t, a)
            },
            CascadeActionV::Failed { .. } => if t.phase == Phase::Ready {
                let next = advance_spec(t);
                proof {
                    lemma_advance(t);
                }
                continue_run(next.0, next.1, env)
            } else {
                (t, a)
            },
            _ => (t, a),
        }
    }
}

/// The cooldown answer keeps the run well formed; a skip moves past the entry.
pub proof fn lemma_on_cooldown(t: CascadeRunV, on: bool)
    requires
        run_wf(t),
        t.phase == Phase::AwaitingCooldown,
    ensures
        ({
            let (u, b) = on_cooldown_spec(t, on);
            &&& run_wf(u)
            &&& u.name == t.name && u.entries == t.entries && u.configs == t.configs
            &&& on ==> u.index > t.index
            &&& !on ==> u.index == t.index && (b is ResolveKey || b is Send)
            &&& !on ==> (b is ResolveKey <==> u.phase == Phase::AwaitingKey)
            &&& !on ==> (b is Send <==> u.phase == Phase::AwaitingReply)
        }),
{
    if on {
        let r = CascadeRunV {
            skipped: t.skipped.push(key_at(t, t.index as int)),
            index: t.index + 1,
            phase: Phase::Ready,
            ..t
        };
        lemma_advance(r);
    }
}

/// The key answer keeps the run well formed; a missing key moves past the entry.
pub proof fn lemma_on_api_key(t: CascadeRunV, key: Result<Seq<char>, Seq<char>>)
    requires
        run_wf(t),
        t.phase == Phase::AwaitingKey,
    ensures
        ({
            let (u, b) = on_api_key_spec(t, key);
            &&& run_wf(u)
            &&& u.name == t.name && u.entries == t.entries && u.configs == t.configs
            &&& key is Err ==> u.index > t.index
            &&& key is Ok ==> u.index == t.index && b is Send && u.phase == Phase::AwaitingReply
        }),
{
    if key is Err {
        let r = CascadeRunV {
            errors: t.errors.push(
                key_at(t, t.index as int) + ": "@ + crate::error::provider_error_text(
                    ProviderErrorV::MissingApiKey(t.entries[t.index as int].provider),
                ),
            ),
            index: t.index + 1,
            phase: Phase::Ready,
            ..t
        };
        lemma_advance(r);
    }
}

/// Entry `j` gives a response: its provider is configured, it is not on
/// cooldown, it has a key when its protocol needs one, and its provider
/// replies with a response.
pub open spec fn usable(s: CascadeRunV, env: Env, j: nat) -> bool {
    &&& j < s.entries.len()
    &&& s.configs[j as int] is Some
    &&& !(env.on_cooldown)(j)
    &&& (key_source_spec(s.entries[j as int].provider, s.configs[j as int]->0) is None || (
    env.key)(j) is Ok)
    &&& (env.reply)(j) is Ok
}

/// The outcome of a run from a state that is about to look for its next entry.
pub open spec fn run_outcome(s: CascadeRunV, env: Env) -> (CascadeRunV, CascadeActionV) {
    let first = advance_spec(s);
    continue_run(first.0, first.1, env)
}

/// What a run from `s` must end with: the response of its first usable
/// entry, or the report that names every entry.
pub open spec fn expected_end(s: CascadeRunV, env: Env, end: (CascadeRunV, CascadeActionV)) -> bool {
    &&& forall|j: nat|
        #![trigger usable(s, env, j)]
        s.index <= j && usable(s, env, j) && (forall|k: nat|
            s.index <= k < j ==> !usable(s, env, k)) ==> end.1 == CascadeActionV::Succeeded {
            entry_key: key_at(s, j as int),
            response: (env.reply)(j)->Ok_0,
        }
    &&& (forall|j: nat| s.index <= j ==> !usable(s, env, j)) ==> {
        &&& end.1 == CascadeActionV::Exhausted { message: failure_message(end.0.skipped, end.0.errors) }
        &&& end.0.skipped.len() + end.0.errors.len() == end.0.entries.len()
    }
}

/// Cascading failover: a run returns the response of the first entry that
/// gives one, tried in cascade order; when no entry gives one it ends with
/// the report of skipped and failed entries, which names every entry of the
/// cascade exactly once.
pub proof fn law_first_usable_entry_wins(s: CascadeRunV, env: Env)
    requires
        run_wf(s),
        s.phase == Phase::Ready,
    ensures
        expected_end(s, env, run_outcome(s, env)),
    decreases s.entries.len() - s.index, 1nat,
{
    lemma_advance(s);
    let (t, a) = advance_spec(s);
    if t.index == s.entries.len() {
        assert forall|j: nat| s.index <= j implies !usable(s, env, j) by {
            if j < s.entries.len() {
                assert(s.configs[j as int] is None);
            }
        }
    } else {
        let i = t.index;
        assert forall|k: nat| s.index <= k < i implies !usable(s, env, k) by {
            assert(s.configs[k as int] is None);
        }
        let on = (env.on_cooldown)(i);
        lemma_on_cooldown(t, on);
        let (u, b) = on_cooldown_spec(t, on);
        assert(run_outcome(s, env) == continue_run(u, b, env));
        if on {
            let r = CascadeRunV {
                skipped: t.skipped.push(key_at(t, i as int)),
                index: i + 1,
                phase: Phase::Ready,
                ..t
            };
            law_first_usable_entry_wins(r, env);
            assert(run_outcome(r, env) == continue_run(u, b, env));
            assert(!usable(s, env, i));
            lemma_same_usable(r, s, env);
        } else {
            let cfg = s.configs[i as int]->0;
            if key_source_spec(s.entries[i as int].provider, cfg) is Some {
                let k = (env.key)(i);
                lemma_on_api_key(u, k);
                let (v, c) = on_api_key_spec(u, k);
                assert(continue_run(u, b, env) == continue_run(v, c, env));
                if k is Err {
                    let r = CascadeRunV {
                        errors: u.errors.push(
                            key_at(u, i as int) + ": "@ + crate::error::provider_error_text(
                                ProviderErrorV::MissingApiKey(u.entries[i as int].provider),
                            ),
                        ),
                        index: i + 1,
                        phase: Phase::Ready,
                        ..u
                    };
                    law_first_usable_entry_wins(r, env);
                    assert(run_outcome(r, env) == continue_run(v, c, env));
                    assert(!usable(s, env, i));
                    lemma_same_usable(r, s, env);
                } else {
                    lemma_from_reply(s, env, v, c);
                }
            } else {
                lemma_from_reply(s, env, u, b);
            }
        }
    }
}

/// Runs over the same entries and configurations find the same entries usable.
proof fn lemma_same_usable(r: CascadeRunV, s: CascadeRunV, env: Env)
    requires
        r.entries == s.entries,
        r.configs == s.configs,
    ensures
        forall|j: nat| usable(r, env, j) == usable(s, env, j),
        forall|j: int| key_at(r, j) == key_at(s, j),
{
}

/// The part of a run from the moment the reply of entry `v.index` is awaited,
/// every entry before it having given no response.
proof fn lemma_from_reply(s: CascadeRunV, env: Env, v: CascadeRunV, c: CascadeActionV)
    requires
        run_wf(s),
        s.phase == Phase::Ready,
        run_wf(v),
        v.phase == Phase::AwaitingReply,
        c is Send,
        v.entries == s.entries && v.configs == s.configs,
        s.index <= v.index,
        forall|k: nat| s.index <= k < v.index ==> !usable(s, env, k),
        !(env.on_cooldown)(v.index),
        key_source_spec(s.entries[v.index as int].provider, s.configs[v.index as int]->0) is None
            || (env.key)(v.index) is Ok,
    ensures
        expected_end(s, env, continue_run(v, c, env)),
    decreases s.entries.len() - v.index, 0nat,
{
    let i = v.index;
    let rep = (env.reply)(i);
    let (w, d) = on_reply_spec(v, rep);
    assert(continue_run(v, c, env) == continue_run(w, d, env));
    lemma_same_usable(v, s, env);
    if rep is Ok {
        assert(usable(s, env, i));
        assert(continue_run(w, d, env) == (w, d));
        assert forall|j: nat|
            #![trigger usable(s, env, j)]
            s.index <= j && usable(s, env, j) && (forall|k: nat|
                s.index <= k < j ==> !usable(s, env, k)) implies j == i by {
            if j < i {
            } else if j > i {
                assert(!usable(s, env, i));
            }
        }
    } else {
        assert(!usable(s, env, i));
        lemma_advance(w);
        assert(continue_run(w, d, env) == run_outcome(w, env));
        law_first_usable_entry_wins(w, env);
        lemma_same_usable(w, s, env);
    }
}

/// Cooldown rules of a reply: a response ends the run and sets no cooldown; a
/// failure moves on to the next entry and sets a cooldown, taken from the
/// `retry-after` seconds exactly when the reply was an HTTP 429 that carried
/// them, and from the exponential backoff otherwise.
pub proof fn law_cooldown_rules(s: CascadeRunV, outcome: Result<LlmResponseV, ProviderErrorV>)
    requires
        run_wf(s),
        s.phase == Phase::AwaitingReply,
    ensures
        ({
            let (t, a) = on_reply_spec(s, outcome);
            match outcome {
                Ok(r) => {
                    &&& a == CascadeActionV::Succeeded { entry_key: key_at(s, s.index as int), response: r }
                    &&& t.phase == Phase::Finished
                },
                Err(e) => {
                    &&& a is Failed
                    &&& t.index == s.index + 1
                    &&& t.phase == Phase::Ready
                    &&& t.errors.len() == s.errors.len() + 1
                    &&& (a->cooldown is RetryAfter) <==> (e matches ProviderErrorV::Http {
                        status,
                        retry_after,
                        ..
                    } && status == 429 && retry_after is Some)
                    &&& a->cooldown matches CooldownPlan::RetryAfter(secs) ==> (
                    e matches ProviderErrorV::Http { retry_after, .. } && retry_after == Some(secs))
                },
            }
        }),
{
}

/// The protocol a provider speaks.
pub open spec fn provider_type_of(p: ProviderV) -> ProviderType {
    match p {
        ProviderV::Openai(_) => ProviderType::Openai,
        ProviderV::Anthropic(_) => ProviderType::Anthropic,
        ProviderV::Gemini(_) => ProviderType::Gemini,
        ProviderV::Ollama(_) => ProviderType::Ollama,
    }
}

/// The API key a provider sends, if its protocol takes one.
pub open spec fn provider_key(p: ProviderV) -> Option<Seq<char>> {
    match p {
        ProviderV::Openai(s) => Some(s.api_key),
        ProviderV::Anthropic(s) => Some(s.api_key),
        ProviderV::Gemini(s) => Some(s.api_key),
        ProviderV::Ollama(_) => None,
    }
}

/// The base URL a provider sends to.
pub open spec fn provider_base_url(p: ProviderV) -> Seq<char> {
    match p {
        ProviderV::Openai(s) => s.base_url,
        ProviderV::Anthropic(s) => s.base_url,
        ProviderV::Gemini(s) => s.base_url,
        ProviderV::Ollama(s) => s.base_url,
    }
}

/// Whether `p` is the provider of entry `i` of a run: the entry's model, the
/// protocol and base URL of its provider's configuration (the protocol's
/// default URL when none is configured).
pub open spec fn built_for_entry(p: ProviderV, s: CascadeRunV, i: int) -> bool {
    let cfg: ProviderConfigV = s.configs[i]->0;
    &&& provider_model(p) == s.entries[i].model
    &&& provider_type_of(p) == cfg.provider_type
    &&& provider_base_url(p) == match cfg.base_url {
        Some(u) => u,
        None => default_base_url(cfg.provider_type),
    }
}

/// An entry is sent with its own model and configuration: when the key lookup
/// of the entry being tried finds a key, the run sends that entry, keyed
/// `provider/model`, with a provider built from that entry and that key; when
/// it finds none, the entry fails and nothing is sent for it.
pub proof fn law_send_uses_current_entry(s: CascadeRunV, key: Result<Seq<char>, Seq<char>>)
    requires
        run_wf(s),
        s.phase == Phase::AwaitingKey,
    ensures
        ({
            let i = s.index as int;
            let (t, a) = on_api_key_spec(s, key);
            match key {
                Ok(k) => (a matches CascadeActionV::Send { entry_key, provider } && entry_key
                    == s.entries[i].provider + "/"@ + s.entries[i].model && built_for_entry(
                    provider,
                    s,
                    i,
                ) && provider_key(provider) == Some(k)) && t.index == s.index && t.phase
                    == Phase::AwaitingReply,
                Err(_) => t.index > s.index && t.errors.len() > s.errors.len() && !(a is Send),
            }
        }),
{
    if key is Err {
        let r = CascadeRunV {
            errors: s.errors.push(
                key_at(s, s.index as int) + ": "@ + crate::error::provider_error_text(
                    ProviderErrorV::MissingApiKey(s.entries[s.index as int].provider),
                ),
            ),
            index: s.index + 1,
            phase: Phase::Ready,
            ..s
        };
        lemma_advance(r);
    }
}

/// An entry that needs no key (Ollama) and is not on cooldown is sent right
/// away with its own model and configuration; one that needs a key is looked
/// up under its own keyring service and variable.
pub proof fn law_cooldown_check_uses_current_entry(s: CascadeRunV)
    requires
        run_wf(s),
        s.phase == Phase::AwaitingCooldown,
    ensures
        ({
            let i = s.index as int;
            let (t, a) = on_cooldown_spec(s, false);
            let entry_key = s.entries[i].provider + "/"@ + s.entries[i].model;
            match key_source_spec(s.entries[i].provider, s.configs[i]->0) {
                None => a matches CascadeActionV::Send { entry_key: e, provider } && e == entry_key
                    && built_for_entry(provider, s, i) && provider_key(provider) is None,
                Some((service, env_var)) => a == CascadeActionV::ResolveKey {
                    entry_key,
                    service,
                    env_var,
                },
            }
        }),
{
}

/// The backoff in seconds: 30 at level 0, doubling per level (60, 120, 240,
/// 480, 960, 1920), and one hour from level 7 on.
pub proof fn law_backoff_values(level: nat)
    ensures
        backoff_secs_spec(0) == 30,
        backoff_secs_spec(6) == 1920,
        level < 6 ==> backoff_secs_spec(level + 1) == 2 * backoff_secs_spec(level),
        level >= 7 ==> backoff_secs_spec(level) == 3600,
        30 <= backoff_secs_spec(level) <= 3600,
{
    reveal_with_fuel(doubling, 8);
    law_backoff_bounds(level);
    if level < 6 {
        law_backoff_doubles(level);
        law_backoff_monotone(level + 1, 6);
    }
    if level >= 7 {
        law_backoff_monotone(7, level);
    }
}

/// The failure level is one less than the count of failed attempts (zero for
/// no failures), for every count that fits in 32 bits.
pub proof fn law_cooldown_level(count: i64)
    ensures
        count <= 1 ==> cooldown_level_spec(count) == 0,
        1 <= count <= 0xffff_ffff ==> cooldown_level_spec(count) == count - 1,
{
}

/// Where keys are looked up: the configured keyring service, else the
/// provider's name; the configured variable, else `OPENAI_API_KEY`,
/// `ANTHROPIC_API_KEY` or `GOOGLE_API_KEY` by protocol; Ollama needs no key.
pub proof fn law_key_source(name: Seq<char>, cfg: ProviderConfigV)
    ensures
        ({
            let service = match cfg.api_key_service {
                Some(s) => s,
                None => name,
            };
            let env_or = |d: Seq<char>| match cfg.api_key_env {
                Some(e) => e,
                None => d,
            };
            match cfg.provider_type {
                ProviderType::Openai => key_source_spec(name, cfg) == Some((service, env_or("OPENAI_API_KEY"@))),
                ProviderType::Anthropic => key_source_spec(name, cfg) == Some((service, env_or("ANTHROPIC_API_KEY"@))),
                ProviderType::Gemini => key_source_spec(name, cfg) == Some((service, env_or("GOOGLE_API_KEY"@))),
                ProviderType::Ollama => key_source_spec(name, cfg) is None,
            }
        }),
{
}

/// What is recorded of each entry that gives no response: a skipped entry
/// adds its `provider/model` key to the skipped list; a failed reply adds
/// `provider/model: ` and the error's text (`HTTP <status>: <body>` for an HTTP
/// error) to the failures; a missing key adds `provider/model: API key not
/// configured for provider '<provider>'`.  Earlier records are kept.
pub proof fn law_failures_are_recorded(s: CascadeRunV, e: ProviderErrorV)
    requires
        run_wf(s),
    ensures
        ({
            let i = s.index as int;
            let key = s.entries[i].provider + "/"@ + s.entries[i].model;
            &&& s.phase == Phase::AwaitingCooldown ==> {
                let t = on_cooldown_spec(s, true).0;
                &&& t.skipped == s.skipped.push(key)
                &&& t.errors.subrange(0, s.errors.len() as int) == s.errors
            }
            &&& s.phase == Phase::AwaitingReply ==> {
                let t = on_reply_spec(s, Err(e)).0;
                &&& t.errors == s.errors.push(key + ": "@ + match e {
                    ProviderErrorV::Http { status, body, .. } => "HTTP "@ + crate::text::decimal(
                        status as nat,
                    ) + ": "@ + body,
                    ProviderErrorV::Request(t) => "Request failed: "@ + t,
                    ProviderErrorV::Parse(t) => "Response parse error: "@ + t,
                    ProviderErrorV::MissingApiKey(t) => "API key not configured for provider '"@ + t
                        + "'"@,
                    ProviderErrorV::Other(t) => "Provider error: "@ + t,
                })
                &&& t.skipped == s.skipped
            }
            &&& s.phase == Phase::AwaitingKey ==> {
                let t = on_api_key_spec(s, Err(Seq::empty())).0;
                &&& t.errors[s.errors.len() as int] == key + ": "@
                    + "API key not configured for provider '"@ + s.entries[i].provider + "'"@
                &&& t.errors.subrange(0, s.errors.len() as int) == s.errors
                &&& t.skipped == s.skipped
            }
        }),
{
    if s.phase == Phase::AwaitingCooldown {
        let r = CascadeRunV {
            skipped: s.skipped.push(key_at(s, s.index as int)),
            index: s.index + 1,
            phase: Phase::Ready,
            ..s
        };
        lemma_advance(r);
        lemma_errors_prefix(r);
    }
    if s.phase == Phase::AwaitingKey {
        let m = key_at(s, s.index as int) + ": "@ + crate::error::provider_error_text(
            ProviderErrorV::MissingApiKey(s.entries[s.index as int].provider),
        );
        let r = CascadeRunV { errors: s.errors.push(m), index: s.index + 1, phase: Phase::Ready, ..s };
        lemma_advance(r);
        lemma_errors_prefix(r);
        let t = advance_spec(r).0;
        assert(t.errors[s.errors.len() as int] == t.errors.subrange(0, r.errors.len() as int)[s.errors.len() as int]);
        assert(m =~= key_at(s, s.index as int) + ": "@ + "API key not configured for provider '"@
            + s.entries[s.index as int].provider + "'"@);
        assert(t.errors.subrange(0, s.errors.len() as int) =~= t.errors.subrange(0, r.errors.len() as int).subrange(0, s.errors.len() as int));
    }
}

/// Looking for the next entry only adds failures after those already recorded.
proof fn lemma_errors_prefix(s: CascadeRunV)
    requires
        run_wf(s),
    ensures
        advance_spec(s).0.errors.subrange(0, s.errors.len() as int) == s.errors,
    decreases s.entries.len() - s.index,
{
    if s.index < s.entries.len() && s.configs.len() == s.entries.len() && s.configs[s.index as int] is None {
        let n = CascadeRunV {
            errors: s.errors.push(crate::cascade::missing_provider_error(s, s.index as int)),
            index: s.index + 1,
            ..s
        };
        lemma_errors_prefix(n);
        lemma_advance(n);
        assert(advance_spec(s) == advance_spec(n));
        let e = advance_spec(n).0.errors;
        assert(e.subrange(0, s.errors.len() as int) =~= e.subrange(0, n.errors.len() as int).subrange(0, s.errors.len() as int));
        assert(n.errors.subrange(0, s.errors.len() as int) =~= s.errors);
    } else {
        lemma_advance(s);
        assert(advance_spec(s).0.errors.subrange(0, s.errors.len() as int) =~= s.errors);
    }
}

/// An entry whose provider is not configured fails with
/// `provider/model: provider not found`, recorded after the earlier failures.
pub proof fn law_missing_provider(s: CascadeRunV)
    requires
        run_wf(s),
        s.phase == Phase::Ready,
        s.index < s.entries.len(),
        s.configs[s.index as int] is None,
    ensures
        ({
            let t = advance_spec(s).0;
            let i = s.index as int;
            &&& t.errors.len() > s.errors.len()
            &&& t.errors[s.errors.len() as int] == s.entries[i].provider + "/"@ + s.entries[i].model
                + ": provider not found"@
            &&& t.errors.subrange(0, s.errors.len() as int) == s.errors
            &&& t.skipped == s.skipped
        }),
{
    let n = CascadeRunV {
        errors: s.errors.push(crate::cascade::missing_provider_error(s, s.index as int)),
        index: s.index + 1,
        ..s
    };
    lemma_errors_prefix(n);
    lemma_advance(n);
    lemma_errors_prefix(s);
    let t = advance_spec(n).0;
    assert(advance_spec(s) == advance_spec(n));
    assert(t.errors[s.errors.len() as int] == t.errors.subrange(0, n.errors.len() as int)[s.errors.len() as int]);
}

/// Each action names its entry by `provider/model`: the cooldown check after
/// looking for the next entry names the first configured entry from the
/// index on, and a success names the entry that answered, with its response.
pub proof fn law_action_keys(s: CascadeRunV, r: LlmResponseV)
    requires
        run_wf(s),
    ensures
        (s.phase == Phase::Ready && s.index < s.entries.len() && s.configs[s.index as int] is Some)
            ==> (advance_spec(s).1 == CascadeActionV::CheckCooldown {
            entry_key: s.entries[s.index as int].provider + "/"@ + s.entries[s.index as int].model,
        }),
        s.phase == Phase::AwaitingReply ==> (on_reply_spec(s, Ok(r)).1 == CascadeActionV::Succeeded {
            entry_key: s.entries[s.index as int].provider + "/"@ + s.entries[s.index as int].model,
            response: r,
        }),
{
}

/// A run starts with each entry's provider configuration, looked up by the
/// entry's provider name: present exactly when that provider is configured.
pub proof fn law_entry_configs(
    entries: Seq<crate::config::CascadeEntryV>,
    providers: Map<Seq<char>, ProviderConfigV>,
)
    ensures
        entry_configs(entries, providers).len() == entries.len(),
        forall|i: int|
            0 <= i < entries.len() ==> (#[trigger] entry_configs(entries, providers)[i] is Some
                <==> providers.contains_key(entries[i].provider)),
        forall|i: int|
            0 <= i < entries.len() && providers.contains_key(entries[i].provider) ==> #[trigger] entry_configs(
                entries,
                providers,
            )[i] == Some(providers[entries[i].provider]),
{
}

/// The backoff starts at 30 seconds and never exceeds an hour.
pub proof fn law_backoff_bounds(level: nat)
    ensures
        BASE_COOLDOWN_SECS <= backoff_secs_spec(level) <= MAX_COOLDOWN_SECS,
        backoff_secs_spec(0) == BASE_COOLDOWN_SECS,
    decreases level,
{
    if level > 0 {
        law_backoff_bounds((level - 1) as nat);
        lemma_doubling_positive(level);
    }
}

proof fn lemma_doubling_positive(n: nat)
    ensures
        doubling(n) >= 1,
    decreases n,
{
    if n > 0 {
        lemma_doubling_positive((n - 1) as nat);
    }
}

/// Each further failure level doubles the backoff, until it reaches an hour.
pub proof fn law_backoff_doubles(level: nat)
    ensures
        backoff_secs_spec(level + 1) == if 2 * backoff_secs_spec(level) < MAX_COOLDOWN_SECS {
            2 * backoff_secs_spec(level)
        } else {
            MAX_COOLDOWN_SECS as int
        },
{
    assert(doubling(level + 1) == 2 * doubling(level));
}

/// A higher failure level never gives a shorter backoff.
pub proof fn law_backoff_monotone(a: nat, b: nat)
    requires
        a <= b,
    ensures
        backoff_secs_spec(a) <= backoff_secs_spec(b),
    decreases b - a,
{
    if a < b {
        law_backoff_monotone(a, (b - 1) as nat);
        law_backoff_doubles((b - 1) as nat);
        law_backoff_bounds((b - 1) as nat);
    }
}

} // verus!
