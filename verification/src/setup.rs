//! Decisions of the interactive setup: provider choices, custom providers,
//! cascade definitions.

use vstd::prelude::*;
use vstd::string::StringExecFns;

use crate::config::{
    CascadeConfig, CascadeEntry, CascadeEntryV, ProviderConfig, ProviderConfigV, ProviderType,
};
use crate::named_map::NamedMap;
use crate::text::{
    chars_of, lowercase, replace_char, replace_char_str, str_eq, string_of_range, to_lowercase,
    to_uppercase, trim, trim_str, uppercase, views, all_ascii, ascii_lower, ascii_upper,
};

verus! {

/// A provider configuration of the given parts.
pub open spec fn cfgv(
    t: ProviderType,
    service: Option<Seq<char>>,
    env: Option<Seq<char>>,
    url: Option<Seq<char>>,
) -> ProviderConfigV {
    ProviderConfigV { provider_type: t, api_key_service: service, api_key_env: env, base_url: url }
}

/// The provider that a menu choice (its number or its name) stands for.
pub open spec fn preset_spec(token: Seq<char>) -> Option<(Seq<char>, ProviderConfigV)> {
    if token == "1"@ || token == "openai"@ {
        Some(("openai"@, cfgv(ProviderType::Openai, Some("openai"@), Some("OPENAI_API_KEY"@), None)))
    } else if token == "2"@ || token == "anthropic"@ {
        Some(
            (
                "anthropic"@,
                cfgv(ProviderType::Anthropic, Some("anthropic"@), Some("ANTHROPIC_API_KEY"@), None),
            ),
        )
    } else if token == "3"@ || token == "gemini"@ {
        Some(("gemini"@, cfgv(ProviderType::Gemini, Some("gemini"@), Some("GOOGLE_API_KEY"@), None)))
    } else if token == "4"@ || token == "groq"@ {
        Some(
            (
                "groq"@,
                cfgv(
                    ProviderType::Openai,
                    Some("groq"@),
                    Some("GROQ_API_KEY"@),
                    Some("https://api.groq.com/openai/v1"@),
                ),
            ),
        )
    } else if token == "5"@ || token == "ollama"@ {
        Some(("ollama"@, cfgv(ProviderType::Ollama, None, None, Some("http://localhost:11434"@))))
    } else {
        None
    }
}

/// Every menu provider, in menu order.
pub open spec fn all_presets_spec() -> Seq<(Seq<char>, ProviderConfigV)> {
    seq![
        preset_spec("1"@)->0,
        preset_spec("2"@)->0,
        preset_spec("3"@)->0,
        preset_spec("4"@)->0,
        preset_spec("5"@)->0,
    ]
}

fn opt_str(o: Option<&str>) -> (r: Option<String>)
    ensures
        crate::models::conversation::opt_str_view(r) == match o {
            Some(s) => Some(s@),
            None => None,
        },
{
    match o {
        Some(s) => Some(String::from_str(s)),
        None => None,
    }
}

fn make_config(t: ProviderType, service: Option<&str>, env: Option<&str>, url: Option<&str>) -> (r:
    ProviderConfig)
    ensures
        r@ == cfgv(
            t,
            match service {
                Some(s) => Some(s@),
                None => None,
            },
            match env {
                Some(s) => Some(s@),
                None => None,
            },
            match url {
                Some(s) => Some(s@),
                None => None,
            },
        ),
{
    ProviderConfig {
        provider_type: t,
        api_key_service: opt_str(service),
        api_key_env: opt_str(env),
        base_url: opt_str(url),
    }
}

/// The provider that a menu choice stands for.
pub fn preset(token: &str) -> (r: Option<(String, ProviderConfig)>)
    ensures
        match r {
            Some((n, c)) => preset_spec(token@) == Some((n@, c@)),
            None => preset_spec(token@) is None,
        },
{
    if str_eq(token, "1") || str_eq(token, "openai") {
        Some(
            (
                String::from_str("openai"),
                make_config(ProviderType::Openai, Some("openai"), Some("OPENAI_API_KEY"), None),
            ),
        )
    } else if str_eq(token, "2") || str_eq(token, "anthropic") {
        Some(
            (
                String::from_str("anthropic"),
                make_config(
                    ProviderType::Anthropic,
                    Some("anthropic"),
                    Some("ANTHROPIC_API_KEY"),
                    None,
                ),
            ),
        )
    } else if str_eq(token, "3") || str_eq(token, "gemini") {
        Some(
            (
                String::from_str("gemini"),
                make_config(ProviderType::Gemini, Some("gemini"), Some("GOOGLE_API_KEY"), None),
            ),
        )
    } else if str_eq(token, "4") || str_eq(token, "groq") {
        Some(
            (
                String::from_str("groq"),
                make_config(
                    ProviderType::Openai,
                    Some("groq"),
                    Some("GROQ_API_KEY"),
                    Some("https://api.groq.com/openai/v1"),
                ),
            ),
        )
    } else if str_eq(token, "5") || str_eq(token, "ollama") {
        Some(
            (
                String::from_str("ollama"),
                make_config(ProviderType::Ollama, None, None, Some("http://localhost:11434")),
            ),
        )
    } else {
        None
    }
}

/// The pieces of `s` between occurrences of `c` (`str::split` with a char),
/// empty pieces included.
pub open spec fn split_on(s: Seq<char>, c: char) -> Seq<Seq<char>>
    decreases s.len(),
{
    if s.len() == 0 {
        seq![Seq::empty()]
    } else {
        let rest = split_on(s.drop_last(), c);
        if s.last() == c {
            rest.push(Seq::empty())
        } else {
            rest.update(rest.len() - 1, rest.last().push(s.last()))
        }
    }
}

proof fn lemma_split_on_nonempty(s: Seq<char>, c: char)
    ensures
        split_on(s, c).len() >= 1,
    decreases s.len(),
{
    if s.len() > 0 {
        lemma_split_on_nonempty(s.drop_last(), c);
    }
}

/// Splits `s` at every `c`.
pub fn split_char(s: &str, c: char) -> (r: Vec<String>)
    ensures
        views(r@) == split_on(s@, c),
{
    let v = chars_of(s);
    let mut done: Vec<String> = Vec::new();
    let mut cur = String::new();
    let mut i: usize = 0;
    assert(views(done@).push(cur@) =~= split_on(v@.subrange(0, 0), c));
    while i < v.len()
        invariant
            i <= v@.len(),
            v@ == s@,
            views(done@).push(cur@) == split_on(v@.subrange(0, i as int), c),
        decreases v@.len() - i,
    {
        let ghost pre = v@.subrange(0, i as int);
        let ghost next = v@.subrange(0, i + 1);
        assert(next.drop_last() =~= pre);
        proof {
            lemma_split_on_nonempty(pre, c);
        }
        if v[i] == c {
            let piece = cur;
            done.push(piece);
            cur = String::new();
            assert(views(done@).push(cur@) =~= split_on(next, c));
        } else {
            let ghost old_done = views(done@);
            push_char_to(&mut cur, v[i]);
            assert(views(done@).push(cur@) =~= split_on(next, c));
        }
        i = i + 1;
    }
    assert(v@.subrange(0, v@.len() as int) =~= v@);
    done.push(cur);
    assert(views(done@) =~= split_on(s@, c));
    done
}

fn push_char_to(s: &mut String, c: char)
    ensures
        final(s)@ == old(s)@.push(c),
{
    crate::text::push_char(s, c)
}

/// The menu providers picked by a list of choices, in order.
pub open spec fn picked(parts: Seq<Seq<char>>) -> Seq<(Seq<char>, ProviderConfigV)>
    decreases parts.len(),
{
    if parts.len() == 0 {
        Seq::empty()
    } else {
        let prev = picked(parts.drop_last());
        match preset_spec(parts.last()) {
            Some(p) => prev.push(p),
            None => prev,
        }
    }
}

/// The choices that are neither empty nor a menu provider, in order.
pub open spec fn unknown_choices(parts: Seq<Seq<char>>) -> Seq<Seq<char>>
    decreases parts.len(),
{
    if parts.len() == 0 {
        Seq::empty()
    } else {
        let prev = unknown_choices(parts.drop_last());
        if parts.last().len() > 0 && preset_spec(parts.last()) is None {
            prev.push(parts.last())
        } else {
            prev
        }
    }
}

/// A map with the given entries stored in order.
pub open spec fn insert_all(
    m: Map<Seq<char>, ProviderConfigV>,
    ps: Seq<(Seq<char>, ProviderConfigV)>,
) -> Map<Seq<char>, ProviderConfigV>
    decreases ps.len(),
{
    if ps.len() == 0 {
        m
    } else {
        insert_all(m, ps.drop_last()).insert(ps.last().0, ps.last().1)
    }
}

/// The names of a map after the given entries are stored in order: a new name
/// goes after the others.
pub open spec fn names_insert_all(ns: Seq<Seq<char>>, ps: Seq<(Seq<char>, ProviderConfigV)>) -> Seq<
    Seq<char>,
>
    decreases ps.len(),
{
    if ps.len() == 0 {
        ns
    } else {
        let prev = names_insert_all(ns, ps.drop_last());
        if prev.contains(ps.last().0) {
            prev
        } else {
            prev.push(ps.last().0)
        }
    }
}

/// The choices of a selection line: its comma-separated parts, each trimmed.
pub open spec fn choices(line: Seq<char>) -> Seq<Seq<char>> {
    split_on(trim(line), ',').map_values(|p: Seq<char>| trim(p))
}

/// The outcome of a provider selection line.
pub struct ProviderSelection {
    /// Whether at least one provider was picked (the question is not asked again).
    pub done: bool,
    /// The choices that were not understood, in order.
    pub unknown: Vec<String>,
}

/// Reads a provider selection line: `all` or `a` picks every menu provider;
/// otherwise each comma-separated choice picks its provider, empty choices are
/// ignored and others are reported.
pub fn select_providers(line: &str, providers: &mut NamedMap<ProviderConfig>) -> (r:
    ProviderSelection)
    ensures
        ({
            let t = trim(line@);
            if t == "all"@ || t == "a"@ {
                &&& final(providers)@ == insert_all(old(providers)@, all_presets_spec())
                &&& final(providers).names() == names_insert_all(old(providers).names(), all_presets_spec())
                &&& r.done
                &&& r.unknown@.len() == 0
            } else {
                &&& final(providers)@ == insert_all(old(providers)@, picked(choices(line@)))
                &&& final(providers).names() == names_insert_all(
                    old(providers).names(),
                    picked(choices(line@)),
                )
                &&& r.done == (picked(choices(line@)).len() > 0)
                &&& views(r.unknown@) == unknown_choices(choices(line@))
            }
        }),
{
    let t = trim_str(line);
    if str_eq(t.as_str(), "all") || str_eq(t.as_str(), "a") {
        let ghost m0 = providers@;
        let ghost n0 = providers.names();
        let tokens: [&str; 5] = ["1", "2", "3", "4", "5"];
        let mut k: usize = 0;
        while k < 5
            invariant
                k <= 5,
                tokens@ == seq!["1", "2", "3", "4", "5"],
                providers@ == insert_all(m0, all_presets_spec().subrange(0, k as int)),
                providers.names() == names_insert_all(n0, all_presets_spec().subrange(0, k as int)),
            decreases 5 - k,
        {
            match preset(tokens[k]) {
                Some((n, c)) => {
                    providers.insert(n, c);
                },
                None => {},
            }
            proof {
                let ps = all_presets_spec().subrange(0, k + 1);
                assert(ps.drop_last() =~= all_presets_spec().subrange(0, k as int));
            }
            k = k + 1;
        }
        assert(all_presets_spec().subrange(0, 5) =~= all_presets_spec());
        return ProviderSelection { done: true, unknown: Vec::new() };
    }
    let parts = split_char(t.as_str(), ',');
    let ghost cs = choices(line@);
    assert(cs =~= views(parts@).map_values(|p: Seq<char>| trim(p)));
    let ghost m0 = providers@;
    let ghost n0 = providers.names();
    let mut unknown: Vec<String> = Vec::new();
    let mut count: usize = 0;
    let mut i: usize = 0;
    while i < parts.len()
        invariant
            i <= parts@.len(),
            cs == views(parts@).map_values(|p: Seq<char>| trim(p)),
            providers@ == insert_all(m0, picked(cs.subrange(0, i as int))),
            providers.names() == names_insert_all(n0, picked(cs.subrange(0, i as int))),
            count == picked(cs.subrange(0, i as int)).len(),
            count <= i,
            views(unknown@) == unknown_choices(cs.subrange(0, i as int)),
        decreases parts@.len() - i,
    {
        let choice = trim_str(parts[i].as_str());
        let ghost sub = cs.subrange(0, i + 1);
        assert(sub.drop_last() =~= cs.subrange(0, i as int));
        assert(sub.last() == choice@);
        match preset(choice.as_str()) {
            Some((n, c)) => {
                let ghost x = (n@, c@);
                providers.insert(n, c);
                assert(picked(sub) == picked(cs.subrange(0, i as int)).push(x));
                assert(picked(sub).drop_last() =~= picked(cs.subrange(0, i as int)));
                count = count + 1;
            },
            None => {
                if !choice.as_str().is_empty() {
                    let ghost u = views(unknown@);
                    unknown.push(choice);
                    assert(views(unknown@) =~= u.push(sub.last()));
                }
            },
        }
        i = i + 1;
    }
    assert(cs.subrange(0, parts@.len() as int) =~= cs);
    ProviderSelection { done: count > 0, unknown }
}

/// Whether an answer means yes: `y` in either case, around whitespace.
pub fn is_yes(answer: &str) -> (r: bool)
    ensures
        r == (lowercase(trim(answer@)) == "y"@),
        all_ascii(trim(answer@)) ==> r == (trim(answer@).map_values(|c: char| ascii_lower(c))
            == "y"@),
{
    let t = trim_str(answer);
    let l = to_lowercase(t.as_str());
    str_eq(l.as_str(), "y")
}

/// The environment variable of a custom provider: its name in upper case,
/// dashes turned to underscores, then `_API_KEY`.
pub open spec fn custom_env_var_spec(name: Seq<char>) -> Seq<char> {
    replace_char(uppercase(name), '-', '_') + "_API_KEY"@
}

/// The environment variable of a custom provider.
pub fn custom_env_var(name: &str) -> (r: String)
    ensures
        r@ == custom_env_var_spec(name@),
        all_ascii(name@) ==> r@ == replace_char(name@.map_values(|c: char| ascii_upper(c)), '-', '_')
            + "_API_KEY"@,
{
    let up = to_uppercase(name);
    let mut r = replace_char_str(up.as_str(), '-', '_');
    r.append("_API_KEY");
    r
}

/// The name of a new custom provider, refused when empty or already taken.
pub fn custom_provider_name(line: &str, providers: &NamedMap<ProviderConfig>) -> (r: Result<
    String,
    String,
>)
    ensures
        match r {
            Ok(n) => n@ == trim(line@) && trim(line@).len() > 0 && !providers@.contains_key(n@),
            Err(m) => (trim(line@).len() == 0 || providers@.contains_key(trim(line@))) && m@
                == "  Invalid or duplicate name."@,
        },
{
    let name = trim_str(line);
    if name.as_str().is_empty() || providers.contains_key(name.as_str()) {
        Err(String::from_str("  Invalid or duplicate name."))
    } else {
        Ok(name)
    }
}

/// A custom OpenAI-compatible provider: keyring service named after it, its
/// environment variable, and the given base URL, refused when empty.
pub fn custom_provider(name: &str, url_line: &str) -> (r: Result<ProviderConfig, String>)
    ensures
        match r {
            Ok(c) => trim(url_line@).len() > 0 && c@ == cfgv(
                ProviderType::Openai,
                Some(name@),
                Some(custom_env_var_spec(name@)),
                Some(trim(url_line@)),
            ),
            Err(m) => trim(url_line@).len() == 0 && m@ == "  Base URL is required."@,
        },
{
    let url = trim_str(url_line);
    if url.as_str().is_empty() {
        return Err(String::from_str("  Base URL is required."));
    }
    Ok(
        ProviderConfig {
            provider_type: ProviderType::Openai,
            api_key_service: Some(String::from_str(name)),
            api_key_env: Some(custom_env_var(name)),
            base_url: Some(url),
        },
    )
}

/// What a cascade name line means.
pub enum CascadeNameStep {
    /// An empty line: no more cascades.
    Finish,
    /// The cascade is already defined.
    Duplicate(String),
    /// A new cascade to define.
    New(String),
}

/// What a cascade name line means: the name is the trimmed line.
pub fn cascade_name_step(line: &str, cascades: &NamedMap<CascadeConfig>) -> (r: CascadeNameStep)
    ensures
        match r {
            CascadeNameStep::Finish => trim(line@).len() == 0,
            CascadeNameStep::Duplicate(n) => n@ == trim(line@) && trim(line@).len() > 0
                && cascades@.contains_key(n@),
            CascadeNameStep::New(n) => n@ == trim(line@) && trim(line@).len() > 0
                && !cascades@.contains_key(n@),
        },
{
    let name = trim_str(line);
    if name.as_str().is_empty() {
        CascadeNameStep::Finish
    } else if cascades.contains_key(name.as_str()) {
        CascadeNameStep::Duplicate(name)
    } else {
        CascadeNameStep::New(name)
    }
}

/// The position of the first `c` in `s`, `-1` when there is none.
pub open spec fn index_of(s: Seq<char>, c: char) -> int
    decreases s.len(),
{
    if s.len() == 0 {
        -1
    } else if s[0] == c {
        0
    } else {
        let r = index_of(s.drop_first(), c);
        if r < 0 {
            -1
        } else {
            r + 1
        }
    }
}

proof fn lemma_index_of(s: Seq<char>, c: char, i: int)
    requires
        0 <= i <= s.len(),
        forall|j: int| 0 <= j < i ==> s[j] != c,
        i < s.len() ==> s[i] == c,
    ensures
        index_of(s, c) == if i < s.len() {
            i
        } else {
            -1
        },
    decreases s.len(),
{
    if s.len() > 0 && i > 0 {
        lemma_index_of(s.drop_first(), c, i - 1);
    }
}

/// What a cascade entry line means.
pub enum EntryStep {
    /// An empty line: no more entries.
    Finish,
    /// A line that is refused, with the message shown.
    Invalid(String),
    /// A new entry.
    Added(CascadeEntry),
}

/// What a cascade entry line means: `provider:model` split at the first
/// colon, both parts trimmed; the provider must be configured.
pub fn cascade_entry_step(line: &str, providers: &NamedMap<ProviderConfig>) -> (r: EntryStep)
    ensures
        ({
            let t = trim(line@);
            let i = index_of(t, ':');
            match r {
                EntryStep::Finish => t.len() == 0,
                EntryStep::Invalid(m) => t.len() > 0 && if i < 0 {
                    m@ == "    Format: provider:model (e.g. openai:gpt-4o)"@
                } else {
                    !providers@.contains_key(trim(t.subrange(0, i)))
                        && m@ == "    Provider '"@ + trim(t.subrange(0, i)) + "' not configured."@
                },
                EntryStep::Added(e) => t.len() > 0 && i >= 0 && e@ == (CascadeEntryV {
                    provider: trim(t.subrange(0, i)),
                    model: trim(t.subrange(i + 1, t.len() as int)),
                }) && providers@.contains_key(e@.provider),
            }
        }),
{
    let t = trim_str(line);
    if t.as_str().is_empty() {
        return EntryStep::Finish;
    }
    let v = chars_of(t.as_str());
    let mut i: usize = 0;
    while i < v.len() && v[i] != ':'
        invariant
            i <= v@.len(),
            forall|j: int| 0 <= j < i ==> v@[j] != ':',
        decreases v@.len() - i,
    {
        i = i + 1;
    }
    proof {
        lemma_index_of(v@, ':', i as int);
    }
    if i == v.len() {
        return EntryStep::Invalid(String::from_str("    Format: provider:model (e.g. openai:gpt-4o)"));
    }
    let before = string_of_range(&v, 0, i);
    let after = string_of_range(&v, i + 1, v.len());
    let prov = trim_str(before.as_str());
    let model = trim_str(after.as_str());
    if !providers.contains_key(prov.as_str()) {
        let mut m = String::from_str("    Provider '");
        m.append(prov.as_str());
        m.append("' not configured.");
        return EntryStep::Invalid(m);
    }
    EntryStep::Added(CascadeEntry { provider: prov, model })
}

/// Whether any provider uses a keyring key.
pub fn has_keyring_providers(providers: &NamedMap<ProviderConfig>) -> (r: bool)
    ensures
        r == exists|k: Seq<char>|
            #[trigger] providers@.contains_key(k) && providers@[k].api_key_service is Some,
{
    let entries = providers.entries();
    let mut i: usize = 0;
    while i < entries.len()
        invariant
            i <= entries@.len(),
            forall|j: int| 0 <= j < i ==> entries@[j].1@.api_key_service is None,
            forall|j: int|
                0 <= j < entries@.len() ==> providers@.contains_key((#[trigger] entries@[j]).0@)
                    && providers@[entries@[j].0@] == entries@[j].1@,
        decreases entries@.len() - i,
    {
        if entries[i].1.api_key_service.is_some() {
            assert(providers@.contains_key(entries@[i as int].0@));
            return true;
        }
        i = i + 1;
    }
    proof {
        assert forall|k: Seq<char>| #[trigger] providers@.contains_key(k) implies providers@[k].api_key_service is None by {
            let j = choose|j: int| 0 <= j < entries@.len() && entries@[j].0@ == k;
            assert(providers@[entries@[j].0@] == entries@[j].1@);
        }
    }
    false
}

} // verus!
