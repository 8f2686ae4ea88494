//! Decisions of the `key` commands: which provider, which service, what is
//! shown.

use vstd::prelude::*;
use vstd::string::StringExecFns;
use vstd::utf8::encode_utf8;

use crate::config::{AppConfig, ProviderConfig, ProviderConfigV};
use vstd::seq_lib::group_to_multiset_ensures;
use crate::models::conversation::opt_str_view;
use crate::order::{distinct_texts, sort_strings, sorted_texts};
use crate::secrets::{mask_is_safe_spec, mask_key, mask_key_spec};
use crate::text::{push_char, trim, trim_str};

verus! {

broadcast use group_to_multiset_ensures;

/// The configuration of the provider named `name`.
pub fn provider_config_for(config: &AppConfig, name: &str) -> (r: Result<ProviderConfig, String>)
    ensures
        match r {
            Ok(c) => config.providers@.contains_key(name@) && c@ == config.providers@[name@],
            Err(m) => !config.providers@.contains_key(name@) && m@ == "Provider '"@ + name@
                + "' not found in config"@,
        },
{
    match config.providers.get(name) {
        Some(c) => Ok(c.copy()),
        None => {
            let mut m = String::from_str("Provider '");
            m.append(name);
            m.append("' not found in config");
            Err(m)
        },
    }
}

/// The keyring service of a provider that uses an API key.
pub fn key_service_for(provider_name: &str, cfg: &ProviderConfig) -> (r: Result<String, String>)
    ensures
        match r {
            Ok(s) => cfg@.api_key_service == Some(s@),
            Err(m) => cfg@.api_key_service is None && m@ == "Provider '"@ + provider_name@
                + "' does not use an API key (e.g. Ollama)"@,
        },
{
    match &cfg.api_key_service {
        Some(s) => Ok(s.clone()),
        None => {
            let mut m = String::from_str("Provider '");
            m.append(provider_name);
            m.append("' does not use an API key (e.g. Ollama)");
            Err(m)
        },
    }
}

/// Refuses an entered key that is empty or only whitespace.
pub fn check_entered_key(key: &str) -> (r: Result<(), String>)
    ensures
        match r {
            Ok(()) => trim(key@).len() > 0,
            Err(m) => trim(key@).len() == 0 && m@ == "API key cannot be empty"@,
        },
{
    let t = trim_str(key);
    if t.as_str().is_empty() {
        Err(String::from_str("API key cannot be empty"))
    } else {
        Ok(())
    }
}

/// What `key get` shows.
pub enum KeyGetReport {
    /// A line for standard output.
    Show(String),
    /// A line for standard error; the command fails.
    Fail(String),
}

/// The line `key get` shows for a key found in the keyring or the
/// environment: the key itself or masked, the environment variable named when
/// the key came from there.
pub open spec fn shown_key(key: &str, show_full: bool) -> Seq<char> {
    if show_full {
        key@
    } else {
        mask_key_spec(key)
    }
}

/// What `key get` reports for a provider whose keyring lookup gave
/// `keyring_key` and whose environment variable (when configured) holds
/// `env_key`.
pub fn key_get_report(
    provider: &str,
    cfg: &ProviderConfig,
    keyring_key: Option<&str>,
    env_key: Option<&str>,
    show_full: bool,
) -> (r: KeyGetReport)
    requires
        !show_full ==> match keyring_key {
            Some(k) => mask_is_safe_spec(k),
            None => env_key matches Some(k) ==> mask_is_safe_spec(k),
        },
    ensures
        match keyring_key {
            Some(k) => r matches KeyGetReport::Show(line) && line@ == shown_key(k, show_full),
            None => match cfg@.api_key_env {
                Some(var) => match env_key {
                    Some(k) => r matches KeyGetReport::Show(line) && line@ == "(from env var "@
                        + var + ") "@ + shown_key(k, show_full),
                    None => r matches KeyGetReport::Fail(line) && line@ == "No API key found for '"@
                        + provider@ + "' in keyring or env var '"@ + var + "'."@,
                },
                None => r matches KeyGetReport::Fail(line) && line@ == "No API key found for '"@
                    + provider@ + "' in keyring."@,
            },
        },
{
    match keyring_key {
        Some(k) => {
            if show_full {
                KeyGetReport::Show(String::from_str(k))
            } else {
                KeyGetReport::Show(mask_key(k))
            }
        },
        None => match &cfg.api_key_env {
            Some(var) => match env_key {
                Some(k) => {
                    let mut line = String::from_str("(from env var ");
                    line.append(var.as_str());
                    line.append(") ");
                    if show_full {
                        line.append(k);
                    } else {
                        let m = mask_key(k);
                        line.append(m.as_str());
                    }
                    KeyGetReport::Show(line)
                },
                None => {
                    let mut line = String::from_str("No API key found for '");
                    line.append(provider);
                    line.append("' in keyring or env var '");
                    line.append(var.as_str());
                    line.append("'.");
                    KeyGetReport::Fail(line)
                },
            },
            None => {
                let mut line = String::from_str("No API key found for '");
                line.append(provider);
                line.append("' in keyring.");
                KeyGetReport::Fail(line)
            },
        },
    }
}

/// The keyring and environment columns of `key list` for a provider: `n/a`
/// for both when it uses no key; else whether the keyring has it, and whether
/// its environment variable is set (`n/a` when none is configured).
pub open spec fn key_status_spec(cfg: ProviderConfigV, keyring_set: bool, env_set: bool) -> (
    Seq<char>,
    Seq<char>,
) {
    match cfg.api_key_service {
        Some(_) => (
            if keyring_set {
                "set"@
            } else {
                "not set"@
            },
            match cfg.api_key_env {
                Some(_) => if env_set {
                    "set"@
                } else {
                    "not set"@
                },
                None => "n/a"@,
            },
        ),
        None => ("n/a"@, "n/a"@),
    }
}

/// The keyring and environment columns of `key list` for a provider.
pub fn key_status(cfg: &ProviderConfig, keyring_set: bool, env_set: bool) -> (r: (String, String))
    ensures
        (r.0@, r.1@) == key_status_spec(cfg@, keyring_set, env_set),
{
    match &cfg.api_key_service {
        Some(_) => {
            let kr = if keyring_set {
                String::from_str("set")
            } else {
                String::from_str("not set")
            };
            let env = match &cfg.api_key_env {
                Some(_) => if env_set {
                    String::from_str("set")
                } else {
                    String::from_str("not set")
                },
                None => String::from_str("n/a"),
            };
            (kr, env)
        },
        None => (String::from_str("n/a"), String::from_str("n/a")),
    }
}

/// `s` padded with spaces to `width` characters (`{:width$}`); a longer `s` is
/// left whole.
pub open spec fn pad_spec(s: Seq<char>, width: nat) -> Seq<char> {
    if s.len() < width {
        s + Seq::new((width - s.len()) as nat, |i: int| ' ')
    } else {
        s
    }
}

/// `s` padded with spaces to `width` characters.
pub fn pad(s: &str, width: usize) -> (r: String)
    ensures
        r@ == pad_spec(s@, width as nat),
{
    let mut r = String::from_str(s);
    let n = s.unicode_len();
    if n < width {
        let mut i: usize = n;
        while i < width
            invariant
                n <= i <= width,
                n == s@.len(),
                r@ == s@ + Seq::new((i - n) as nat, |k: int| ' '),
            decreases width - i,
        {
            push_char(&mut r, ' ');
            i = i + 1;
            assert(r@ =~= s@ + Seq::new((i - n) as nat, |k: int| ' '));
        }
    }
    proof {
        if s@.len() >= width {
            assert(r@ == pad_spec(s@, width as nat));
        }
    }
    r
}

/// `width` copies of `c`.
pub fn repeat_char(c: char, width: usize) -> (r: String)
    ensures
        r@ == Seq::new(width as nat, |k: int| c),
{
    let mut r = String::new();
    let mut i: usize = 0;
    while i < width
        invariant
            i <= width,
            r@ == Seq::new(i as nat, |k: int| c),
        decreases width - i,
    {
        push_char(&mut r, c);
        i = i + 1;
        assert(r@ =~= Seq::new(i as nat, |k: int| c));
    }
    r
}

/// One row of the `key list` table.
pub struct KeyStatusRow {
    pub provider: String,
    pub keyring: String,
    pub env: String,
}

/// The width of a column: the longest cell in bytes, at least eight.
pub open spec fn column_width(cells: Seq<nat>) -> nat
    decreases cells.len(),
{
    if cells.len() == 0 {
        8
    } else {
        let w = column_width(cells.drop_last());
        if cells.last() > w {
            cells.last()
        } else {
            w
        }
    }
}

/// The length of a string in bytes, as `str::len` gives it.
pub open spec fn byte_len(s: Seq<char>) -> nat {
    (encode_utf8(s).len() as usize) as nat
}

/// The byte lengths of a column of the table.
pub open spec fn byte_lengths(rows: Seq<KeyStatusRow>, col: int) -> Seq<nat> {
    rows.map_values(
        |r: KeyStatusRow|
            if col == 0 {
                byte_len(r.provider@)
            } else if col == 1 {
                byte_len(r.keyring@)
            } else {
                byte_len(r.env@)
            },
    )
}

fn width_of(rows: &Vec<KeyStatusRow>, col: usize) -> (w: usize)
    requires
        col < 3,
    ensures
        w as nat == column_width(byte_lengths(rows@, col as int)),
{
    let mut w: usize = 8;
    let mut i: usize = 0;
    while i < rows.len()
        invariant
            i <= rows@.len(),
            col < 3,
            w as nat == column_width(byte_lengths(rows@.subrange(0, i as int), col as int)),
        decreases rows@.len() - i,
    {
        let r = &rows[i];
        let n = if col == 0 {
            r.provider.as_str().len()
        } else if col == 1 {
            r.keyring.as_str().len()
        } else {
            r.env.as_str().len()
        };
        proof {
            let a = byte_lengths(rows@.subrange(0, i + 1), col as int);
            assert(a.drop_last() =~= byte_lengths(rows@.subrange(0, i as int), col as int));
            assert(a.last() == n as nat);
        }
        if n > w {
            w = n;
        }
        i = i + 1;
    }
    assert(rows@.subrange(0, rows@.len() as int) =~= rows@);
    w
}

/// A table line: three cells, each padded to its column's width, two spaces apart.
pub open spec fn table_line(a: Seq<char>, b: Seq<char>, c: Seq<char>, w: (nat, nat, nat)) -> Seq<
    char,
> {
    pad_spec(a, w.0) + "  "@ + pad_spec(b, w.1) + "  "@ + pad_spec(c, w.2)
}

/// The lines of the `key list` table: the header, a rule of dashes, then one
/// line per row in the given order.
pub open spec fn key_table_spec(rows: Seq<KeyStatusRow>) -> Seq<Seq<char>> {
    let w = (
        column_width(byte_lengths(rows, 0)),
        column_width(byte_lengths(rows, 1)),
        column_width(byte_lengths(rows, 2)),
    );
    seq![
        table_line("PROVIDER"@, "KEYRING"@, "ENV VAR"@, w),
        Seq::new(w.0, |i: int| '-') + "  "@ + Seq::new(w.1, |i: int| '-') + "  "@ + Seq::new(
            w.2,
            |i: int| '-',
        ),
    ] + rows.map_values(|r: KeyStatusRow| table_line(r.provider@, r.keyring@, r.env@, w))
}

fn line3(a: &str, b: &str, c: &str, w0: usize, w1: usize, w2: usize) -> (r: String)
    ensures
        r@ == table_line(a@, b@, c@, (w0 as nat, w1 as nat, w2 as nat)),
{
    let mut r = pad(a, w0);
    r.append("  ");
    let p = pad(b, w1);
    r.append(p.as_str());
    r.append("  ");
    let q = pad(c, w2);
    r.append(q.as_str());
    r
}

/// The lines of the `key list` table.
pub fn key_table(rows: &Vec<KeyStatusRow>) -> (r: Vec<String>)
    ensures
        crate::text::views(r@) == key_table_spec(rows@),
{
    let w0 = width_of(rows, 0);
    let w1 = width_of(rows, 1);
    let w2 = width_of(rows, 2);
    let ghost w = (w0 as nat, w1 as nat, w2 as nat);
    let mut out: Vec<String> = Vec::new();
    out.push(line3("PROVIDER", "KEYRING", "ENV VAR", w0, w1, w2));
    let mut rule = repeat_char('-', w0);
    rule.append("  ");
    let d1 = repeat_char('-', w1);
    rule.append(d1.as_str());
    rule.append("  ");
    let d2 = repeat_char('-', w2);
    rule.append(d2.as_str());
    out.push(rule);
    let ghost head = crate::text::views(out@);
    let mut i: usize = 0;
    while i < rows.len()
        invariant
            i <= rows@.len(),
            w == (w0 as nat, w1 as nat, w2 as nat),
            crate::text::views(out@) == head + rows@.subrange(0, i as int).map_values(
                |r: KeyStatusRow| table_line(r.provider@, r.keyring@, r.env@, w),
            ),
        decreases rows@.len() - i,
    {
        let r = &rows[i];
        let line = line3(r.provider.as_str(), r.keyring.as_str(), r.env.as_str(), w0, w1, w2);
        let ghost prev = out@;
        let ghost lv = line@;
        out.push(line);
        assert(crate::text::views(out@) =~= crate::text::views(prev).push(lv));
        assert(rows@.subrange(0, i + 1) =~= rows@.subrange(0, i as int).push(rows@[i as int]));
        assert(crate::text::views(out@) =~= head + rows@.subrange(0, i + 1).map_values(
            |r: KeyStatusRow| table_line(r.provider@, r.keyring@, r.env@, w),
        ));
        i = i + 1;
    }
    assert(rows@.subrange(0, rows@.len() as int) =~= rows@);
    assert(crate::text::views(out@) =~= key_table_spec(rows@));
    out
}

/// The names of the entries whose provider uses an API key, in order.
pub open spec fn key_names(s: Seq<(String, ProviderConfig)>) -> Seq<Seq<char>>
    decreases s.len(),
{
    if s.len() == 0 {
        Seq::empty()
    } else if s.last().1.api_key_service is Some {
        key_names(s.drop_last()).push(s.last().0@)
    } else {
        key_names(s.drop_last())
    }
}

proof fn lemma_key_names(s: Seq<(String, ProviderConfig)>, k: Seq<char>)
    ensures
        key_names(s).contains(k) <==> exists|j: int|
            0 <= j < s.len() && s[j].0@ == k && s[j].1.api_key_service is Some,
    decreases s.len(),
{
    if s.len() > 0 {
        let t = s.drop_last();
        lemma_key_names(t, k);
        if key_names(s).contains(k) {
            if s.last().1.api_key_service is Some && k == s.last().0@ {
                assert(s[s.len() - 1].0@ == k);
            } else {
                assert(key_names(t).contains(k)) by {
                    let i = choose|i: int| 0 <= i < key_names(s).len() && key_names(s)[i] == k;
                    if s.last().1.api_key_service is Some {
                        assert(key_names(t)[i] == k);
                    }
                }
                let j = choose|j: int| 0 <= j < t.len() && t[j].0@ == k && t[j].1.api_key_service is Some;
                assert(s[j] == t[j]);
            }
        }
        if exists|j: int| 0 <= j < s.len() && s[j].0@ == k && s[j].1.api_key_service is Some {
            let j = choose|j: int| 0 <= j < s.len() && s[j].0@ == k && s[j].1.api_key_service is Some;
            if j < s.len() - 1 {
                assert(t[j] == s[j]);
                assert(key_names(t).contains(k));
                let i = choose|i: int| 0 <= i < key_names(t).len() && key_names(t)[i] == k;
                if s.last().1.api_key_service is Some {
                    assert(key_names(s)[i] == k);
                }
            } else {
                assert(key_names(s)[key_names(s).len() - 1] == k);
            }
        }
    }
}

/// Names that occur once in a list of entries occur once among the key names.
proof fn lemma_key_names_distinct(s: Seq<(String, ProviderConfig)>)
    requires
        crate::named_map::names_unique(s),
    ensures
        forall|i: int, j: int|
            0 <= i < j < key_names(s).len() ==> key_names(s)[i] != key_names(s)[j],
    decreases s.len(),
{
    if s.len() > 0 {
        let t = s.drop_last();
        assert(crate::named_map::names_unique(t)) by {
            assert forall|i: int, j: int|
                0 <= i < t.len() && 0 <= j < t.len() && i != j implies t[i].0@ != t[j].0@ by {
                assert(t[i] == s[i] && t[j] == s[j]);
            }
        }
        lemma_key_names_distinct(t);
        if s.last().1.api_key_service is Some {
            lemma_key_names(t, s.last().0@);
            if key_names(t).contains(s.last().0@) {
                let j = choose|j: int|
                    0 <= j < t.len() && t[j].0@ == s.last().0@ && t[j].1.api_key_service is Some;
                assert(s[j] == t[j]);
                assert(s[s.len() - 1].0@ == s.last().0@);
            }
            let k = key_names(s);
            assert forall|i: int, j: int| 0 <= i < j < k.len() implies k[i] != k[j] by {
                if j == k.len() - 1 {
                    assert(key_names(t)[i] == k[i]);
                    if k[i] == k[j] {
                        assert(key_names(t).contains(s.last().0@));
                    }
                } else {
                    assert(key_names(t)[i] == k[i] && key_names(t)[j] == k[j]);
                }
            }
        }
    }
}

/// The names of the providers that use an API key, in byte order, each once.
pub fn providers_needing_keys(config: &AppConfig) -> (r: Vec<String>)
    ensures
        sorted_texts(r@),
        distinct_texts(r@),
        forall|k: Seq<char>|
            #![trigger crate::text::views(r@).contains(k)]
            crate::text::views(r@).contains(k) <==> config.providers@.contains_key(k)
                && config.providers@[k].api_key_service is Some,
{
    let entries = config.providers.entries();
    let mut names: Vec<String> = Vec::new();
    let mut i: usize = 0;
    while i < entries.len()
        invariant
            i <= entries@.len(),
            crate::text::views(names@) == key_names(entries@.subrange(0, i as int)),
        decreases entries@.len() - i,
    {
        if entries[i].1.api_key_service.is_some() {
            names.push(entries[i].0.clone());
        }
        proof {
            let s = entries@.subrange(0, i + 1);
            assert(s.drop_last() =~= entries@.subrange(0, i as int));
            assert(crate::text::views(names@) =~= key_names(s));
        }
        i = i + 1;
    }
    assert(entries@.subrange(0, entries@.len() as int) =~= entries@);
    proof {
        lemma_key_names_distinct(entries@);
        assert forall|i: int, j: int| 0 <= i < j < names@.len() implies names@[i]@ != names@[j]@ by {
            assert(crate::text::views(names@)[i] == names@[i]@);
            assert(crate::text::views(names@)[j] == names@[j]@);
        }
    }
    let sorted = sort_strings(names);
    proof {
        assert forall|k: Seq<char>|
            #![trigger crate::text::views(sorted@).contains(k)]
            crate::text::views(sorted@).contains(k) <==> config.providers@.contains_key(k)
                && config.providers@[k].api_key_service is Some by {
            lemma_key_names(entries@, k);
            if crate::text::views(sorted@).contains(k) {
                let i = choose|i: int| 0 <= i < sorted@.len() && sorted@[i]@ == k;
                assert(sorted@.to_multiset().count(sorted@[i]) > 0);
                assert(names@.contains(sorted@[i]));
                let j = choose|j: int| 0 <= j < names@.len() && names@[j] == sorted@[i];
                assert(crate::text::views(names@)[j] == k);
                let m = choose|m: int| 0 <= m < entries@.len() && entries@[m].0@ == k
                    && entries@[m].1.api_key_service is Some;
                assert(config.providers@[entries@[m].0@] == entries@[m].1@);
            }
            if config.providers@.contains_key(k) && config.providers@[k].api_key_service is Some {
                let m = choose|m: int| 0 <= m < entries@.len() && entries@[m].0@ == k;
                assert(config.providers@[entries@[m].0@] == entries@[m].1@);
                assert(key_names(entries@).contains(k));
                let j = choose|j: int| 0 <= j < names@.len() && crate::text::views(names@)[j] == k;
                assert(names@.to_multiset().count(names@[j]) > 0);
                assert(sorted@.contains(names@[j]));
                let i = choose|i: int| 0 <= i < sorted@.len() && sorted@[i] == names@[j];
                assert(crate::text::views(sorted@)[i] == k);
            }
        }
    }
    sorted
}

} // verus!
