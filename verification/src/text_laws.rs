//! What holds of the text helpers, the response text, the `key list` table
//! and the setup menu, for every input.

use vstd::prelude::*;

use crate::config::{ProviderConfigV, ProviderType};
use crate::keys::{column_width, key_table_spec, pad_spec, KeyStatusRow};
use crate::config::{default_config_path_spec, expand_tilde_spec, path_join};
use crate::models::response::{text_of, ContentBlockV};
use crate::setup::{cfgv, index_of, insert_all, picked, preset_spec, unknown_choices};
use crate::text::{is_whitespace, seq_join, trim, trim_end, trim_start};
use crate::setup::split_on;

verus! {

proof fn lemma_trim_start(s: Seq<char>) -> (i: int)
    ensures
        0 <= i <= s.len(),
        trim_start(s) == s.subrange(i, s.len() as int),
        forall|k: int| 0 <= k < i ==> is_whitespace(#[trigger] s[k]),
        i < s.len() ==> !is_whitespace(s[i]),
    decreases s.len(),
{
    if s.len() > 0 && is_whitespace(s[0]) {
        let t = s.drop_first();
        let j = lemma_trim_start(t);
        assert(t.subrange(j, t.len() as int) =~= s.subrange(j + 1, s.len() as int));
        assert forall|k: int| 0 <= k < j + 1 implies is_whitespace(#[trigger] s[k]) by {
            if k > 0 {
                assert(s[k] == t[k - 1]);
            }
        }
        if j < t.len() {
            assert(s[j + 1] == t[j]);
        }
        j + 1
    } else {
        assert(s.subrange(0, s.len() as int) =~= s);
        0
    }
}

proof fn lemma_trim_end(s: Seq<char>) -> (j: int)
    ensures
        0 <= j <= s.len(),
        trim_end(s) == s.subrange(0, j),
        forall|k: int| j <= k < s.len() ==> is_whitespace(#[trigger] s[k]),
        j > 0 ==> !is_whitespace(s[j - 1]),
    decreases s.len(),
{
    if s.len() > 0 && is_whitespace(s.last()) {
        let t = s.drop_last();
        let j = lemma_trim_end(t);
        assert(t.subrange(0, j) =~= s.subrange(0, j));
        assert forall|k: int| j <= k < s.len() implies is_whitespace(#[trigger] s[k]) by {
            if k < s.len() - 1 {
                assert(s[k] == t[k]);
            }
        }
        if j > 0 {
            assert(s[j - 1] == t[j - 1]);
        }
        j
    } else {
        assert(s.subrange(0, s.len() as int) =~= s);
        s.len() as int
    }
}

/// Trimming removes exactly the whitespace at both ends: the result is a
/// stretch of the text, everything before and after it is whitespace, and it
/// neither starts nor ends with whitespace.
pub proof fn law_trim(s: Seq<char>)
    ensures
        exists|i: int, j: int|
            0 <= i <= j <= s.len() && trim(s) == s.subrange(i, j) && (forall|k: int|
                0 <= k < i ==> is_whitespace(#[trigger] s[k])) && (forall|k: int|
                j <= k < s.len() ==> is_whitespace(#[trigger] s[k])),
        trim(s).len() > 0 ==> !is_whitespace(trim(s)[0]) && !is_whitespace(
            trim(s)[trim(s).len() - 1],
        ),
{
    let i = lemma_trim_start(s);
    let u = s.subrange(i, s.len() as int);
    let j = lemma_trim_end(u);
    assert(trim(s) == u.subrange(0, j));
    assert(u.subrange(0, j) =~= s.subrange(i, i + j));
    assert forall|k: int| i + j <= k < s.len() implies is_whitespace(#[trigger] s[k]) by {
        assert(s[k] == u[k - i]);
    }
    assert(0 <= i <= i + j <= s.len() && trim(s) == s.subrange(i, i + j) && (forall|k: int|
        0 <= k < i ==> is_whitespace(#[trigger] s[k])) && (forall|k: int|
        i + j <= k < s.len() ==> is_whitespace(#[trigger] s[k])));
    if j > 0 {
        assert(trim(s)[0] == u[0]);
        assert(u[0] == s[i]);
        assert(trim(s)[j - 1] == u[j - 1]);
    }
}

/// Padding: the text followed by spaces up to the width; a longer text is
/// left whole.
pub proof fn law_pad(s: Seq<char>, width: nat)
    ensures
        pad_spec(s, width).len() == if s.len() < width {
            width
        } else {
            s.len()
        },
        pad_spec(s, width).subrange(0, s.len() as int) == s,
        forall|k: int| s.len() <= k < pad_spec(s, width).len() ==> #[trigger] pad_spec(s, width)[k] == ' ',
{
    assert(pad_spec(s, width).subrange(0, s.len() as int) =~= s);
}

/// A column of the `key list` table is as wide as its widest cell, and at
/// least eight.
pub proof fn law_column_width(cells: Seq<nat>)
    ensures
        column_width(cells) >= 8,
        forall|k: int| 0 <= k < cells.len() ==> column_width(cells) >= #[trigger] cells[k],
        column_width(cells) == 8 || exists|k: int| 0 <= k < cells.len() && column_width(cells) == #[trigger] cells[k],
    decreases cells.len(),
{
    if cells.len() > 0 {
        let t = cells.drop_last();
        law_column_width(t);
        assert forall|k: int| 0 <= k < cells.len() implies column_width(cells) >= #[trigger] cells[k] by {
            if k < t.len() {
                assert(cells[k] == t[k]);
            }
        }
        if column_width(cells) != 8 {
            if column_width(cells) == cells.last() {
                assert(column_width(cells) == cells[cells.len() - 1]);
            } else {
                let k = choose|k: int| 0 <= k < t.len() && column_width(t) == #[trigger] t[k];
                assert(cells[k] == t[k]);
            }
        }
    }
}

/// The text of a response is the texts of its blocks, in order: tool calls
/// add nothing, and the text of two runs of blocks is the text of the first
/// followed by the text of the second.
pub proof fn law_text_of(
    a: Seq<ContentBlockV>,
    b: Seq<ContentBlockV>,
    t: Seq<char>,
    id: Seq<char>,
    name: Seq<char>,
    args: Seq<char>,
)
    ensures
        text_of(seq![ContentBlockV::Text { text: t }]) == t,
        text_of(Seq::<ContentBlockV>::empty()) == Seq::<char>::empty(),
        text_of(seq![ContentBlockV::ToolCall { id: id, name: name, arguments: args }])
            == Seq::<char>::empty(),
        text_of(a + b) == text_of(a) + text_of(b),
    decreases b.len(),
{
    assert(seq![ContentBlockV::Text { text: t }].drop_last() =~= Seq::<ContentBlockV>::empty());
    assert(seq![ContentBlockV::ToolCall { id: id, name: name, arguments: args }].drop_last()
        =~= Seq::<ContentBlockV>::empty());
    let one = seq![ContentBlockV::Text { text: t }];
    assert(one.len() == 1 && one.last() == ContentBlockV::Text { text: t });
    assert(text_of(one) == text_of(one.drop_last()) + t);
    assert(Seq::<char>::empty() + t =~= t);
    assert(Seq::<char>::empty() + Seq::<char>::empty() =~= Seq::<char>::empty());
    if b.len() == 0 {
        assert(a + b =~= a);
    } else {
        law_text_of(a, b.drop_last(), t, id, name, args);
        assert((a + b).drop_last() =~= a + b.drop_last());
        assert((a + b).last() == b.last());
    }
}

/// The setup menu: each choice, by number or by name, configures its
/// provider with its protocol, keyring service, variable and base URL.
pub proof fn law_menu()
    ensures
        preset_spec("1"@) == preset_spec("openai"@),
        preset_spec("1"@) == Some(
            (
                "openai"@,
                cfgv(ProviderType::Openai, Some("openai"@), Some("OPENAI_API_KEY"@), None),
            ),
        ),
        preset_spec("2"@) == preset_spec("anthropic"@),
        preset_spec("2"@) == Some(
            (
                "anthropic"@,
                cfgv(ProviderType::Anthropic, Some("anthropic"@), Some("ANTHROPIC_API_KEY"@), None),
            ),
        ),
        preset_spec("3"@) == preset_spec("gemini"@),
        preset_spec("3"@) == Some(
            (
                "gemini"@,
                cfgv(ProviderType::Gemini, Some("gemini"@), Some("GOOGLE_API_KEY"@), None),
            ),
        ),
        preset_spec("4"@) == preset_spec("groq"@),
        preset_spec("4"@) == Some(
            (
                "groq"@,
                cfgv(
                    ProviderType::Openai,
                    Some("groq"@),
                    Some("GROQ_API_KEY"@),
                    Some("https://api.groq.com/openai/v1"@),
                ),
            ),
        ),
        preset_spec("5"@) == preset_spec("ollama"@),
        preset_spec("5"@) == Some(
            ("ollama"@, cfgv(ProviderType::Ollama, None, None, Some("http://localhost:11434"@))),
        ),
        preset_spec(""@) is None,
        preset_spec("6"@) is None,
{
    reveal_strlit("1");
    reveal_strlit("2");
    reveal_strlit("3");
    reveal_strlit("4");
    reveal_strlit("5");
    reveal_strlit("6");
    reveal_strlit("");
    reveal_strlit("openai");
    reveal_strlit("anthropic");
    reveal_strlit("gemini");
    reveal_strlit("groq");
    reveal_strlit("ollama");
    assert(""@.len() == 0 && "1"@.len() == 1 && "openai"@.len() == 6);
    assert("2"@[0] != "1"@[0]);
    assert("3"@[0] != "1"@[0] && "3"@[0] != "2"@[0]);
    assert("4"@[0] != "1"@[0] && "4"@[0] != "2"@[0] && "4"@[0] != "3"@[0]);
    assert("5"@[0] != "1"@[0] && "5"@[0] != "2"@[0] && "5"@[0] != "3"@[0] && "5"@[0] != "4"@[0]);
    assert("6"@[0] != "1"@[0] && "6"@[0] != "2"@[0] && "6"@[0] != "3"@[0] && "6"@[0] != "4"@[0]
        && "6"@[0] != "5"@[0]);
    assert("anthropic"@.len() != "openai"@.len());
    assert("gemini"@[0] != "openai"@[0] && "gemini"@.len() != "anthropic"@.len());
    assert("groq"@.len() != "openai"@.len() && "groq"@.len() != "anthropic"@.len() && "groq"@.len()
        != "gemini"@.len());
    assert("ollama"@[1] != "openai"@[1] && "ollama"@.len() != "anthropic"@.len() && "ollama"@[0]
        != "gemini"@[0] && "ollama"@.len() != "groq"@.len());
}

/// The first position of a character: the character is there and nowhere
/// before it; `-1` exactly when the text does not hold it.
pub proof fn law_index_of(s: Seq<char>, c: char)
    ensures
        index_of(s, c) >= 0 ==> index_of(s, c) < s.len() && s[index_of(s, c)] == c && forall|k: int|
            0 <= k < index_of(s, c) ==> #[trigger] s[k] != c,
        index_of(s, c) < 0 ==> index_of(s, c) == -1 && forall|k: int| 0 <= k < s.len() ==> #[trigger] s[k] != c,
    decreases s.len(),
{
    if s.len() > 0 && s[0] != c {
        let t = s.drop_first();
        law_index_of(t, c);
        assert forall|k: int| 0 < k < s.len() implies s[k] == t[k - 1] by {}
    }
}

/// A provider selection keeps what was configured and configures every menu
/// provider that one of the choices names; every choice that is neither empty
/// nor a menu choice is reported, in order.
pub proof fn law_selection(m: Map<Seq<char>, ProviderConfigV>, cs: Seq<Seq<char>>)
    ensures
        forall|k: Seq<char>| m.contains_key(k) ==> #[trigger] insert_all(m, picked(cs)).contains_key(k),
        forall|i: int|
            0 <= i < cs.len() && (#[trigger] preset_spec(cs[i])) is Some ==> insert_all(
                m,
                picked(cs),
            ).contains_key((preset_spec(cs[i])->0).0),
        forall|i: int|
            0 <= i < cs.len() && cs[i].len() > 0 && (#[trigger] preset_spec(cs[i])) is None
                ==> unknown_choices(cs).contains(cs[i]),
        unknown_choices(cs).len() <= cs.len(),
    decreases cs.len(),
{
    if cs.len() > 0 {
        let t = cs.drop_last();
        law_selection(m, t);
        let before = insert_all(m, picked(t));
        assert forall|k: Seq<char>| m.contains_key(k) implies #[trigger] insert_all(m, picked(cs)).contains_key(k) by {
            assert(before.contains_key(k));
            if preset_spec(cs.last()) is Some {
                assert(picked(cs).drop_last() =~= picked(t));
            }
        }
        assert forall|i: int|
            0 <= i < cs.len() && (#[trigger] preset_spec(cs[i])) is Some implies insert_all(
                m,
                picked(cs),
            ).contains_key((preset_spec(cs[i])->0).0) by {
            if preset_spec(cs.last()) is Some {
                assert(picked(cs).drop_last() =~= picked(t));
            }
            if i < t.len() {
                assert(cs[i] == t[i]);
                assert(before.contains_key((preset_spec(t[i])->0).0));
            }
        }
        assert forall|i: int|
            0 <= i < cs.len() && cs[i].len() > 0 && (#[trigger] preset_spec(cs[i])) is None
                implies unknown_choices(cs).contains(cs[i]) by {
            if i < t.len() {
                assert(cs[i] == t[i]);
                assert(unknown_choices(t).contains(t[i]));
                let j = choose|j: int| 0 <= j < unknown_choices(t).len() && unknown_choices(t)[j] == t[i];
                if cs.last().len() > 0 && preset_spec(cs.last()) is None {
                    assert(unknown_choices(cs)[j] == t[i]);
                }
            } else {
                let u = unknown_choices(cs);
                assert(u[u.len() - 1] == cs[i]);
            }
        }
    }
}

/// Splitting at a character: no piece holds it, and joining the pieces with
/// it gives the text back.
pub proof fn law_split(s: Seq<char>, c: char)
    ensures
        split_on(s, c).len() >= 1,
        forall|i: int, k: int|
            0 <= i < split_on(s, c).len() && 0 <= k < split_on(s, c)[i].len() ==> #[trigger] split_on(
                s,
                c,
            )[i][k] != c,
        seq_join(split_on(s, c), seq![c]) == s,
    decreases s.len(),
{
    if s.len() > 0 {
        let t = s.drop_last();
        law_split(t, c);
        let rest = split_on(t, c);
        let n = rest.len();
        let x = s.last();
        if x == c {
            let r = rest.push(Seq::<char>::empty());
            assert(r.drop_last() =~= rest);
            assert(seq_join(r, seq![c]) == seq_join(rest, seq![c]) + seq![c] + Seq::<char>::empty());
            assert(t + seq![c] + Seq::<char>::empty() =~= s);
            assert forall|i: int, k: int| 0 <= i < r.len() && 0 <= k < r[i].len() implies #[trigger] r[i][k] != c by {
                assert(r[i] == rest[i]);
            }
        } else {
            let r = rest.update(n - 1, rest.last().push(x));
            assert forall|i: int, k: int| 0 <= i < r.len() && 0 <= k < r[i].len() implies #[trigger] r[i][k] != c by {
                if i < n - 1 {
                    assert(r[i] == rest[i]);
                } else if k < rest.last().len() {
                    assert(r[i][k] == rest[n - 1][k]);
                }
            }
            if n == 1 {
                assert(seq_join(rest, seq![c]) == rest[0]);
                assert(seq_join(r, seq![c]) == r[0]);
                assert(rest[0].push(x) =~= s);
            } else {
                assert(r.drop_last() =~= rest.drop_last());
                assert(seq_join(rest, seq![c]) == seq_join(rest.drop_last(), seq![c]) + seq![c] + rest.last());
                assert(seq_join(r, seq![c]) == seq_join(rest.drop_last(), seq![c]) + seq![c] + rest.last().push(x));
                assert(seq_join(rest.drop_last(), seq![c]) + seq![c] + rest.last().push(x) =~= (
                seq_join(rest.drop_last(), seq![c]) + seq![c] + rest.last()).push(x));
                assert(t.push(x) =~= s);
            }
        }
    } else {
        assert(seq_join(split_on(s, c), seq![c]) == Seq::<char>::empty());
    }
}

/// The `key list` table has a header line, a rule, then one line per row.
pub proof fn law_key_table(rows: Seq<KeyStatusRow>)
    ensures
        key_table_spec(rows).len() == rows.len() + 2,
{
}

/// A leading `~/` is replaced by the home directory when it is known; any
/// other path is left as it is.  The configuration lives in
/// `$XDG_CONFIG_HOME/llm-cascade/config.toml`, else under `~/.config`.
pub proof fn law_paths(path: Seq<char>, home: Option<Seq<char>>, xdg: Option<Seq<char>>)
    ensures
        path.len() >= 2 && path[0] == '~' && path[1] == '/' && home is Some ==> expand_tilde_spec(
            path,
            home,
        ) == path_join(home->0, path.subrange(2, path.len() as int)),
        !(path.len() >= 2 && path[0] == '~' && path[1] == '/') || home is None ==> expand_tilde_spec(
            path,
            home,
        ) == path,
        xdg is Some ==> default_config_path_spec(xdg, home) == path_join(
            path_join(xdg->0, "llm-cascade"@),
            "config.toml"@,
        ),
        xdg is None ==> default_config_path_spec(xdg, home) == path_join(
            path_join(expand_tilde_spec("~/.config"@, home), "llm-cascade"@),
            "config.toml"@,
        ),
{
    reveal_strlit("~/");
    if path.len() >= 2 && path[0] == '~' && path[1] == '/' {
        assert(path.subrange(0, 2) =~= "~/"@);
    } else if path.len() >= 2 {
        assert(path.subrange(0, 2)[0] == path[0] && path.subrange(0, 2)[1] == path[1]);
    }
}

/// The default locations of the database and of saved conversations, and
/// the text of a cascade failure.
pub proof fn law_defaults_and_report(name: Seq<char>, message: Seq<char>, path: Seq<char>)
    ensures
        crate::config::default_db_path_spec() == "~/.local/share/llm-cascade/db.sqlite"@,
        crate::config::default_failure_dir_spec() == "~/.local/share/llm-cascade/failed_prompts"@,
        crate::error::cascade_error_text(name, message, path) == "All providers in cascade '"@ + name
            + "' failed: "@ + message + "\nFailed prompt persisted to: "@ + path,
{
}

} // verus!
