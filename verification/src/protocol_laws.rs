//! What holds of every request a provider builds, every reply it reads, and
//! the key status columns, stated over the JSON model of the wire format.

use vstd::prelude::*;

use crate::error::ProviderErrorV;
use crate::json::{as_array, as_str, field, json_text, lookup, str_or, JsonV};
use crate::keys::key_status_spec;
use crate::config::ProviderConfigV;
use crate::models::conversation::ConversationV;
use crate::models::response::ContentBlockV;
use crate::models::conversation::MessageRole;
use crate::providers::anthropic::{anthropic_messages, anthropic_request, anthropic_response};
use crate::providers::gemini::{gemini_contents, gemini_response};
use crate::text::{all_digits, decimal, digits_value, is_digit, parse_u64_spec, seq_join};
use crate::providers::retry_after_spec;
use crate::config::{path_join, expand_tilde_spec};
use crate::persistence::{failed_path_spec, is_absolute};
use crate::secrets::mask_key_spec;
use crate::cascade::failure_message;
use vstd::string::StringSliceAdditionalSpecFns;
use vstd::utf8::decode_utf8;
use crate::models::conversation::MessageV;
use vstd::utf8::encode_utf8;
use crate::providers::gemini::gemini_request;
use crate::providers::ollama::ollama_request;
use crate::providers::openai::{openai_request, openai_response};
use crate::providers::ollama::OllamaV;
use crate::providers::ollama::ollama_response;
use crate::providers::{is_success_spec, provider_response, reply_outcome, ProviderSettingsV, ProviderV, ReplyBodyV};

verus! {

/// The value of a field is found when no earlier field has its name.
pub proof fn lemma_lookup_at(fs: Seq<(Seq<char>, JsonV)>, i: int)
    requires
        0 <= i < fs.len(),
        forall|j: int| 0 <= j < i ==> fs[j].0 != fs[i].0,
    ensures
        lookup(fs, fs[i].0) == Some(fs[i].1),
    decreases i,
{
    if i > 0 {
        let t = fs.drop_first();
        assert forall|j: int| 0 <= j < i - 1 implies (#[trigger] t[j]).0 != t[i - 1].0 by {
            assert(t[j] == fs[j + 1]);
        }
        lemma_lookup_at(t, i - 1);
        assert(t[i - 1] == fs[i]);
    }
}

/// No field has the name: the lookup finds nothing.
pub proof fn lemma_lookup_absent(fs: Seq<(Seq<char>, JsonV)>, key: Seq<char>)
    requires
        forall|j: int| 0 <= j < fs.len() ==> fs[j].0 != key,
    ensures
        lookup(fs, key) is None,
    decreases fs.len(),
{
    if fs.len() > 0 {
        let t = fs.drop_first();
        assert forall|j: int| 0 <= j < t.len() implies t[j].0 != key by {
            assert(t[j] == fs[j + 1]);
        }
        lemma_lookup_absent(t, key);
    }
}

/// A status is a success exactly when it is in 200..=299 (what
/// `StatusCode::is_success` checks).
pub proof fn law_success_status(status: u16)
    ensures
        is_success_spec(status) <==> 200 <= status <= 299,
{
}

/// Reading a reply: every status outside 200..=299 is an HTTP error that
/// carries the status, the `retry-after` seconds and the body text, whatever
/// the body is; a status in 200..=299 with a readable body gives the
/// provider's response to that body, and with an unreadable one a parse error.
pub proof fn law_reply_status(p: ProviderV, status: u16, retry_after: Option<u64>, body: ReplyBodyV)
    ensures
        !(200 <= status <= 299) ==> (reply_outcome(p, status, retry_after, body) matches Err(
            ProviderErrorV::Http { status: s, body: b, retry_after: ra },
        ) && s == status && ra == retry_after && (body matches ReplyBodyV::Text(t) ==> b == t)),
        200 <= status <= 299 ==> match body {
            ReplyBodyV::Json(Ok(data)) => reply_outcome(p, status, retry_after, body) == Ok::<
                _,
                ProviderErrorV,
            >(provider_response(p, data)),
            ReplyBodyV::Json(Err(m)) => reply_outcome(p, status, retry_after, body) == Err::<
                crate::models::response::LlmResponseV,
                _,
            >(ProviderErrorV::Parse(m)),
            ReplyBodyV::Text(_) => reply_outcome(p, status, retry_after, body) is Err,
        },
{
}

/// The names of the top-level fields of an Anthropic request body.
proof fn lemma_anthropic_key_names()
    ensures
        "model"@ != "tools"@,
        "messages"@ != "tools"@,
        "max_tokens"@ != "tools"@,
        "system"@ != "tools"@,
        "name"@ != "description"@,
        "name"@ != "input_schema"@,
        "description"@ != "input_schema"@,
{
    reveal_strlit("model");
    reveal_strlit("tools");
    reveal_strlit("messages");
    reveal_strlit("max_tokens");
    reveal_strlit("system");
    reveal_strlit("name");
    reveal_strlit("description");
    reveal_strlit("input_schema");
    assert("model"@[0] != "tools"@[0]);
    assert("system"@.len() != "tools"@.len());
    assert("name"@.len() != "description"@.len());
    assert("name"@.len() != "input_schema"@.len());
    assert("description"@.len() != "input_schema"@.len());
    assert("messages"@.len() != "tools"@.len());
    assert("max_tokens"@.len() != "tools"@.len());
}

/// Anthropic tools: with a tool list, the body's `tools` array has one entry
/// per tool, in order, each with the tool's name, description and parameters
/// (as `input_schema`); without one, the body has no `tools` field.
pub proof fn law_anthropic_tools(p: ProviderSettingsV, c: ConversationV)
    ensures
        ({
            let body = anthropic_request(p, c).body;
            match c.tools {
                Some(ts) => (as_array(field(body, "tools"@)) matches Some(xs) && xs.len() == ts.len()
                    && forall|k: int|
                    0 <= k < ts.len() ==> {
                        &&& field(#[trigger] xs[k], "name"@) == JsonV::Str(ts[k].name)
                        &&& field(xs[k], "description"@) == JsonV::Str(ts[k].description)
                        &&& field(xs[k], "input_schema"@) == ts[k].parameters
                    }),
                None => field(body, "tools"@) == JsonV::Null,
            }
        }),
{
    lemma_anthropic_key_names();
    let body = anthropic_request(p, c).body;
    let fs = body->Obj_0;
    match c.tools {
        Some(ts) => {
            let i = fs.len() - 1;
            assert(fs[i].0 == "tools"@);
            assert forall|j: int| 0 <= j < i implies fs[j].0 != fs[i].0 by {}
            lemma_lookup_at(fs, i);
            let xs = as_array(field(body, "tools"@))->0;
            assert forall|k: int| 0 <= k < ts.len() implies {
                &&& field(#[trigger] xs[k], "name"@) == JsonV::Str(ts[k].name)
                &&& field(xs[k], "description"@) == JsonV::Str(ts[k].description)
                &&& field(xs[k], "input_schema"@) == ts[k].parameters
            } by {
                let gs = xs[k]->Obj_0;
                lemma_lookup_at(gs, 0);
                lemma_lookup_at(gs, 1);
                lemma_lookup_at(gs, 2);
            }
        },
        None => {
            lemma_lookup_absent(fs, "tools"@);
        },
    }
}

/// Ollama tool calls: the response holds the message text first when it is
/// a non-empty string, then one tool call per element of
/// `message.tool_calls`, in order, each with that call's id, function name
/// and argument text; nothing else.
pub proof fn law_ollama_tool_calls(model: Seq<char>, data: JsonV)
    ensures
        ({
            let r = ollama_response(model, data);
            let msg = field(data, "message"@);
            let nt: int = match as_str(field(msg, "content"@)) {
                Some(t) => if t.len() > 0 {
                    1
                } else {
                    0
                },
                None => 0,
            };
            let tcs = match as_array(field(msg, "tool_calls"@)) {
                Some(a) => a,
                None => Seq::empty(),
            };
            &&& r.content.len() == nt + tcs.len()
            &&& nt == 1 ==> r.content[0] == ContentBlockV::Text {
                text: as_str(field(msg, "content"@))->0,
            }
            &&& forall|k: int|
                0 <= k < tcs.len() ==> #[trigger] r.content[nt + k] == ContentBlockV::ToolCall {
                    id: str_or(as_str(field(tcs[k], "id"@)), ""@),
                    name: str_or(as_str(field(field(tcs[k], "function"@), "name"@)), ""@),
                    arguments: json_text(field(field(tcs[k], "function"@), "arguments"@)),
                }
        }),
{
}

/// The `key list` columns: without a key service both read `n/a`; otherwise
/// the keyring column reads `set` exactly when the keyring has the key, and
/// the env column reads `set` exactly when the configured variable is set
/// (`n/a` when none is configured).  Each column depends on its own lookup
/// alone.
pub proof fn law_key_status_columns(cfg: ProviderConfigV, keyring_set: bool, env_set: bool)
    ensures
        ({
            let (kr, env) = key_status_spec(cfg, keyring_set, env_set);
            &&& cfg.api_key_service is None ==> kr == "n/a"@ && env == "n/a"@
            &&& cfg.api_key_service is Some ==> (kr == "set"@ <==> keyring_set) && (kr == "set"@
                || kr == "not set"@)
            &&& (cfg.api_key_service is Some && cfg.api_key_env is Some) ==> (env == "set"@
                <==> env_set) && (env == "set"@ || env == "not set"@)
            &&& (cfg.api_key_service is Some && cfg.api_key_env is None) ==> env == "n/a"@
        }),
        key_status_spec(cfg, keyring_set, env_set).0 == key_status_spec(cfg, keyring_set, !env_set).0,
        key_status_spec(cfg, keyring_set, env_set).1 == key_status_spec(cfg, !keyring_set, env_set).1,
{
    reveal_strlit("set");
    reveal_strlit("not set");
    assert("set"@.len() != "not set"@.len());
}

/// The field names of the OpenAI, Ollama and Gemini wire formats are distinct
/// where they sit side by side.
proof fn lemma_wire_key_names()
    ensures
        "model"@ != "tools"@,
        "messages"@ != "tools"@,
        "stream"@ != "tools"@,
        "model"@ != "messages"@,
        "type"@ != "function"@,
        "name"@ != "description"@,
        "name"@ != "parameters"@,
        "description"@ != "parameters"@,
        "role"@ != "content"@,
        "role"@ != "tool_call_id"@,
        "content"@ != "tool_call_id"@,
        "contents"@ != "tools"@,
        "systemInstruction"@ != "tools"@,
{
    reveal_strlit("model");
    reveal_strlit("tools");
    reveal_strlit("messages");
    reveal_strlit("stream");
    reveal_strlit("type");
    reveal_strlit("function");
    reveal_strlit("name");
    reveal_strlit("description");
    reveal_strlit("parameters");
    reveal_strlit("role");
    reveal_strlit("content");
    reveal_strlit("tool_call_id");
    reveal_strlit("contents");
    reveal_strlit("systemInstruction");
    assert("model"@[0] != "tools"@[0]);
    assert("messages"@.len() != "tools"@.len());
    assert("stream"@.len() != "tools"@.len());
    assert("model"@.len() != "messages"@.len());
    assert("type"@.len() != "function"@.len());
    assert("name"@.len() != "description"@.len());
    assert("name"@.len() != "parameters"@.len());
    assert("description"@.len() != "parameters"@.len());
    assert("role"@.len() != "content"@.len());
    assert("role"@.len() != "tool_call_id"@.len());
    assert("content"@.len() != "tool_call_id"@.len());
    assert("contents"@.len() != "tools"@.len());
    assert("systemInstruction"@.len() != "tools"@.len());
}

/// The wire name of a role.
pub open spec fn wire_role(r: MessageRole) -> Seq<char> {
    match r {
        MessageRole::System => "system"@,
        MessageRole::User => "user"@,
        MessageRole::Assistant => "assistant"@,
        MessageRole::Tool => "tool"@,
    }
}

/// Whether `x` is a tool in the `{type: function, function: {name,
/// description, parameters}}` form for `t`.
pub open spec fn is_function_tool(x: JsonV, t: crate::models::tool::ToolDefinitionV) -> bool {
    &&& field(x, "type"@) == JsonV::Str("function"@)
    &&& field(field(x, "function"@), "name"@) == JsonV::Str(t.name)
    &&& field(field(x, "function"@), "description"@) == JsonV::Str(t.description)
    &&& field(field(x, "function"@), "parameters"@) == t.parameters
}

/// Whether `x` is the chat message `m`: its role, its content, and its tool
/// call id (`null` when it has none).
pub open spec fn is_chat_message(x: JsonV, m: crate::models::conversation::MessageV) -> bool {
    &&& field(x, "role"@) == JsonV::Str(wire_role(m.role))
    &&& field(x, "content"@) == JsonV::Str(m.content)
    &&& field(x, "tool_call_id"@) == match m.tool_call_id {
        Some(id) => JsonV::Str(id),
        None => JsonV::Null,
    }
}

proof fn lemma_function_tool(t: crate::models::tool::ToolDefinitionV, x: JsonV)
    requires
        x == JsonV::Obj(
            seq![
                ("type"@, JsonV::Str("function"@)),
                (
                    "function"@,
                    JsonV::Obj(
                        seq![
                            ("name"@, JsonV::Str(t.name)),
                            ("description"@, JsonV::Str(t.description)),
                            ("parameters"@, t.parameters),
                        ],
                    ),
                ),
            ],
        ),
    ensures
        is_function_tool(x, t),
{
    lemma_wire_key_names();
    let fs = x->Obj_0;
    lemma_lookup_at(fs, 0);
    lemma_lookup_at(fs, 1);
    let gs = fs[1].1->Obj_0;
    lemma_lookup_at(gs, 0);
    lemma_lookup_at(gs, 1);
    lemma_lookup_at(gs, 2);
}

proof fn lemma_chat_message(m: crate::models::conversation::MessageV, x: JsonV)
    requires
        x == JsonV::Obj(
            {
                let base = seq![
                    ("role"@, JsonV::Str(crate::models::conversation::role_name(m.role))),
                    ("content"@, JsonV::Str(m.content)),
                ];
                match m.tool_call_id {
                    Some(id) => base.push(("tool_call_id"@, JsonV::Str(id))),
                    None => base,
                }
            },
        ),
    ensures
        is_chat_message(x, m),
{
    lemma_wire_key_names();
    let fs = x->Obj_0;
    lemma_lookup_at(fs, 0);
    lemma_lookup_at(fs, 1);
    if m.tool_call_id is Some {
        lemma_lookup_at(fs, 2);
    } else {
        lemma_lookup_absent(fs, "tool_call_id"@);
    }
}

/// OpenAI requests: the body names the provider's model, holds one message
/// per conversation message, in order (role, content, tool call id), and with
/// a tool list one function tool per tool, in order; without one, no tools.
pub proof fn law_openai_request(p: ProviderSettingsV, c: ConversationV)
    ensures
        ({
            let body = openai_request(p, c).body;
            &&& field(body, "model"@) == JsonV::Str(p.model)
            &&& (as_array(field(body, "messages"@)) matches Some(xs) && xs.len() == c.messages.len()
                && forall|k: int|
                0 <= k < xs.len() ==> is_chat_message(#[trigger] xs[k], c.messages[k]))
            &&& match c.tools {
                Some(ts) => (as_array(field(body, "tools"@)) matches Some(xs) && xs.len() == ts.len()
                    && forall|k: int| 0 <= k < xs.len() ==> is_function_tool(#[trigger] xs[k], ts[k])),
                None => field(body, "tools"@) == JsonV::Null,
            }
        }),
{
    lemma_wire_key_names();
    let fs = openai_request(p, c).body->Obj_0;
    lemma_lookup_at(fs, 0);
    lemma_lookup_at(fs, 1);
    let xs = fs[1].1->Arr_0;
    assert forall|k: int| 0 <= k < xs.len() implies is_chat_message(#[trigger] xs[k], c.messages[k]) by {
        lemma_chat_message(c.messages[k], xs[k]);
    }
    match c.tools {
        Some(ts) => {
            lemma_lookup_at(fs, 2);
            let ys = fs[2].1->Arr_0;
            assert forall|k: int| 0 <= k < ys.len() implies is_function_tool(#[trigger] ys[k], ts[k]) by {
                lemma_function_tool(ts[k], ys[k]);
            }
        },
        None => {
            lemma_lookup_absent(fs, "tools"@);
        },
    }
}

/// Ollama requests: the body names the model, asks for no streaming, holds one
/// message per conversation message, in order, and with a tool list one
/// function tool per tool, in order; without one, no tools.
pub proof fn law_ollama_request(p: OllamaV, c: ConversationV)
    ensures
        ({
            let body = ollama_request(p, c).body;
            &&& field(body, "model"@) == JsonV::Str(p.model)
            &&& field(body, "stream"@) == JsonV::Bool(false)
            &&& (as_array(field(body, "messages"@)) matches Some(xs) && xs.len() == c.messages.len()
                && forall|k: int|
                0 <= k < xs.len() ==> is_chat_message(#[trigger] xs[k], c.messages[k]))
            &&& match c.tools {
                Some(ts) => (as_array(field(body, "tools"@)) matches Some(xs) && xs.len() == ts.len()
                    && forall|k: int| 0 <= k < xs.len() ==> is_function_tool(#[trigger] xs[k], ts[k])),
                None => field(body, "tools"@) == JsonV::Null,
            }
        }),
{
    lemma_wire_key_names();
    reveal_strlit("stream");
    reveal_strlit("model");
    reveal_strlit("messages");
    assert("stream"@.len() != "model"@.len() && "stream"@.len() != "messages"@.len());
    let fs = ollama_request(p, c).body->Obj_0;
    lemma_lookup_at(fs, 0);
    lemma_lookup_at(fs, 1);
    lemma_lookup_at(fs, 2);
    let xs = fs[1].1->Arr_0;
    assert forall|k: int| 0 <= k < xs.len() implies is_chat_message(#[trigger] xs[k], c.messages[k]) by {
        lemma_chat_message(c.messages[k], xs[k]);
    }
    match c.tools {
        Some(ts) => {
            lemma_lookup_at(fs, 3);
            let ys = fs[3].1->Arr_0;
            assert forall|k: int| 0 <= k < ys.len() implies is_function_tool(#[trigger] ys[k], ts[k]) by {
                lemma_function_tool(ts[k], ys[k]);
            }
        },
        None => {
            lemma_lookup_absent(fs, "tools"@);
        },
    }
}

/// OpenAI replies: the response holds the first choice's message text first
/// when it is a non-empty string, then one tool call per element of its
/// `tool_calls`, in order, each with that call's id, function name and
/// arguments (the string sent, else its JSON text); nothing else.
pub proof fn law_openai_tool_calls(model: Seq<char>, data: JsonV)
    ensures
        ({
            let r = openai_response(model, data);
            let msg = match as_array(field(data, "choices"@)) {
                Some(cs) => if cs.len() > 0 {
                    field(cs[0], "message"@)
                } else {
                    JsonV::Null
                },
                None => JsonV::Null,
            };
            let nt: int = match as_str(field(msg, "content"@)) {
                Some(t) => if t.len() > 0 {
                    1
                } else {
                    0
                },
                None => 0,
            };
            let tcs = match as_array(field(msg, "tool_calls"@)) {
                Some(a) => a,
                None => Seq::empty(),
            };
            &&& r.content.len() == nt + tcs.len()
            &&& nt == 1 ==> r.content[0] == ContentBlockV::Text {
                text: as_str(field(msg, "content"@))->0,
            }
            &&& forall|k: int|
                0 <= k < tcs.len() ==> #[trigger] r.content[nt + k] == ContentBlockV::ToolCall {
                    id: str_or(as_str(field(tcs[k], "id"@)), ""@),
                    name: str_or(as_str(field(field(tcs[k], "function"@), "name"@)), ""@),
                    arguments: match as_str(field(field(tcs[k], "function"@), "arguments"@)) {
                        Some(a) => a,
                        None => json_text(field(field(tcs[k], "function"@), "arguments"@)),
                    },
                }
        }),
{
}

/// Whether a message is not a system message.
pub open spec fn not_system(m: MessageV) -> bool {
    m.role != MessageRole::System
}

/// The test for messages that are not system messages.
pub open spec fn non_system() -> spec_fn(MessageV) -> bool {
    |m: MessageV| not_system(m)
}

proof fn lemma_anthropic_message_count(ms: Seq<MessageV>)
    ensures
        anthropic_messages(ms).len() == ms.filter(non_system()).len(),
    decreases ms.len(),
{
    if ms.len() > 0 {
        lemma_anthropic_message_count(ms.drop_last());
        reveal(Seq::filter);
        assert(ms.filter(non_system()) == if not_system(ms.last()) {
            ms.drop_last().filter(non_system()).push(ms.last())
        } else {
            ms.drop_last().filter(non_system())
        });
    } else {
        reveal(Seq::filter);
        assert(ms.filter(non_system()) == ms);
    }
}

proof fn lemma_gemini_content_count(ms: Seq<MessageV>)
    ensures
        gemini_contents(ms).len() == ms.filter(non_system()).len(),
    decreases ms.len(),
{
    if ms.len() > 0 {
        lemma_gemini_content_count(ms.drop_last());
        reveal(Seq::filter);
        assert(ms.filter(non_system()) == if not_system(ms.last()) {
            ms.drop_last().filter(non_system()).push(ms.last())
        } else {
            ms.drop_last().filter(non_system())
        });
    } else {
        reveal(Seq::filter);
        assert(ms.filter(non_system()) == ms);
    }
}

/// Anthropic and Gemini requests carry one message per conversation message
/// that is not a system message (system messages travel apart).
pub proof fn law_message_counts(p: ProviderSettingsV, c: ConversationV)
    ensures
        as_array(field(anthropic_request(p, c).body, "messages"@)) matches Some(xs) && xs.len()
            == c.messages.filter(non_system()).len(),
        as_array(field(gemini_request(p, c).body, "contents"@)) matches Some(xs) && xs.len()
            == c.messages.filter(non_system()).len(),
{
    lemma_anthropic_key_names();
    reveal_strlit("model");
    reveal_strlit("messages");
    assert("model"@.len() != "messages"@.len());
    let fs = anthropic_request(p, c).body->Obj_0;
    lemma_lookup_at(fs, 1);
    lemma_anthropic_message_count(c.messages);
    let gs = gemini_request(p, c).body->Obj_0;
    lemma_lookup_at(gs, 0);
    lemma_gemini_content_count(c.messages);
}

/// Gemini requests: with a tool list the body's `tools` holds one object whose
/// `functionDeclarations` has one declaration per tool, in order, each with
/// the tool's name, description and parameters; without one, no tools.
pub proof fn law_gemini_tools(p: ProviderSettingsV, c: ConversationV)
    ensures
        ({
            let body = gemini_request(p, c).body;
            match c.tools {
                Some(ts) => (as_array(field(body, "tools"@)) matches Some(ws) && ws.len() == 1
                    && (as_array(field(ws[0], "functionDeclarations"@)) matches Some(ds) && ds.len()
                    == ts.len() && forall|k: int|
                    0 <= k < ds.len() ==> {
                        &&& field(#[trigger] ds[k], "name"@) == JsonV::Str(ts[k].name)
                        &&& field(ds[k], "description"@) == JsonV::Str(ts[k].description)
                        &&& field(ds[k], "parameters"@) == ts[k].parameters
                    })),
                None => field(body, "tools"@) == JsonV::Null,
            }
        }),
{
    lemma_wire_key_names();
    let fs = gemini_request(p, c).body->Obj_0;
    match c.tools {
        Some(ts) => {
            lemma_lookup_at(fs, fs.len() - 1);
            let ws = fs[fs.len() - 1].1->Arr_0;
            lemma_lookup_at(ws[0]->Obj_0, 0);
            let ds = ws[0]->Obj_0[0].1->Arr_0;
            assert forall|k: int| 0 <= k < ds.len() implies {
                &&& field(#[trigger] ds[k], "name"@) == JsonV::Str(ts[k].name)
                &&& field(ds[k], "description"@) == JsonV::Str(ts[k].description)
                &&& field(ds[k], "parameters"@) == ts[k].parameters
            } by {
                let hs = ds[k]->Obj_0;
                lemma_lookup_at(hs, 0);
                lemma_lookup_at(hs, 1);
                lemma_lookup_at(hs, 2);
            }
        },
        None => {
            lemma_lookup_absent(fs, "tools"@);
        },
    }
}

/// The kind of an Anthropic reply block (its `type`, empty when missing).
pub open spec fn block_kind(b: JsonV) -> Seq<char> {
    str_or(as_str(field(b, "type"@)), ""@)
}

/// The block an Anthropic reply block of a known kind stands for.
pub open spec fn expected_block(b: JsonV) -> ContentBlockV {
    if block_kind(b) == "text"@ {
        ContentBlockV::Text { text: str_or(as_str(field(b, "text"@)), ""@) }
    } else {
        ContentBlockV::ToolCall {
            id: str_or(as_str(field(b, "id"@)), ""@),
            name: str_or(as_str(field(b, "name"@)), ""@),
            arguments: json_text(field(b, "input"@)),
        }
    }
}

/// Whether an Anthropic reply block is a `text` or a `tool_use` block.
pub open spec fn known_block() -> spec_fn(JsonV) -> bool {
    |b: JsonV| block_kind(b) == "text"@ || block_kind(b) == "tool_use"@
}

proof fn lemma_anthropic_blocks(items: Seq<JsonV>)
    ensures
        crate::providers::anthropic::anthropic_blocks(items).len() <= items.len(),
        crate::providers::anthropic::anthropic_blocks(items).len() == items.filter(known_block()).len(),
        (forall|k: int|
            0 <= k < items.len() ==> block_kind(#[trigger] items[k]) == "text"@ || block_kind(items[k])
                == "tool_use"@) ==> {
            &&& crate::providers::anthropic::anthropic_blocks(items).len() == items.len()
            &&& forall|k: int|
                0 <= k < items.len() ==> #[trigger] crate::providers::anthropic::anthropic_blocks(
                    items,
                )[k] == expected_block(items[k])
        },
    decreases items.len(),
{
    reveal(Seq::filter);
    reveal_strlit("text");
    reveal_strlit("tool_use");
    assert("text"@.len() != "tool_use"@.len());
    if items.len() > 0 {
        let t = items.drop_last();
        lemma_anthropic_blocks(t);
        if forall|k: int|
            0 <= k < items.len() ==> block_kind(#[trigger] items[k]) == "text"@ || block_kind(items[k])
                == "tool_use"@ {
            assert forall|k: int| 0 <= k < t.len() implies block_kind(#[trigger] t[k]) == "text"@
                || block_kind(t[k]) == "tool_use"@ by {
                assert(t[k] == items[k]);
            }
            assert(block_kind(items[items.len() - 1]) == "text"@ || block_kind(items[items.len() - 1])
                == "tool_use"@);
            let bs = crate::providers::anthropic::anthropic_blocks(items);
            assert forall|k: int| 0 <= k < items.len() implies #[trigger] bs[k] == expected_block(items[k]) by {
                if k < t.len() {
                    assert(t[k] == items[k]);
                }
            }
        }
    }
}

/// Anthropic replies: one block per `text` or `tool_use` reply block, others
/// skipped; when every reply
/// block is a `text` or a `tool_use` block, the response holds exactly one
/// block per reply block, in order: the text, or the call's id, name and the
/// JSON text of its input.  The model is the reply's, else the requested one.
pub proof fn law_anthropic_blocks(model: Seq<char>, data: JsonV)
    ensures
        ({
            let r = anthropic_response(model, data);
            let items = content_items(data);
            &&& r.content.len() <= items.len()
            &&& r.content.len() == items.filter(known_block()).len()
            &&& (forall|k: int|
                0 <= k < items.len() ==> block_kind(#[trigger] items[k]) == "text"@ || block_kind(
                    items[k],
                ) == "tool_use"@) ==> r.content.len() == items.len() && forall|k: int|
                0 <= k < items.len() ==> #[trigger] r.content[k] == expected_block(items[k])
            &&& r.model == str_or(as_str(field(data, "model"@)), model)
        }),
{
    let items = content_items(data);
    lemma_anthropic_blocks(items);
    let r = anthropic_response(model, data);
    assert(r.content == crate::providers::anthropic::anthropic_blocks(items));
    if forall|k: int|
        0 <= k < items.len() ==> block_kind(#[trigger] items[k]) == "text"@ || block_kind(items[k])
            == "tool_use"@ {
        assert forall|k: int| 0 <= k < items.len() implies #[trigger] r.content[k] == expected_block(items[k]) by {
            assert(crate::providers::anthropic::anthropic_blocks(items)[k] == expected_block(items[k]));
        }
    }
}

/// The blocks of an Anthropic reply body (its `content` array, empty when absent).
pub open spec fn content_items(data: JsonV) -> Seq<JsonV> {
    match as_array(field(data, "content"@)) {
        Some(a) => a,
        None => Seq::empty(),
    }
}

/// The id of a Gemini function call: `call_` and the byte length of the
/// call's JSON text.
pub open spec fn gemini_id(fc: JsonV) -> Seq<char> {
    "call_"@ + decimal((encode_utf8(json_text(fc)).len() as usize) as nat)
}

/// Whether a Gemini reply part holds exactly one of a text and a function call.
pub open spec fn single_part(part: JsonV) -> bool {
    (as_str(field(part, "text"@)) is Some) != (crate::json::get(part, "functionCall"@) is Some)
}

/// The block a single Gemini reply part stands for.
pub open spec fn part_block(part: JsonV) -> ContentBlockV {
    match as_str(field(part, "text"@)) {
        Some(t) => ContentBlockV::Text { text: t },
        None => {
            let fc = crate::json::get(part, "functionCall"@)->0;
            ContentBlockV::ToolCall {
                id: gemini_id(fc),
                name: str_or(as_str(field(fc, "name"@)), ""@),
                arguments: json_text(field(fc, "args"@)),
            }
        },
    }
}

/// Whether a Gemini reply part holds a text.
pub open spec fn has_text() -> spec_fn(JsonV) -> bool {
    |part: JsonV| as_str(field(part, "text"@)) is Some
}

/// Whether a Gemini reply part holds a function call.
pub open spec fn has_call() -> spec_fn(JsonV) -> bool {
    |part: JsonV| crate::json::get(part, "functionCall"@) is Some
}

proof fn lemma_gemini_blocks(parts: Seq<JsonV>)
    ensures
        crate::providers::gemini::gemini_blocks(parts).len() == parts.filter(has_text()).len()
            + parts.filter(has_call()).len(),
        (forall|k: int| 0 <= k < parts.len() ==> single_part(#[trigger] parts[k])) ==> {
            &&& crate::providers::gemini::gemini_blocks(parts).len() == parts.len()
            &&& forall|k: int|
                0 <= k < parts.len() ==> #[trigger] crate::providers::gemini::gemini_blocks(parts)[k]
                    == part_block(parts[k])
        },
    decreases parts.len(),
{
    reveal(Seq::filter);
    if parts.len() > 0 {
        let t = parts.drop_last();
        lemma_gemini_blocks(t);
        if forall|k: int| 0 <= k < parts.len() ==> single_part(#[trigger] parts[k]) {
            assert forall|k: int| 0 <= k < t.len() implies single_part(#[trigger] t[k]) by {
                assert(t[k] == parts[k]);
            }
            assert(single_part(parts[parts.len() - 1]));
            let bs = crate::providers::gemini::gemini_blocks(parts);
            assert forall|k: int| 0 <= k < parts.len() implies #[trigger] bs[k] == part_block(parts[k]) by {
                if k < t.len() {
                    assert(t[k] == parts[k]);
                }
            }
        }
    }
}

/// Gemini replies: one block per text and one per function call among the
/// parts of the first candidate; when every part holds exactly one
/// of a text and a function call, the response holds one block per part, in
/// order: the text, or the call with its id (`call_` and the byte length of
/// its JSON text), name and argument text.  The model is the requested one.
pub proof fn law_gemini_parts(model: Seq<char>, data: JsonV)
    ensures
        ({
            let r = gemini_response(model, data);
            let parts = first_parts(data);
            &&& r.content.len() == parts.filter(has_text()).len() + parts.filter(has_call()).len()
            &&& (forall|k: int| 0 <= k < parts.len() ==> single_part(#[trigger] parts[k]))
                ==> r.content.len() == parts.len() && forall|k: int|
                0 <= k < parts.len() ==> #[trigger] r.content[k] == part_block(parts[k])
            &&& r.model == model
        }),
{
    let parts = first_parts(data);
    lemma_gemini_blocks(parts);
    let r = gemini_response(model, data);
    assert(r.content == crate::providers::gemini::gemini_blocks(parts));
    if forall|k: int| 0 <= k < parts.len() ==> single_part(#[trigger] parts[k]) {
        assert forall|k: int| 0 <= k < parts.len() implies #[trigger] r.content[k] == part_block(parts[k]) by {
            assert(crate::providers::gemini::gemini_blocks(parts)[k] == part_block(parts[k]));
        }
    }
}

/// The parts of the first candidate of a Gemini reply body (empty when absent).
pub open spec fn first_parts(data: JsonV) -> Seq<JsonV> {
    match as_array(field(data, "candidates"@)) {
        Some(cs) => if cs.len() > 0 {
            match as_array(field(field(cs[0], "content"@), "parts"@)) {
                Some(ps) => ps,
                None => Seq::empty(),
            }
        } else {
            Seq::empty()
        },
        None => Seq::empty(),
    }
}

/// Joining: one part is itself; joining two non-empty lists of parts is
/// joining each and putting the separator between them.
pub proof fn law_join(a: Seq<Seq<char>>, b: Seq<Seq<char>>, sep: Seq<char>)
    ensures
        seq_join(Seq::<Seq<char>>::empty(), sep) == Seq::<char>::empty(),
        b.len() == 1 ==> seq_join(b, sep) == b[0],
        a.len() > 0 && b.len() > 0 ==> seq_join(a + b, sep) == seq_join(a, sep) + sep + seq_join(
            b,
            sep,
        ),
    decreases b.len(),
{
    if a.len() > 0 && b.len() > 1 {
        law_join(a, b.drop_last(), sep);
        assert((a + b).drop_last() =~= a + b.drop_last());
        assert((a + b).last() == b.last());
    } else if a.len() > 0 && b.len() == 1 {
        assert((a + b).drop_last() =~= a);
        assert((a + b).last() == b[0]);
    }
}

/// The report of a run with no response: the skipped entries first (when
/// there are any) on a line of their own, then every failure, in order.
pub proof fn law_failure_report(skipped: Seq<Seq<char>>, errors: Seq<Seq<char>>)
    ensures
        skipped.len() == 0 ==> failure_message(skipped, errors) == "Failed entries: "@ + seq_join(
            errors,
            "; "@,
        ),
        skipped.len() > 0 ==> failure_message(skipped, errors) == "Skipped (on cooldown): "@
            + seq_join(skipped, ", "@) + "\n"@ + "Failed entries: "@ + seq_join(errors, "; "@),
{
    assert(Seq::<char>::empty() + "Failed entries: "@ =~= "Failed entries: "@);
}

/// Key masking: a key of eight bytes or fewer shows one `*` per byte; a longer
/// key shows only its first four and last four bytes around `...`.
pub proof fn law_mask_key(key: &str)
    ensures
        key.len() <= 8 ==> mask_key_spec(key) == Seq::new(key.len() as nat, |i: int| '*'),
        key.len() > 8 ==> mask_key_spec(key) == decode_utf8(key.spec_bytes().subrange(0, 4))
            + "..."@ + decode_utf8(
            key.spec_bytes().subrange(key.len() - 4, key.spec_bytes().len() as int),
        ),
{
}

proof fn lemma_decimal_digits(n: nat)
    ensures
        all_digits(decimal(n)),
        digits_value(decimal(n)) == n,
        decimal(n).len() > 0,
    decreases n,
{
    if n >= 10 {
        lemma_decimal_digits(n / 10);
        let d = decimal(n);
        let p = decimal(n / 10);
        assert(d == p.push(crate::text::digit_char(n % 10)));
        assert(d.drop_last() =~= p);
        assert forall|i: int| 0 <= i < d.len() implies is_digit(#[trigger] d[i]) by {
            if i < p.len() {
                assert(d[i] == p[i]);
            }
        }
        let c = crate::text::digit_char(n % 10);
        assert(c as u32 == 48 + n % 10);
        assert(digits_value(d) == digits_value(p) * 10 + ((c as u32 - 48) as nat));
        assert(n == (n / 10) * 10 + n % 10) by (nonlinear_arith);
    } else {
        let d = decimal(n);
        let c = crate::text::digit_char(n);
        assert(c as u32 == 48 + n);
        assert(d.drop_last() =~= Seq::<char>::empty());
        assert(digits_value(d) == digits_value(d.drop_last()) * 10 + ((d.last() as u32 - 48) as nat));
    }
}

/// A `retry-after` header written as a decimal number of seconds is read
/// back as that number; a missing header, an empty one, or one with a
/// character that is not a digit (after an optional leading `+`) gives none.
pub proof fn law_retry_after(n: u64, text: Seq<char>)
    ensures
        retry_after_spec(Some(decimal(n as nat))) == Some(n),
        retry_after_spec(Some("+"@ + decimal(n as nat))) == Some(n),
        retry_after_spec(None) is None,
        retry_after_spec(Some(Seq::empty())) is None,
        (exists|i: int| 0 < i < text.len() && !is_digit(#[trigger] text[i])) ==> retry_after_spec(
            Some(text),
        ) is None,
        text.len() > 0 && text[0] != '+' && !is_digit(text[0]) ==> retry_after_spec(Some(text))
            is None,
{
    reveal_strlit("+");
    lemma_decimal_digits(n as nat);
    let d = decimal(n as nat);
    assert(d[0] != '+') by {
        assert(is_digit(d[0]));
    }
    let pd = "+"@ + d;
    assert(pd.drop_first() =~= d);
    if exists|i: int| 0 < i < text.len() && !is_digit(#[trigger] text[i]) {
        let i = choose|i: int| 0 < i < text.len() && !is_digit(#[trigger] text[i]);
        let body = crate::text::unsigned_body(text);
        if text.len() > 0 && text[0] == '+' {
            assert(body[i - 1] == text[i]);
        } else {
            assert(body[i] == text[i]);
        }
    }
    if text.len() > 0 && text[0] != '+' && !is_digit(text[0]) {
        assert(crate::text::unsigned_body(text)[0] == text[0]);
    }
}

/// Joining paths: an absolute second part replaces the first; otherwise the
/// result is the first part, one `/` unless it is empty or already ends in
/// one, then the second part.  Either way it ends with the second part.
pub proof fn law_path_join(base: Seq<char>, rest: Seq<char>)
    ensures
        is_absolute(rest) ==> path_join(base, rest) == rest,
        !is_absolute(rest) && base.len() > 0 && base.last() != '/' ==> path_join(base, rest) == base
            + seq!['/'] + rest,
        !is_absolute(rest) && (base.len() == 0 || base.last() == '/') ==> path_join(base, rest)
            == base + rest,
        path_join(base, rest).len() >= rest.len(),
        path_join(base, rest).subrange(path_join(base, rest).len() - rest.len(), path_join(base, rest).len() as int)
            == rest,
{
    let j = path_join(base, rest);
    if is_absolute(rest) {
        assert(j.subrange(0, j.len() as int) =~= rest);
    } else if base.len() == 0 || base.last() == '/' {
        assert(j.subrange(j.len() - rest.len(), j.len() as int) =~= rest);
    } else {
        assert(j.subrange(j.len() - rest.len(), j.len() as int) =~= rest);
    }
}

/// The saved conversation's path is absolute whenever the working directory
/// is, and names the file `<cascade>_<stamp>.json`.
pub proof fn law_failed_path(
    dir: Seq<char>,
    home: Option<Seq<char>>,
    cwd: Seq<char>,
    cascade_name: Seq<char>,
    stamp: Seq<char>,
)
    ensures
        ({
            let p = failed_path_spec(dir, home, cwd, cascade_name, stamp);
            let f = cascade_name + "_"@ + stamp + ".json"@;
            &&& is_absolute(cwd) ==> is_absolute(p)
            &&& p.len() >= f.len()
            &&& p.subrange(p.len() - f.len(), p.len() as int) == f
        }),
{
    let f = cascade_name + "_"@ + stamp + ".json"@;
    let q = path_join(expand_tilde_spec(dir, home), f);
    law_path_join(expand_tilde_spec(dir, home), f);
    if !is_absolute(q) {
        law_path_join(cwd, q);
        let p = path_join(cwd, q);
        assert(p.subrange(p.len() - f.len(), p.len() as int) =~= p.subrange(p.len() - q.len(), p.len() as int).subrange(q.len() - f.len(), q.len() as int));
        if is_absolute(cwd) {
            if cwd.last() == '/' {
                assert((cwd + q)[0] == cwd[0]);
            } else {
                assert((cwd + seq!['/'] + q)[0] == cwd[0]);
            }
        }
    }
}

/// Where each protocol sends its request, for a base URL without a trailing
/// `/`, and how it authenticates; without a configured base URL each protocol
/// uses its public endpoint.
pub proof fn law_request_targets(p: ProviderSettingsV, o: OllamaV, c: ConversationV)
    ensures
        (p.base_url.len() == 0 || p.base_url.last() != '/') ==> {
            &&& openai_request(p, c).url == p.base_url + "/chat/completions"@
            &&& anthropic_request(p, c).url == p.base_url + "/v1/messages"@
            &&& gemini_request(p, c).url == p.base_url + "/v1beta/models/"@ + p.model
                + ":generateContent?key="@ + p.api_key
        },
        (o.base_url.len() == 0 || o.base_url.last() != '/') ==> ollama_request(o, c).url
            == o.base_url + "/api/chat"@,
        openai_request(p, c).headers[0] == ("authorization"@, "Bearer "@ + p.api_key),
        anthropic_request(p, c).headers[0] == ("x-api-key"@, p.api_key),
        anthropic_request(p, c).headers[1] == ("anthropic-version"@, "2023-06-01"@),
        crate::providers::default_base_url(crate::config::ProviderType::Openai)
            == "https://api.openai.com/v1"@,
        crate::providers::default_base_url(crate::config::ProviderType::Anthropic)
            == "https://api.anthropic.com"@,
        crate::providers::default_base_url(crate::config::ProviderType::Gemini)
            == "https://generativelanguage.googleapis.com"@,
        crate::providers::default_base_url(crate::config::ProviderType::Ollama)
            == "http://localhost:11434"@,
{
    assert(crate::text::trim_end_char(p.base_url, '/') == p.base_url || (p.base_url.len() > 0
        && p.base_url.last() == '/'));
    assert(crate::text::trim_end_char(o.base_url, '/') == o.base_url || (o.base_url.len() > 0
        && o.base_url.last() == '/'));
    assert(p.base_url + "/v1beta/models/"@ + p.model + ":generateContent?key="@ + p.api_key
        =~= p.base_url + ("/v1beta/models/"@ + p.model + ":generateContent?key="@ + p.api_key));
}

/// The token counts each protocol reports, cut to 32 bits: OpenAI's
/// `usage.prompt_tokens` / `usage.completion_tokens`, Anthropic's
/// `usage.input_tokens` / `usage.output_tokens`, Gemini's
/// `usageMetadata.promptTokenCount` / `candidatesTokenCount`, Ollama's
/// top-level `prompt_eval_count` / `eval_count`; none when absent or not a
/// non-negative integer.
pub proof fn law_token_counts(model: Seq<char>, data: JsonV)
    ensures
        ({
            let cut = |v: Option<u64>| match v {
                Some(n) => Some(n as u32),
                None => None::<u32>,
            };
            let u64_at = |v: JsonV| crate::json::as_u64(v);
            &&& openai_response(model, data).input_tokens == cut(
                u64_at(field(field(data, "usage"@), "prompt_tokens"@)),
            )
            &&& openai_response(model, data).output_tokens == cut(
                u64_at(field(field(data, "usage"@), "completion_tokens"@)),
            )
            &&& anthropic_response(model, data).input_tokens == cut(
                u64_at(field(field(data, "usage"@), "input_tokens"@)),
            )
            &&& anthropic_response(model, data).output_tokens == cut(
                u64_at(field(field(data, "usage"@), "output_tokens"@)),
            )
            &&& gemini_response(model, data).input_tokens == cut(
                u64_at(field(field(data, "usageMetadata"@), "promptTokenCount"@)),
            )
            &&& gemini_response(model, data).output_tokens == cut(
                u64_at(field(field(data, "usageMetadata"@), "candidatesTokenCount"@)),
            )
            &&& ollama_response(model, data).input_tokens == cut(
                match crate::json::get(data, "prompt_eval_count"@) {
                    Some(v) => u64_at(v),
                    None => None,
                },
            )
            &&& ollama_response(model, data).output_tokens == cut(
                match crate::json::get(data, "eval_count"@) {
                    Some(v) => u64_at(v),
                    None => None,
                },
            )
            &&& openai_response(model, data).model == str_or(as_str(field(data, "model"@)), model)
            &&& ollama_response(model, data).model == model
        }),
{
}

/// Whether message `j` is the last system message.
pub open spec fn last_system_at(ms: Seq<MessageV>, j: int) -> bool {
    &&& 0 <= j < ms.len()
    &&& ms[j].role == MessageRole::System
    &&& forall|k: int| j < k < ms.len() ==> (#[trigger] ms[k]).role != MessageRole::System
}

proof fn lemma_system_parts(ms: Seq<MessageV>)
    ensures
        crate::providers::anthropic::system_parts(ms).len() > 0 <==> exists|j: int|
            0 <= j < ms.len() && (#[trigger] ms[j]).role == MessageRole::System,
        forall|j: int| #[trigger] last_system_at(ms, j) ==> crate::providers::gemini::last_system(ms)
            == Some(ms[j].content),
        (forall|j: int| 0 <= j < ms.len() ==> (#[trigger] ms[j]).role != MessageRole::System)
            ==> crate::providers::gemini::last_system(ms) is None,
    decreases ms.len(),
{
    if ms.len() > 0 {
        let t = ms.drop_last();
        lemma_system_parts(t);
        if exists|j: int| 0 <= j < t.len() && (#[trigger] t[j]).role == MessageRole::System {
            let j = choose|j: int| 0 <= j < t.len() && (#[trigger] t[j]).role == MessageRole::System;
            assert(ms[j] == t[j]);
        }
        if exists|j: int| 0 <= j < ms.len() && (#[trigger] ms[j]).role == MessageRole::System {
            let j = choose|j: int| 0 <= j < ms.len() && (#[trigger] ms[j]).role == MessageRole::System;
            if j < t.len() {
                assert(t[j] == ms[j]);
            }
        }
        assert forall|j: int| #[trigger] last_system_at(ms, j) implies crate::providers::gemini::last_system(ms)
            == Some(ms[j].content) by {
            if j < ms.len() - 1 {
                assert(ms[ms.len() - 1].role != MessageRole::System);
                assert(last_system_at(t, j)) by {
                    assert(t[j] == ms[j]);
                    assert forall|k: int| j < k < t.len() implies (#[trigger] t[k]).role != MessageRole::System by {
                        assert(t[k] == ms[k]);
                    }
                }
            }
        }
        if forall|j: int| 0 <= j < ms.len() ==> (#[trigger] ms[j]).role != MessageRole::System {
            assert(ms[ms.len() - 1].role != MessageRole::System);
            assert forall|j: int| 0 <= j < t.len() implies (#[trigger] t[j]).role != MessageRole::System by {
                assert(t[j] == ms[j]);
            }
        }
    }
}

/// System messages: Anthropic sends the model, a 4096 token limit and a
/// `system` field exactly when the conversation has a system message; Gemini
/// sends the last system message's content as its system instruction, and
/// none without one.
pub proof fn law_system_messages(p: ProviderSettingsV, c: ConversationV)
    ensures
        ({
            let a = anthropic_request(p, c).body;
            let g = gemini_request(p, c).body;
            let has_system = exists|j: int|
                0 <= j < c.messages.len() && (#[trigger] c.messages[j]).role == MessageRole::System;
            &&& field(a, "model"@) == JsonV::Str(p.model)
            &&& field(a, "max_tokens"@) == JsonV::UInt(4096)
            &&& (field(a, "system"@) is Str <==> has_system)
            &&& (!has_system ==> field(a, "system"@) == JsonV::Null)
            &&& forall|j: int|
                #[trigger] last_system_at(c.messages, j) ==> field(g, "systemInstruction"@) == JsonV::Obj(
                    seq![("parts"@, JsonV::Arr(seq![JsonV::Obj(seq![("text"@, JsonV::Str(c.messages[j].content))])]))],
                )
            &&& !has_system ==> field(g, "systemInstruction"@) == JsonV::Null
        }),
{
    lemma_system_parts(c.messages);
    lemma_anthropic_key_names();
    reveal_strlit("system");
    reveal_strlit("model");
    reveal_strlit("messages");
    reveal_strlit("max_tokens");
    reveal_strlit("contents");
    reveal_strlit("systemInstruction");
    reveal_strlit("tools");
    assert("system"@.len() != "model"@.len() && "system"@.len() != "messages"@.len() && "system"@.len()
        != "max_tokens"@.len());
    assert("max_tokens"@.len() != "model"@.len() && "max_tokens"@.len() != "messages"@.len());
    assert("model"@.len() != "messages"@.len());
    assert("systemInstruction"@.len() != "contents"@.len() && "systemInstruction"@.len() != "tools"@.len());
    let fs = anthropic_request(p, c).body->Obj_0;
    lemma_lookup_at(fs, 0);
    lemma_lookup_at(fs, 2);
    let parts = crate::providers::anthropic::system_parts(c.messages);
    if parts.len() > 0 {
        lemma_lookup_at(fs, 3);
    } else {
        lemma_lookup_absent(fs, "system"@);
    }
    let gs = gemini_request(p, c).body->Obj_0;
    match crate::providers::gemini::last_system(c.messages) {
        Some(_) => {
            lemma_lookup_at(gs, 1);
        },
        None => {
            lemma_lookup_absent(gs, "systemInstruction"@);
        },
    }
}

} // verus!
