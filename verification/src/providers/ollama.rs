//! Ollama local inference provider.

use vstd::prelude::*;
use vstd::string::StringExecFns;

use crate::json::{
    arr1, array_of, as_array, as_str, as_u64, clone_json, field, fields_view, get, get_field,
    index, items_view, jstr, json_text, lemma_items_view_push, obj2, obj3, opt_view, push_field,
    str_or, str_or_default, text_of_opt, Json, JsonV,
};
use crate::models::conversation::{
    messages_view, role_name, Conversation, ConversationV, MessageRole, MessageV,
};
use crate::models::response::{blocks_view, ContentBlock, ContentBlockV, LlmResponse, LlmResponseV};
use crate::models::tool::{tools_view, ToolDefinitionV};
use crate::providers::{
    base_url_or, endpoint, entry_key_spec, json_content_type, make_endpoint, make_entry_key,
    to_token_count, token_count, HttpRequest, HttpRequestV,
};

verus! {

/// The default base URL of a local Ollama server.
pub open spec fn ollama_base_url() -> Seq<char> {
    "http://localhost:11434"@
}

/// The model of an [`OllamaProvider`].
pub struct OllamaV {
    pub model: Seq<char>,
    pub base_url: Seq<char>,
}

/// Provider for a local Ollama server (no API key).
pub struct OllamaProvider {
    base_url: String,
    model: String,
}

impl View for OllamaProvider {
    type V = OllamaV;

    closed spec fn view(&self) -> OllamaV {
        OllamaV { model: self.model@, base_url: self.base_url@ }
    }
}

/// A message in the Ollama wire format: role and content, and the tool call id
/// when the message has one.
pub open spec fn ollama_message(m: MessageV) -> JsonV {
    let base = seq![("role"@, JsonV::Str(role_name(m.role))), ("content"@, JsonV::Str(m.content))];
    JsonV::Obj(
        match m.tool_call_id {
            Some(id) => base.push(("tool_call_id"@, JsonV::Str(id))),
            None => base,
        },
    )
}

/// A tool in the Ollama wire format.
pub open spec fn ollama_tool(t: ToolDefinitionV) -> JsonV {
    JsonV::Obj(
        seq![
            ("type"@, JsonV::Str("function"@)),
            (
                "function"@,
                JsonV::Obj(
                    seq![
                        ("name"@, JsonV::Str(t.name)),
                        ("description"@, JsonV::Str(t.description)),
                        ("parameters"@, t.parameters),
                    ],
                ),
            ),
        ],
    )
}

/// The request body: model, messages, no streaming, and the tools when the
/// conversation has a tool list.
pub open spec fn ollama_body(model: Seq<char>, c: ConversationV) -> JsonV {
    let base = seq![
        ("model"@, JsonV::Str(model)),
        ("messages"@, JsonV::Arr(c.messages.map_values(|m: MessageV| ollama_message(m)))),
        ("stream"@, JsonV::Bool(false)),
    ];
    JsonV::Obj(
        match c.tools {
            Some(ts) => base.push(
                ("tools"@, JsonV::Arr(ts.map_values(|t: ToolDefinitionV| ollama_tool(t)))),
            ),
            None => base,
        },
    )
}

/// The request: `POST {base}/api/chat` with a JSON body.
pub open spec fn ollama_request(p: OllamaV, c: ConversationV) -> HttpRequestV {
    HttpRequestV {
        url: endpoint(p.base_url, "/api/chat"@),
        headers: seq![("content-type"@, "application/json"@)],
        body: ollama_body(p.model, c),
    }
}

/// A tool call of the reply.
pub open spec fn ollama_call(tc: JsonV) -> ContentBlockV {
    ContentBlockV::ToolCall {
        id: str_or(as_str(field(tc, "id"@)), ""@),
        name: str_or(as_str(field(field(tc, "function"@), "name"@)), ""@),
        arguments: json_text(field(field(tc, "function"@), "arguments"@)),
    }
}

/// The optional value of a top-level count (`data.get(key).and_then(as_u64)`).
pub open spec fn count_of(data: JsonV, key: Seq<char>) -> Option<u64> {
    match get(data, key) {
        Some(v) => as_u64(v),
        None => None,
    }
}

/// The response read from a reply body: the message text when it is not
/// empty, then its tool calls; the model is the requested one.
pub open spec fn ollama_response(model: Seq<char>, data: JsonV) -> LlmResponseV {
    let message = field(data, "message"@);
    let text = match as_str(field(message, "content"@)) {
        Some(t) => if t.len() > 0 {
            seq![ContentBlockV::Text { text: t }]
        } else {
            Seq::empty()
        },
        None => Seq::empty(),
    };
    let calls = match as_array(field(message, "tool_calls"@)) {
        Some(tcs) => tcs.map_values(|tc: JsonV| ollama_call(tc)),
        None => Seq::empty(),
    };
    LlmResponseV {
        content: text + calls,
        input_tokens: token_count(count_of(data, "prompt_eval_count"@)),
        output_tokens: token_count(count_of(data, "eval_count"@)),
        model,
    }
}

fn wire_message(m: &crate::models::conversation::Message) -> (r: Json)
    ensures
        r@ == ollama_message(m@),
{
    let mut f: Vec<(String, Json)> = Vec::new();
    push_field(&mut f, "role", jstr(m.role.as_str()));
    push_field(&mut f, "content", Json::Str(m.content.clone()));
    match &m.tool_call_id {
        Some(id) => {
            push_field(&mut f, "tool_call_id", Json::Str(id.clone()));
        },
        None => {},
    }
    let r = Json::Obj(f);
    assert(r@->Obj_0 =~= ollama_message(m@)->Obj_0);
    r
}

fn wire_call(tc: &Json) -> (r: ContentBlock)
    ensures
        r@ == ollama_call(tc@),
{
    let function = index(Some(tc), "function");
    ContentBlock::ToolCall {
        id: str_or_default(index(Some(tc), "id"), ""),
        name: str_or_default(index(function, "name"), ""),
        arguments: text_of_opt(index(function, "arguments")),
    }
}

impl OllamaProvider {
    /// Creates a new Ollama provider; without a base URL it uses
    /// `http://localhost:11434`.
    pub fn new(model: String, base_url: Option<String>) -> (p: Self)
        ensures
            p@ == (OllamaV {
                model: model@,
                base_url: match base_url {
                    Some(u) => u@,
                    None => ollama_base_url(),
                },
            }),
    {
        OllamaProvider { base_url: base_url_or(base_url, "http://localhost:11434"), model }
    }

    /// The provider name, `ollama`.
    pub fn provider_name(&self) -> (r: &'static str)
        ensures
            r@ == "ollama"@,
    {
        "ollama"
    }

    /// The model identifier.
    pub fn model_name(&self) -> (r: &str)
        ensures
            r@ == self@.model,
    {
        self.model.as_str()
    }

    /// The `provider/model` key used for cooldown tracking.
    pub fn entry_key(&self) -> (r: String)
        ensures
            r@ == entry_key_spec("ollama"@, self@.model),
    {
        make_entry_key(self.provider_name(), self.model_name())
    }

    /// The request that sends `conversation` to the chat API.
    pub fn build_request(&self, conversation: &Conversation) -> (r: HttpRequest)
        ensures
            r@ == ollama_request(self@, conversation@),
    {
        let msgs = &conversation.messages;
        let mut wire: Vec<Json> = Vec::new();
        let mut i: usize = 0;
        while i < msgs.len()
            invariant
                i <= msgs@.len(),
                items_view(wire@) == messages_view(msgs@).subrange(0, i as int).map_values(
                    |m: MessageV| ollama_message(m),
                ),
            decreases msgs@.len() - i,
        {
            let j = wire_message(&msgs[i]);
            let ghost prev = wire@;
            let ghost jj = j;
            wire.push(j);
            proof {
                lemma_items_view_push(prev, jj);
                assert(items_view(wire@) =~= messages_view(msgs@).subrange(0, i + 1).map_values(
                    |m: MessageV| ollama_message(m),
                ));
            }
            i = i + 1;
        }
        assert(messages_view(msgs@).subrange(0, msgs@.len() as int) =~= messages_view(msgs@));
        let ghost cv = conversation@;
        let ghost base = seq![
            ("model"@, JsonV::Str(self@.model)),
            ("messages"@, JsonV::Arr(cv.messages.map_values(|m: MessageV| ollama_message(m)))),
            ("stream"@, JsonV::Bool(false)),
        ];
        let mut body: Vec<(String, Json)> = Vec::new();
        push_field(&mut body, "model", Json::Str(self.model.clone()));
        push_field(&mut body, "messages", Json::Arr(wire));
        push_field(&mut body, "stream", Json::Bool(false));
        assert(fields_view(body@) =~= base);
        match &conversation.tools {
            Some(tools) => {
                let mut ts: Vec<Json> = Vec::new();
                let mut k: usize = 0;
                while k < tools.len()
                    invariant
                        k <= tools@.len(),
                        items_view(ts@) == tools_view(tools@).subrange(0, k as int).map_values(
                            |t: ToolDefinitionV| ollama_tool(t),
                        ),
                    decreases tools@.len() - k,
                {
                    let t = &tools[k];
                    let function = obj3(
                        "name",
                        Json::Str(t.name.clone()),
                        "description",
                        Json::Str(t.description.clone()),
                        "parameters",
                        clone_json(&t.parameters),
                    );
                    let j = obj2("type", jstr("function"), "function", function);
                    let ghost prev = ts@;
                    let ghost jj = j;
                    ts.push(j);
                    proof {
                        lemma_items_view_push(prev, jj);
                        assert(items_view(ts@) =~= tools_view(tools@).subrange(
                            0,
                            k + 1,
                        ).map_values(|t: ToolDefinitionV| ollama_tool(t)));
                    }
                    k = k + 1;
                }
                assert(tools_view(tools@).subrange(0, tools@.len() as int) =~= tools_view(tools@));
                push_field(&mut body, "tools", Json::Arr(ts));
                assert(fields_view(body@) =~= base.push(
                    ("tools"@, JsonV::Arr(cv.tools->0.map_values(|t: ToolDefinitionV| ollama_tool(t)))),
                ));
            },
            None => {},
        }
        let r = HttpRequest {
            url: make_endpoint(self.base_url.as_str(), "/api/chat"),
            headers: json_content_type(),
            body: Json::Obj(body),
        };
        assert(r@.body == ollama_body(self@.model, conversation@));
        r
    }

    /// The response read from a successful reply body.
    pub fn parse_response(&self, data: &Json) -> (r: LlmResponse)
        ensures
            r@ == ollama_response(self@.model, data@),
    {
        let message = index(Some(data), "message");
        let mut blocks: Vec<ContentBlock> = Vec::new();
        match crate::json::str_of(index(message, "content")) {
            Some(t) => {
                if !t.as_str().is_empty() {
                    blocks.push(ContentBlock::Text { text: t.clone() });
                }
            },
            None => {},
        }
        let ghost text_blocks = blocks_view(blocks@);
        match array_of(index(message, "tool_calls")) {
            Some(tcs) => {
                let mut i: usize = 0;
                while i < tcs.len()
                    invariant
                        i <= tcs@.len(),
                        blocks_view(blocks@) == text_blocks + items_view(tcs@).subrange(
                            0,
                            i as int,
                        ).map_values(|tc: JsonV| ollama_call(tc)),
                    decreases tcs@.len() - i,
                {
                    proof {
                        crate::json::lemma_items_view(tcs@);
                    }
                    let ghost prev = blocks@;
                    let call = wire_call(&tcs[i]);
                    let ghost cv = call@;
                    blocks.push(call);
                    assert(blocks_view(blocks@) =~= blocks_view(prev).push(cv));
                    assert(items_view(tcs@)[i as int] == tcs@[i as int]@);
                    assert(items_view(tcs@).subrange(0, i + 1).map_values(|tc: JsonV| ollama_call(tc))
                        =~= items_view(tcs@).subrange(0, i as int).map_values(|tc: JsonV| ollama_call(tc)).push(cv));
                    assert(blocks_view(blocks@) =~= text_blocks + items_view(tcs@).subrange(
                        0,
                        i + 1,
                    ).map_values(|tc: JsonV| ollama_call(tc)));
                    i = i + 1;
                }
                proof {
                    crate::json::lemma_items_view(tcs@);
                }
                assert(items_view(tcs@).subrange(0, tcs@.len() as int) =~= items_view(tcs@));
            },
            None => {},
        }
        let prompt = match get_field(data, "prompt_eval_count") {
            Some(v) => crate::json::u64_of(Some(v)),
            None => None,
        };
        let eval = match get_field(data, "eval_count") {
            Some(v) => crate::json::u64_of(Some(v)),
            None => None,
        };
        let r = LlmResponse {
            content: blocks,
            input_tokens: to_token_count(prompt),
            output_tokens: to_token_count(eval),
            model: self.model.clone(),
        };
        assert(r@.content =~= ollama_response(self@.model, data@).content);
        r
    }
}

} // verus!
