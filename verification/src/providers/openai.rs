//! OpenAI Chat Completions provider (and compatible endpoints such as Groq,
//! Together or vLLM).

use vstd::prelude::*;
use vstd::string::StringExecFns;

use crate::json::{
    arr1, array_of, as_array, as_str, as_u64, clone_json, field, fields_view, get, get_field,
    index, items_view, jstr, json_text, lemma_items_view_push, obj2, obj3, opt_view, push_field,
    str_or, str_or_default, text_of_opt, Json, JsonV,
};
use crate::models::conversation::{
    messages_view, role_name, Conversation, ConversationV, MessageRole, MessageV,
};
use crate::models::response::{blocks_view, ContentBlock, ContentBlockV, LlmResponse, LlmResponseV};
use crate::models::tool::{tools_view, ToolDefinitionV};
use crate::providers::{
    base_url_or, endpoint, entry_key_spec, json_content_type, make_endpoint, make_entry_key,
    push_header, to_token_count, token_count, HttpRequest, HttpRequestV, ProviderSettingsV,
    headers_view,
};

verus! {

/// The default base URL of the OpenAI API.
pub open spec fn openai_base_url() -> Seq<char> {
    "https://api.openai.com/v1"@
}

/// Provider for the OpenAI Chat Completions API.
pub struct OpenAiProvider {
    api_key: String,
    model: String,
    base_url: String,
}

impl View for OpenAiProvider {
    type V = ProviderSettingsV;

    closed spec fn view(&self) -> ProviderSettingsV {
        ProviderSettingsV { api_key: self.api_key@, model: self.model@, base_url: self.base_url@ }
    }
}

/// A message in the OpenAI wire format: role and content, and the tool call id
/// when the message has one.
pub open spec fn openai_message(m: MessageV) -> JsonV {
    let base = seq![("role"@, JsonV::Str(role_name(m.role))), ("content"@, JsonV::Str(m.content))];
    JsonV::Obj(
        match m.tool_call_id {
            Some(id) => base.push(("tool_call_id"@, JsonV::Str(id))),
            None => base,
        },
    )
}

/// A tool in the OpenAI wire format.
pub open spec fn openai_tool(t: ToolDefinitionV) -> JsonV {
    JsonV::Obj(
        seq![
            ("type"@, JsonV::Str("function"@)),
            (
                "function"@,
                JsonV::Obj(
                    seq![
                        ("name"@, JsonV::Str(t.name)),
                        ("description"@, JsonV::Str(t.description)),
                        ("parameters"@, t.parameters),
                    ],
                ),
            ),
        ],
    )
}

/// The request body: model and messages, and the tools when the conversation
/// has a tool list.
pub open spec fn openai_body(model: Seq<char>, c: ConversationV) -> JsonV {
    let base = seq![
        ("model"@, JsonV::Str(model)),
        ("messages"@, JsonV::Arr(c.messages.map_values(|m: MessageV| openai_message(m)))),
    ];
    JsonV::Obj(
        match c.tools {
            Some(ts) => base.push(
                ("tools"@, JsonV::Arr(ts.map_values(|t: ToolDefinitionV| openai_tool(t)))),
            ),
            None => base,
        },
    )
}

/// The request: `POST {base}/chat/completions` with a bearer token and a JSON body.
pub open spec fn openai_request(p: ProviderSettingsV, c: ConversationV) -> HttpRequestV {
    HttpRequestV {
        url: endpoint(p.base_url, "/chat/completions"@),
        headers: seq![("authorization"@, "Bearer "@ + p.api_key), ("content-type"@, "application/json"@)],
        body: openai_body(p.model, c),
    }
}

/// A tool call of the reply.
pub open spec fn openai_call(tc: JsonV) -> ContentBlockV {
    ContentBlockV::ToolCall {
        id: str_or(as_str(field(tc, "id"@)), ""@),
        name: str_or(as_str(field(field(tc, "function"@), "name"@)), ""@),
        arguments: arguments_text(field(field(tc, "function"@), "arguments"@)),
    }
}

/// The arguments of a call: the string the API sends, or the JSON text of
/// another value.
pub open spec fn arguments_text(v: JsonV) -> Seq<char> {
    match as_str(v) {
        Some(t) => t,
        None => json_text(v),
    }
}

/// The message of the first choice of a reply (`null` when there is none).
pub open spec fn first_message(data: JsonV) -> JsonV {
    match as_array(field(data, "choices"@)) {
        Some(cs) => if cs.len() > 0 {
            field(cs[0], "message"@)
        } else {
            JsonV::Null
        },
        None => JsonV::Null,
    }
}

/// The response read from a reply body: the first choice's message text when
/// it is not empty, then its tool calls; token counts from `usage`; the model is
/// the reply's, else the requested one.
pub open spec fn openai_response(model: Seq<char>, data: JsonV) -> LlmResponseV {
    let message = first_message(data);
    let text = match as_str(field(message, "content"@)) {
        Some(t) => if t.len() > 0 {
            seq![ContentBlockV::Text { text: t }]
        } else {
            Seq::empty()
        },
        None => Seq::empty(),
    };
    let calls = match as_array(field(message, "tool_calls"@)) {
        Some(tcs) => tcs.map_values(|tc: JsonV| openai_call(tc)),
        None => Seq::empty(),
    };
    LlmResponseV {
        content: text + calls,
        input_tokens: token_count(as_u64(field(field(data, "usage"@), "prompt_tokens"@))),
        output_tokens: token_count(as_u64(field(field(data, "usage"@), "completion_tokens"@))),
        model: str_or(as_str(field(data, "model"@)), model),
    }
}

fn wire_message(m: &crate::models::conversation::Message) -> (r: Json)
    ensures
        r@ == openai_message(m@),
{
    let mut f: Vec<(String, Json)> = Vec::new();
    push_field(&mut f, "role", jstr(m.role.as_str()));
    push_field(&mut f, "content", Json::Str(m.content.clone()));
    match &m.tool_call_id {
        Some(id) => {
            push_field(&mut f, "tool_call_id", Json::Str(id.clone()));
        },
        None => {},
    }
    let r = Json::Obj(f);
    assert(r@->Obj_0 =~= openai_message(m@)->Obj_0);
    r
}

fn wire_call(tc: &Json) -> (r: ContentBlock)
    ensures
        r@ == openai_call(tc@),
{
    let function = index(Some(tc), "function");
    ContentBlock::ToolCall {
        id: str_or_default(index(Some(tc), "id"), ""),
        name: str_or_default(index(function, "name"), ""),
        arguments: arguments_of(index(function, "arguments")),
    }
}

fn arguments_of(v: Option<&Json>) -> (r: String)
    ensures
        r@ == arguments_text(opt_view(v)),
{
    match crate::json::str_of(v) {
        Some(t) => t.clone(),
        None => text_of_opt(v),
    }
}

impl OpenAiProvider {
    /// Creates a new OpenAI provider; without a base URL it uses
    /// `https://api.openai.com/v1`.
    pub fn new(api_key: String, model: String, base_url: Option<String>) -> (p: Self)
        ensures
            p@ == (ProviderSettingsV {
                api_key: api_key@,
                model: model@,
                base_url: match base_url {
                    Some(u) => u@,
                    None => openai_base_url(),
                },
            }),
    {
        OpenAiProvider { api_key, model, base_url: base_url_or(base_url, "https://api.openai.com/v1") }
    }

    /// The provider name, `openai`.
    pub fn provider_name(&self) -> (r: &'static str)
        ensures
            r@ == "openai"@,
    {
        "openai"
    }

    /// The model identifier.
    pub fn model_name(&self) -> (r: &str)
        ensures
            r@ == self@.model,
    {
        self.model.as_str()
    }

    /// The `provider/model` key used for cooldown tracking.
    pub fn entry_key(&self) -> (r: String)
        ensures
            r@ == entry_key_spec("openai"@, self@.model),
    {
        make_entry_key(self.provider_name(), self.model_name())
    }

    /// The request that sends `conversation` to the chat API.
    pub fn build_request(&self, conversation: &Conversation) -> (r: HttpRequest)
        ensures
            r@ == openai_request(self@, conversation@),
    {
        let msgs = &conversation.messages;
        let mut wire: Vec<Json> = Vec::new();
        let mut i: usize = 0;
        while i < msgs.len()
            invariant
                i <= msgs@.len(),
                items_view(wire@) == messages_view(msgs@).subrange(0, i as int).map_values(
                    |m: MessageV| openai_message(m),
                ),
            decreases msgs@.len() - i,
        {
            let j = wire_message(&msgs[i]);
            let ghost prev = wire@;
            let ghost jj = j;
            wire.push(j);
            proof {
                lemma_items_view_push(prev, jj);
                assert(items_view(wire@) =~= messages_view(msgs@).subrange(0, i + 1).map_values(
                    |m: MessageV| openai_message(m),
                ));
            }
            i = i + 1;
        }
        assert(messages_view(msgs@).subrange(0, msgs@.len() as int) =~= messages_view(msgs@));
        let ghost cv = conversation@;
        let ghost base = seq![
            ("model"@, JsonV::Str(self@.model)),
            ("messages"@, JsonV::Arr(cv.messages.map_values(|m: MessageV| openai_message(m)))),
        ];
        let mut body: Vec<(String, Json)> = Vec::new();
        push_field(&mut body, "model", Json::Str(self.model.clone()));
        push_field(&mut body, "messages", Json::Arr(wire));
        assert(fields_view(body@) =~= base);
        match &conversation.tools {
            Some(tools) => {
                let mut ts: Vec<Json> = Vec::new();
                let mut k: usize = 0;
                while k < tools.len()
                    invariant
                        k <= tools@.len(),
                        items_view(ts@) == tools_view(tools@).subrange(0, k as int).map_values(
                            |t: ToolDefinitionV| openai_tool(t),
                        ),
                    decreases tools@.len() - k,
                {
                    let t = &tools[k];
                    let function = obj3(
                        "name",
                        Json::Str(t.name.clone()),
                        "description",
                        Json::Str(t.description.clone()),
                        "parameters",
                        clone_json(&t.parameters),
                    );
                    let j = obj2("type", jstr("function"), "function", function);
                    let ghost prev = ts@;
                    let ghost jj = j;
                    ts.push(j);
                    proof {
                        lemma_items_view_push(prev, jj);
                        assert(items_view(ts@) =~= tools_view(tools@).subrange(
                            0,
                            k + 1,
                        ).map_values(|t: ToolDefinitionV| openai_tool(t)));
                    }
                    k = k + 1;
                }
                assert(tools_view(tools@).subrange(0, tools@.len() as int) =~= tools_view(tools@));
                push_field(&mut body, "tools", Json::Arr(ts));
                assert(fields_view(body@) =~= base.push(
                    ("tools"@, JsonV::Arr(cv.tools->0.map_values(|t: ToolDefinitionV| openai_tool(t)))),
                ));
            },
            None => {},
        }
        let mut bearer = String::from_str("Bearer ");
        bearer.append(self.api_key.as_str());
        let mut headers: Vec<(String, String)> = Vec::new();
        push_header(&mut headers, "authorization", bearer.as_str());
        push_header(&mut headers, "content-type", "application/json");
        let r = HttpRequest {
            url: make_endpoint(self.base_url.as_str(), "/chat/completions"),
            headers,
            body: Json::Obj(body),
        };
        assert(r@.headers =~= seq![
            ("authorization"@, "Bearer "@ + self@.api_key),
            ("content-type"@, "application/json"@),
        ]);
        assert(r@.body == openai_body(self@.model, conversation@));
        r
    }

    /// The response read from a successful reply body.
    pub fn parse_response(&self, data: &Json) -> (r: LlmResponse)
        ensures
            r@ == openai_response(self@.model, data@),
    {
        let mut message: Option<&Json> = None;
        match array_of(index(Some(data), "choices")) {
            Some(cs) => {
                if cs.len() > 0 {
                    proof {
                        crate::json::lemma_items_view(cs@);
                    }
                    message = index(Some(&cs[0]), "message");
                }
            },
            None => {},
        }
        assert(opt_view(message) == first_message(data@));
        let mut blocks: Vec<ContentBlock> = Vec::new();
        match crate::json::str_of(index(message, "content")) {
            Some(t) => {
                if !t.as_str().is_empty() {
                    blocks.push(ContentBlock::Text { text: t.clone() });
                }
            },
            None => {},
        }
        let ghost text_blocks = blocks_view(blocks@);
        match array_of(index(message, "tool_calls")) {
            Some(tcs) => {
                let mut i: usize = 0;
                while i < tcs.len()
                    invariant
                        i <= tcs@.len(),
                        blocks_view(blocks@) == text_blocks + items_view(tcs@).subrange(
                            0,
                            i as int,
                        ).map_values(|tc: JsonV| openai_call(tc)),
                    decreases tcs@.len() - i,
                {
                    proof {
                        crate::json::lemma_items_view(tcs@);
                    }
                    let ghost prev = blocks@;
                    let call = wire_call(&tcs[i]);
                    let ghost cv = call@;
                    blocks.push(call);
                    assert(blocks_view(blocks@) =~= blocks_view(prev).push(cv));
                    assert(items_view(tcs@)[i as int] == tcs@[i as int]@);
                    assert(items_view(tcs@).subrange(0, i + 1).map_values(|tc: JsonV| openai_call(tc))
                        =~= items_view(tcs@).subrange(0, i as int).map_values(|tc: JsonV| openai_call(tc)).push(cv));
                    assert(blocks_view(blocks@) =~= text_blocks + items_view(tcs@).subrange(
                        0,
                        i + 1,
                    ).map_values(|tc: JsonV| openai_call(tc)));
                    i = i + 1;
                }
                proof {
                    crate::json::lemma_items_view(tcs@);
                }
                assert(items_view(tcs@).subrange(0, tcs@.len() as int) =~= items_view(tcs@));
            },
            None => {},
        }
        let usage = index(Some(data), "usage");
        let prompt = crate::json::u64_of(index(usage, "prompt_tokens"));
        let eval = crate::json::u64_of(index(usage, "completion_tokens"));
        let r = LlmResponse {
            content: blocks,
            input_tokens: to_token_count(prompt),
            output_tokens: to_token_count(eval),
            model: str_or_default(index(Some(data), "model"), self.model.as_str()),
        };
        assert(r@.content =~= openai_response(self@.model, data@).content);
        r
    }
}

} // verus!
