//! Anthropic Messages API provider.

use vstd::prelude::*;
use vstd::string::StringExecFns;

use crate::json::{
    arr1, as_array, as_str, as_u64, clone_json, field, index, items_view, jstr, json_text,
    lemma_items_view_push, obj2, obj3, opt_view, push_field, str_or, str_or_default, text_of_opt,
    Json, JsonV, array_of, fields_view,
};
use crate::models::conversation::{messages_view, Conversation, ConversationV, MessageRole, MessageV};
use crate::models::response::{blocks_view, ContentBlock, ContentBlockV, LlmResponse, LlmResponseV};
use crate::models::tool::{tools_view, ToolDefinition, ToolDefinitionV};
use crate::providers::{
    base_url_or, endpoint, entry_key_spec, headers_view, make_endpoint, make_entry_key,
    push_header, to_token_count, token_count, HttpRequest, HttpRequestV, ProviderSettingsV,
};
use crate::text::{join, seq_join, str_eq, views};

verus! {

/// The default base URL of the Anthropic API.
pub open spec fn anthropic_base_url() -> Seq<char> {
    "https://api.anthropic.com"@
}

/// Provider for the Anthropic Messages API.
pub struct AnthropicProvider {
    api_key: String,
    model: String,
    base_url: String,
}

impl View for AnthropicProvider {
    type V = ProviderSettingsV;

    closed spec fn view(&self) -> ProviderSettingsV {
        ProviderSettingsV { api_key: self.api_key@, model: self.model@, base_url: self.base_url@ }
    }
}

/// A message in the Anthropic wire format; system messages have none (they go
/// to the `system` field), a tool result is a user message with a
/// `tool_result` block.
pub open spec fn anthropic_message(m: MessageV) -> Option<JsonV> {
    match m.role {
        MessageRole::System => None,
        MessageRole::Tool => Some(
            JsonV::Obj(
                seq![
                    ("role"@, JsonV::Str("user"@)),
                    (
                        "content"@,
                        JsonV::Arr(
                            seq![
                                JsonV::Obj(
                                    seq![
                                        ("type"@, JsonV::Str("tool_result"@)),
                                        ("tool_use_id"@, JsonV::Str(str_or(m.tool_call_id, ""@))),
                                        ("content"@, JsonV::Str(m.content)),
                                    ],
                                ),
                            ],
                        ),
                    ),
                ],
            ),
        ),
        MessageRole::User => Some(
            JsonV::Obj(seq![("role"@, JsonV::Str("user"@)), ("content"@, JsonV::Str(m.content))]),
        ),
        MessageRole::Assistant => Some(
            JsonV::Obj(
                seq![("role"@, JsonV::Str("assistant"@)), ("content"@, JsonV::Str(m.content))],
            ),
        ),
    }
}

/// The wire messages of a conversation, in order.
pub open spec fn anthropic_messages(ms: Seq<MessageV>) -> Seq<JsonV>
    decreases ms.len(),
{
    if ms.len() == 0 {
        Seq::empty()
    } else {
        let prev = anthropic_messages(ms.drop_last());
        match anthropic_message(ms.last()) {
            Some(j) => prev.push(j),
            None => prev,
        }
    }
}

/// The contents of the system messages, in order.
pub open spec fn system_parts(ms: Seq<MessageV>) -> Seq<Seq<char>>
    decreases ms.len(),
{
    if ms.len() == 0 {
        Seq::empty()
    } else if ms.last().role == MessageRole::System {
        system_parts(ms.drop_last()).push(ms.last().content)
    } else {
        system_parts(ms.drop_last())
    }
}

/// A tool in the Anthropic wire format.
pub open spec fn anthropic_tool(t: ToolDefinitionV) -> JsonV {
    JsonV::Obj(
        seq![
            ("name"@, JsonV::Str(t.name)),
            ("description"@, JsonV::Str(t.description)),
            ("input_schema"@, t.parameters),
        ],
    )
}

/// The request body: model, messages and a 4096 token limit; the system
/// messages joined by a blank line when there are any; the tools when the
/// conversation has a tool list.
pub open spec fn anthropic_body(model: Seq<char>, c: ConversationV) -> JsonV {
    let base = seq![
        ("model"@, JsonV::Str(model)),
        ("messages"@, JsonV::Arr(anthropic_messages(c.messages))),
        ("max_tokens"@, JsonV::UInt(4096)),
    ];
    let parts = system_parts(c.messages);
    let with_system = if parts.len() > 0 {
        base.push(("system"@, JsonV::Str(seq_join(parts, "\n\n"@))))
    } else {
        base
    };
    JsonV::Obj(
        match c.tools {
            Some(ts) => with_system.push(
                ("tools"@, JsonV::Arr(ts.map_values(|t: ToolDefinitionV| anthropic_tool(t)))),
            ),
            None => with_system,
        },
    )
}

/// The request: `POST {base}/v1/messages` with the key, the API version and a
/// JSON content type.
pub open spec fn anthropic_request(p: ProviderSettingsV, c: ConversationV) -> HttpRequestV {
    HttpRequestV {
        url: endpoint(p.base_url, "/v1/messages"@),
        headers: seq![
            ("x-api-key"@, p.api_key),
            ("anthropic-version"@, "2023-06-01"@),
            ("content-type"@, "application/json"@),
        ],
        body: anthropic_body(p.model, c),
    }
}

/// A reply content block: `text` and `tool_use` blocks are read, others skipped.
pub open spec fn anthropic_block(b: JsonV) -> Option<ContentBlockV> {
    let ty = str_or(as_str(field(b, "type"@)), ""@);
    if ty == "text"@ {
        Some(ContentBlockV::Text { text: str_or(as_str(field(b, "text"@)), ""@) })
    } else if ty == "tool_use"@ {
        Some(
            ContentBlockV::ToolCall {
                id: str_or(as_str(field(b, "id"@)), ""@),
                name: str_or(as_str(field(b, "name"@)), ""@),
                arguments: json_text(field(b, "input"@)),
            },
        )
    } else {
        None
    }
}

/// The content blocks read from the reply's `content` array, in order.
pub open spec fn anthropic_blocks(items: Seq<JsonV>) -> Seq<ContentBlockV>
    decreases items.len(),
{
    if items.len() == 0 {
        Seq::empty()
    } else {
        let prev = anthropic_blocks(items.drop_last());
        match anthropic_block(items.last()) {
            Some(b) => prev.push(b),
            None => prev,
        }
    }
}

/// The response read from a reply body; the model is the reply's, else the
/// requested one.
pub open spec fn anthropic_response(model: Seq<char>, data: JsonV) -> LlmResponseV {
    LlmResponseV {
        content: match as_array(field(data, "content"@)) {
            Some(items) => anthropic_blocks(items),
            None => Seq::empty(),
        },
        input_tokens: token_count(as_u64(field(field(data, "usage"@), "input_tokens"@))),
        output_tokens: token_count(as_u64(field(field(data, "usage"@), "output_tokens"@))),
        model: str_or(as_str(field(data, "model"@)), model),
    }
}

fn wire_message(m: &crate::models::conversation::Message) -> (r: Option<Json>)
    ensures
        match r {
            Some(j) => anthropic_message(m@) == Some(j@),
            None => anthropic_message(m@) is None,
        },
{
    match m.role {
        MessageRole::System => None,
        MessageRole::Tool => {
            let id = match &m.tool_call_id {
                Some(t) => t.clone(),
                None => String::from_str(""),
            };
            let result = obj3(
                "type",
                jstr("tool_result"),
                "tool_use_id",
                Json::Str(id),
                "content",
                Json::Str(m.content.clone()),
            );
            Some(obj2("role", jstr("user"), "content", arr1(result)))
        },
        MessageRole::User => Some(obj2("role", jstr("user"), "content", Json::Str(m.content.clone()))),
        MessageRole::Assistant => Some(
            obj2("role", jstr("assistant"), "content", Json::Str(m.content.clone())),
        ),
    }
}

fn wire_block(b: &Json) -> (r: Option<ContentBlock>)
    ensures
        match r {
            Some(x) => anthropic_block(b@) == Some(x@),
            None => anthropic_block(b@) is None,
        },
{
    let ty = str_or_default(index(Some(b), "type"), "");
    if str_eq(ty.as_str(), "text") {
        Some(ContentBlock::Text { text: str_or_default(index(Some(b), "text"), "") })
    } else if str_eq(ty.as_str(), "tool_use") {
        Some(
            ContentBlock::ToolCall {
                id: str_or_default(index(Some(b), "id"), ""),
                name: str_or_default(index(Some(b), "name"), ""),
                arguments: text_of_opt(index(Some(b), "input")),
            },
        )
    } else {
        None
    }
}

impl AnthropicProvider {
    /// Creates a new Anthropic provider; without a base URL it uses
    /// `https://api.anthropic.com`.
    pub fn new(api_key: String, model: String, base_url: Option<String>) -> (p: Self)
        ensures
            p@ == (ProviderSettingsV {
                api_key: api_key@,
                model: model@,
                base_url: match base_url {
                    Some(u) => u@,
                    None => anthropic_base_url(),
                },
            }),
    {
        AnthropicProvider {
            api_key,
            model,
            base_url: base_url_or(base_url, "https://api.anthropic.com"),
        }
    }

    /// The provider name, `anthropic`.
    pub fn provider_name(&self) -> (r: &'static str)
        ensures
            r@ == "anthropic"@,
    {
        "anthropic"
    }

    /// The model identifier.
    pub fn model_name(&self) -> (r: &str)
        ensures
            r@ == self@.model,
    {
        self.model.as_str()
    }

    /// The `provider/model` key used for cooldown tracking.
    pub fn entry_key(&self) -> (r: String)
        ensures
            r@ == entry_key_spec("anthropic"@, self@.model),
    {
        make_entry_key(self.provider_name(), self.model_name())
    }

    /// The request that sends `conversation` to the Messages API.
    pub fn build_request(&self, conversation: &Conversation) -> (r: HttpRequest)
        ensures
            r@ == anthropic_request(self@, conversation@),
    {
        let msgs = &conversation.messages;
        let mut wire: Vec<Json> = Vec::new();
        let mut parts: Vec<String> = Vec::new();
        let mut i: usize = 0;
        while i < msgs.len()
            invariant
                i <= msgs@.len(),
                items_view(wire@) == anthropic_messages(messages_view(msgs@.subrange(0, i as int))),
                views(parts@) == system_parts(messages_view(msgs@.subrange(0, i as int))),
            decreases msgs@.len() - i,
        {
            let ghost before = messages_view(msgs@.subrange(0, i as int));
            let ghost wire_before = wire@;
            let ghost parts_before = parts@;
            let m = &msgs[i];
            match wire_message(m) {
                Some(j) => {
                    let ghost jj = j;
                    wire.push(j);
                    proof {
                        lemma_items_view_push(wire_before, jj);
                    }
                },
                None => {},
            }
            if m.role == MessageRole::System {
                parts.push(m.content.clone());
                assert(views(parts@) =~= views(parts_before).push(m.content@));
            }
            proof {
                let after = messages_view(msgs@.subrange(0, i + 1));
                assert(after.drop_last() =~= before);
                assert(after.last() == m@);
            }
            i = i + 1;
        }
        assert(msgs@.subrange(0, msgs@.len() as int) =~= msgs@);
        let ghost cv = conversation@;
        let ghost base = seq![
            ("model"@, JsonV::Str(self@.model)),
            ("messages"@, JsonV::Arr(anthropic_messages(cv.messages))),
            ("max_tokens"@, JsonV::UInt(4096)),
        ];
        let ghost sparts = system_parts(cv.messages);
        let ghost with_system = if sparts.len() > 0 {
            base.push(("system"@, JsonV::Str(seq_join(sparts, "\n\n"@))))
        } else {
            base
        };
        let mut body: Vec<(String, Json)> = Vec::new();
        push_field(&mut body, "model", Json::Str(self.model.clone()));
        push_field(&mut body, "messages", Json::Arr(wire));
        push_field(&mut body, "max_tokens", Json::UInt(4096));
        assert(fields_view(body@) =~= base);
        if parts.len() > 0 {
            let joined = join(&parts, "\n\n");
            push_field(&mut body, "system", Json::Str(joined));
        }
        assert(fields_view(body@) =~= with_system);
        match &conversation.tools {
            Some(tools) => {
                let mut ts: Vec<Json> = Vec::new();
                let mut k: usize = 0;
                while k < tools.len()
                    invariant
                        k <= tools@.len(),
                        items_view(ts@) == tools_view(tools@).subrange(0, k as int).map_values(
                            |t: ToolDefinitionV| anthropic_tool(t),
                        ),
                    decreases tools@.len() - k,
                {
                    let t = &tools[k];
                    let j = obj3(
                        "name",
                        Json::Str(t.name.clone()),
                        "description",
                        Json::Str(t.description.clone()),
                        "input_schema",
                        clone_json(&t.parameters),
                    );
                    let ghost prev = ts@;
                    let ghost jj = j;
                    ts.push(j);
                    proof {
                        lemma_items_view_push(prev, jj);
                        assert(items_view(ts@) =~= tools_view(tools@).subrange(
                            0,
                            k + 1,
                        ).map_values(|t: ToolDefinitionV| anthropic_tool(t)));
                    }
                    k = k + 1;
                }
                assert(tools_view(tools@).subrange(0, tools@.len() as int) =~= tools_view(tools@));
                push_field(&mut body, "tools", Json::Arr(ts));
                assert(fields_view(body@) =~= with_system.push(
                    ("tools"@, JsonV::Arr(cv.tools->0.map_values(|t: ToolDefinitionV| anthropic_tool(t)))),
                ));
            },
            None => {},
        }
        let mut headers: Vec<(String, String)> = Vec::new();
        push_header(&mut headers, "x-api-key", self.api_key.as_str());
        push_header(&mut headers, "anthropic-version", "2023-06-01");
        push_header(&mut headers, "content-type", "application/json");
        let r = HttpRequest {
            url: make_endpoint(self.base_url.as_str(), "/v1/messages"),
            headers,
            body: Json::Obj(body),
        };
        proof {
            assert(r@.headers =~= seq![
                ("x-api-key"@, self@.api_key),
                ("anthropic-version"@, "2023-06-01"@),
                ("content-type"@, "application/json"@),
            ]);
            assert(r@.body == anthropic_body(self@.model, conversation@));
        }
        r
    }

    /// The response read from a successful reply body.
    pub fn parse_response(&self, data: &Json) -> (r: LlmResponse)
        ensures
            r@ == anthropic_response(self@.model, data@),
    {
        let mut blocks: Vec<ContentBlock> = Vec::new();
        match array_of(index(Some(data), "content")) {
            Some(items) => {
                let mut i: usize = 0;
                while i < items.len()
                    invariant
                        i <= items@.len(),
                        blocks_view(blocks@) == anthropic_blocks(items_view(items@.subrange(0, i as int))),
                    decreases items@.len() - i,
                {
                    let ghost before = items_view(items@.subrange(0, i as int));
                    let ghost prev = blocks@;
                    match wire_block(&items[i]) {
                        Some(b) => {
                            blocks.push(b);
                            assert(blocks_view(blocks@) =~= blocks_view(prev).push(blocks@.last()@));
                        },
                        None => {},
                    }
                    proof {
                        let sub = items@.subrange(0, i + 1);
                        lemma_items_view_push(items@.subrange(0, i as int), items@[i as int]);
                        assert(sub =~= items@.subrange(0, i as int).push(items@[i as int]));
                        assert(items_view(sub).drop_last() =~= before);
                        assert(items_view(sub).last() == items@[i as int]@);
                    }
                    i = i + 1;
                }
                assert(items@.subrange(0, items@.len() as int) =~= items@);
            },
            None => {},
        }
        let usage = index(Some(data), "usage");
        let r = LlmResponse {
            content: blocks,
            input_tokens: to_token_count(crate::json::u64_of(index(usage, "input_tokens"))),
            output_tokens: to_token_count(crate::json::u64_of(index(usage, "output_tokens"))),
            model: str_or_default(index(Some(data), "model"), self.model.as_str()),
        };
        assert(r@.content =~= anthropic_response(self@.model, data@).content);
        r
    }
}

} // verus!
