//! Google Gemini generateContent API provider.

use vstd::prelude::*;
use vstd::string::StringExecFns;
use vstd::utf8::encode_utf8;

use crate::json::{
    arr1, array_of, as_array, as_str, as_u64, clone_json, field, fields_view, get, get_field,
    index, items_view, jstr, json_text, lemma_items_view, lemma_items_view_push, obj1, obj2, obj3,
    opt_view, push_field, str_or, str_or_default, text_of_opt, to_text, Json, JsonV,
};
use crate::models::conversation::{messages_view, Conversation, ConversationV, MessageRole, MessageV};
use crate::models::response::{blocks_view, ContentBlock, ContentBlockV, LlmResponse, LlmResponseV};
use crate::models::tool::{tools_view, ToolDefinitionV};
use crate::providers::{
    base_url_or, endpoint, entry_key_spec, json_content_type, make_endpoint, make_entry_key,
    to_token_count, token_count, HttpRequest, HttpRequestV, ProviderSettingsV,
};
use crate::text::{decimal, u64_to_decimal};

verus! {

/// The default base URL of the Gemini API.
pub open spec fn gemini_base_url() -> Seq<char> {
    "https://generativelanguage.googleapis.com"@
}

/// Provider for the Google Gemini generateContent API.
pub struct GeminiProvider {
    api_key: String,
    model: String,
    base_url: String,
}

impl View for GeminiProvider {
    type V = ProviderSettingsV;

    closed spec fn view(&self) -> ProviderSettingsV {
        ProviderSettingsV { api_key: self.api_key@, model: self.model@, base_url: self.base_url@ }
    }
}

/// A message in the Gemini wire format; system messages have none (the last
/// one becomes the system instruction), assistant turns are `model` turns and
/// a tool result is a `function` turn named by its tool call id.
pub open spec fn gemini_content(m: MessageV) -> Option<JsonV> {
    match m.role {
        MessageRole::System => None,
        MessageRole::User => Some(
            JsonV::Obj(
                seq![
                    ("role"@, JsonV::Str("user"@)),
                    ("parts"@, JsonV::Arr(seq![JsonV::Obj(seq![("text"@, JsonV::Str(m.content))])])),
                ],
            ),
        ),
        MessageRole::Assistant => Some(
            JsonV::Obj(
                seq![
                    ("role"@, JsonV::Str("model"@)),
                    ("parts"@, JsonV::Arr(seq![JsonV::Obj(seq![("text"@, JsonV::Str(m.content))])])),
                ],
            ),
        ),
        MessageRole::Tool => Some(
            JsonV::Obj(
                seq![
                    ("role"@, JsonV::Str("function"@)),
                    (
                        "parts"@,
                        JsonV::Arr(
                            seq![
                                JsonV::Obj(
                                    seq![
                                        (
                                            "functionResponse"@,
                                            JsonV::Obj(
                                                seq![
                                                    (
                                                        "name"@,
                                                        JsonV::Str(str_or(m.tool_call_id, "unknown"@)),
                                                    ),
                                                    (
                                                        "response"@,
                                                        JsonV::Obj(seq![("content"@, JsonV::Str(m.content))]),
                                                    ),
                                                ],
                                            ),
                                        ),
                                    ],
                                ),
                            ],
                        ),
                    ),
                ],
            ),
        ),
    }
}

/// The wire contents of a conversation, in order.
pub open spec fn gemini_contents(ms: Seq<MessageV>) -> Seq<JsonV>
    decreases ms.len(),
{
    if ms.len() == 0 {
        Seq::empty()
    } else {
        let prev = gemini_contents(ms.drop_last());
        match gemini_content(ms.last()) {
            Some(j) => prev.push(j),
            None => prev,
        }
    }
}

/// The content of the last system message, if any.
pub open spec fn last_system(ms: Seq<MessageV>) -> Option<Seq<char>>
    decreases ms.len(),
{
    if ms.len() == 0 {
        None
    } else if ms.last().role == MessageRole::System {
        Some(ms.last().content)
    } else {
        last_system(ms.drop_last())
    }
}

/// A tool as a Gemini function declaration.
pub open spec fn gemini_tool(t: ToolDefinitionV) -> JsonV {
    JsonV::Obj(
        seq![
            ("name"@, JsonV::Str(t.name)),
            ("description"@, JsonV::Str(t.description)),
            ("parameters"@, t.parameters),
        ],
    )
}

/// The request body: the contents; the system instruction when there is a
/// system message; the function declarations when there is a tool list.
pub open spec fn gemini_body(c: ConversationV) -> JsonV {
    let base = seq![("contents"@, JsonV::Arr(gemini_contents(c.messages)))];
    let with_system = match last_system(c.messages) {
        Some(sys) => base.push(
            (
                "systemInstruction"@,
                JsonV::Obj(seq![("parts"@, JsonV::Arr(seq![JsonV::Obj(seq![("text"@, JsonV::Str(sys))])]))]),
            ),
        ),
        None => base,
    };
    JsonV::Obj(
        match c.tools {
            Some(ts) => with_system.push(
                (
                    "tools"@,
                    JsonV::Arr(
                        seq![
                            JsonV::Obj(
                                seq![
                                    (
                                        "functionDeclarations"@,
                                        JsonV::Arr(ts.map_values(|t: ToolDefinitionV| gemini_tool(t))),
                                    ),
                                ],
                            ),
                        ],
                    ),
                ),
            ),
            None => with_system,
        },
    )
}

/// The request: `POST {base}/v1beta/models/{model}:generateContent?key={key}`
/// with a JSON body.
pub open spec fn gemini_request(p: ProviderSettingsV, c: ConversationV) -> HttpRequestV {
    HttpRequestV {
        url: endpoint(p.base_url, "/v1beta/models/"@ + p.model + ":generateContent?key="@ + p.api_key),
        headers: seq![("content-type"@, "application/json"@)],
        body: gemini_body(c),
    }
}

/// The id of a function call: `call_` and the byte length of the call's JSON text.
pub open spec fn call_id_spec(call_text: Seq<char>) -> Seq<char> {
    "call_"@ + decimal((encode_utf8(call_text).len() as usize) as nat)
}

/// The id of a function call whose JSON text is `call_text`.
pub fn call_id(call_text: &str) -> (r: String)
    ensures
        r@ == call_id_spec(call_text@),
{
    let n = call_text.len();
    let mut id = String::from_str("call_");
    let digits = u64_to_decimal(n as u64);
    id.append(digits.as_str());
    id
}

/// The blocks of one reply part: its text, then its function call.  A call's
/// id is `call_` and the byte length of the call's JSON text.
pub open spec fn gemini_part_blocks(part: JsonV) -> Seq<ContentBlockV> {
    let t = match as_str(field(part, "text"@)) {
        Some(text) => seq![ContentBlockV::Text { text }],
        None => Seq::empty(),
    };
    let f = match get(part, "functionCall"@) {
        Some(fc) => seq![
            ContentBlockV::ToolCall {
                id: call_id_spec(json_text(fc)),
                name: str_or(as_str(field(fc, "name"@)), ""@),
                arguments: json_text(field(fc, "args"@)),
            },
        ],
        None => Seq::empty(),
    };
    t + f
}

/// The blocks of the reply parts, in order.
pub open spec fn gemini_blocks(parts: Seq<JsonV>) -> Seq<ContentBlockV>
    decreases parts.len(),
{
    if parts.len() == 0 {
        Seq::empty()
    } else {
        gemini_blocks(parts.drop_last()) + gemini_part_blocks(parts.last())
    }
}

/// The parts of the first candidate of a reply, if it has them.
pub open spec fn gemini_parts(data: JsonV) -> Option<Seq<JsonV>> {
    match as_array(field(data, "candidates"@)) {
        Some(cands) => if cands.len() > 0 {
            as_array(field(field(cands[0], "content"@), "parts"@))
        } else {
            None
        },
        None => None,
    }
}

/// The response read from a reply body; the model is the requested one.
pub open spec fn gemini_response(model: Seq<char>, data: JsonV) -> LlmResponseV {
    LlmResponseV {
        content: match gemini_parts(data) {
            Some(parts) => gemini_blocks(parts),
            None => Seq::empty(),
        },
        input_tokens: token_count(
            as_u64(field(field(data, "usageMetadata"@), "promptTokenCount"@)),
        ),
        output_tokens: token_count(
            as_u64(field(field(data, "usageMetadata"@), "candidatesTokenCount"@)),
        ),
        model,
    }
}

fn text_part(text: Json) -> (r: Json)
    ensures
        r@ == JsonV::Arr(seq![JsonV::Obj(seq![("text"@, text@)])]),
{
    arr1(obj1("text", text))
}

fn wire_content(m: &crate::models::conversation::Message) -> (r: Option<Json>)
    ensures
        match r {
            Some(j) => gemini_content(m@) == Some(j@),
            None => gemini_content(m@) is None,
        },
{
    match m.role {
        MessageRole::System => None,
        MessageRole::User => Some(
            obj2("role", jstr("user"), "parts", text_part(Json::Str(m.content.clone()))),
        ),
        MessageRole::Assistant => Some(
            obj2("role", jstr("model"), "parts", text_part(Json::Str(m.content.clone()))),
        ),
        MessageRole::Tool => {
            let name = match &m.tool_call_id {
                Some(t) => t.clone(),
                None => String::from_str("unknown"),
            };
            let response = obj1("content", Json::Str(m.content.clone()));
            let call = obj2("name", Json::Str(name), "response", response);
            Some(obj2("role", jstr("function"), "parts", arr1(obj1("functionResponse", call))))
        },
    }
}

fn part_blocks(part: &Json, out: &mut Vec<ContentBlock>)
    ensures
        blocks_view(final(out)@) == blocks_view(old(out)@) + gemini_part_blocks(part@),
{
    let ghost start = old(out)@;
    match crate::json::str_of(index(Some(part), "text")) {
        Some(t) => {
            out.push(ContentBlock::Text { text: t.clone() });
        },
        None => {},
    }
    let ghost mid = out@;
    let ghost tpart = match as_str(field(part@, "text"@)) {
        Some(text) => seq![ContentBlockV::Text { text }],
        None => Seq::<ContentBlockV>::empty(),
    };
    assert(blocks_view(mid) =~= blocks_view(start) + tpart);
    match get_field(part, "functionCall") {
        Some(fc) => {
            let text = to_text(fc);
            let id = call_id(text.as_str());
            out.push(
                ContentBlock::ToolCall {
                    id,
                    name: str_or_default(index(Some(fc), "name"), ""),
                    arguments: text_of_opt(index(Some(fc), "args")),
                },
            );
        },
        None => {},
    }
    let ghost fpart = match get(part@, "functionCall"@) {
        Some(fc) => seq![
            ContentBlockV::ToolCall {
                id: call_id_spec(json_text(fc)),
                name: str_or(as_str(field(fc, "name"@)), ""@),
                arguments: json_text(field(fc, "args"@)),
            },
        ],
        None => Seq::<ContentBlockV>::empty(),
    };
    assert(blocks_view(out@) =~= blocks_view(mid) + fpart);
    assert(blocks_view(out@) =~= blocks_view(start) + gemini_part_blocks(part@));
}

impl GeminiProvider {
    /// Creates a new Gemini provider; without a base URL it uses
    /// `https://generativelanguage.googleapis.com`.
    pub fn new(api_key: String, model: String, base_url: Option<String>) -> (p: Self)
        ensures
            p@ == (ProviderSettingsV {
                api_key: api_key@,
                model: model@,
                base_url: match base_url {
                    Some(u) => u@,
                    None => gemini_base_url(),
                },
            }),
    {
        GeminiProvider {
            api_key,
            model,
            base_url: base_url_or(base_url, "https://generativelanguage.googleapis.com"),
        }
    }

    /// The provider name, `gemini`.
    pub fn provider_name(&self) -> (r: &'static str)
        ensures
            r@ == "gemini"@,
    {
        "gemini"
    }

    /// The model identifier.
    pub fn model_name(&self) -> (r: &str)
        ensures
            r@ == self@.model,
    {
        self.model.as_str()
    }

    /// The `provider/model` key used for cooldown tracking.
    pub fn entry_key(&self) -> (r: String)
        ensures
            r@ == entry_key_spec("gemini"@, self@.model),
    {
        make_entry_key(self.provider_name(), self.model_name())
    }

    /// The request that sends `conversation` to the generateContent API.
    pub fn build_request(&self, conversation: &Conversation) -> (r: HttpRequest)
        ensures
            r@ == gemini_request(self@, conversation@),
    {
        let msgs = &conversation.messages;
        let mut wire: Vec<Json> = Vec::new();
        let mut system: Option<String> = None;
        let mut i: usize = 0;
        while i < msgs.len()
            invariant
                i <= msgs@.len(),
                items_view(wire@) == gemini_contents(messages_view(msgs@.subrange(0, i as int))),
                crate::models::conversation::opt_str_view(system) == last_system(
                    messages_view(msgs@.subrange(0, i as int)),
                ),
            decreases msgs@.len() - i,
        {
            let ghost before = messages_view(msgs@.subrange(0, i as int));
            let ghost wire_before = wire@;
            let m = &msgs[i];
            match wire_content(m) {
                Some(j) => {
                    let ghost jj = j;
                    wire.push(j);
                    proof {
                        lemma_items_view_push(wire_before, jj);
                    }
                },
                None => {},
            }
            if m.role == MessageRole::System {
                system = Some(m.content.clone());
            }
            proof {
                let after = messages_view(msgs@.subrange(0, i + 1));
                assert(after.drop_last() =~= before);
                assert(after.last() == m@);
            }
            i = i + 1;
        }
        assert(msgs@.subrange(0, msgs@.len() as int) =~= msgs@);
        let ghost cv = conversation@;
        let ghost base = seq![("contents"@, JsonV::Arr(gemini_contents(cv.messages)))];
        let ghost with_system = match last_system(cv.messages) {
            Some(sys) => base.push(
                (
                    "systemInstruction"@,
                    JsonV::Obj(seq![("parts"@, JsonV::Arr(seq![JsonV::Obj(seq![("text"@, JsonV::Str(sys))])]))]),
                ),
            ),
            None => base,
        };
        let mut body: Vec<(String, Json)> = Vec::new();
        push_field(&mut body, "contents", Json::Arr(wire));
        assert(fields_view(body@) =~= base);
        match system {
            Some(sys) => {
                push_field(&mut body, "systemInstruction", obj1("parts", text_part(Json::Str(sys))));
            },
            None => {},
        }
        assert(fields_view(body@) =~= with_system);
        match &conversation.tools {
            Some(tools) => {
                let mut ts: Vec<Json> = Vec::new();
                let mut k: usize = 0;
                while k < tools.len()
                    invariant
                        k <= tools@.len(),
                        items_view(ts@) == tools_view(tools@).subrange(0, k as int).map_values(
                            |t: ToolDefinitionV| gemini_tool(t),
                        ),
                    decreases tools@.len() - k,
                {
                    let t = &tools[k];
                    let j = obj3(
                        "name",
                        Json::Str(t.name.clone()),
                        "description",
                        Json::Str(t.description.clone()),
                        "parameters",
                        clone_json(&t.parameters),
                    );
                    let ghost prev = ts@;
                    let ghost jj = j;
                    ts.push(j);
                    proof {
                        lemma_items_view_push(prev, jj);
                        assert(items_view(ts@) =~= tools_view(tools@).subrange(
                            0,
                            k + 1,
                        ).map_values(|t: ToolDefinitionV| gemini_tool(t)));
                    }
                    k = k + 1;
                }
                assert(tools_view(tools@).subrange(0, tools@.len() as int) =~= tools_view(tools@));
                push_field(&mut body, "tools", arr1(obj1("functionDeclarations", Json::Arr(ts))));
                assert(fields_view(body@) =~= with_system.push(
                    (
                        "tools"@,
                        JsonV::Arr(
                            seq![
                                JsonV::Obj(
                                    seq![
                                        (
                                            "functionDeclarations"@,
                                            JsonV::Arr(
                                                cv.tools->0.map_values(|t: ToolDefinitionV| gemini_tool(t)),
                                            ),
                                        ),
                                    ],
                                ),
                            ],
                        ),
                    ),
                ));
            },
            None => {},
        }
        let mut path = String::from_str("/v1beta/models/");
        path.append(self.model.as_str());
        path.append(":generateContent?key=");
        path.append(self.api_key.as_str());
        let r = HttpRequest {
            url: make_endpoint(self.base_url.as_str(), path.as_str()),
            headers: json_content_type(),
            body: Json::Obj(body),
        };
        assert(r@.body == gemini_body(conversation@));
        r
    }

    /// The response read from a successful reply body.
    pub fn parse_response(&self, data: &Json) -> (r: LlmResponse)
        ensures
            r@ == gemini_response(self@.model, data@),
    {
        let mut blocks: Vec<ContentBlock> = Vec::new();
        let mut parts: Option<&Vec<Json>> = None;
        match array_of(index(Some(data), "candidates")) {
            Some(cands) => {
                if cands.len() > 0 {
                    proof {
                        lemma_items_view(cands@);
                    }
                    parts = array_of(index(index(Some(&cands[0]), "content"), "parts"));
                }
            },
            None => {},
        }
        assert(match parts {
            Some(ps) => gemini_parts(data@) == Some(items_view(ps@)),
            None => gemini_parts(data@) is None,
        });
        match parts {
            Some(items) => {
                let mut i: usize = 0;
                while i < items.len()
                    invariant
                        i <= items@.len(),
                        blocks_view(blocks@) == gemini_blocks(items_view(items@.subrange(0, i as int))),
                    decreases items@.len() - i,
                {
                    let ghost before = items_view(items@.subrange(0, i as int));
                    part_blocks(&items[i], &mut blocks);
                    proof {
                        let sub = items@.subrange(0, i + 1);
                        lemma_items_view_push(items@.subrange(0, i as int), items@[i as int]);
                        assert(sub =~= items@.subrange(0, i as int).push(items@[i as int]));
                        assert(items_view(sub).drop_last() =~= before);
                        assert(items_view(sub).last() == items@[i as int]@);
                    }
                    i = i + 1;
                }
                assert(items@.subrange(0, items@.len() as int) =~= items@);
            },
            None => {},
        }
        let usage = index(Some(data), "usageMetadata");
        let r = LlmResponse {
            content: blocks,
            input_tokens: to_token_count(crate::json::u64_of(index(usage, "promptTokenCount"))),
            output_tokens: to_token_count(
                crate::json::u64_of(index(usage, "candidatesTokenCount")),
            ),
            model: self.model.clone(),
        };
        assert(r@.content =~= gemini_response(self@.model, data@).content);
        r
    }
}

} // verus!
