//! A stand-in for an OpenAI-compatible model endpoint, answering prompts from
//! a fixed table; used to exercise the program without a real model.
//!
//! The types mirror the wire format; the HTTP serving is left to the program.
use vstd::prelude::*;
use vstd::string::*;

use crate::text::{join_seqs, join_with, same_text, strings_view};

verus! {

/// The content of a message: plain text, or parts of which some carry text.
pub enum MessageContent {
    Text(String),
    ContentParts(Vec<ContentPart>),
}

/// One part of a message's content.
pub struct ContentPart {
    pub content_type: String,
    pub text: Option<String>,
    pub image_url: Option<ImageUrl>,
}

/// An image referred to by a content part.
pub struct ImageUrl {
    pub url: String,
    pub detail: Option<String>,
}

/// A message of a chat-completion request or response.
pub struct Message {
    pub role: String,
    pub content: Option<MessageContent>,
    pub tool_calls: Option<Vec<ToolCall>>,
    pub tool_call_id: Option<String>,
}

/// A complete, non-streamed answer.
pub struct ChatCompletionResponse {
    pub id: String,
    pub object: String,
    pub created: u64,
    pub model: String,
    pub choices: Vec<Choice>,
    pub usage: Usage,
}

/// One answer of a complete response.
pub struct Choice {
    pub index: u32,
    pub message: Message,
    pub finish_reason: String,
}

/// How the client wants tools to be chosen.
pub enum ToolChoice {
    String(String),
    Object { tool_type: String, function: FunctionName },
}

pub struct FunctionName {
    pub name: String,
}

/// A tool call made by the model.
pub struct ToolCall {
    pub id: String,
    pub tool_type: String,
    pub function: FunctionCall,
}

pub struct FunctionCall {
    pub name: String,
    pub arguments: String,
}

/// Token counts reported with a complete response.
pub struct Usage {
    pub prompt_tokens: u32,
    pub completion_tokens: u32,
    pub total_tokens: u32,
}

/// One event of a streamed answer.
pub struct ChatCompletionChunk {
    pub id: String,
    pub object: String,
    pub created: u64,
    pub model: String,
    pub choices: Vec<ChunkChoice>,
}

pub struct ChunkChoice {
    pub index: u32,
    pub delta: Delta,
    pub finish_reason: Option<String>,
}

/// What a streamed event adds to the answer.
pub struct Delta {
    pub role: Option<String>,
    pub content: Option<String>,
    pub tool_calls: Option<Vec<ToolCallDelta>>,
}

pub struct ToolCallDelta {
    pub index: u32,
    pub id: Option<String>,
    pub tool_type: Option<String>,
    pub function: Option<FunctionCallDelta>,
}

pub struct FunctionCallDelta {
    pub name: Option<String>,
    pub arguments: Option<String>,
}

/// The models offered.
pub struct ModelList {
    pub object: String,
    pub data: Vec<Model>,
}

pub struct Model {
    pub id: String,
    pub object: String,
    pub created: u64,
    pub owned_by: String,
}

/// Characters streamed per event.
pub const CHUNK_CHARS: usize = 5;

/// Prefix of the answer given to a prompt the table does not hold.
pub const NOT_FOUND: &'static str = "未找到匹配的响应: ";

/// The texts of the parts that carry one, in order.
pub open spec fn part_texts(parts: Seq<ContentPart>) -> Seq<Seq<char>>
    decreases parts.len(),
{
    if parts.len() == 0 {
        Seq::empty()
    } else {
        let rest = part_texts(parts.drop_last());
        match parts.last().text {
            Some(t) => rest.push(t@),
            None => rest,
        }
    }
}

/// The text of a message's content; parts are joined by single spaces.
pub open spec fn content_text(c: Option<MessageContent>) -> Seq<char> {
    match c {
        None => Seq::empty(),
        Some(MessageContent::Text(t)) => t@,
        Some(MessageContent::ContentParts(ps)) => join_seqs(part_texts(ps@), " "@),
    }
}

/// The text of the last message whose role is `user`, empty if there is none.
pub open spec fn last_user_text(messages: Seq<Message>) -> Seq<char>
    decreases messages.len(),
{
    if messages.len() == 0 {
        Seq::empty()
    } else if messages.last().role@ == "user"@ {
        content_text(messages.last().content)
    } else {
        last_user_text(messages.drop_last())
    }
}

/// The text of a message's content.
pub fn message_text(content: &Option<MessageContent>) -> (r: String)
    ensures
        r@ == content_text(*content),
{
    match content {
        None => String::new(),
        Some(MessageContent::Text(t)) => t.clone(),
        Some(MessageContent::ContentParts(parts)) => {
            let n = parts.len();
            let mut texts: Vec<String> = Vec::new();
            let mut i: usize = 0;
            while i < n
                invariant
                    n == parts@.len(),
                    i <= n,
                    strings_view(texts@) == part_texts(parts@.take(i as int)),
                decreases n - i,
            {
                assert(parts@.take(i + 1).drop_last() =~= parts@.take(i as int));
                assert(parts@.take(i + 1).last() == parts@[i as int]);
                match &parts[i].text {
                    Some(t) => {
                        let ghost before = texts@;
                        texts.push(t.clone());
                        assert(strings_view(texts@) =~= strings_view(before).push(t@));
                    },
                    None => {},
                }
                i = i + 1;
            }
            assert(parts@.take(n as int) =~= parts@);
            join_with(&texts, " ")
        },
    }
}

/// The prompt of a request: the text of its last user message.
pub fn user_prompt(messages: &Vec<Message>) -> (r: String)
    ensures
        r@ == last_user_text(messages@),
{
    let mut k: usize = messages.len();
    assert(messages@.take(k as int) =~= messages@);
    while k > 0
        invariant
            k <= messages@.len(),
            last_user_text(messages@) == last_user_text(messages@.take(k as int)),
        decreases k,
    {
        let ghost upto = messages@.take(k as int);
        assert(upto.last() == messages@[k - 1]);
        assert(upto.drop_last() =~= messages@.take(k - 1));
        if same_text(messages[k - 1].role.as_str(), "user") {
            return message_text(&messages[k - 1].content);
        }
        k = k - 1;
    }
    String::new()
}

/// The answer stored for `key`, taking the first entry with that key.
pub open spec fn lookup(table: Seq<(String, String)>, key: Seq<char>) -> Option<Seq<char>>
    decreases table.len(),
{
    if table.len() == 0 {
        None
    } else if table[0].0@ == key {
        Some(table[0].1@)
    } else {
        lookup(table.drop_first(), key)
    }
}

/// The answer to `prompt`: the stored one, or a message saying there is none.
pub open spec fn answer_spec(table: Seq<(String, String)>, prompt: Seq<char>) -> Seq<char> {
    match lookup(table, prompt) {
        Some(a) => a,
        None => NOT_FOUND@ + prompt,
    }
}

/// `s` cut into pieces of `size` characters, the last one possibly shorter.
pub open spec fn chunks_spec(s: Seq<char>, size: nat) -> Seq<Seq<char>>
    decreases s.len(),
{
    if size == 0 || s.len() == 0 {
        Seq::empty()
    } else if s.len() <= size {
        seq![s]
    } else {
        seq![s.take(size as int)] + chunks_spec(s.skip(size as int), size)
    }
}

/// Cuts `s` into pieces of `size` characters, the last one possibly shorter.
pub fn split_chunks(s: &str, size: usize) -> (r: Vec<String>)
    requires
        size > 0,
    ensures
        strings_view(r@) == chunks_spec(s@, size as nat),
{
    let n = s.unicode_len();
    let mut out: Vec<String> = Vec::new();
    let mut i: usize = 0;
    assert(s@.skip(0) =~= s@);
    while i < n
        invariant
            n == s@.len(),
            size > 0,
            i <= n,
            chunks_spec(s@, size as nat) == strings_view(out@) + chunks_spec(s@.skip(i as int), size as nat),
        decreases n - i,
    {
        let rest = n - i;
        let end = if rest <= size {
            n
        } else {
            i + size
        };
        let piece = String::from_str(s.substring_char(i, end));
        let ghost tail = s@.skip(i as int);
        let ghost before = out@;
        out.push(piece);
        assert(strings_view(out@) =~= strings_view(before).push(piece@));
        if rest <= size {
            assert(tail =~= s@.subrange(i as int, n as int));
            assert(s@.skip(n as int) =~= Seq::<char>::empty());
            assert(chunks_spec(tail, size as nat) == seq![tail]);
        } else {
            assert(tail.take(size as int) =~= s@.subrange(i as int, end as int));
            assert(tail.skip(size as int) =~= s@.skip(end as int));
        }
        assert(chunks_spec(s@, size as nat) == strings_view(out@) + chunks_spec(
            s@.skip(end as int),
            size as nat,
        )) by {
            assert(strings_view(out@) =~= strings_view(before) + seq![piece@]);
        }
        i = end;
    }
    assert(chunks_spec(s@.skip(n as int), size as nat) =~= Seq::<Seq<char>>::empty());
    assert(strings_view(out@) + Seq::<Seq<char>>::empty() =~= strings_view(out@));
    out
}

/// The table of canned answers.
pub struct AppState {
    pub responses: Vec<(String, String)>,
}

impl AppState {
    pub fn new(responses: Vec<(String, String)>) -> (r: Self)
        ensures
            r.responses@ == responses@,
    {
        AppState { responses }
    }

    /// The answer to `prompt`.
    pub fn answer(&self, prompt: &str) -> (r: String)
        ensures
            r@ == answer_spec(self.responses@, prompt@),
    {
        let n = self.responses.len();
        let mut i: usize = 0;
        assert(self.responses@.skip(0) =~= self.responses@);
        while i < n
            invariant
                n == self.responses@.len(),
                i <= n,
                lookup(self.responses@, prompt@) == lookup(self.responses@.skip(i as int), prompt@),
            decreases n - i,
        {
            let ghost rest = self.responses@.skip(i as int);
            assert(rest[0] == self.responses@[i as int]);
            assert(rest.drop_first() =~= self.responses@.skip(i + 1));
            if same_text(self.responses[i].0.as_str(), prompt) {
                return self.responses[i].1.clone();
            }
            i = i + 1;
        }
        String::from_str(NOT_FOUND).concat(prompt)
    }
}

/// An event of a streamed answer with one choice.
fn chunk(id: &String, created: u64, model: &String, delta: Delta, finish_reason: Option<String>) -> (r:
    ChatCompletionChunk)
    ensures
        r.id@ == id@,
        r.object@ == "chat.completion.chunk"@,
        r.created == created,
        r.model@ == model@,
        r.choices@.len() == 1,
        r.choices@[0].index == 0,
        r.choices@[0].delta == delta,
        r.choices@[0].finish_reason == finish_reason,
{
    ChatCompletionChunk {
        id: id.clone(),
        object: String::from_str("chat.completion.chunk"),
        created,
        model: model.clone(),
        choices: vec![ChunkChoice { index: 0, delta, finish_reason }],
    }
}

/// The events of a streamed answer: one announcing the assistant, one per
/// piece of `CHUNK_CHARS` characters of `content`, and one marking the stop.
pub fn stream_chunks(id: &String, created: u64, model: &String, content: &str) -> (r: Vec<
    ChatCompletionChunk,
>)
    ensures
        r@.len() == chunks_spec(content@, CHUNK_CHARS as nat).len() + 2,
        forall|k: int|
            0 <= k < r@.len() ==> (#[trigger] r@[k]).id@ == id@ && r@[k].created == created
                && r@[k].model@ == model@ && r@[k].object@ == "chat.completion.chunk"@
                && r@[k].choices@.len() == 1 && r@[k].choices@[0].index == 0,
        r@[0].choices@[0].delta.role is Some,
        r@[0].choices@[0].delta.role->0@ == "assistant"@,
        r@[0].choices@[0].delta.content is None,
        r@[0].choices@[0].finish_reason is None,
        forall|k: int|
            0 < k < r@.len() - 1 ==> (#[trigger] r@[k]).choices@[0].delta.role is None
                && r@[k].choices@[0].delta.content is Some
                && r@[k].choices@[0].delta.content->0@ == chunks_spec(content@, CHUNK_CHARS as nat)[k - 1] && r@[k].choices@[0].finish_reason is None,
        r@.last().choices@[0].delta.role is None,
        r@.last().choices@[0].delta.content is None,
        r@.last().choices@[0].finish_reason is Some,
        r@.last().choices@[0].finish_reason->0@ == "stop"@,
{
    let mut out: Vec<ChatCompletionChunk> = Vec::new();
    let start = Delta { role: Some(String::from_str("assistant")), content: None, tool_calls: None };
    out.push(chunk(id, created, model, start, None));
    let pieces = split_chunks(content, CHUNK_CHARS);
    let n = pieces.len();
    let mut i: usize = 0;
    while i < n
        invariant
            n == pieces@.len(),
            strings_view(pieces@) == chunks_spec(content@, CHUNK_CHARS as nat),
            i <= n,
            out@.len() == i + 1,
            forall|k: int|
                0 <= k < out@.len() ==> (#[trigger] out@[k]).id@ == id@ && out@[k].created == created
                    && out@[k].model@ == model@ && out@[k].object@ == "chat.completion.chunk"@
                    && out@[k].choices@.len() == 1 && out@[k].choices@[0].index == 0,
            out@[0].choices@[0].delta.role is Some,
            out@[0].choices@[0].delta.role->0@ == "assistant"@,
            out@[0].choices@[0].delta.content is None,
            out@[0].choices@[0].finish_reason is None,
            forall|k: int|
                0 < k < out@.len() ==> (#[trigger] out@[k]).choices@[0].delta.role is None
                    && out@[k].choices@[0].delta.content is Some
                    && out@[k].choices@[0].delta.content->0@ == pieces@[k - 1]@
                    && out@[k].choices@[0].finish_reason is None,
        decreases n - i,
    {
        let text = pieces[i].clone();
        let delta = Delta { role: None, content: Some(text), tool_calls: None };
        out.push(chunk(id, created, model, delta, None));
        i = i + 1;
    }
    let end = Delta { role: None, content: None, tool_calls: None };
    out.push(chunk(id, created, model, end, Some(String::from_str("stop"))));
    assert forall|k: int| 0 < k < out@.len() - 1 implies (#[trigger] out@[k]).choices@[0].delta.content->0@ == chunks_spec(content@, CHUNK_CHARS as nat)[k - 1] by {
        assert(strings_view(pieces@)[k - 1] == pieces@[k - 1]@);
    }
    out
}

/// A complete answer with one choice.
pub fn completion_response(id: String, created: u64, model: String, content: String) -> (r:
    ChatCompletionResponse)
    ensures
        r.id@ == id@,
        r.object@ == "chat.completion"@,
        r.created == created,
        r.model@ == model@,
        r.choices@.len() == 1,
        r.choices@[0].index == 0,
        r.choices@[0].message.role@ == "assistant"@,
        r.choices@[0].message.content matches Some(MessageContent::Text(t)),
        r.choices@[0].message.content->0->Text_0@ == content@,
        r.choices@[0].message.tool_calls is None,
        r.choices@[0].message.tool_call_id is None,
        r.choices@[0].finish_reason@ == "stop"@,
        r.usage == (Usage { prompt_tokens: 10, completion_tokens: 20, total_tokens: 30 }),
{
    let message = Message {
        role: String::from_str("assistant"),
        content: Some(MessageContent::Text(content)),
        tool_calls: None,
        tool_call_id: None,
    };
    ChatCompletionResponse {
        id,
        object: String::from_str("chat.completion"),
        created,
        model,
        choices: vec![Choice { index: 0, message, finish_reason: String::from_str("stop") }],
        usage: Usage { prompt_tokens: 10, completion_tokens: 20, total_tokens: 30 },
    }
}

/// The one model offered.
pub fn model_list(created: u64) -> (r: ModelList)
    ensures
        r.object@ == "list"@,
        r.data@.len() == 1,
        r.data@[0].id@ == "mocker"@,
        r.data@[0].object@ == "model"@,
        r.data@[0].created == created,
        r.data@[0].owned_by@ == "howlto"@,
{
    ModelList {
        object: String::from_str("list"),
        data: vec![
            Model {
                id: String::from_str("mocker"),
                object: String::from_str("model"),
                created,
                owned_by: String::from_str("howlto"),
            },
        ],
    }
}

} // verus!
