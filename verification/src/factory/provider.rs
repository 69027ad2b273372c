//! The model seam: an OpenAI Responses API client's decisions. Every
//! request is stateless and resends the full input; the reply's
//! `reasoning` and `function_call` items ride back verbatim in the next
//! request. What a reply's output items mean is decided here.
use vstd::prelude::*;

use crate::factory::config::ReasoningEffort;
use crate::text::{chars_of, copy_string, dec, push_chars, push_str, push_u64, str_eq, string_from};

verus! {

/// Overall request deadline, in seconds.
pub const TIMEOUT_SECS: u64 = 600;

/// How much of an error body a message quotes.
pub const STATUS_BODY_LIMIT: usize = 300;

/// The connection, not the model: one provider serves many airframes.
#[derive(Debug, Clone)]
pub struct Provider {
    pub base_url: String,
    pub api_key: String,
}

/// `s` without every trailing `/`.
pub open spec fn trim_slashes(s: Seq<char>) -> Seq<char>
    decreases s.len(),
{
    if s.len() > 0 && s.last() == '/' {
        trim_slashes(s.drop_last())
    } else {
        s
    }
}

impl Provider {
    /// The Responses endpoint: the base URL without trailing slashes, then
    /// `/responses`.
    pub fn responses_url(&self) -> (r: String)
        ensures
            r@ == trim_slashes(self.base_url@) + "/responses"@,
    {
        let v = chars_of(self.base_url.as_str());
        let mut n = v.len();
        proof {
            assert(v@.take(v.len() as int) =~= v@);
        }
        while n > 0 && v[n - 1] == '/'
            invariant
                n <= v.len(),
                trim_slashes(v@.take(n as int)) == trim_slashes(v@),
            decreases n,
        {
            proof {
                assert(v@.take(n as int).drop_last() =~= v@.take(n - 1));
            }
            n = n - 1;
        }
        let mut out: Vec<char> = Vec::new();
        let mut i: usize = 0;
        while i < n
            invariant
                i <= n,
                n <= v.len(),
                out@ == v@.take(i as int),
            decreases n - i,
        {
            proof {
                assert(v@.take(i + 1) =~= v@.take(i as int).push(v@[i as int]));
            }
            out.push(v[i]);
            i = i + 1;
        }
        proof {
            assert(!(n > 0 && v@.take(n as int).last() == '/'));
            assert(trim_slashes(v@.take(n as int)) == v@.take(n as int));
        }
        let mut s = String::new();
        push_chars(&mut s, &out);
        push_str(&mut s, "/responses");
        s
    }

    /// The `Authorization` header's value.
    pub fn authorization(&self) -> (r: String)
        ensures
            r@ == "Bearer "@ + self.api_key@,
    {
        let mut s = string_from("Bearer ");
        push_str(&mut s, self.api_key.as_str());
        s
    }
}

/// One tool invocation the model asked for; `arguments` stays the raw
/// JSON text the provider sent.
#[derive(Debug, Clone, PartialEq, Eq)]
pub struct ToolCallRequest {
    pub id: String,
    pub name: String,
    pub arguments: String,
}

/// Every way the seam fails, as data.
#[derive(Debug, Clone, PartialEq, Eq)]
pub enum ProviderError {
    Transport(String),
    Status { code: u16, body: String },
    Decode(String),
    /// A successful reply with neither text nor tool calls.
    MissingContent,
}

/// `text`, or its first `limit` characters followed by an ellipsis when it
/// is longer.
pub open spec fn clipped(text: Seq<char>, limit: nat) -> Seq<char> {
    if text.len() <= limit {
        text
    } else {
        text.take(limit as int) + "…"@
    }
}

/// Clip a text to `limit` characters, marking the cut with an ellipsis.
pub fn clip(text: &str, limit: usize) -> (r: String)
    ensures
        r@ == clipped(text@, limit as nat),
{
    let v = chars_of(text);
    if v.len() <= limit {
        return string_from(text);
    }
    let mut out: Vec<char> = Vec::new();
    let mut i: usize = 0;
    while i < limit
        invariant
            i <= limit,
            limit < v.len(),
            out@ == v@.take(i as int),
        decreases limit - i,
    {
        proof {
            assert(v@.take(i + 1) =~= v@.take(i as int).push(v@[i as int]));
        }
        out.push(v[i]);
        i = i + 1;
    }
    let mut s = String::new();
    push_chars(&mut s, &out);
    push_str(&mut s, "…");
    s
}

/// The message of a provider failure.
pub open spec fn provider_error_text(e: ProviderError) -> Seq<char> {
    match e {
        ProviderError::Transport(d) => "transport: "@ + d@,
        ProviderError::Status { code, body } => "http "@ + dec(code as nat) + ": "@ + clipped(
            body@,
            STATUS_BODY_LIMIT as nat,
        ),
        ProviderError::Decode(d) => "bad response body: "@ + d@,
        ProviderError::MissingContent => "response carried no content"@,
    }
}

impl ProviderError {
    /// The message describing this failure.
    pub fn message(&self) -> (r: String)
        ensures
            r@ == provider_error_text(*self),
    {
        match self {
            ProviderError::Transport(d) => {
                let mut s = string_from("transport: ");
                push_str(&mut s, d.as_str());
                s
            },
            ProviderError::Status { code, body } => {
                let mut s = string_from("http ");
                push_u64(&mut s, *code as u64);
                push_str(&mut s, ": ");
                let c = clip(body.as_str(), STATUS_BODY_LIMIT);
                push_str(&mut s, c.as_str());
                s
            },
            ProviderError::Decode(d) => {
                let mut s = string_from("bad response body: ");
                push_str(&mut s, d.as_str());
                s
            },
            ProviderError::MissingContent => string_from("response carried no content"),
        }
    }
}

// ── Reading a reply ─────────────────────────────────────────────────────────

/// A function call's `arguments` member as the reply carried it.
#[derive(Debug, Clone, PartialEq, Eq)]
pub enum CallArguments {
    /// A JSON string: the arguments' text.
    Text(String),
    /// Absent or `null`.
    Missing,
    /// Any other JSON value, as its compact text.
    Json(String),
}

/// One content part of a `message` item.
#[derive(Debug, Clone, PartialEq, Eq)]
pub struct ContentPart {
    /// The part's `type`, when it is a string.
    pub part_type: Option<String>,
    /// The part's `text`, when it is a string.
    pub text: Option<String>,
}

/// One output item of a reply, as far as its meaning depends on it.
#[derive(Debug, Clone, PartialEq, Eq)]
pub struct OutputItem {
    /// The item's `type`, when it is a string.
    pub item_type: Option<String>,
    /// A function call's `call_id`, when it is a string.
    pub call_id: Option<String>,
    /// A function call's `name`, when it is a string.
    pub name: Option<String>,
    /// A function call's `arguments`.
    pub arguments: CallArguments,
    /// A message's `content`, when it is an array.
    pub content: Option<Vec<ContentPart>>,
}

/// A reply's token usage; a count the reply omits is zero.
#[derive(Debug, Clone, Copy, PartialEq, Eq)]
pub struct Usage {
    pub input_tokens: u64,
    pub output_tokens: u64,
    pub total_tokens: u64,
    pub cached_tokens: u64,
}

/// What one turn brought back.
#[derive(Debug, Clone, PartialEq, Eq)]
pub struct ResponseOut {
    /// The positions, among the reply's output items, of the items the
    /// next request must replay: `reasoning` and `function_call` items, in
    /// arrival order.
    pub continuation: Vec<usize>,
    pub text: Option<String>,
    pub tool_calls: Vec<ToolCallRequest>,
    pub prompt_tokens: u64,
    pub cached_tokens: u64,
    pub completion_tokens: u64,
    pub total_tokens: u64,
}

/// Whether an optional string holds exactly `t`.
pub open spec fn is_text(o: Option<String>, t: Seq<char>) -> bool {
    match o {
        Some(s) => s@ == t,
        None => false,
    }
}

/// The tool call a `function_call` item asks for: its `call_id` and `name`
/// must be strings; absent or `null` arguments read as `{}`.
pub open spec fn call_of(it: OutputItem) -> Option<(Seq<char>, Seq<char>, Seq<char>)> {
    match (it.call_id, it.name) {
        (Some(id), Some(name)) => Some(
            (
                id@,
                name@,
                match it.arguments {
                    CallArguments::Text(s) => s@,
                    CallArguments::Missing => "{}"@,
                    CallArguments::Json(s) => s@,
                },
            ),
        ),
        _ => None,
    }
}

/// The texts of a message's content: its non-empty `output_text` parts.
pub open spec fn part_texts(parts: Seq<ContentPart>) -> Seq<Seq<char>>
    decreases parts.len(),
{
    if parts.len() == 0 {
        Seq::empty()
    } else {
        let p = parts.last();
        let rest = part_texts(parts.drop_last());
        if is_text(p.part_type, "output_text"@) && p.text is Some && p.text->0@.len() > 0 {
            rest.push(p.text->0@)
        } else {
            rest
        }
    }
}

/// The texts an output item contributes.
pub open spec fn item_texts(it: OutputItem) -> Seq<Seq<char>> {
    if is_text(it.item_type, "message"@) {
        match it.content {
            Some(parts) => part_texts(parts@),
            None => Seq::empty(),
        }
    } else {
        Seq::empty()
    }
}

/// Whether an output item rides back in the next request.
pub open spec fn replayed(it: OutputItem) -> bool {
    is_text(it.item_type, "reasoning"@) || is_text(it.item_type, "function_call"@)
}

/// The positions of the replayed items among the first `n` items.
pub open spec fn replay_positions(items: Seq<OutputItem>, n: int) -> Seq<usize>
    decreases n,
{
    if n <= 0 {
        Seq::empty()
    } else if replayed(items[n - 1]) {
        replay_positions(items, n - 1).push((n - 1) as usize)
    } else {
        replay_positions(items, n - 1)
    }
}

/// The tool calls of the first `n` items, in order.
pub open spec fn calls_of(items: Seq<OutputItem>, n: int) -> Seq<(Seq<char>, Seq<char>, Seq<char>)>
    decreases n,
{
    if n <= 0 {
        Seq::empty()
    } else {
        let it = items[n - 1];
        let rest = calls_of(items, n - 1);
        if is_text(it.item_type, "function_call"@) && call_of(it) is Some {
            rest.push(call_of(it)->0)
        } else {
            rest
        }
    }
}

/// The texts of the first `n` items, in order.
pub open spec fn texts_of(items: Seq<OutputItem>, n: int) -> Seq<Seq<char>>
    decreases n,
{
    if n <= 0 {
        Seq::empty()
    } else {
        texts_of(items, n - 1) + item_texts(items[n - 1])
    }
}

/// Texts joined with newlines.
pub open spec fn joined(ts: Seq<Seq<char>>) -> Seq<char>
    decreases ts.len(),
{
    if ts.len() == 0 {
        Seq::empty()
    } else if ts.len() == 1 {
        ts[0]
    } else {
        joined(ts.drop_last()) + "\n"@ + ts.last()
    }
}

/// The view of a tool call.
pub open spec fn call_view(c: ToolCallRequest) -> (Seq<char>, Seq<char>, Seq<char>) {
    (c.id@, c.name@, c.arguments@)
}

/// The views of a list of tool calls.
pub open spec fn calls_view(v: Seq<ToolCallRequest>) -> Seq<(Seq<char>, Seq<char>, Seq<char>)> {
    v.map_values(|c: ToolCallRequest| call_view(c))
}

/// The tool call a `function_call` item asks for.
pub fn parse_function_call(item: &OutputItem) -> (r: Option<ToolCallRequest>)
    ensures
        r matches Some(c) ==> call_of(*item) == Some(call_view(c)),
        r is None ==> call_of(*item) is None,
{
    match (&item.call_id, &item.name) {
        (Some(id), Some(name)) => {
            let arguments = match &item.arguments {
                CallArguments::Text(s) => copy_string(s),
                CallArguments::Missing => string_from("{}"),
                CallArguments::Json(s) => copy_string(s),
            };
            Some(ToolCallRequest { id: copy_string(id), name: copy_string(name), arguments })
        },
        _ => None,
    }
}

/// Whether an optional string holds exactly `t`.
fn text_is(o: &Option<String>, t: &str) -> (r: bool)
    ensures
        r == is_text(*o, t@),
{
    match o {
        Some(s) => str_eq(s.as_str(), t),
        None => false,
    }
}

/// Appends the texts a message item contributes.
fn push_item_texts(texts: &mut Vec<String>, it: &OutputItem)
    ensures
        final(texts)@.map_values(|s: String| s@) == old(texts)@.map_values(|s: String| s@)
            + item_texts(*it),
{
    let ghost start = texts@.map_values(|s: String| s@);
    if !text_is(&it.item_type, "message") {
        proof {
            assert(start + item_texts(*it) =~= start);
        }
        return;
    }
    match &it.content {
        None => {
            proof {
                assert(start + item_texts(*it) =~= start);
            }
        },
        Some(parts) => {
            let mut j: usize = 0;
            proof {
                assert(parts@.take(0) =~= Seq::<ContentPart>::empty());
                assert(start + part_texts(parts@.take(0)) =~= start);
            }
            while j < parts.len()
                invariant
                    j <= parts@.len(),
                    texts@.map_values(|s: String| s@) == start + part_texts(parts@.take(j as int)),
                decreases parts@.len() - j,
            {
                let p = &parts[j];
                proof {
                    assert(parts@.take(j + 1).drop_last() =~= parts@.take(j as int));
                    assert(parts@.take(j + 1).last() == parts@[j as int]);
                }
                if text_is(&p.part_type, "output_text") {
                    match &p.text {
                        Some(t) => {
                            if !t.as_str().is_empty() {
                                let ghost before = texts@;
                                texts.push(copy_string(t));
                                proof {
                                    assert(texts@.map_values(|s: String| s@) =~= before.map_values(
                                        |s: String| s@,
                                    ).push(t@));
                                }
                            }
                        },
                        None => {},
                    }
                }
                j = j + 1;
            }
            proof {
                assert(parts@.take(parts@.len() as int) =~= parts@);
            }
        },
    }
}

/// Joins texts with newlines (executable form of [`joined`]).
fn join_lines(ts: &Vec<String>) -> (r: String)
    ensures
        r@ == joined(ts@.map_values(|s: String| s@)),
{
    let ghost tv = ts@.map_values(|s: String| s@);
    let mut s = String::new();
    let mut i: usize = 0;
    proof {
        assert(tv.take(0) =~= Seq::<Seq<char>>::empty());
    }
    while i < ts.len()
        invariant
            i <= ts@.len(),
            tv == ts@.map_values(|s: String| s@),
            s@ == joined(tv.take(i as int)),
        decreases ts@.len() - i,
    {
        proof {
            assert(tv.take(i + 1).drop_last() =~= tv.take(i as int));
            assert(tv.take(i + 1).last() == tv[i as int]);
        }
        if i > 0 {
            push_str(&mut s, "\n");
        } else {
            proof {
                assert(tv.take(1) =~= seq![tv[0]]);
            }
        }
        push_str(&mut s, ts[i].as_str());
        i = i + 1;
    }
    proof {
        assert(tv.take(ts@.len() as int) =~= tv);
    }
    s
}

/// Read a reply's output items and usage: which items ride back, the
/// turn's text (its messages' non-empty output texts joined by newlines),
/// its tool calls, and its token counts; a total the reply leaves at zero
/// is the sum of input and output. A reply with neither text nor tool
/// calls is refused.
pub fn interpret_output(items: &Vec<OutputItem>, usage: Usage) -> (r: Result<ResponseOut, ProviderError>)
    requires
        usage.total_tokens == 0 ==> usage.input_tokens + usage.output_tokens <= u64::MAX,
    ensures
        texts_of(items@, items@.len() as int).len() == 0 && calls_of(items@, items@.len() as int).len()
            == 0 ==> r == Err::<ResponseOut, ProviderError>(ProviderError::MissingContent),
        r matches Ok(out) ==> out.continuation@ == replay_positions(items@, items@.len() as int)
            && calls_view(out.tool_calls@) == calls_of(
            items@,
            items@.len() as int,
        ) && (if texts_of(items@, items@.len() as int).len() == 0 {
            out.text is None
        } else {
            out.text matches Some(t) && t@ == joined(texts_of(items@, items@.len() as int))
        }) && out.prompt_tokens == usage.input_tokens && out.cached_tokens == usage.cached_tokens
            && out.completion_tokens == usage.output_tokens && out.total_tokens == (if usage.total_tokens
            > 0 {
            usage.total_tokens as int
        } else {
            usage.input_tokens + usage.output_tokens
        }),
        r is Err ==> texts_of(items@, items@.len() as int).len() == 0 && calls_of(
            items@,
            items@.len() as int,
        ).len() == 0,
{
    let mut continuation: Vec<usize> = Vec::new();
    let mut texts: Vec<String> = Vec::new();
    let mut tool_calls: Vec<ToolCallRequest> = Vec::new();
    let mut i: usize = 0;
    while i < items.len()
        invariant
            i <= items@.len(),
            continuation@ == replay_positions(items@, i as int),
            texts@.map_values(|s: String| s@) == texts_of(items@, i as int),
            calls_view(tool_calls@) == calls_of(items@, i as int),
        decreases items@.len() - i,
    {
        let it = &items[i];
        proof {
            reveal_strlit("reasoning");
            reveal_strlit("function_call");
            reveal_strlit("message");
        }
        if text_is(&it.item_type, "reasoning") {
            continuation.push(i);
            proof {
                assert("reasoning"@.len() != "function_call"@.len());
                assert(!is_text(it.item_type, "function_call"@));
            }
        } else if text_is(&it.item_type, "function_call") {
            match parse_function_call(it) {
                Some(call) => {
                    let ghost before = tool_calls@;
                    tool_calls.push(call);
                    proof {
                        assert(calls_view(tool_calls@) =~= calls_view(before).push(call_view(call)));
                    }
                },
                None => {
                    assert(call_of(*it) is None);
                },
            }
            continuation.push(i);
        }
        proof {
            reveal_strlit("reasoning");
            reveal_strlit("function_call");
            reveal_strlit("message");
        }
        push_item_texts(&mut texts, it);
        proof {
            assert(items@[i as int] == *it);
            assert(calls_of(items@, i + 1) == (if is_text(it.item_type, "function_call"@)
                && call_of(*it) is Some {
                calls_of(items@, i as int).push(call_of(*it)->0)
            } else {
                calls_of(items@, i as int)
            }));
        }
        i = i + 1;
    }
    let text = if texts.len() == 0 {
        None
    } else {
        Some(join_lines(&texts))
    };
    if texts.len() == 0 && tool_calls.len() == 0 {
        return Err(ProviderError::MissingContent);
    }
    let total_tokens = if usage.total_tokens > 0 {
        usage.total_tokens
    } else {
        usage.input_tokens + usage.output_tokens
    };
    Ok(
        ResponseOut {
            continuation,
            text,
            tool_calls,
            prompt_tokens: usage.input_tokens,
            cached_tokens: usage.cached_tokens,
            completion_tokens: usage.output_tokens,
            total_tokens,
        },
    )
}

/// The reasoning member of a request: the seat's effort.
pub fn reasoning_effort(effort: ReasoningEffort) -> (r: &'static str)
    ensures
        r@ == crate::factory::config::effort_text(effort),
{
    effort.as_str()
}

} // verus!
