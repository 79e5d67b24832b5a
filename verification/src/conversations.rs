//! Conversations: summaries, the live list stream's filter, and the message
//! history view with tool calls joined to their results.
use vstd::prelude::*;

use crate::attachments::{meta_response_spec, AttachmentMeta, AttachmentMetaResponse};
use crate::http::{is_error, ApiError};
use crate::messages::opt_view;
use crate::text::{has_prefix, str_eq, to_owned_string};

verus! {

// -- Summaries -------------------------------------------------------------------------

/// A conversation as the store keeps it.
#[derive(Debug, Clone)]
pub struct ConversationRecord {
    pub id: u128,
    /// The persona the conversation belongs to.
    pub agent_id: String,
    /// `None` until a title is set or generated.
    pub title: Option<String>,
    pub created_at: String,
    pub updated_at: String,
}

/// A conversation without its messages.
#[derive(Debug, Clone)]
pub struct ConversationSummary {
    pub id: u128,
    pub title: String,
    pub created_at: String,
    pub updated_at: String,
}

/// The title shown for a conversation: `Untitled` until it has one.
pub open spec fn display_title(title: Option<Seq<char>>) -> Seq<char> {
    match title {
        Some(t) => t,
        None => "Untitled"@,
    }
}

/// The title shown for a conversation.
pub fn title_or_untitled(title: &Option<String>) -> (r: String)
    ensures
        r@ == display_title(opt_view(*title)),
{
    match title {
        Some(t) => t.clone(),
        None => to_owned_string("Untitled"),
    }
}

/// Whether a summary shows a record.
pub open spec fn summarizes(c: ConversationRecord, s: ConversationSummary) -> bool {
    &&& s.id == c.id
    &&& s.title@ == display_title(opt_view(c.title))
    &&& s.created_at@ == c.created_at@
    &&& s.updated_at@ == c.updated_at@
}

/// The summary of a conversation.
pub fn summarize(c: &ConversationRecord) -> (r: ConversationSummary)
    ensures
        summarizes(*c, r),
{
    ConversationSummary {
        id: c.id,
        title: title_or_untitled(&c.title),
        created_at: c.created_at.clone(),
        updated_at: c.updated_at.clone(),
    }
}

/// The summaries of a list of conversations, in order.
pub fn summarize_all(convs: &[ConversationRecord]) -> (r: Vec<ConversationSummary>)
    ensures
        r.len() == convs.len(),
        forall|i: int| 0 <= i < convs.len() ==> summarizes(#[trigger] convs[i], r[i]),
{
    let mut out: Vec<ConversationSummary> = Vec::new();
    let mut i: usize = 0;
    while i < convs.len()
        invariant
            i <= convs.len(),
            out.len() == i,
            forall|j: int| 0 <= j < i ==> summarizes(#[trigger] convs[j], out[j]),
        decreases convs.len() - i,
    {
        out.push(summarize(&convs[i]));
        i = i + 1;
    }
    out
}

/// Body of `POST /api/conversations`.
#[derive(Debug, Clone)]
pub struct CreateConversationRequest {
    /// Title of the new conversation; without one it stays untitled until
    /// a title is generated.
    pub title: Option<String>,
}

/// Body of `PATCH /api/conversations/{id}`.
#[derive(Debug, Clone)]
pub struct UpdateConversationRequest {
    /// The new title.
    pub title: String,
}

/// The answer when the store failed to rename a conversation: the store's
/// "not found" is `404`, anything else `500`.
pub fn rename_failed(error: &str) -> (e: ApiError)
    ensures
        crate::text::has_substr(error@, "not found"@) ==> is_error(
            e,
            404,
            "Conversation not found"@,
            false,
        ),
        !crate::text::has_substr(error@, "not found"@) ==> is_error(
            e,
            500,
            "Failed to update conversation"@,
            false,
        ),
{
    if crate::text::str_contains(error, "not found") {
        ApiError::text(404, "Conversation not found")
    } else {
        ApiError::text(500, "Failed to update conversation")
    }
}

// -- The list stream -------------------------------------------------------------------

/// Query of `GET /api/conversations/stream`.
#[derive(Debug, Clone)]
pub struct StreamConversationsQuery {
    /// Only events of this persona; all personas when absent.
    pub agent_id: Option<String>,
}

/// The persona whose conversations make up the stream's first snapshot: the
/// filtered one, or the active one.
pub fn snapshot_agent(query: &StreamConversationsQuery, active: &str) -> (r: String)
    ensures
        r@ == (match query.agent_id {
            Some(a) => a@,
            None => active@,
        }),
{
    match &query.agent_id {
        Some(a) => a.clone(),
        None => to_owned_string(active),
    }
}

/// A change to the conversation list.
#[derive(Debug, Clone)]
pub enum ConversationEvent {
    Upserted(ConversationRecord),
    Deleted { conversation_id: u128, agent_id: String },
}

/// What the stream sends for a change.
#[derive(Debug, Clone)]
pub enum ConversationDelta {
    /// `upserted` with the conversation's summary.
    Upserted(ConversationSummary),
    /// `deleted` with `{"conversation_id": ...}`.
    Deleted(u128),
}

/// Whether the stream's persona filter lets an event of `agent` through.
pub open spec fn passes_filter(filter: Option<String>, agent: Seq<char>) -> bool {
    match filter {
        Some(f) => f@ == agent,
        None => true,
    }
}

/// What the stream sends for a change: nothing for another persona's
/// conversation when the stream is filtered.
pub fn stream_delta(query: &StreamConversationsQuery, event: &ConversationEvent) -> (r: Option<
    ConversationDelta,
>)
    ensures
        match event {
            ConversationEvent::Upserted(c) => if passes_filter(query.agent_id, c.agent_id@) {
                r is Some && r->0 is Upserted && summarizes(*c, r->0->Upserted_0)
            } else {
                r is None
            },
            ConversationEvent::Deleted { conversation_id, agent_id } => if passes_filter(
                query.agent_id,
                agent_id@,
            ) {
                r == Some(ConversationDelta::Deleted(*conversation_id))
            } else {
                r is None
            },
        },
{
    match event {
        ConversationEvent::Upserted(c) => {
            let pass = match &query.agent_id {
                Some(f) => str_eq(f.as_str(), c.agent_id.as_str()),
                None => true,
            };
            if pass {
                Some(ConversationDelta::Upserted(summarize(c)))
            } else {
                None
            }
        },
        ConversationEvent::Deleted { conversation_id, agent_id } => {
            let pass = match &query.agent_id {
                Some(f) => str_eq(f.as_str(), agent_id.as_str()),
                None => true,
            };
            if pass {
                Some(ConversationDelta::Deleted(*conversation_id))
            } else {
                None
            }
        },
    }
}

// -- Message history ---------------------------------------------------------------------

#[verifier::external_type_specification]
#[verifier::external_body]
pub struct ExJsonValue(serde_json::Value);

/// Who wrote a message.
#[derive(Debug, Clone, Copy, PartialEq, Eq)]
pub enum MessageRole {
    System,
    User,
    Assistant,
    Tool,
}

/// A message of a conversation's history as the store keeps it.
#[derive(Debug)]
pub struct HistoryMessage {
    pub id: u128,
    pub role: MessageRole,
    /// The role as its text form displays it.
    pub role_name: String,
    pub content: String,
    pub turn: i64,
    pub created_at: String,
    /// The assistant's tool calls, as a JSON array of `{"name", "params"}`.
    pub tool_calls_json: Option<String>,
    /// For a tool result: the tool or skill that produced it.
    pub skill_name: Option<String>,
}

/// One tool call of an assistant message, joined with its result.
#[derive(Debug)]
pub struct ToolCallSummary {
    /// The tool that was called.
    pub name: String,
    /// The JSON arguments of the call, as JSON text.
    pub arguments: Option<String>,
    /// The tool's output, cut to `TOOL_RESULT_HISTORY_LIMIT` bytes.
    pub result: Option<String>,
    /// `ok`, `error` or `denied`.
    pub status: String,
}

/// A message as the history view shows it.
#[derive(Debug)]
pub struct MessageSummary {
    pub id: u128,
    pub role: String,
    pub content: String,
    pub turn: i64,
    pub created_at: String,
    /// The tool calls of an assistant message, when it made some.
    pub tool_calls: Option<Vec<ToolCallSummary>>,
    /// For a tool result: the tool or skill that produced it.
    pub skill_name: Option<String>,
    /// Whether speech can be synthesised for the message: a speech provider
    /// is configured and the message is a non-empty assistant reply.
    pub tts_available: bool,
    /// The attachments linked to the message.
    pub attachments: Vec<AttachmentMetaResponse>,
}

/// A conversation with its message history.
#[derive(Debug)]
pub struct ConversationDetail {
    pub id: u128,
    pub title: String,
    pub created_at: String,
    pub updated_at: String,
    pub messages: Vec<MessageSummary>,
}

/// Tool results longer than this many bytes are cut in the history view.
pub const TOOL_RESULT_HISTORY_LIMIT: usize = 512;

/// One call of a tool-call array: its `name` when it is a string, and the
/// JSON text of its `params` when it has them.
#[derive(Debug)]
pub struct RawToolCall {
    pub name: Option<String>,
    pub params: Option<String>,
}

/// A call of a tool-call array as values.
pub struct CallView {
    pub name: Option<Seq<char>>,
    pub params: Option<Seq<char>>,
}

impl View for RawToolCall {
    type V = CallView;

    open spec fn view(&self) -> CallView {
        CallView { name: opt_view(self.name), params: opt_view(self.params) }
    }
}

/// For the text that `serde_json` parses as a JSON array, per element: its
/// `name` when that is a string, and the JSON text (as `Value`'s `Display`
/// writes it) of its `params` when it has that member; `None` when the text
/// is not an array.
pub uninterp spec fn tool_calls_of(json: Seq<char>) -> Option<Seq<CallView>>;

/// Parses a tool-call array with `serde_json::from_str::<Vec<Value>>` and
/// reads each element's `name` (as `Value::as_str`) and `params` (written
/// back as JSON text with `to_string`). The result is named `tool_calls_of`.
#[verifier::external_body]
fn parse_tool_calls(json: &str) -> (r: Option<Vec<RawToolCall>>)
    ensures
        match r {
            Some(v) => tool_calls_of(json@) == Some(v@.map_values(|c: RawToolCall| c@)),
            None => tool_calls_of(json@) is None,
        },
{
    serde_json::from_str::<Vec<serde_json::Value>>(json).ok().map(
        |items|
            items.into_iter().map(
                |v|
                    RawToolCall {
                        name: v.get("name").and_then(|n| n.as_str()).map(str::to_string),
                        params: v.get("params").map(|p| p.to_string()),
                    },
            ).collect(),
    )
}

/// Whether the history view shows a message: system prompts and tool
/// results are left out.
pub open spec fn is_shown(m: HistoryMessage) -> bool {
    m.role != MessageRole::System && m.role != MessageRole::Tool
}

/// The messages that the history view shows, in order.
pub open spec fn shown(h: Seq<HistoryMessage>) -> Seq<HistoryMessage>
    decreases h.len(),
{
    if h.len() == 0 {
        Seq::empty()
    } else if is_shown(h.last()) {
        shown(h.drop_last()).push(h.last())
    } else {
        shown(h.drop_last())
    }
}

/// The result of the tool `name` in turn `turn`: the content of the last
/// tool message of that turn from that tool.
pub open spec fn tool_result_of(h: Seq<HistoryMessage>, turn: i64, name: Seq<char>) -> Option<
    Seq<char>,
>
    decreases h.len(),
{
    if h.len() == 0 {
        None
    } else {
        let m = h.last();
        if m.role == MessageRole::Tool && opt_view(m.skill_name) == Some(name) && m.turn == turn {
            Some(m.content@)
        } else {
            tool_result_of(h.drop_last(), turn, name)
        }
    }
}

/// The largest character boundary of the UTF-8 bytes `b` that is at most
/// `n`: where a prefix of at most `n` bytes can end.
pub open spec fn boundary_at_most(b: Seq<u8>, n: int) -> int
    decreases n,
{
    if n <= 0 {
        0
    } else if vstd::utf8::is_char_boundary(b, n) {
        n
    } else {
        boundary_at_most(b, n - 1)
    }
}

/// A tool result as the history shows it: past the limit, its longest
/// prefix of at most `TOOL_RESULT_HISTORY_LIMIT` UTF-8 bytes that ends on a
/// character boundary, followed by `…`.
pub open spec fn cut_result(r: Seq<char>) -> Seq<char> {
    let b = vstd::utf8::encode_utf8(r);
    if b.len() > TOOL_RESULT_HISTORY_LIMIT {
        vstd::utf8::decode_utf8(
            b.subrange(0, boundary_at_most(b, TOOL_RESULT_HISTORY_LIMIT as int)),
        ).push('…')
    } else {
        r
    }
}

/// The cut point is the longest prefix of at most `n` bytes that ends on a
/// character boundary: it is a boundary, and no boundary lies after it up
/// to `n`.
pub proof fn lemma_boundary_at_most(b: Seq<u8>, n: int)
    requires
        vstd::utf8::valid_utf8(b),
        0 <= n,
    ensures
        0 <= boundary_at_most(b, n) <= n,
        vstd::utf8::is_char_boundary(b, boundary_at_most(b, n)),
        forall|j: int|
            boundary_at_most(b, n) < j <= n ==> !vstd::utf8::is_char_boundary(b, j),
    decreases n,
{
    if n > 0 && !vstd::utf8::is_char_boundary(b, n) {
        lemma_boundary_at_most(b, n - 1);
    }
}

/// The status of a tool call from its (cut) result.
pub open spec fn call_status(result: Option<Seq<char>>) -> Seq<char> {
    match result {
        Some(r) => if has_prefix(r, "Error executing"@) {
            "error"@
        } else if has_prefix(r, "User denied"@) {
            "denied"@
        } else {
            "ok"@
        },
        None => "ok"@,
    }
}

/// A tool call that has a name, with the JSON text of its parameters.
pub struct NamedCall {
    pub name: Seq<char>,
    pub params: Option<Seq<char>>,
}

/// The calls that have a name, in order.
pub open spec fn present_names(ns: Seq<CallView>) -> Seq<NamedCall>
    decreases ns.len(),
{
    if ns.len() == 0 {
        Seq::empty()
    } else {
        match ns.last().name {
            Some(n) => present_names(ns.drop_last()).push(
                NamedCall { name: n, params: ns.last().params },
            ),
            None => present_names(ns.drop_last()),
        }
    }
}

/// What a call contributes to the named calls.
pub open spec fn named_part(c: CallView) -> Seq<NamedCall> {
    match c.name {
        Some(n) => seq![NamedCall { name: n, params: c.params }],
        None => Seq::empty(),
    }
}

/// The shown result of the tool `name` in turn `turn`.
pub open spec fn shown_result(h: Seq<HistoryMessage>, turn: i64, name: Seq<char>) -> Option<
    Seq<char>,
> {
    match tool_result_of(h, turn, name) {
        Some(r) => Some(cut_result(r)),
        None => None,
    }
}

/// The named tool calls of a message, when its tool-call text parses.
pub open spec fn call_names(m: HistoryMessage) -> Option<Seq<NamedCall>> {
    match m.tool_calls_json {
        Some(j) => match tool_calls_of(j@) {
            Some(ns) => Some(present_names(ns)),
            None => None,
        },
        None => None,
    }
}

/// Whether the shown tool calls match the message: absent when the message
/// has no parsable tool calls or none with a name; otherwise, per named
/// call in order, its name, its arguments' JSON text, its shown result and
/// the status of that result.
pub open spec fn calls_match(
    h: Seq<HistoryMessage>,
    m: HistoryMessage,
    calls: Option<Vec<ToolCallSummary>>,
) -> bool {
    match call_names(m) {
        Some(ns) => if ns.len() == 0 {
            calls is None
        } else {
            calls is Some && calls->0.len() == ns.len() && forall|k: int|
                0 <= k < ns.len() ==> {
                    let c = #[trigger] calls->0[k];
                    &&& c.name@ == ns[k].name
                    &&& opt_view(c.arguments) == ns[k].params
                    &&& opt_view(c.result) == shown_result(h, m.turn, ns[k].name)
                    &&& c.status@ == call_status(shown_result(h, m.turn, ns[k].name))
                }
        },
        None => calls is None,
    }
}

/// The attachments linked to a message, in order.
pub open spec fn linked(atts: Seq<AttachmentMeta>, id: u128) -> Seq<AttachmentMeta>
    decreases atts.len(),
{
    if atts.len() == 0 {
        Seq::empty()
    } else if atts.last().message_id == Some(id) {
        linked(atts.drop_last(), id).push(atts.last())
    } else {
        linked(atts.drop_last(), id)
    }
}

/// Whether the `k`-th shown message is the first shown one with its id:
/// a message's attachments are shown once, with the first such message.
pub open spec fn first_with_id(s: Seq<HistoryMessage>, k: int) -> bool {
    forall|j: int| 0 <= j < k ==> #[trigger] s[j].id != s[k].id
}

/// Whether a summary shows the `k`-th shown message of a history.
pub open spec fn message_match(
    h: Seq<HistoryMessage>,
    atts: Seq<AttachmentMeta>,
    tts: bool,
    k: int,
    out: MessageSummary,
) -> bool {
    let s = shown(h);
    let m = s[k];
    let want: Seq<AttachmentMeta> = if first_with_id(s, k) {
        linked(atts, m.id)
    } else {
        Seq::empty()
    };
    &&& out.id == m.id
    &&& out.role@ == m.role_name@
    &&& out.content@ == m.content@
    &&& out.turn == m.turn
    &&& out.created_at@ == m.created_at@
    &&& calls_match(h, m, out.tool_calls)
    &&& opt_view(out.skill_name) == opt_view(m.skill_name)
    &&& out.tts_available == (tts && m.role == MessageRole::Assistant && m.content@.len() > 0)
    &&& out.attachments.len() == want.len()
    &&& forall|i: int|
        0 <= i < want.len() ==> meta_response_spec(want[i], #[trigger] out.attachments[i])
}

/// Finds the result of the tool `name` in turn `turn`.
fn find_tool_result<'a>(h: &'a [HistoryMessage], turn: i64, name: &str) -> (r: Option<&'a String>)
    ensures
        match r {
            Some(c) => tool_result_of(h@, turn, name@) == Some(c@),
            None => tool_result_of(h@, turn, name@) is None,
        },
{
    let mut i: usize = h.len();
    assert(h@.take(h.len() as int) =~= h@);
    while i > 0
        invariant
            i <= h.len(),
            tool_result_of(h@, turn, name@) == tool_result_of(h@.take(i as int), turn, name@),
        decreases i,
    {
        let m = &h[i - 1];
        let ghost t = h@.take(i as int);
        assert(t.drop_last() =~= h@.take(i - 1));
        assert(t.last() == h@[i - 1]);
        let is_tool = match m.role {
            MessageRole::Tool => true,
            _ => false,
        };
        let same_name = match &m.skill_name {
            Some(n) => str_eq(n.as_str(), name),
            None => false,
        };
        if is_tool && same_name && m.turn == turn {
            return Some(&m.content);
        }
        i = i - 1;
    }
    None
}

/// Cuts a tool result for the history: past the limit, its longest prefix
/// of at most the limit's bytes that ends on a character boundary, and `…`.
fn cut_tool_result(r: &str) -> (out: String)
    ensures
        out@ == cut_result(r@),
{
    let n = r.as_bytes().len();
    if n > TOOL_RESULT_HISTORY_LIMIT {
        let ghost b = vstd::utf8::encode_utf8(r@);
        let mut k: usize = TOOL_RESULT_HISTORY_LIMIT;
        while k > 0 && !r.is_char_boundary(k)
            invariant
                b == vstd::utf8::encode_utf8(r@),
                k <= TOOL_RESULT_HISTORY_LIMIT,
                boundary_at_most(b, TOOL_RESULT_HISTORY_LIMIT as int) == boundary_at_most(
                    b,
                    k as int,
                ),
            decreases k,
        {
            k = k - 1;
        }
        assert(boundary_at_most(b, k as int) == k);
        proof {
            vstd::utf8::encode_utf8_valid_utf8(r@);
        }
        assert(vstd::utf8::is_char_boundary(b, k as int));
        let (head, _) = r.split_at(k);
        let mut s = head.to_owned();
        crate::text::push_char(&mut s, '…');
        proof {
            vstd::utf8::encode_utf8_decode_utf8(head@);
        }
        s
    } else {
        r.to_owned()
    }
}

/// The status of a tool call from its shown result.
fn status_of(result: &Option<String>) -> (r: String)
    ensures
        r@ == call_status(opt_view(*result)),
{
    match result {
        Some(s) => {
            let v = crate::text::chars_of(s.as_str());
            let e = crate::text::chars_of("Error executing");
            let d = crate::text::chars_of("User denied");
            if crate::text::starts_with_chars(v.as_slice(), e.as_slice()) {
                to_owned_string("error")
            } else if crate::text::starts_with_chars(v.as_slice(), d.as_slice()) {
                to_owned_string("denied")
            } else {
                to_owned_string("ok")
            }
        },
        None => to_owned_string("ok"),
    }
}

proof fn lemma_present_names_concat(a: Seq<CallView>, b: Seq<CallView>)
    ensures
        present_names(a + b) == present_names(a) + present_names(b),
    decreases b.len(),
{
    if b.len() == 0 {
        assert(a + b =~= a);
        assert(present_names(b) =~= Seq::<NamedCall>::empty());
        assert(present_names(a) + present_names(b) =~= present_names(a));
    } else {
        lemma_present_names_concat(a, b.drop_last());
        assert((a + b).drop_last() =~= a + b.drop_last());
        assert((a + b).last() == b.last());
        match b.last().name {
            Some(n) => {
                assert(present_names(a + b) =~= present_names(a) + present_names(b));
            },
            None => {},
        }
    }
}

proof fn lemma_present_names_step(ns: Seq<CallView>, i: int)
    requires
        0 <= i < ns.len(),
    ensures
        present_names(ns.take(i + 1)) == present_names(ns.take(i)) + named_part(ns[i]),
        present_names(ns) == present_names(ns.take(i)) + present_names(ns.skip(i)),
        present_names(ns.skip(i)) == named_part(ns[i]) + present_names(ns.skip(i + 1)),
{
    let t = ns.take(i + 1);
    assert(t.drop_last() =~= ns.take(i));
    assert(t.last() == ns[i]);
    assert(present_names(Seq::<CallView>::empty()) =~= Seq::<NamedCall>::empty());
    match ns[i].name {
        Some(n) => {
            assert(present_names(t) =~= present_names(ns.take(i)) + named_part(ns[i]));
        },
        None => {
            assert(present_names(t) =~= present_names(ns.take(i)) + named_part(ns[i]));
        },
    }
    assert(ns =~= ns.take(i) + ns.skip(i));
    lemma_present_names_concat(ns.take(i), ns.skip(i));
    let one = seq![ns[i]];
    assert(ns.skip(i) =~= one + ns.skip(i + 1));
    lemma_present_names_concat(one, ns.skip(i + 1));
    assert(one.drop_last() =~= Seq::<CallView>::empty());
    assert(present_names(one) =~= named_part(ns[i]));
}

/// The tool calls of a shown message.
fn tool_calls_for(h: &[HistoryMessage], m: &HistoryMessage) -> (r: Option<Vec<ToolCallSummary>>)
    ensures
        calls_match(h@, *m, r),
{
    let json = match &m.tool_calls_json {
        Some(j) => j,
        None => {
            return None;
        },
    };
    let mut raw = match parse_tool_calls(json.as_str()) {
        Some(v) => v,
        None => {
            return None;
        },
    };
    let total = raw.len();
    let ghost ns = raw@.map_values(|c: RawToolCall| c@);
    let ghost names = present_names(ns);
    let ghost n = ns.len();
    assert(n == total);
    let mut out: Vec<ToolCallSummary> = Vec::new();
    let mut i: usize = 0;
    assert(ns.take(0) =~= Seq::<CallView>::empty());
    assert(present_names(Seq::<CallView>::empty()) =~= Seq::<NamedCall>::empty());
    while raw.len() > 0
        invariant
            i <= n,
            n <= usize::MAX,
            raw.len() == n - i,
            forall|j: int| 0 <= j < raw.len() ==> (#[trigger] raw@[j])@ == ns[i + j],
            n == ns.len(),
            names == present_names(ns),
            call_names(*m) == Some(names),
            out.len() == present_names(ns.take(i as int)).len(),
            forall|k: int|
                0 <= k < out.len() ==> {
                    let c = #[trigger] out@[k];
                    &&& c.name@ == names[k].name
                    &&& opt_view(c.arguments) == names[k].params
                    &&& opt_view(c.result) == shown_result(h@, m.turn, names[k].name)
                    &&& c.status@ == call_status(shown_result(h@, m.turn, names[k].name))
                },
        decreases raw.len(),
    {
        proof {
            lemma_present_names_step(ns, i as int);
        }
        let call = raw.remove(0);
        assert(call@ == ns[i as int]);
        match call.name {
            Some(name) => {
                let ghost k = out.len() as int;
                assert(names[k].name == name@);
                assert(names[k].params == opt_view(call.params));
                let result = match find_tool_result(h, m.turn, name.as_str()) {
                    Some(c) => Some(cut_tool_result(c.as_str())),
                    None => None,
                };
                let status = status_of(&result);
                out.push(ToolCallSummary { name, arguments: call.params, result, status });
            },
            None => {},
        }
        i = i + 1;
    }
    assert(ns.take(n as int) =~= ns);
    if out.len() == 0 {
        None
    } else {
        Some(out)
    }
}

/// The responses for the attachments linked to a message, in order.
fn linked_responses(atts: &[AttachmentMeta], id: u128) -> (r: Vec<AttachmentMetaResponse>)
    ensures
        r.len() == linked(atts@, id).len(),
        forall|i: int| 0 <= i < r.len() ==> meta_response_spec(linked(atts@, id)[i], #[trigger] r[i]),
{
    let mut out: Vec<AttachmentMetaResponse> = Vec::new();
    let mut i: usize = 0;
    assert(atts@.take(0) =~= Seq::<AttachmentMeta>::empty());
    while i < atts.len()
        invariant
            i <= atts.len(),
            out.len() == linked(atts@.take(i as int), id).len(),
            forall|j: int|
                0 <= j < out.len() ==> meta_response_spec(
                    linked(atts@.take(i as int), id)[j],
                    #[trigger] out[j],
                ),
        decreases atts.len() - i,
    {
        proof {
            let t = atts@.take(i + 1);
            assert(t.drop_last() =~= atts@.take(i as int));
            assert(t.last() == atts@[i as int]);
        }
        if atts[i].message_id == Some(id) {
            let resp = AttachmentMetaResponse::from_meta(&atts[i]);
            out.push(resp);
        }
        i = i + 1;
    }
    assert(atts@.take(atts.len() as int) =~= atts@);
    out
}

/// Whether an id occurs in a list.
fn contains_id(v: &[u128], id: u128) -> (r: bool)
    ensures
        r == exists|q: int| 0 <= q < v.len() && v@[q] == id,
{
    let mut i: usize = 0;
    while i < v.len()
        invariant
            i <= v.len(),
            forall|q: int| 0 <= q < i ==> v@[q] != id,
        decreases v.len() - i,
    {
        if v[i] == id {
            return true;
        }
        i = i + 1;
    }
    false
}

proof fn lemma_shown_concat(a: Seq<HistoryMessage>, b: Seq<HistoryMessage>)
    ensures
        shown(a + b) == shown(a) + shown(b),
    decreases b.len(),
{
    if b.len() == 0 {
        assert(a + b =~= a);
        assert(shown(b) =~= Seq::<HistoryMessage>::empty());
        assert(shown(a) + shown(b) =~= shown(a));
    } else {
        lemma_shown_concat(a, b.drop_last());
        assert((a + b).drop_last() =~= a + b.drop_last());
        assert((a + b).last() == b.last());
        if is_shown(b.last()) {
            assert(shown(a + b) =~= shown(a) + shown(b));
        }
    }
}

proof fn lemma_shown_step(h: Seq<HistoryMessage>, i: int)
    requires
        0 <= i < h.len(),
    ensures
        shown(h.take(i + 1)) == (if is_shown(h[i]) {
            shown(h.take(i)).push(h[i])
        } else {
            shown(h.take(i))
        }),
        shown(h) == shown(h.take(i + 1)) + shown(h.skip(i + 1)),
{
    let t = h.take(i + 1);
    assert(t.drop_last() =~= h.take(i));
    assert(t.last() == h[i]);
    assert(h =~= h.take(i + 1) + h.skip(i + 1));
    lemma_shown_concat(h.take(i + 1), h.skip(i + 1));
}

/// The history view of a conversation's messages.
pub fn history_view(h: &[HistoryMessage], atts: &[AttachmentMeta], tts: bool) -> (r: Vec<
    MessageSummary,
>)
    ensures
        r.len() == shown(h@).len(),
        forall|k: int| 0 <= k < r.len() ==> message_match(h@, atts@, tts, k, #[trigger] r[k]),
{
    let mut out: Vec<MessageSummary> = Vec::new();
    let mut ids: Vec<u128> = Vec::new();
    let mut i: usize = 0;
    assert(h@.take(0) =~= Seq::<HistoryMessage>::empty());
    while i < h.len()
        invariant
            i <= h.len(),
            ids.len() == out.len(),
            forall|q: int| 0 <= q < ids.len() ==> #[trigger] ids@[q] == shown(h@)[q].id,
            out.len() == shown(h@.take(i as int)).len(),
            shown(h@.take(i as int)).len() <= shown(h@).len(),
            forall|k: int| 0 <= k < out.len() ==> shown(h@)[k] == shown(h@.take(i as int))[k],
            forall|k: int|
                0 <= k < out.len() ==> message_match(h@, atts@, tts, k, #[trigger] out[k]),
        decreases h.len() - i,
    {
        proof {
            lemma_shown_step(h@, i as int);
        }
        let m = &h[i];
        let show = match m.role {
            MessageRole::System => false,
            MessageRole::Tool => false,
            _ => true,
        };
        if show {
            let ghost k = out.len() as int;
            assert(shown(h@)[k] == h@[i as int]);
            let calls = tool_calls_for(h, m);
            let first = !contains_id(ids.as_slice(), m.id);
            assert(first == first_with_id(shown(h@), k)) by {
                assert(shown(h@)[k].id == m.id);
                if !first {
                    let q = choose|q: int| 0 <= q < ids.len() && ids@[q] == m.id;
                    assert(shown(h@)[q].id == shown(h@)[k].id);
                } else {
                    assert forall|j: int| 0 <= j < k implies #[trigger] shown(h@)[j].id != shown(
                        h@,
                    )[k].id by {
                        assert(ids@[j] == shown(h@)[j].id);
                    }
                }
            }
            let attachments = if first {
                linked_responses(atts, m.id)
            } else {
                Vec::new()
            };
            let is_assistant = match m.role {
                MessageRole::Assistant => true,
                _ => false,
            };
            let tts_available = tts && is_assistant && !m.content.as_str().is_empty();
            out.push(
                MessageSummary {
                    id: m.id,
                    role: m.role_name.clone(),
                    content: m.content.clone(),
                    turn: m.turn,
                    created_at: m.created_at.clone(),
                    tool_calls: calls,
                    skill_name: m.skill_name.clone(),
                    tts_available,
                    attachments,
                },
            );
            ids.push(m.id);
            assert(message_match(h@, atts@, tts, k, out@[k]));
        }
        i = i + 1;
    }
    assert(h@.take(h.len() as int) =~= h@);
    out
}

/// Answer of `GET /api/conversations/{id}`: the conversation and its
/// history view (an unreadable history or attachment list counts as empty).
pub fn conversation_detail(
    conv: &ConversationRecord,
    history: Option<Vec<HistoryMessage>>,
    attachments: Option<Vec<AttachmentMeta>>,
    tts: bool,
) -> (d: ConversationDetail)
    ensures
        ({
            let h = match history {
                Some(v) => v@,
                None => Seq::<HistoryMessage>::empty(),
            };
            let a = match attachments {
                Some(v) => v@,
                None => Seq::<AttachmentMeta>::empty(),
            };
            &&& d.id == conv.id
            &&& d.title@ == display_title(opt_view(conv.title))
            &&& d.created_at@ == conv.created_at@
            &&& d.updated_at@ == conv.updated_at@
            &&& d.messages.len() == shown(h).len()
            &&& forall|k: int|
                0 <= k < d.messages.len() ==> message_match(h, a, tts, k, #[trigger] d.messages[k])
        }),
{
    let h = match history {
        Some(v) => v,
        None => Vec::new(),
    };
    let a = match attachments {
        Some(v) => v,
        None => Vec::new(),
    };
    let messages = history_view(h.as_slice(), a.as_slice(), tts);
    ConversationDetail {
        id: conv.id,
        title: title_or_untitled(&conv.title),
        created_at: conv.created_at.clone(),
        updated_at: conv.updated_at.clone(),
        messages,
    }
}

// -- Laws of the history view ---------------------------------------------------------

/// The result found for a tool in a turn is the content of a tool message
/// of that very turn from that tool; and when the history has such a
/// message, a result is found.
pub proof fn law_tool_result_from_same_turn(h: Seq<HistoryMessage>, turn: i64, name: Seq<char>)
    ensures
        tool_result_of(h, turn, name) matches Some(x) ==> exists|i: int|
            0 <= i < h.len() && (#[trigger] h[i]).role == MessageRole::Tool && opt_view(
                h[i].skill_name,
            ) == Some(name) && h[i].turn == turn && h[i].content@ == x,
        (exists|i: int|
            0 <= i < h.len() && (#[trigger] h[i]).role == MessageRole::Tool && opt_view(
                h[i].skill_name,
            ) == Some(name) && h[i].turn == turn) ==> tool_result_of(h, turn, name) is Some,
    decreases h.len(),
{
    if h.len() > 0 {
        let init = h.drop_last();
        law_tool_result_from_same_turn(init, turn, name);
        let m = h.last();
        if !(m.role == MessageRole::Tool && opt_view(m.skill_name) == Some(name) && m.turn
            == turn) {
            if let Some(x) = tool_result_of(h, turn, name) {
                let i = choose|i: int|
                    0 <= i < init.len() && (#[trigger] init[i]).role == MessageRole::Tool
                        && opt_view(init[i].skill_name) == Some(name) && init[i].turn == turn
                        && init[i].content@ == x;
                assert(h[i] == init[i]);
            }
            if exists|i: int|
                0 <= i < h.len() && (#[trigger] h[i]).role == MessageRole::Tool && opt_view(
                    h[i].skill_name,
                ) == Some(name) && h[i].turn == turn {
                let i = choose|i: int|
                    0 <= i < h.len() && (#[trigger] h[i]).role == MessageRole::Tool && opt_view(
                        h[i].skill_name,
                    ) == Some(name) && h[i].turn == turn;
                assert(i < h.len() - 1);
                assert(init[i] == h[i]);
            }
        } else {
            assert(h[h.len() - 1] == m);
        }
    }
}

/// A shown tool call names a call of the message, and a result it shows is
/// the (cut) content of a tool message of the message's own turn from that
/// tool.
pub proof fn law_shown_calls_come_from_the_turn(
    h: Seq<HistoryMessage>,
    m: HistoryMessage,
    calls: Option<Vec<ToolCallSummary>>,
    k: int,
)
    requires
        calls_match(h, m, calls),
        calls is Some,
        0 <= k < calls->0.len(),
    ensures
        opt_view(calls->0[k].result) matches Some(r) ==> exists|i: int|
            0 <= i < h.len() && (#[trigger] h[i]).role == MessageRole::Tool && opt_view(
                h[i].skill_name,
            ) == Some(calls->0[k].name@) && h[i].turn == m.turn && r == cut_result(h[i].content@),
{
    let ns = call_names(m)->0;
    let c = calls->0[k];
    law_tool_result_from_same_turn(h, m.turn, ns[k].name);
}

/// The history view shows exactly the user and assistant messages, in
/// order: every shown message is a message of the history that is neither
/// a system prompt nor a tool result, and every such message is shown.
pub proof fn law_history_shows_the_conversation(h: Seq<HistoryMessage>)
    ensures
        forall|k: int|
            0 <= k < shown(h).len() ==> (#[trigger] shown(h)[k]).role != MessageRole::System
                && shown(h)[k].role != MessageRole::Tool && exists|i: int|
                0 <= i < h.len() && h[i] == shown(h)[k],
        forall|i: int|
            0 <= i < h.len() && (#[trigger] h[i]).role != MessageRole::System && h[i].role
                != MessageRole::Tool ==> exists|k: int| 0 <= k < shown(h).len() && shown(h)[k] == h[i],
        shown(h).len() <= h.len(),
    decreases h.len(),
{
    if h.len() > 0 {
        let init = h.drop_last();
        law_history_shows_the_conversation(init);
        let si = shown(init);
        let s = shown(h);
        assert forall|k: int| 0 <= k < s.len() implies (#[trigger] s[k]).role != MessageRole::System
            && s[k].role != MessageRole::Tool && exists|i: int| 0 <= i < h.len() && h[i] == s[k] by {
            if k < si.len() {
                assert(s[k] == si[k]);
                let i = choose|i: int| 0 <= i < init.len() && init[i] == si[k];
                assert(h[i] == init[i]);
            } else {
                assert(s[k] == h.last());
                assert(h[h.len() - 1] == h.last());
            }
        }
        assert forall|i: int|
            0 <= i < h.len() && (#[trigger] h[i]).role != MessageRole::System && h[i].role
                != MessageRole::Tool implies exists|k: int| 0 <= k < s.len() && s[k] == h[i] by {
            if i < h.len() - 1 {
                assert(init[i] == h[i]);
                let k = choose|k: int| 0 <= k < si.len() && si[k] == init[i];
                assert(s[k] == si[k]);
            } else {
                assert(h[i] == h.last());
                assert(s[si.len() as int] == h.last());
            }
        }
    }
}

/// A tool result of at most `TOOL_RESULT_HISTORY_LIMIT` (512) bytes is
/// shown whole; a longer one is shown cut, ending in `…`.
pub proof fn law_short_results_shown_whole(r: Seq<char>)
    ensures
        TOOL_RESULT_HISTORY_LIMIT == 512,
        vstd::utf8::encode_utf8(r).len() <= 512 ==> cut_result(r) == r,
        vstd::utf8::encode_utf8(r).len() > 512 ==> cut_result(r).last() == '…',
{
}

/// The status of a tool call: `error` for a result that reports an
/// execution error, `denied` for one the user refused, `ok` otherwise
/// (also without a result).
pub proof fn law_call_status(result: Option<Seq<char>>)
    ensures
        result matches Some(r) && has_prefix(r, "Error executing"@) ==> call_status(result)
            == "error"@,
        result matches Some(r) && !has_prefix(r, "Error executing"@) && has_prefix(
            r,
            "User denied"@,
        ) ==> call_status(result) == "denied"@,
        result matches Some(r) && !has_prefix(r, "Error executing"@) && !has_prefix(
            r,
            "User denied"@,
        ) ==> call_status(result) == "ok"@,
        result is None ==> call_status(result) == "ok"@,
{
}

/// The attachments shown with a message are attachments of the
/// conversation linked to that message, and every attachment linked to it
/// is shown.
pub proof fn law_linked_attachments(atts: Seq<AttachmentMeta>, id: u128)
    ensures
        forall|k: int|
            0 <= k < linked(atts, id).len() ==> (#[trigger] linked(atts, id)[k]).message_id
                == Some(id) && exists|i: int| 0 <= i < atts.len() && atts[i] == linked(atts, id)[k],
        forall|i: int|
            0 <= i < atts.len() && (#[trigger] atts[i]).message_id == Some(id) ==> exists|k: int|
                0 <= k < linked(atts, id).len() && linked(atts, id)[k] == atts[i],
    decreases atts.len(),
{
    if atts.len() > 0 {
        let init = atts.drop_last();
        law_linked_attachments(init, id);
        let li = linked(init, id);
        let l = linked(atts, id);
        assert forall|k: int| 0 <= k < l.len() implies (#[trigger] l[k]).message_id == Some(id)
            && exists|i: int| 0 <= i < atts.len() && atts[i] == l[k] by {
            if k < li.len() {
                assert(l[k] == li[k]);
                let i = choose|i: int| 0 <= i < init.len() && init[i] == li[k];
                assert(atts[i] == init[i]);
            } else {
                assert(l[k] == atts.last());
                assert(atts[atts.len() - 1] == atts.last());
            }
        }
        assert forall|i: int| 0 <= i < atts.len() && (#[trigger] atts[i]).message_id == Some(id)
            implies exists|k: int| 0 <= k < l.len() && l[k] == atts[i] by {
            if i < atts.len() - 1 {
                assert(init[i] == atts[i]);
                let k = choose|k: int| 0 <= k < li.len() && li[k] == init[i];
                assert(l[k] == li[k]);
            } else {
                assert(atts[i] == atts.last());
                assert(l[li.len() as int] == atts.last());
            }
        }
    }
}

} // verus!
