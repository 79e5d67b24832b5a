//! Message sending: the checks in front of a turn, the recording of a run's
//! event stream (sequence numbers, batched thinking, the terminal event),
//! replay of recorded runs, quick messages and voice uploads.
use vstd::prelude::*;

use crate::http::{id_or_bad_request, is_error, parse_uuid_str, uuid_parse, ApiError};
use crate::text::{str_eq, take_chars, take_chars_spec, to_owned_string, trim_spec, trim_str};

verus! {

// -- Who may post ----------------------------------------------------------------

/// Whether the caller may post a message or start a turn: org admins always
/// may; anyone else needs a scope that covers writing conversations.
/// `write_grants[i]` is whether the caller's `i`-th scope covers it.
pub fn caller_can_post(is_org_admin: bool, write_grants: &[bool]) -> (r: bool)
    ensures
        r == (is_org_admin || exists|i: int| 0 <= i < write_grants.len() && write_grants[i]),
{
    if is_org_admin {
        return true;
    }
    let mut i: usize = 0;
    while i < write_grants.len()
        invariant
            i <= write_grants.len(),
            forall|j: int| 0 <= j < i ==> !write_grants[j],
        decreases write_grants.len() - i,
    {
        if write_grants[i] {
            return true;
        }
        i = i + 1;
    }
    false
}

// -- Request bodies ----------------------------------------------------------------

/// Body of `POST /api/conversations/{id}/messages`.
#[derive(Debug, Clone)]
pub struct SendMessageRequest {
    /// The message text to send to the assistant.
    pub message: String,
    /// Attachment ids to include with the message.
    pub attachment_ids: Vec<u128>,
}

/// Body of `POST /api/quick-message`.
#[derive(Debug, Clone)]
pub struct QuickMessageRequest {
    /// The message text to send to the assistant.
    pub message: String,
    /// Persona to route the message to; the active persona when absent.
    pub persona_id: Option<String>,
    /// Context text placed before the message (clipboard contents, file text).
    pub context: Option<String>,
}

/// Answer of `POST /api/quick-message`.
#[derive(Debug, Clone)]
pub struct QuickMessageResponse {
    /// The newly created conversation.
    pub conversation_id: u128,
    /// The persisted assistant message, when there is one.
    pub message_id: Option<u128>,
    /// The full assistant answer.
    pub answer: String,
}

/// Query of the run replay stream.
#[derive(Debug, Clone, Copy)]
pub struct StreamRunEventsQuery {
    /// Replay from this sequence number (inclusive); 0 when absent.
    pub since: Option<i64>,
}

// -- Checks before a turn ------------------------------------------------------------

/// The checks of `POST /api/conversations/{id}/messages` before the
/// conversation is looked up, on the already parsed conversation id: the
/// write permission (`403`), the id (`400`), a message that is empty once
/// trimmed (`400`). On success, the id and the trimmed message.
pub fn check_send_message(can_post: bool, conv_id: Option<u128>, message: &str) -> (r: Result<
    (u128, String),
    ApiError,
>)
    ensures
        !can_post ==> r is Err && is_error(
            r->Err_0,
            403,
            "Missing conversations:write scope"@,
            false,
        ),
        can_post && conv_id is None ==> r is Err && is_error(
            r->Err_0,
            400,
            "Invalid conversation ID"@,
            false,
        ),
        can_post && conv_id is Some && trim_spec(message@).len() == 0 ==> r is Err && is_error(
            r->Err_0,
            400,
            "Message cannot be empty"@,
            false,
        ),
        can_post && conv_id is Some && trim_spec(message@).len() > 0 ==> r is Ok && r->Ok_0.0
            == conv_id->0 && r->Ok_0.1@ == trim_spec(message@),
{
    if !can_post {
        return Err(ApiError::text(403, "Missing conversations:write scope"));
    }
    let id = id_or_bad_request(conv_id, "Invalid conversation ID")?;
    let content = trim_str(message);
    if content.is_empty() {
        return Err(ApiError::text(400, "Message cannot be empty"));
    }
    Ok((id, to_owned_string(content)))
}

/// The same checks, on the conversation id as it came in the path.
pub fn send_message_preflight(can_post: bool, id: &str, message: &str) -> (r: Result<
    (u128, String),
    ApiError,
>)
    ensures
        !can_post ==> r is Err && is_error(
            r->Err_0,
            403,
            "Missing conversations:write scope"@,
            false,
        ),
        can_post && uuid_parse(id@) is None ==> r is Err && is_error(
            r->Err_0,
            400,
            "Invalid conversation ID"@,
            false,
        ),
        can_post && uuid_parse(id@) is Some && trim_spec(message@).len() == 0 ==> r is Err
            && is_error(r->Err_0, 400, "Message cannot be empty"@, false),
        can_post && uuid_parse(id@) is Some && trim_spec(message@).len() > 0 ==> r is Ok
            && r->Ok_0.0 == uuid_parse(id@)->0 && r->Ok_0.1@ == trim_spec(message@),
{
    if !can_post {
        return Err(ApiError::text(403, "Missing conversations:write scope"));
    }
    let parsed = parse_uuid_str(id);
    check_send_message(can_post, parsed, message)
}


// -- Recording a run ---------------------------------------------------------------

/// Thinking frames are persisted in batches of this many frames.
pub const THINKING_BATCH_SIZE: usize = 20;

/// One frame projected from an orchestrator event, with the fields of its log
/// payload that the recording reads.
#[derive(Debug, Clone)]
pub struct Frame {
    /// The SSE event name (`token`, `thinking`, `skill_complete`, ...).
    pub event: String,
    /// The SSE data of the frame.
    pub sse_data: String,
    /// `content` of the log payload, when it is a string.
    pub content: Option<String>,
    /// `success` of the log payload, when it is a boolean.
    pub success: Option<bool>,
    /// `skill_name` of the log payload, when it is a string.
    pub skill_name: Option<String>,
    /// `summary` of the log payload, when it is a string.
    pub summary: Option<String>,
}

/// A frame as character sequences.
pub struct FrameView {
    pub event: Seq<char>,
    pub sse_data: Seq<char>,
    pub content: Option<Seq<char>>,
    pub success: Option<bool>,
    pub skill_name: Option<Seq<char>>,
    pub summary: Option<Seq<char>>,
}

/// View of an optional owned string.
pub open spec fn opt_view(o: Option<String>) -> Option<Seq<char>> {
    match o {
        Some(s) => Some(s@),
        None => None,
    }
}

/// The text of an optional string, empty when absent.
pub open spec fn or_empty(o: Option<Seq<char>>) -> Seq<char> {
    match o {
        Some(s) => s,
        None => Seq::empty(),
    }
}

impl View for Frame {
    type V = FrameView;

    open spec fn view(&self) -> FrameView {
        FrameView {
            event: self.event@,
            sse_data: self.sse_data@,
            content: opt_view(self.content),
            success: self.success,
            skill_name: opt_view(self.skill_name),
            summary: opt_view(self.summary),
        }
    }
}

/// What the handler does for the recording, in order.
#[derive(Debug, Clone)]
pub enum RunAction {
    /// Persist and broadcast a `thinking` event `{"content": content}` at `seq`.
    PersistThinking { seq: i64, content: String },
    /// Persist and broadcast the current frame's log payload at `seq` under
    /// the frame's event name `event`, then send the frame over SSE with id
    /// `seq`.
    PersistFrame { seq: i64, event: String },
    /// Persist, broadcast and send the terminal event at `seq`.
    PersistTerminal { seq: i64 },
    /// Send a push notification to all subscribers.
    Push { title: String, body: String },
}

/// A recording step as values.
pub enum RunStep {
    Thinking { seq: int, content: Seq<char> },
    Frame { seq: int, event: Seq<char> },
    Terminal { seq: int },
    Push { title: Seq<char>, body: Seq<char> },
}

impl View for RunAction {
    type V = RunStep;

    open spec fn view(&self) -> RunStep {
        match self {
            RunAction::PersistThinking { seq, content } => RunStep::Thinking {
                seq: *seq as int,
                content: content@,
            },
            RunAction::PersistFrame { seq, event } => RunStep::Frame {
                seq: *seq as int,
                event: event@,
            },
            RunAction::PersistTerminal { seq } => RunStep::Terminal { seq: *seq as int },
            RunAction::Push { title, body } => RunStep::Push { title: title@, body: body@ },
        }
    }
}

/// The state of a run's recording as values.
pub struct RunView {
    /// The sequence number the next persisted event gets.
    pub seq: int,
    /// Thinking text received and not yet persisted.
    pub thinking: Seq<char>,
    /// Thinking frames received since the last thinking batch.
    pub count: nat,
    /// The assistant's visible text so far (the data of `token` frames).
    pub text: Seq<char>,
}

/// The push notification a frame causes, when pushes are enabled: a
/// finished skill reports its name and summary, an assistant error the
/// first 80 characters of its text.
pub open spec fn frame_push(f: FrameView, push: bool) -> Seq<RunStep> {
    if push && f.event == "skill_complete"@ {
        let title = if f.success == Some(true) {
            "Skill complete"@
        } else {
            "Skill failed"@
        };
        seq![RunStep::Push { title, body: or_empty(f.skill_name) + ": "@ + or_empty(f.summary) }]
    } else if push && f.event == "agent_error"@ {
        seq![RunStep::Push { title: "Assistant error"@, body: take_chars_spec(f.sse_data, 80) }]
    } else {
        seq![]
    }
}

/// One frame of the recording. A thinking frame adds its content to the
/// pending thinking text, which is persisted as one event once a batch of
/// frames is full. Any other frame first persists the pending thinking text
/// (when there is some), adds a token's data to the visible text, may cause
/// a push, and is itself persisted under the next sequence number.
pub open spec fn run_step(s: RunView, f: FrameView, push: bool) -> (RunView, Seq<RunStep>) {
    if f.event == "thinking"@ {
        let buf = s.thinking + or_empty(f.content);
        if s.count + 1 >= THINKING_BATCH_SIZE {
            (
                RunView { seq: s.seq + 1, thinking: Seq::empty(), count: 0, text: s.text },
                seq![RunStep::Thinking { seq: s.seq, content: buf }],
            )
        } else {
            (RunView { seq: s.seq, thinking: buf, count: (s.count + 1) as nat, text: s.text }, seq![])
        }
    } else {
        let flushed = s.thinking.len() > 0;
        let pre = if flushed {
            seq![RunStep::Thinking { seq: s.seq, content: s.thinking }]
        } else {
            seq![]
        };
        let seq1 = if flushed {
            s.seq + 1
        } else {
            s.seq
        };
        let count1: nat = if flushed {
            0
        } else {
            s.count
        };
        let text = if f.event == "token"@ {
            s.text + f.sse_data
        } else {
            s.text
        };
        (
            RunView { seq: seq1 + 1, thinking: Seq::empty(), count: count1, text },
            pre + frame_push(f, push) + seq![RunStep::Frame { seq: seq1, event: f.event }],
        )
    }
}

/// The recording of a run that received the frames `fs`, one after another.
pub open spec fn run_all(s: RunView, fs: Seq<FrameView>, push: bool) -> (RunView, Seq<RunStep>)
    decreases fs.len(),
{
    if fs.len() == 0 {
        (s, seq![])
    } else {
        let prev = run_all(s, fs.drop_last(), push);
        let next = run_step(prev.0, fs.last(), push);
        (next.0, prev.1 + next.1)
    }
}

/// How the turn behind a run ended.
#[derive(Debug, Clone)]
pub enum TurnOutcome {
    /// The turn finished with an answer.
    Completed { answer: String, message_id: Option<String>, attachment_ids: Vec<String> },
    /// The turn failed; `cancelled` when its error carries the cancellation
    /// marker.
    Failed { message: String, cancelled: bool },
    /// The channel that carries the result was dropped.
    Dropped,
}

/// The terminal event of a run.
#[derive(Debug, Clone)]
pub enum TerminalEvent {
    /// `done`: `{"role": "assistant", "content", "message_id"?, "attachment_ids"?}`.
    Done { content: String, message_id: Option<String>, attachment_ids: Vec<String> },
    /// `agent_error` with reason `cancelled` and message `Turn cancelled by user`.
    Cancelled { partial_content: String },
    /// `agent_error` with reason `error`.
    Errored { message: String, partial_content: String },
}

impl TerminalEvent {
    /// The SSE event name of the terminal event.
    pub open spec fn event_name(self) -> Seq<char> {
        match self {
            TerminalEvent::Done { .. } => "done"@,
            _ => "agent_error"@,
        }
    }

    /// The reply text the terminal event carries.
    pub open spec fn reply(self) -> Seq<char> {
        match self {
            TerminalEvent::Done { content, .. } => content@,
            TerminalEvent::Cancelled { partial_content } => partial_content@,
            TerminalEvent::Errored { partial_content, .. } => partial_content@,
        }
    }
}

/// The terminal event of a run whose turn ended with `o`, after the
/// visible text `text` was streamed.
pub open spec fn terminal_of(o: TurnOutcome, text: Seq<char>, t: TerminalEvent) -> bool {
    match o {
        TurnOutcome::Completed { answer, message_id, attachment_ids } => t == TerminalEvent::Done {
            content: answer,
            message_id,
            attachment_ids,
        },
        TurnOutcome::Failed { message, cancelled } => if cancelled {
            t is Cancelled && t->Cancelled_partial_content@ == text
        } else {
            t is Errored && t->Errored_message@ == message@ && t->Errored_partial_content@ == text
        },
        TurnOutcome::Dropped => t is Errored && t->Errored_message@
            == "submit_turn channel dropped"@ && t->Errored_partial_content@ == text,
    }
}

/// The end of the recording: pending thinking text is persisted, then the
/// terminal event, then (when pushes are enabled) a `New message` push with
/// the first 80 characters of the reply.
pub open spec fn run_finish(s: RunView, reply: Seq<char>, push: bool) -> Seq<RunStep> {
    let flushed = s.thinking.len() > 0;
    let pre = if flushed {
        seq![RunStep::Thinking { seq: s.seq, content: s.thinking }]
    } else {
        seq![]
    };
    let tseq = if flushed {
        s.seq + 1
    } else {
        s.seq
    };
    let post = if push {
        seq![RunStep::Push { title: "New message"@, body: take_chars_spec(reply, 80) }]
    } else {
        seq![]
    };
    pre + seq![RunStep::Terminal { seq: tseq }] + post
}

/// The recording of one streamed run. Sequence number 0 is the
/// `run_started` event, so recording starts at 1.
pub struct RunRecorder {
    seq: i64,
    thinking_buf: String,
    thinking_count: usize,
    full_text: String,
    push_enabled: bool,
}

/// The views of a sequence of actions.
pub open spec fn steps_of(actions: Seq<RunAction>) -> Seq<RunStep> {
    actions.map_values(|a: RunAction| a@)
}

impl RunRecorder {
    /// The recording state as values.
    pub closed spec fn state(self) -> RunView {
        RunView {
            seq: self.seq as int,
            thinking: self.thinking_buf@,
            count: self.thinking_count as nat,
            text: self.full_text@,
        }
    }

    /// Whether pushes are sent for this run.
    pub closed spec fn pushes(self) -> bool {
        self.push_enabled
    }

    /// The recorder's invariant: a sequence number past `run_started` and a
    /// thinking batch that is not yet full.
    pub closed spec fn wf(self) -> bool {
        1 <= self.seq && self.thinking_count < THINKING_BATCH_SIZE
    }

    /// A new recording, starting after `run_started`.
    pub fn new(push_enabled: bool) -> (r: RunRecorder)
        ensures
            r.wf(),
            r.state() == (RunView { seq: 1, thinking: Seq::empty(), count: 0, text: Seq::empty() }),
            r.pushes() == push_enabled,
    {
        RunRecorder {
            seq: 1,
            thinking_buf: String::new(),
            thinking_count: 0,
            full_text: String::new(),
            push_enabled,
        }
    }

    /// The sequence number the next persisted event gets.
    pub fn next_seq(&self) -> (r: i64)
        ensures
            r == self.state().seq,
    {
        self.seq
    }

    /// The assistant's visible text so far.
    pub fn full_text(&self) -> (r: &str)
        ensures
            r@ == self.state().text,
    {
        self.full_text.as_str()
    }

    /// Whether a frame is a thinking frame: those are sent over SSE at once,
    /// before `on_frame`, and persisted in batches.
    pub fn is_thinking_frame(frame: &Frame) -> (r: bool)
        ensures
            r == (frame.event@ == "thinking"@),
    {
        str_eq(frame.event.as_str(), "thinking")
    }

    /// The push a frame causes.
    fn push_for(&self, frame: &Frame) -> (r: Vec<RunAction>)
        ensures
            steps_of(r@) == frame_push(frame@, self.pushes()),
    {
        let mut out: Vec<RunAction> = Vec::new();
        if self.push_enabled && str_eq(frame.event.as_str(), "skill_complete") {
            let ok = match frame.success {
                Some(b) => b,
                None => false,
            };
            let title = if ok {
                to_owned_string("Skill complete")
            } else {
                to_owned_string("Skill failed")
            };
            let mut body = match &frame.skill_name {
                Some(n) => n.clone(),
                None => String::new(),
            };
            body.append(": ");
            match &frame.summary {
                Some(s) => body.append(s.as_str()),
                None => {},
            }
            out.push(RunAction::Push { title, body });
            proof {
                assert(steps_of(out@) =~= frame_push(frame@, self.pushes()));
            }
        } else if self.push_enabled && str_eq(frame.event.as_str(), "agent_error") {
            let body = take_chars(frame.sse_data.as_str(), 80);
            out.push(RunAction::Push { title: to_owned_string("Assistant error"), body });
            proof {
                assert(steps_of(out@) =~= frame_push(frame@, self.pushes()));
            }
        } else {
            proof {
                assert(steps_of(out@) =~= frame_push(frame@, self.pushes()));
            }
        }
        out
    }

    /// Records one frame. For a thinking frame the handler has already sent
    /// it over SSE; for any other frame it sends it with the `PersistFrame`
    /// action.
    pub fn on_frame(&mut self, frame: &Frame) -> (actions: Vec<RunAction>)
        requires
            old(self).wf(),
            old(self).state().seq < i64::MAX - 2,
        ensures
            final(self).wf(),
            final(self).pushes() == old(self).pushes(),
            (final(self).state(), steps_of(actions@)) == run_step(
                old(self).state(),
                frame@,
                old(self).pushes(),
            ),
    {
        if Self::is_thinking_frame(frame) {
            match &frame.content {
                Some(c) => self.thinking_buf.append(c.as_str()),
                None => {},
            }
            self.thinking_count = self.thinking_count + 1;
            let mut out: Vec<RunAction> = Vec::new();
            if self.thinking_count >= THINKING_BATCH_SIZE {
                let content = self.thinking_buf.clone();
                out.push(RunAction::PersistThinking { seq: self.seq, content });
                self.seq = self.seq + 1;
                self.thinking_buf = String::new();
                self.thinking_count = 0;
            }
            proof {
                assert(steps_of(out@) =~= run_step(old(self).state(), frame@, self.pushes()).1);
                assert(self.state() =~= run_step(old(self).state(), frame@, self.pushes()).0);
            }
            out
        } else {
            let mut out: Vec<RunAction> = Vec::new();
            if !self.thinking_buf.as_str().is_empty() {
                let content = self.thinking_buf.clone();
                out.push(RunAction::PersistThinking { seq: self.seq, content });
                self.seq = self.seq + 1;
                self.thinking_buf = String::new();
                self.thinking_count = 0;
            }
            let ghost pre = out@;
            if str_eq(frame.event.as_str(), "token") {
                self.full_text.append(frame.sse_data.as_str());
            }
            let mut pushes = self.push_for(frame);
            out.append(&mut pushes);
            let ghost mid = out@;
            out.push(RunAction::PersistFrame { seq: self.seq, event: frame.event.clone() });
            self.seq = self.seq + 1;
            self.thinking_buf = String::new();
            proof {
                let want = run_step(old(self).state(), frame@, self.pushes());
                assert(steps_of(mid) =~= steps_of(pre) + frame_push(frame@, self.pushes()));
                assert(steps_of(out@) =~= want.1);
                assert(self.state() =~= want.0);
            }
            out
        }
    }

    /// Ends the recording once the turn's outcome is known: persists
    /// pending thinking text, then the terminal event, then pushes the reply.
    pub fn finish(self, outcome: TurnOutcome) -> (r: (Vec<RunAction>, TerminalEvent))
        requires
            self.wf(),
            self.state().seq < i64::MAX - 2,
        ensures
            terminal_of(outcome, self.state().text, r.1),
            steps_of(r.0@) == run_finish(self.state(), r.1.reply(), self.pushes()),
    {
        let mut out: Vec<RunAction> = Vec::new();
        let mut seq = self.seq;
        if !self.thinking_buf.as_str().is_empty() {
            out.push(RunAction::PersistThinking { seq, content: self.thinking_buf });
            seq = seq + 1;
        }
        let terminal = match outcome {
            TurnOutcome::Completed { answer, message_id, attachment_ids } => TerminalEvent::Done {
                content: answer,
                message_id,
                attachment_ids,
            },
            TurnOutcome::Failed { message, cancelled } => {
                if cancelled {
                    TerminalEvent::Cancelled { partial_content: self.full_text }
                } else {
                    TerminalEvent::Errored { message, partial_content: self.full_text }
                }
            },
            TurnOutcome::Dropped => TerminalEvent::Errored {
                message: to_owned_string("submit_turn channel dropped"),
                partial_content: self.full_text,
            },
        };
        let ghost pre = out@;
        out.push(RunAction::PersistTerminal { seq });
        let ghost mid = out@;
        if self.push_enabled {
            let reply: &str = match &terminal {
                TerminalEvent::Done { content, .. } => content.as_str(),
                TerminalEvent::Cancelled { partial_content } => partial_content.as_str(),
                TerminalEvent::Errored { partial_content, .. } => partial_content.as_str(),
            };
            let body = take_chars(reply, 80);
            out.push(RunAction::Push { title: to_owned_string("New message"), body });
        }
        proof {
            assert(steps_of(out@) =~= run_finish(self.state(), terminal.reply(), self.pushes()));
        }
        (out, terminal)
    }
}

// -- Laws of the recording --------------------------------------------------------

/// The sequence numbers that the steps persist, in order.
pub open spec fn persisted_seqs(steps: Seq<RunStep>) -> Seq<int>
    decreases steps.len(),
{
    if steps.len() == 0 {
        seq![]
    } else {
        let rest = persisted_seqs(steps.drop_last());
        match steps.last() {
            RunStep::Thinking { seq, .. } => rest.push(seq),
            RunStep::Frame { seq, .. } => rest.push(seq),
            RunStep::Terminal { seq } => rest.push(seq),
            RunStep::Push { .. } => rest,
        }
    }
}

/// The thinking text that the steps persist, in order.
pub open spec fn thinking_text(steps: Seq<RunStep>) -> Seq<char>
    decreases steps.len(),
{
    if steps.len() == 0 {
        seq![]
    } else {
        let rest = thinking_text(steps.drop_last());
        match steps.last() {
            RunStep::Thinking { content, .. } => rest + content,
            _ => rest,
        }
    }
}

/// The thinking text that the frames carry.
pub open spec fn thinking_input(fs: Seq<FrameView>) -> Seq<char>
    decreases fs.len(),
{
    if fs.len() == 0 {
        seq![]
    } else if fs.last().event == "thinking"@ {
        thinking_input(fs.drop_last()) + or_empty(fs.last().content)
    } else {
        thinking_input(fs.drop_last())
    }
}

/// The visible text that the frames carry: the data of the `token` frames.
pub open spec fn token_input(fs: Seq<FrameView>) -> Seq<char>
    decreases fs.len(),
{
    if fs.len() == 0 {
        seq![]
    } else if fs.last().event == "token"@ {
        token_input(fs.drop_last()) + fs.last().sse_data
    } else {
        token_input(fs.drop_last())
    }
}

/// `xs` counts up by one from `from`.
pub open spec fn counts_up(xs: Seq<int>, from: int) -> bool {
    forall|i: int| 0 <= i < xs.len() ==> xs[i] == from + i
}

proof fn lemma_persisted_concat(a: Seq<RunStep>, b: Seq<RunStep>)
    ensures
        persisted_seqs(a + b) == persisted_seqs(a) + persisted_seqs(b),
        thinking_text(a + b) == thinking_text(a) + thinking_text(b),
    decreases b.len(),
{
    if b.len() == 0 {
        assert(a + b =~= a);
        assert(persisted_seqs(a) + persisted_seqs(b) =~= persisted_seqs(a));
        assert(thinking_text(a) + thinking_text(b) =~= thinking_text(a));
    } else {
        lemma_persisted_concat(a, b.drop_last());
        assert((a + b).drop_last() =~= a + b.drop_last());
        assert((a + b).last() == b.last());
        match b.last() {
            RunStep::Thinking { seq, content } => {
                assert(persisted_seqs(a + b) =~= persisted_seqs(a) + persisted_seqs(b));
                assert(thinking_text(a + b) =~= thinking_text(a) + thinking_text(b));
            },
            RunStep::Frame { seq, .. } => {
                assert(persisted_seqs(a + b) =~= persisted_seqs(a) + persisted_seqs(b));
            },
            RunStep::Terminal { seq } => {
                assert(persisted_seqs(a + b) =~= persisted_seqs(a) + persisted_seqs(b));
            },
            RunStep::Push { .. } => {},
        }
    }
}

proof fn lemma_single_steps(x: int, c: Seq<char>, e: Seq<char>, t: Seq<char>, b: Seq<char>)
    ensures
        persisted_seqs(seq![RunStep::Thinking { seq: x, content: c }]) == seq![x],
        thinking_text(seq![RunStep::Thinking { seq: x, content: c }]) == c,
        persisted_seqs(seq![RunStep::Frame { seq: x, event: e }]) == seq![x],
        thinking_text(seq![RunStep::Frame { seq: x, event: e }]) == Seq::<char>::empty(),
        persisted_seqs(seq![RunStep::Terminal { seq: x }]) == seq![x],
        thinking_text(seq![RunStep::Terminal { seq: x }]) == Seq::<char>::empty(),
        persisted_seqs(seq![RunStep::Push { title: t, body: b }]) == Seq::<int>::empty(),
        thinking_text(seq![RunStep::Push { title: t, body: b }]) == Seq::<char>::empty(),
        persisted_seqs(Seq::<RunStep>::empty()) == Seq::<int>::empty(),
        thinking_text(Seq::<RunStep>::empty()) == Seq::<char>::empty(),
{
    let none = Seq::<RunStep>::empty();
    assert(persisted_seqs(none) =~= Seq::<int>::empty());
    assert(thinking_text(none) =~= Seq::<char>::empty());
    let s1 = seq![RunStep::Thinking { seq: x, content: c }];
    assert(s1.drop_last() =~= Seq::<RunStep>::empty());
    assert(s1.last() == (RunStep::Thinking { seq: x, content: c }));
    assert(Seq::<char>::empty() + c =~= c);
    assert(Seq::<int>::empty().push(x) =~= seq![x]);
    let s2 = seq![RunStep::Frame { seq: x, event: e }];
    assert(s2.drop_last() =~= Seq::<RunStep>::empty());
    assert(s2.last() == (RunStep::Frame { seq: x, event: e }));
    let s3 = seq![RunStep::Terminal { seq: x }];
    assert(s3.drop_last() =~= Seq::<RunStep>::empty());
    assert(s3.last() == (RunStep::Terminal { seq: x }));
    let s4 = seq![RunStep::Push { title: t, body: b }];
    assert(s4.drop_last() =~= Seq::<RunStep>::empty());
    assert(s4.last() == (RunStep::Push { title: t, body: b }));
}

proof fn lemma_event_names_differ()
    ensures
        "thinking"@ != "token"@,
{
    reveal_strlit("thinking");
    reveal_strlit("token");
    assert("thinking"@[1] != "token"@[1]);
}

proof fn lemma_input_single(f: FrameView)
    ensures
        thinking_input(seq![f]) == (if f.event == "thinking"@ {
            or_empty(f.content)
        } else {
            Seq::<char>::empty()
        }),
        token_input(seq![f]) == (if f.event == "token"@ {
            f.sse_data
        } else {
            Seq::<char>::empty()
        }),
{
    let e = Seq::<FrameView>::empty();
    assert(thinking_input(e) =~= Seq::<char>::empty());
    assert(token_input(e) =~= Seq::<char>::empty());
    let one = seq![f];
    assert(one.drop_last() =~= e);
    assert(one.last() == f);
    assert(Seq::<char>::empty() + or_empty(f.content) =~= or_empty(f.content));
    assert(Seq::<char>::empty() + f.sse_data =~= f.sse_data);
}

proof fn lemma_frame_push(f: FrameView, push: bool)
    ensures
        persisted_seqs(frame_push(f, push)) == Seq::<int>::empty(),
        thinking_text(frame_push(f, push)) == Seq::<char>::empty(),
{
    lemma_single_steps(0, seq![], seq![], "Skill complete"@, seq![]);
    lemma_single_steps(0, seq![], seq![], "Skill failed"@, or_empty(f.skill_name) + ": "@ + or_empty(f.summary));
    lemma_single_steps(0, seq![], seq![], "Skill complete"@, or_empty(f.skill_name) + ": "@ + or_empty(f.summary));
    lemma_single_steps(0, seq![], seq![], "Assistant error"@, take_chars_spec(f.sse_data, 80));
}

/// One recorded frame persists events under consecutive sequence numbers,
/// starting at the state's next number and ending just before the new
/// state's; the thinking text that it persists followed by what stays
/// pending is the old pending text followed by the frame's thinking text.
pub proof fn law_run_step(s: RunView, f: FrameView, push: bool)
    ensures
        ({
            let (s2, steps) = run_step(s, f, push);
            &&& counts_up(persisted_seqs(steps), s.seq)
            &&& persisted_seqs(steps).len() == s2.seq - s.seq
            &&& thinking_text(steps) + s2.thinking == s.thinking + thinking_input(seq![f])
            &&& s2.text == s.text + token_input(seq![f])
        }),
{
    let one = seq![f];
    assert(one.drop_last() =~= Seq::<FrameView>::empty());
    assert(one.last() == f);
    let (s2, steps) = run_step(s, f, push);
    lemma_frame_push(f, push);
    lemma_input_single(f);
    lemma_event_names_differ();
    if f.event == "thinking"@ {
        let buf = s.thinking + or_empty(f.content);
        assert(thinking_input(one) =~= or_empty(f.content));
        assert(token_input(one) =~= Seq::<char>::empty());
        lemma_single_steps(s.seq, buf, seq![], seq![], seq![]);
        if s.count + 1 >= THINKING_BATCH_SIZE {
            assert(thinking_text(steps) + s2.thinking =~= s.thinking + thinking_input(one));
        } else {
            assert(thinking_text(steps) + s2.thinking =~= s.thinking + thinking_input(one));
        }
        assert(s2.text =~= s.text + token_input(one));
    } else {
        assert(thinking_input(one) =~= Seq::<char>::empty());
        let flushed = s.thinking.len() > 0;
        let pre = if flushed {
            seq![RunStep::Thinking { seq: s.seq, content: s.thinking }]
        } else {
            seq![]
        };
        let seq1 = if flushed {
            s.seq + 1
        } else {
            s.seq
        };
        lemma_single_steps(s.seq, s.thinking, seq![], seq![], seq![]);
        lemma_single_steps(seq1, s.thinking, f.event, seq![], seq![]);
        lemma_persisted_concat(pre, frame_push(f, push));
        lemma_persisted_concat(
            pre + frame_push(f, push),
            seq![RunStep::Frame { seq: seq1, event: f.event }],
        );
        assert(persisted_seqs(pre + frame_push(f, push)) =~= persisted_seqs(pre));
        assert(thinking_text(pre + frame_push(f, push)) =~= thinking_text(pre));
        assert(steps == pre + frame_push(f, push) + seq![RunStep::Frame { seq: seq1, event: f.event }]);
        if flushed {
            assert(persisted_seqs(steps) =~= seq![s.seq, s.seq + 1]);
            assert(thinking_text(steps) =~= s.thinking);
        } else {
            assert(persisted_seqs(steps) =~= seq![s.seq]);
            assert(thinking_text(steps) =~= Seq::<char>::empty());
            assert(s.thinking =~= Seq::<char>::empty());
        }
        assert(thinking_text(steps) + s2.thinking =~= s.thinking + thinking_input(one));
        if f.event == "token"@ {
            assert(token_input(one) =~= f.sse_data);
        } else {
            assert(token_input(one) =~= Seq::<char>::empty());
        }
        assert(s2.text =~= s.text + token_input(one));
    }
}

/// Over any run of frames, the persisted events carry consecutive sequence
/// numbers from the starting state's next number on; every character of
/// thinking text that arrived is persisted once, in order, or still pending;
/// and the visible text is the data of the `token` frames, in order.
pub proof fn law_run_all(s: RunView, fs: Seq<FrameView>, push: bool)
    ensures
        ({
            let (s2, steps) = run_all(s, fs, push);
            &&& counts_up(persisted_seqs(steps), s.seq)
            &&& persisted_seqs(steps).len() == s2.seq - s.seq
            &&& thinking_text(steps) + s2.thinking == s.thinking + thinking_input(fs)
            &&& s2.text == s.text + token_input(fs)
        }),
    decreases fs.len(),
{
    if fs.len() == 0 {
        lemma_single_steps(0, seq![], seq![], seq![], seq![]);
        assert(thinking_input(fs) =~= Seq::<char>::empty());
        assert(token_input(fs) =~= Seq::<char>::empty());
        assert(s.thinking + thinking_input(fs) =~= s.thinking);
        assert(Seq::<char>::empty() + s.thinking =~= s.thinking);
        assert(s.text + token_input(fs) =~= s.text);
    } else {
        law_run_all(s, fs.drop_last(), push);
        let (s1, a1) = run_all(s, fs.drop_last(), push);
        let f = fs.last();
        law_run_step(s1, f, push);
        let (s2, a2) = run_step(s1, f, push);
        lemma_persisted_concat(a1, a2);
        let one = seq![f];
        lemma_input_single(f);
        assert(thinking_input(fs) == thinking_input(fs.drop_last()) + thinking_input(one)) by {
            if f.event == "thinking"@ {
            } else {
                assert(thinking_input(one) =~= Seq::<char>::empty());
                assert(thinking_input(fs.drop_last()) + thinking_input(one) =~= thinking_input(
                    fs.drop_last(),
                ));
            }
        }
        assert(token_input(fs) == token_input(fs.drop_last()) + token_input(one)) by {
            if f.event == "token"@ {
            } else {
                assert(token_input(one) =~= Seq::<char>::empty());
                assert(token_input(fs.drop_last()) + token_input(one) =~= token_input(
                    fs.drop_last(),
                ));
            }
        }
        assert(counts_up(persisted_seqs(a1 + a2), s.seq));
        let t1 = thinking_text(a1);
        let t2 = thinking_text(a2);
        assert(t1 + t2 + s2.thinking =~= t1 + (t2 + s2.thinking));
        assert(t1 + (s1.thinking + thinking_input(one)) =~= (t1 + s1.thinking) + thinking_input(
            one,
        ));
        assert(s.thinking + thinking_input(fs.drop_last()) + thinking_input(one) =~= s.thinking + (
        thinking_input(fs.drop_last()) + thinking_input(one)));
        assert(thinking_text(a1 + a2) + s2.thinking =~= s.thinking + thinking_input(fs));
        assert(s2.text =~= s.text + token_input(fs));
    }
}

/// The event names that the steps persist, in order: `thinking` for a
/// thinking batch, a frame's own event name, and `terminal` for the
/// terminal event.
pub open spec fn persisted_events(steps: Seq<RunStep>, terminal: Seq<char>) -> Seq<Seq<char>>
    decreases steps.len(),
{
    if steps.len() == 0 {
        seq![]
    } else {
        let rest = persisted_events(steps.drop_last(), terminal);
        match steps.last() {
            RunStep::Thinking { .. } => rest.push("thinking"@),
            RunStep::Frame { event, .. } => rest.push(event),
            RunStep::Terminal { .. } => rest.push(terminal),
            RunStep::Push { .. } => rest,
        }
    }
}

proof fn lemma_events_concat(a: Seq<RunStep>, b: Seq<RunStep>, t: Seq<char>)
    ensures
        persisted_events(a + b, t) == persisted_events(a, t) + persisted_events(b, t),
        persisted_events(a, t).len() == persisted_seqs(a).len(),
    decreases a.len() + b.len(),
{
    if b.len() == 0 {
        assert(a + b =~= a);
        assert(persisted_events(b, t) =~= Seq::<Seq<char>>::empty());
        assert(persisted_events(a, t) + persisted_events(b, t) =~= persisted_events(a, t));
        if a.len() > 0 {
            lemma_events_concat(a.drop_last(), b, t);
        }
    } else {
        lemma_events_concat(a, b.drop_last(), t);
        assert((a + b).drop_last() =~= a + b.drop_last());
        assert((a + b).last() == b.last());
        assert(persisted_events(a + b, t) =~= persisted_events(a, t) + persisted_events(b, t));
    }
}

proof fn lemma_event_names_not_terminal()
    ensures
        !is_terminal_spec("thinking"@),
        is_terminal_spec("done"@),
        is_terminal_spec("agent_error"@),
        "done"@ != "agent_error"@,
{
    reveal_strlit("thinking");
    reveal_strlit("done");
    reveal_strlit("agent_error");
    assert("thinking"@.len() == 8);
    assert("done"@.len() == 4);
    assert("agent_error"@.len() == 11);
}

proof fn lemma_single_events(x: int, c: Seq<char>, e: Seq<char>, b: Seq<char>, t: Seq<char>)
    ensures
        persisted_events(seq![RunStep::Thinking { seq: x, content: c }], t) == seq!["thinking"@],
        persisted_events(seq![RunStep::Frame { seq: x, event: e }], t) == seq![e],
        persisted_events(seq![RunStep::Terminal { seq: x }], t) == seq![t],
        persisted_events(seq![RunStep::Push { title: "New message"@, body: b }], t) == Seq::<
            Seq<char>,
        >::empty(),
        persisted_events(Seq::<RunStep>::empty(), t) == Seq::<Seq<char>>::empty(),
{
    let none = Seq::<RunStep>::empty();
    assert(persisted_events(none, t) =~= Seq::<Seq<char>>::empty());
    let s1 = seq![RunStep::Thinking { seq: x, content: c }];
    assert(s1.drop_last() =~= none);
    let s2 = seq![RunStep::Frame { seq: x, event: e }];
    assert(s2.drop_last() =~= none);
    let s3 = seq![RunStep::Terminal { seq: x }];
    assert(s3.drop_last() =~= none);
    let s4 = seq![RunStep::Push { title: "New message"@, body: b }];
    assert(s4.drop_last() =~= none);
    assert(Seq::<Seq<char>>::empty().push("thinking"@) =~= seq!["thinking"@]);
    assert(Seq::<Seq<char>>::empty().push(e) =~= seq![e]);
    assert(Seq::<Seq<char>>::empty().push(t) =~= seq![t]);
}

proof fn lemma_frame_push_events(f: FrameView, push: bool, t: Seq<char>)
    ensures
        persisted_events(frame_push(f, push), t) == Seq::<Seq<char>>::empty(),
{
    let none = Seq::<RunStep>::empty();
    assert(persisted_events(none, t) =~= Seq::<Seq<char>>::empty());
    let p = frame_push(f, push);
    if p.len() > 0 {
        assert(p.drop_last() =~= none);
    }
}

/// Over frames none of which is itself a `done` or `agent_error` event, the
/// recording of the frames persists no such event.
proof fn lemma_run_all_events(s: RunView, fs: Seq<FrameView>, push: bool, t: Seq<char>)
    requires
        forall|i: int| 0 <= i < fs.len() ==> !is_terminal_spec(#[trigger] fs[i].event),
    ensures
        ({
            let evs = persisted_events(run_all(s, fs, push).1, t);
            forall|k: int| 0 <= k < evs.len() ==> !is_terminal_spec(#[trigger] evs[k])
        }),
    decreases fs.len(),
{
    lemma_event_names_not_terminal();
    if fs.len() == 0 {
        lemma_single_events(0, seq![], seq![], seq![], t);
    } else {
        let init = fs.drop_last();
        assert forall|i: int| 0 <= i < init.len() implies !is_terminal_spec(#[trigger] init[i].event) by {
            assert(init[i] == fs[i]);
        }
        lemma_run_all_events(s, init, push, t);
        let (s1, a1) = run_all(s, init, push);
        let f = fs.last();
        assert(!is_terminal_spec(f.event)) by {
            assert(f == fs[fs.len() - 1]);
        }
        let (s2, a2) = run_step(s1, f, push);
        lemma_events_concat(a1, a2, t);
        let e1 = persisted_events(a1, t);
        let e2 = persisted_events(a2, t);
        if f.event == "thinking"@ {
            lemma_single_events(s1.seq, s1.thinking + or_empty(f.content), seq![], seq![], t);
            assert(forall|k: int| 0 <= k < e2.len() ==> e2[k] == "thinking"@);
        } else {
            let flushed = s1.thinking.len() > 0;
            let pre = if flushed {
                seq![RunStep::Thinking { seq: s1.seq, content: s1.thinking }]
            } else {
                seq![]
            };
            let seq1 = if flushed {
                s1.seq + 1
            } else {
                s1.seq
            };
            lemma_single_events(s1.seq, s1.thinking, seq![], seq![], t);
            lemma_single_events(seq1, s1.thinking, f.event, seq![], t);
            lemma_frame_push_events(f, push, t);
            lemma_events_concat(pre, frame_push(f, push), t);
            lemma_events_concat(
                pre + frame_push(f, push),
                seq![RunStep::Frame { seq: seq1, event: f.event }],
                t,
            );
            assert(forall|k: int| 0 <= k < e2.len() ==> e2[k] == "thinking"@ || e2[k] == f.event);
        }
        let evs = e1 + e2;
        assert forall|k: int| 0 <= k < evs.len() implies !is_terminal_spec(#[trigger] evs[k]) by {
            if k < e1.len() {
                assert(evs[k] == e1[k]);
            } else {
                assert(evs[k] == e2[k - e1.len()]);
            }
        }
    }
}

/// A whole run, from a fresh recording through its terminal event `t`:
/// the persisted events are numbered 1, 2, 3, ... without gap or repeat;
/// the last of them is the terminal event, a `done` or `agent_error`
/// event, and when no received frame is itself such an event it is the only
/// one; the persisted thinking text is exactly the thinking text that
/// arrived; and the terminal event is `done`, carrying the answer, exactly
/// when the turn completed.
pub proof fn law_whole_run(fs: Seq<FrameView>, t: TerminalEvent, o: TurnOutcome, push: bool)
    ensures
        ({
            let start = RunView { seq: 1, thinking: Seq::empty(), count: 0, text: Seq::empty() };
            let (s2, steps) = run_all(start, fs, push);
            let all = steps + run_finish(s2, t.reply(), push);
            let evs = persisted_events(all, t.event_name());
            &&& counts_up(persisted_seqs(all), 1)
            &&& thinking_text(all) == thinking_input(fs)
            &&& s2.text == token_input(fs)
            &&& evs.len() == persisted_seqs(all).len()
            &&& evs.len() > 0 && evs.last() == t.event_name()
            &&& is_terminal_spec(t.event_name())
            &&& (forall|i: int| 0 <= i < fs.len() ==> !is_terminal_spec(#[trigger] fs[i].event))
                ==> forall|k: int| 0 <= k < evs.len() - 1 ==> !is_terminal_spec(#[trigger] evs[k])
            &&& terminal_of(o, s2.text, t) ==> ((t.event_name() == "done"@) <==> o is Completed)
            &&& terminal_of(o, s2.text, t) ==> (o matches TurnOutcome::Completed { answer, .. }
                ==> t.reply() == answer@)
        }),
{
    let reply = t.reply();
    let start = RunView { seq: 1, thinking: Seq::empty(), count: 0, text: Seq::empty() };
    law_run_all(start, fs, push);
    let (s2, steps) = run_all(start, fs, push);
    let fin = run_finish(s2, reply, push);
    lemma_persisted_concat(steps, fin);
    let flushed = s2.thinking.len() > 0;
    let pre = if flushed {
        seq![RunStep::Thinking { seq: s2.seq, content: s2.thinking }]
    } else {
        seq![]
    };
    let tseq = if flushed {
        s2.seq + 1
    } else {
        s2.seq
    };
    let post = if push {
        seq![RunStep::Push { title: "New message"@, body: take_chars_spec(reply, 80) }]
    } else {
        seq![]
    };
    lemma_single_steps(s2.seq, s2.thinking, seq![], "New message"@, take_chars_spec(reply, 80));
    lemma_single_steps(tseq, s2.thinking, seq![], "New message"@, take_chars_spec(reply, 80));
    lemma_persisted_concat(pre, seq![RunStep::Terminal { seq: tseq }]);
    lemma_persisted_concat(pre + seq![RunStep::Terminal { seq: tseq }], post);
    if flushed {
        assert(persisted_seqs(fin) =~= seq![s2.seq, s2.seq + 1]);
        assert(thinking_text(fin) =~= s2.thinking);
    } else {
        assert(persisted_seqs(fin) =~= seq![s2.seq]);
        assert(thinking_text(fin) =~= Seq::<char>::empty());
        assert(s2.thinking =~= Seq::<char>::empty());
    }
    assert(Seq::<char>::empty() + thinking_input(fs) =~= thinking_input(fs));
    assert(thinking_text(steps + fin) =~= thinking_input(fs));
    assert(Seq::<char>::empty() + token_input(fs) =~= token_input(fs));
    let tn = t.event_name();
    lemma_event_names_not_terminal();
    lemma_events_concat(steps, fin, tn);
    lemma_events_concat(pre, seq![RunStep::Terminal { seq: tseq }], tn);
    lemma_events_concat(pre + seq![RunStep::Terminal { seq: tseq }], post, tn);
    lemma_single_events(s2.seq, s2.thinking, seq![], take_chars_spec(reply, 80), tn);
    lemma_single_events(tseq, s2.thinking, seq![], take_chars_spec(reply, 80), tn);
    let e1 = persisted_events(steps, tn);
    let e2 = persisted_events(fin, tn);
    if flushed {
        assert(e2 =~= seq!["thinking"@, tn]);
    } else {
        assert(e2 =~= seq![tn]);
    }
    if forall|i: int| 0 <= i < fs.len() ==> !is_terminal_spec(#[trigger] fs[i].event) {
        lemma_run_all_events(start, fs, push, tn);
        let evs = e1 + e2;
        assert forall|k: int| 0 <= k < evs.len() - 1 implies !is_terminal_spec(#[trigger] evs[k]) by {
            if k < e1.len() {
                assert(evs[k] == e1[k]);
            } else {
                assert(evs[k] == e2[k - e1.len()]);
            }
        }
    }
}

// -- Replaying a run -------------------------------------------------------------------

/// The events that end a run.
pub open spec fn is_terminal_spec(event_type: Seq<char>) -> bool {
    event_type == "done"@ || event_type == "agent_error"@
}

/// Every recorded run ends with an event that the replay recognises as the
/// run's end, so the replay of a finished run closes instead of tailing.
pub proof fn law_run_end_is_recognised(t: TerminalEvent, event_types: Seq<String>, i: int)
    requires
        0 <= i < event_types.len(),
        event_types[i]@ == t.event_name(),
    ensures
        is_terminal_spec(t.event_name()),
        exists|j: int| 0 <= j < event_types.len() && is_terminal_spec(#[trigger] event_types[j]@),
{
    assert(is_terminal_spec(event_types[i]@));
}

/// Whether an event type ends a run: the live tail closes after it.
pub fn is_terminal_event(event_type: &str) -> (r: bool)
    ensures
        r == is_terminal_spec(event_type@),
{
    str_eq(event_type, "done") || str_eq(event_type, "agent_error")
}

/// The checks in front of a replay, on the parsed run id, whether the event
/// log has rows for the run (`None` when the log failed) and whether the
/// run is registered as live: an id that did not parse is `400`; a run with
/// no rows that is not live is `404` (`{"error": "run not found"}`); a log
/// failure is `500`.
pub fn check_run_stream(run_id: Option<u128>, has_events: Option<bool>, live: bool) -> (r: Result<
    u128,
    ApiError,
>)
    ensures
        run_id is None ==> r is Err && is_error(r->Err_0, 400, "Invalid run ID"@, false),
        run_id is Some && has_events == Some(false) && !live ==> r is Err && is_error(
            r->Err_0,
            404,
            "run not found"@,
            true,
        ),
        run_id is Some && has_events is None ==> r is Err && is_error(
            r->Err_0,
            500,
            "Database error"@,
            false,
        ),
        run_id is Some && (has_events == Some(true) || (has_events == Some(false) && live))
            ==> r == Ok::<u128, ApiError>(run_id->0),
{
    let id = id_or_bad_request(run_id, "Invalid run ID")?;
    match has_events {
        Some(false) => {
            if !live {
                return Err(ApiError::json(404, "run not found"));
            }
            Ok(id)
        },
        Some(true) => Ok(id),
        None => Err(ApiError::text(500, "Database error")),
    }
}

/// The replay checks on the run id as it came in the path.
pub fn run_stream_preflight(run_id: &str, has_events: Option<bool>, live: bool) -> (r: Result<
    u128,
    ApiError,
>)
    ensures
        uuid_parse(run_id@) is None ==> r is Err && is_error(r->Err_0, 400, "Invalid run ID"@, false),
        uuid_parse(run_id@) is Some && has_events == Some(false) && !live ==> r is Err
            && is_error(r->Err_0, 404, "run not found"@, true),
        uuid_parse(run_id@) is Some && has_events is None ==> r is Err && is_error(
            r->Err_0,
            500,
            "Database error"@,
            false,
        ),
        uuid_parse(run_id@) is Some && (has_events == Some(true) || (has_events == Some(false)
            && live)) ==> r == Ok::<u128, ApiError>(uuid_parse(run_id@)->0),
{
    check_run_stream(parse_uuid_str(run_id), has_events, live)
}

/// The first sequence number to replay: `since`, or 0.
pub fn replay_from(query: StreamRunEventsQuery) -> (r: i64)
    ensures
        r == (match query.since {
            Some(n) => n,
            None => 0,
        }),
{
    match query.since {
        Some(n) => n,
        None => 0,
    }
}

/// Whether the replayed events already hold the run's end.
pub fn run_already_complete(event_types: &[String]) -> (r: bool)
    ensures
        r == exists|i: int| 0 <= i < event_types.len() && is_terminal_spec(event_types[i]@),
{
    let mut i: usize = 0;
    while i < event_types.len()
        invariant
            i <= event_types.len(),
            forall|j: int| 0 <= j < i ==> !is_terminal_spec(#[trigger] event_types[j]@),
        decreases event_types.len() - i,
    {
        if is_terminal_event(event_types[i].as_str()) {
            return true;
        }
        i = i + 1;
    }
    false
}

/// After the replay, the live tail is followed only for a live run that the
/// replay did not show finished.
pub fn should_tail(already_complete: bool, live: bool) -> (r: bool)
    ensures
        r == (!already_complete && live),
{
    !already_complete && live
}

// -- Quick messages ------------------------------------------------------------------

/// The checks of `POST /api/quick-message`: the write permission (`403`,
/// plain text) and a message that is empty once trimmed (`400`, JSON). On
/// success, the trimmed message.
pub fn check_quick_message(can_post: bool, message: &str) -> (r: Result<String, ApiError>)
    ensures
        !can_post ==> r is Err && is_error(
            r->Err_0,
            403,
            "Missing conversations:write scope"@,
            false,
        ),
        can_post && trim_spec(message@).len() == 0 ==> r is Err && is_error(
            r->Err_0,
            400,
            "Message cannot be empty"@,
            true,
        ),
        can_post && trim_spec(message@).len() > 0 ==> r is Ok && r->Ok_0@ == trim_spec(message@),
{
    if !can_post {
        return Err(ApiError::text(403, "Missing conversations:write scope"));
    }
    let content = trim_str(message);
    if content.is_empty() {
        return Err(ApiError::json(400, "Message cannot be empty"));
    }
    Ok(to_owned_string(content))
}

/// The persona a quick message goes to: the requested one when it exists,
/// the active persona otherwise.
pub fn quick_message_persona(requested: Option<&str>, requested_exists: bool, active: &str) -> (r:
    String)
    ensures
        r@ == (match requested {
            Some(p) => if requested_exists {
                p@
            } else {
                active@
            },
            None => active@,
        }),
{
    match requested {
        Some(p) => {
            if requested_exists {
                to_owned_string(p)
            } else {
                to_owned_string(active)
            }
        },
        None => to_owned_string(active),
    }
}

/// The prompt of a quick message: a context that is not blank is trimmed
/// and placed before the message inside `<context>` tags.
pub open spec fn quick_prompt_spec(content: Seq<char>, context: Option<Seq<char>>) -> Seq<char> {
    match context {
        Some(c) => if trim_spec(c).len() > 0 {
            "<context>\n"@ + trim_spec(c) + "\n</context>\n\n"@ + content
        } else {
            content
        },
        None => content,
    }
}

/// View of an optional string slice.
pub open spec fn opt_str(o: Option<&str>) -> Option<Seq<char>> {
    match o {
        Some(s) => Some(s@),
        None => None,
    }
}

/// Builds the prompt of a quick message.
pub fn quick_prompt(content: &str, context: Option<&str>) -> (r: String)
    ensures
        r@ == quick_prompt_spec(content@, opt_str(context)),
{
    match context {
        Some(c) => {
            let t = trim_str(c);
            if t.is_empty() {
                to_owned_string(content)
            } else {
                let mut s = to_owned_string("<context>\n");
                s.append(t);
                s.append("\n</context>\n\n");
                s.append(content);
                s
            }
        },
        None => to_owned_string(content),
    }
}

/// The answer of a quick message once its turn ended: `201` with the
/// conversation, message and answer; a failed turn is `500` (JSON), and the
/// handler then deletes the conversation it created.
pub fn quick_message_result(conversation_id: u128, turn: Result<(Option<u128>, String), ()>) -> (r:
    Result<QuickMessageResponse, ApiError>)
    ensures
        turn is Ok ==> r is Ok && r->Ok_0.conversation_id == conversation_id
            && r->Ok_0.message_id == turn->Ok_0.0 && r->Ok_0.answer == turn->Ok_0.1,
        turn is Err ==> r is Err && is_error(r->Err_0, 500, "Failed to process message"@, true),
{
    match turn {
        Ok((message_id, answer)) => Ok(QuickMessageResponse { conversation_id, message_id, answer }),
        Err(_) => Err(ApiError::json(500, "Failed to process message")),
    }
}

/// A conversation for a quick message could not be created: `500` (JSON).
pub fn quick_message_create_failed() -> (e: ApiError)
    ensures
        is_error(e, 500, "Failed to create conversation"@, true),
{
    ApiError::json(500, "Failed to create conversation")
}

// -- Voice messages --------------------------------------------------------------------

/// Largest accepted audio upload: 25 MiB.
pub const MAX_AUDIO_BYTES: usize = 26214400;

/// The checks of `POST /api/conversations/{id}/voice` before the upload is
/// read: the write permission (`403`), the id (`400`), and a configured
/// transcription provider (`503`).
pub fn check_voice_request(can_post: bool, conv_id: Option<u128>, transcription: bool) -> (r:
    Result<u128, ApiError>)
    ensures
        !can_post ==> r is Err && is_error(
            r->Err_0,
            403,
            "Missing conversations:write scope"@,
            false,
        ),
        can_post && conv_id is None ==> r is Err && is_error(
            r->Err_0,
            400,
            "Invalid conversation ID"@,
            false,
        ),
        can_post && conv_id is Some && !transcription ==> r is Err && is_error(
            r->Err_0,
            503,
            "Voice transcription not configured"@,
            false,
        ),
        can_post && conv_id is Some && transcription ==> r == Ok::<u128, ApiError>(conv_id->0),
{
    if !can_post {
        return Err(ApiError::text(403, "Missing conversations:write scope"));
    }
    let id = id_or_bad_request(conv_id, "Invalid conversation ID")?;
    if !transcription {
        return Err(ApiError::text(503, "Voice transcription not configured"));
    }
    Ok(id)
}

/// The voice checks on the conversation id as it came in the path.
pub fn voice_preflight(can_post: bool, id: &str, transcription: bool) -> (r: Result<u128, ApiError>)
    ensures
        !can_post ==> r is Err && is_error(
            r->Err_0,
            403,
            "Missing conversations:write scope"@,
            false,
        ),
        can_post && uuid_parse(id@) is None ==> r is Err && is_error(
            r->Err_0,
            400,
            "Invalid conversation ID"@,
            false,
        ),
        can_post && uuid_parse(id@) is Some && !transcription ==> r is Err && is_error(
            r->Err_0,
            503,
            "Voice transcription not configured"@,
            false,
        ),
        can_post && uuid_parse(id@) is Some && transcription ==> r == Ok::<u128, ApiError>(
            uuid_parse(id@)->0,
        ),
{
    if !can_post {
        return Err(ApiError::text(403, "Missing conversations:write scope"));
    }
    check_voice_request(can_post, parse_uuid_str(id), transcription)
}

/// The audio of a voice upload as its multipart fields are read. Only the
/// `audio` field counts; when it comes more than once, the last one wins.
pub struct VoiceUpload {
    pub audio: Option<Vec<u8>>,
    pub mime_type: String,
}

/// Whether a multipart field is the audio field.
pub fn is_audio_field(name: Option<&str>) -> (r: bool)
    ensures
        r == (opt_str(name) == Some("audio"@)),
{
    match name {
        Some(n) => str_eq(n, "audio"),
        None => false,
    }
}

impl VoiceUpload {
    /// Nothing read yet; the MIME type defaults to `audio/webm`.
    pub fn new() -> (r: VoiceUpload)
        ensures
            r.audio is None,
            r.mime_type@ == "audio/webm"@,
    {
        VoiceUpload { audio: None, mime_type: to_owned_string("audio/webm") }
    }

    /// Takes one `audio` field: its content type, when given, replaces the
    /// MIME type; its bytes (`None` when they could not be read, `400`) must
    /// not exceed 25 MiB (`400`).
    pub fn accept_audio(&mut self, content_type: Option<&str>, bytes: Option<Vec<u8>>) -> (r:
        Result<(), ApiError>)
        ensures
            final(self).mime_type@ == (match content_type {
                Some(ct) => ct@,
                None => old(self).mime_type@,
            }),
            bytes is None ==> r is Err && is_error(
                r->Err_0,
                400,
                "Failed to read audio data"@,
                false,
            ) && final(self).audio == old(self).audio,
            bytes is Some && bytes->0.len() > MAX_AUDIO_BYTES ==> r is Err && is_error(
                r->Err_0,
                400,
                "Audio too large (max 25 MB)"@,
                false,
            ) && final(self).audio == old(self).audio,
            bytes is Some && bytes->0.len() <= MAX_AUDIO_BYTES ==> r is Ok && final(self).audio
                == bytes,
    {
        match content_type {
            Some(ct) => {
                self.mime_type = to_owned_string(ct);
            },
            None => {},
        }
        match bytes {
            Some(b) => {
                if b.len() > MAX_AUDIO_BYTES {
                    return Err(ApiError::text(400, "Audio too large (max 25 MB)"));
                }
                self.audio = Some(b);
                Ok(())
            },
            None => Err(ApiError::text(400, "Failed to read audio data")),
        }
    }

    /// The audio and its MIME type once all fields are read: missing or
    /// empty audio is `400`, and so is a MIME type outside `audio/*`.
    pub fn finish(self) -> (r: Result<(Vec<u8>, String), ApiError>)
        ensures
            (self.audio is None || self.audio->0.len() == 0) ==> r is Err && is_error(
                r->Err_0,
                400,
                "Missing audio field"@,
                false,
            ),
            (self.audio is Some && self.audio->0.len() > 0 && !crate::text::has_prefix(
                self.mime_type@,
                "audio/"@,
            )) ==> r is Err && is_error(
                r->Err_0,
                400,
                "Invalid MIME type — expected audio/*"@,
                false,
            ),
            (self.audio is Some && self.audio->0.len() > 0 && crate::text::has_prefix(
                self.mime_type@,
                "audio/"@,
            )) ==> r is Ok && r->Ok_0.0 == self.audio->0 && r->Ok_0.1 == self.mime_type,
    {
        let audio = match self.audio {
            Some(b) => {
                if b.len() == 0 {
                    return Err(ApiError::text(400, "Missing audio field"));
                }
                b
            },
            None => {
                return Err(ApiError::text(400, "Missing audio field"));
            },
        };
        let mv = crate::text::chars_of(self.mime_type.as_str());
        let pv = crate::text::chars_of("audio/");
        if !crate::text::starts_with_chars(mv.as_slice(), pv.as_slice()) {
            return Err(ApiError::text(400, "Invalid MIME type — expected audio/*"));
        }
        Ok((audio, self.mime_type))
    }
}

/// The transcript of a voice upload: a failed transcription (`None`) is
/// `500`, a blank transcript `400`.
pub fn check_transcript(transcript: Option<String>) -> (r: Result<String, ApiError>)
    ensures
        transcript is None ==> r is Err && is_error(r->Err_0, 500, "Transcription failed"@, false),
        transcript is Some && trim_spec(transcript->0@).len() == 0 ==> r is Err && is_error(
            r->Err_0,
            400,
            "Transcription returned empty text"@,
            false,
        ),
        transcript is Some && trim_spec(transcript->0@).len() > 0 ==> r == Ok::<String, ApiError>(
            transcript->0,
        ),
{
    match transcript {
        Some(t) => {
            if trim_str(t.as_str()).is_empty() {
                return Err(ApiError::text(400, "Transcription returned empty text"));
            }
            Ok(t)
        },
        None => Err(ApiError::text(500, "Transcription failed")),
    }
}

/// The relay of a voice turn: every frame streams straight through, and the
/// data of `token` frames is kept as the visible text.
pub struct VoiceRelay {
    pub full_text: String,
}

impl VoiceRelay {
    /// Nothing relayed yet.
    pub fn new() -> (r: VoiceRelay)
        ensures
            r.full_text@ == Seq::<char>::empty(),
    {
        VoiceRelay { full_text: String::new() }
    }

    /// Relays one frame.
    pub fn on_frame(&mut self, event: &str, sse_data: &str)
        ensures
            final(self).full_text@ == (if event@ == "token"@ {
                old(self).full_text@ + sse_data@
            } else {
                old(self).full_text@
            }),
    {
        if str_eq(event, "token") {
            self.full_text.append(sse_data);
        }
    }

    /// The `done` event once the turn ended, and the body of the `New
    /// message` push: the turn's answer, or the relayed text when the turn
    /// failed.
    pub fn finish(self, outcome: TurnOutcome) -> (r: (TerminalEvent, String))
        ensures
            r.0 is Done,
            outcome is Completed ==> r.0 == (TerminalEvent::Done {
                content: outcome->Completed_answer,
                message_id: outcome->Completed_message_id,
                attachment_ids: outcome->Completed_attachment_ids,
            }),
            !(outcome is Completed) ==> r.0->Done_content == self.full_text
                && r.0->Done_message_id is None && r.0->Done_attachment_ids@.len() == 0,
            r.1@ == take_chars_spec(r.0.reply(), 80),
    {
        let done = match outcome {
            TurnOutcome::Completed { answer, message_id, attachment_ids } => TerminalEvent::Done {
                content: answer,
                message_id,
                attachment_ids,
            },
            _ => TerminalEvent::Done {
                content: self.full_text,
                message_id: None,
                attachment_ids: Vec::new(),
            },
        };
        let body = match &done {
            TerminalEvent::Done { content, .. } => take_chars(content.as_str(), 80),
            TerminalEvent::Cancelled { partial_content } => take_chars(partial_content.as_str(), 80),
            TerminalEvent::Errored { partial_content, .. } => take_chars(
                partial_content.as_str(),
                80,
            ),
        };
        (done, body)
    }
}

// -- Event payloads ------------------------------------------------------------------

/// SSE `token` event: a text chunk of the assistant's answer.
#[derive(Debug, Clone)]
pub struct SseTokenEvent {
    pub content: String,
}

/// SSE `thinking` event: a reasoning chunk of the model.
#[derive(Debug, Clone)]
pub struct SseThinkingEvent {
    pub content: String,
}

/// SSE `status` event: a status line such as `Calling tool X`.
#[derive(Debug, Clone)]
pub struct SseStatusEvent {
    pub message: String,
}

/// SSE `tool_result` event: the result of one tool call.
#[derive(Debug, Clone)]
pub struct SseToolResultEvent {
    pub tool_name: String,
    pub status: String,
    pub arguments: Option<String>,
    pub result: Option<String>,
}

/// SSE `subagent_started` event.
#[derive(Debug, Clone)]
pub struct SseSubagentStartedEvent {
    pub agent_id: String,
    pub task: String,
}

/// SSE `subagent_completed` event.
#[derive(Debug, Clone)]
pub struct SseSubagentCompletedEvent {
    pub agent_id: String,
    pub status: String,
    pub summary: Option<String>,
}

/// SSE `subagent_token` event.
#[derive(Debug, Clone)]
pub struct SseSubagentTokenEvent {
    pub agent_id: String,
    pub data: SseTokenEvent,
}

/// SSE `subagent_thinking` event.
#[derive(Debug, Clone)]
pub struct SseSubagentThinkingEvent {
    pub agent_id: String,
    pub data: SseThinkingEvent,
}

/// SSE `subagent_tool_result` event.
#[derive(Debug, Clone)]
pub struct SseSubagentToolResultEvent {
    pub agent_id: String,
    pub data: SseToolResultEvent,
}

/// SSE `subagent_status` event.
#[derive(Debug, Clone)]
pub struct SseSubagentStatusEvent {
    pub agent_id: String,
    pub data: SseStatusEvent,
}

/// A turn that did not complete ends with an `agent_error` event whose reply
/// is the visible text streamed so far: a failed turn keeps its error
/// message, and neither it nor a cancelled or dropped turn loses the
/// partial reply.
pub proof fn law_unfinished_turn_keeps_partial_reply(o: TurnOutcome, text: Seq<char>, t: TerminalEvent)
    requires
        terminal_of(o, text, t),
    ensures
        !(o is Completed) ==> t.reply() == text && t.event_name() == "agent_error"@,
        (o is Failed && !o->Failed_cancelled) ==> (t is Errored && t->Errored_message@
            == o->Failed_message@),
        o is Completed ==> (t is Done && t->Done_content@ == o->Completed_answer@
            && t->Done_message_id == o->Completed_message_id),
{
}

/// Over a whole run, the terminal event of a turn that did not complete
/// carries exactly the text of the run's `token` frames, and the `New
/// message` push (when pushes are on) shows its first 80 characters.
pub proof fn law_unfinished_run_reply(fs: Seq<FrameView>, t: TerminalEvent, o: TurnOutcome, push: bool)
    ensures
        ({
            let start = RunView { seq: 1, thinking: Seq::empty(), count: 0, text: Seq::empty() };
            let (s2, steps) = run_all(start, fs, push);
            terminal_of(o, s2.text, t) && !(o is Completed) ==> t.reply() == token_input(fs)
        }),
{
    law_whole_run(fs, t, o, push);
}

} // verus!
