//! The reflection pipeline: what a finished thread teaches.
//!
//! The model is asked for a summary, for lessons where something failed, for
//! open issues where something failed or the thread did, and for missing
//! capabilities where no lease covered an action.

use vstd::prelude::*;
use crate::engine::scripting::{events_left, CallView, DispatchEvent};
use crate::engine::types::{
    doc_views, message_views, plain_message, response_content, role_name, state_name, DocType,
    DocView, EngineError, EventKind, LlmOutput, LlmRequest, MemoryDoc, MessageRole, MessageView,
    StepId, Thread, ThreadEvent, ThreadMessage, ThreadState, TokenUsage,
};
use crate::text::{
    append_decimal, begins_with, byte_len, decimal, join_texts, joined, lemma_joined_more, prefix,
    starts_with_text, take_chars, texts, utf8_len,
};

verus! {

broadcast use vstd::string::group_string_axioms;

/// What reflection on a thread produced.
#[derive(Debug)]
pub struct ReflectionResult {
    pub docs: Vec<MemoryDoc>,
    pub tokens_used: TokenUsage,
}

/// What a summary is asked for with.
pub const SUMMARY_PROMPT: &'static str =
    "Summarize what this thread accomplished in 2-4 sentences. Include:\n- The goal and whether it was achieved\n- Key results or outputs\n- Tools/actions that were used\nBe factual and concise.";

/// What lessons are asked for with.
pub const LESSON_PROMPT: &'static str =
    "Extract lessons learned from this thread's execution. Focus on:\n- Errors encountered and how they were resolved (or not)\n- Workarounds that were discovered\n- Surprising findings about tool behavior\n- Patterns that could be reused in similar tasks\nWrite each lesson as a single clear sentence. If there are no meaningful lessons, write 'No lessons.'.";

/// What open issues are asked for with.
pub const ISSUE_PROMPT: &'static str =
    "Identify any unresolved issues from this thread. Focus on:\n- Errors that were not resolved\n- Tasks that could not be completed\n- Missing tools or capabilities that were needed\n- Data quality issues encountered\nIf there are no unresolved issues, write 'No issues.'.";

/// What missing capabilities are asked for with.
pub const SPEC_PROMPT: &'static str =
    "Identify the capabilities that this thread needed and did not have. Focus on:\n- Actions that were called but are not available\n- What each missing action was expected to do\n- Existing actions that could stand in for it\nWrite each missing capability as a single clear sentence.";

// ── The transcript ──────────────────────────────────────────

/// The line of one message: at most 500 characters of it.
pub open spec fn message_line(m: ThreadMessage) -> Seq<char> {
    "["@ + role_name(m.role) + "] "@ + prefix(m.content@, 500) + (if utf8_len(m.content@) > 500 {
        "..."@
    } else {
        ""@
    })
}

/// The messages that a transcript shows: the last 30.
pub open spec fn shown_messages(messages: Seq<ThreadMessage>) -> Seq<ThreadMessage> {
    if messages.len() > 30 {
        messages.skip(messages.len() - 30)
    } else {
        messages
    }
}

/// The line of one error; none for an event that is no error.
pub open spec fn error_line(e: ThreadEvent) -> Seq<Seq<char>> {
    match e.kind {
        EventKind::ActionFailed { step_id, action_name, call_id, error } => seq![
            "Action '"@ + action_name@ + "' failed: "@ + error@,
        ],
        EventKind::StepFailed { step_id, error } => seq!["Step failed: "@ + error@],
        _ => seq![],
    }
}

/// The lines of all errors, in order.
pub open spec fn error_lines(events: Seq<ThreadEvent>) -> Seq<Seq<char>>
    decreases events.len(),
{
    if events.len() == 0 {
        seq![]
    } else {
        error_lines(events.drop_last()) + error_line(events.last())
    }
}

/// The lines of a thread's transcript.
pub open spec fn transcript_lines(thread: Thread) -> Seq<Seq<char>> {
    let errors = error_lines(thread.events@);
    seq![
        "Goal: "@ + thread.goal@,
        "Steps: "@ + decimal(thread.step_count as nat),
        "Tokens used: "@ + decimal(thread.total_tokens_used as nat),
        "State: "@ + state_name(thread.state),
        "\n--- Messages ---"@,
    ] + shown_messages(thread.messages@).map_values(|m: ThreadMessage| message_line(m)) + (
    if errors.len() == 0 {
        Seq::<Seq<char>>::empty()
    } else {
        seq!["\n--- Errors ---"@] + errors
    })
}

/// The transcript of a thread.
pub open spec fn transcript_of(thread: Thread) -> Seq<char> {
    joined(transcript_lines(thread), "\n"@)
}

fn push_text(parts: &mut Vec<String>, text: String)
    ensures
        texts(final(parts)@) == texts(old(parts)@).push(text@),
{
    parts.push(text);
    assert(texts(parts@) =~= texts(old(parts)@).push(text@));
}

fn labelled(label: &str, text: &str) -> (r: String)
    ensures
        r@ == label@ + text@,
{
    let mut out = label.to_string();
    out.append(text);
    out
}

fn numbered(label: &str, n: u64) -> (r: String)
    ensures
        r@ == label@ + decimal(n as nat),
{
    let mut out = label.to_string();
    append_decimal(&mut out, n);
    out
}

fn write_message(m: &ThreadMessage) -> (r: String)
    ensures
        r@ == message_line(*m),
{
    let mut out = "[".to_string();
    out.append(m.role.name());
    out.append("] ");
    out.append(take_chars(m.content.as_str(), 500).as_str());
    if byte_len(m.content.as_str()) > 500 {
        out.append("...");
    } else {
        out.append("");
    }
    out
}

fn push_messages(parts: &mut Vec<String>, messages: &Vec<ThreadMessage>)
    ensures
        texts(final(parts)@) == texts(old(parts)@) + shown_messages(messages@).map_values(
            |m: ThreadMessage| message_line(m),
        ),
{
    let ghost lines = shown_messages(messages@).map_values(|m: ThreadMessage| message_line(m));
    let start: usize = if messages.len() > 30 {
        messages.len() - 30
    } else {
        0
    };
    let mut i: usize = start;
    assert(texts(parts@) =~= texts(parts@) + lines.take(0));
    while i < messages.len()
        invariant
            start <= i <= messages.len(),
            lines.len() == messages.len() - start,
            lines == shown_messages(messages@).map_values(|m: ThreadMessage| message_line(m)),
            start == (if messages.len() > 30 {
                messages.len() - 30
            } else {
                0
            }),
            texts(parts@) == texts(old(parts)@) + lines.take(i - start),
        decreases messages.len() - i,
    {
        let line = write_message(&messages[i]);
        assert(lines[i - start] == line@);
        push_text(parts, line);
        i += 1;
        assert(lines.take(i - start) =~= lines.take(i - 1 - start).push(lines[i - 1 - start]));
        assert(texts(parts@) =~= texts(old(parts)@) + lines.take(i - start));
    }
    assert(lines.take(i - start) =~= lines);
}

fn collect_errors(events: &Vec<ThreadEvent>) -> (r: Vec<String>)
    ensures
        texts(r@) == error_lines(events@),
{
    let mut out: Vec<String> = Vec::new();
    let mut i: usize = 0;
    assert(events@.take(0) =~= seq![]);
    assert(texts(out@) =~= seq![]);
    while i < events.len()
        invariant
            i <= events.len(),
            texts(out@) == error_lines(events@.take(i as int)),
        decreases events.len() - i,
    {
        proof {
            let next = events@.take(i + 1);
            assert(next.drop_last() =~= events@.take(i as int));
            assert(next.last() == events@[i as int]);
        }
        let ghost before = texts(out@);
        match &events[i].kind {
            EventKind::ActionFailed { step_id, action_name, call_id, error } => {
                let mut text = "Action '".to_string();
                text.append(action_name.as_str());
                text.append("' failed: ");
                text.append(error.as_str());
                push_text(&mut out, text);
            },
            EventKind::StepFailed { step_id, error } => {
                push_text(&mut out, labelled("Step failed: ", error.as_str()));
            },
            _ => {},
        }
        i += 1;
        assert(texts(out@) =~= before + error_line(events@[i - 1]));
    }
    assert(events@.take(i as int) =~= events@);
    out
}

/// Writes down what a thread did, in short.
pub fn build_transcript(thread: &Thread) -> (r: String)
    ensures
        r@ == transcript_of(*thread),
{
    let mut parts: Vec<String> = Vec::new();
    assert(texts(parts@) =~= seq![]);
    push_text(&mut parts, labelled("Goal: ", thread.goal.as_str()));
    push_text(&mut parts, numbered("Steps: ", thread.step_count as u64));
    push_text(&mut parts, numbered("Tokens used: ", thread.total_tokens_used));
    push_text(&mut parts, labelled("State: ", thread.state.name()));
    push_text(&mut parts, "\n--- Messages ---".to_string());
    push_messages(&mut parts, &thread.messages);
    let mut errors: Vec<String> = collect_errors(&thread.events);
    let ghost above = texts(parts@);
    assert(texts(errors@).len() == errors.len());
    if errors.len() > 0 {
        let ghost found = texts(errors@);
        push_text(&mut parts, "\n--- Errors ---".to_string());
        let ghost headed = texts(parts@);
        parts.append(&mut errors);
        assert(texts(parts@) =~= headed + found);
    }
    assert(texts(parts@) =~= transcript_lines(*thread));
    join_texts(&parts, "\n")
}

// ── One doc ─────────────────────────────────────────────────

/// The messages that ask the model for a doc.
pub open spec fn doc_request_of(transcript: Seq<char>, prompt: Seq<char>) -> Seq<MessageView> {
    seq![
        plain_message(
            MessageRole::System,
            "You are analyzing a completed agent thread. Here is the transcript:\n\n"@
                + transcript,
        ),
        plain_message(MessageRole::User, prompt),
    ]
}

/// The request that asks the model for a doc: plain text, no tools.
pub fn doc_request(transcript: &str, prompt: &str) -> (r: LlmRequest)
    ensures
        r.force_text,
        message_views(r.messages@) == doc_request_of(transcript@, prompt@),
{
    let mut messages: Vec<ThreadMessage> = Vec::new();
    messages.push(
        ThreadMessage::system(
            labelled(
                "You are analyzing a completed agent thread. Here is the transcript:\n\n",
                transcript,
            ),
        ),
    );
    messages.push(ThreadMessage::user(prompt.to_string()));
    assert(message_views(messages@) =~= doc_request_of(transcript@, prompt@));
    LlmRequest { messages, force_text: true }
}

/// What the title of a doc begins with.
pub open spec fn title_prefix(t: DocType) -> Seq<char> {
    match t {
        DocType::Summary => "Summary: "@,
        DocType::Lesson => "Lessons: "@,
        DocType::Issue => "Issues: "@,
        DocType::Playbook => "Playbook: "@,
        DocType::Spec => "Spec: "@,
        DocType::Note => "Note: "@,
    }
}

/// The doc that an answer of the model makes.
pub open spec fn doc_of(thread: Thread, t: DocType, content: Seq<char>) -> DocView {
    DocView {
        project_id: thread.project_id,
        doc_type: t,
        title: title_prefix(t) + thread.goal@,
        content,
        source_thread: Some(thread.id),
    }
}

/// Makes a doc from the model's answer, and tells what the answer cost.
pub fn produce_doc(thread: &Thread, doc_type: DocType, output: LlmOutput) -> (r: (
    MemoryDoc,
    TokenUsage,
))
    ensures
        r.0@ == doc_of(*thread, doc_type, response_content(output.response)),
        r.1 == output.usage,
{
    let title = labelled(
        match doc_type {
            DocType::Summary => "Summary: ",
            DocType::Lesson => "Lessons: ",
            DocType::Issue => "Issues: ",
            DocType::Playbook => "Playbook: ",
            DocType::Spec => "Spec: ",
            DocType::Note => "Note: ",
        },
        thread.goal.as_str(),
    );
    let content = output.response.into_content();
    let doc = MemoryDoc::new(thread.project_id, doc_type, title, content).with_source_thread(
        thread.id,
    );
    (doc, output.usage)
}

// ── The pipeline ────────────────────────────────────────────

/// An action or a step of the thread failed.
pub open spec fn had_errors(events: Seq<ThreadEvent>) -> bool {
    exists|i: int|
        0 <= i < events.len() && ((#[trigger] events[i]).kind is ActionFailed
            || events[i].kind is StepFailed)
}

/// An action of the thread failed because no lease covers it.
pub open spec fn lacked_capability(events: Seq<ThreadEvent>) -> bool {
    exists|i: int|
        0 <= i < events.len() && ((#[trigger] events[i]).kind matches EventKind::ActionFailed {
            error,
            ..
        } && begins_with(error@, "no lease for action '"@))
}

/// The docs that are asked for, in order.
pub open spec fn plan_of(thread: Thread) -> Seq<DocType> {
    let failed = had_errors(thread.events@);
    seq![DocType::Summary] + (if failed {
        seq![DocType::Lesson]
    } else {
        seq![]
    }) + (if thread.state == ThreadState::Failed || failed {
        seq![DocType::Issue]
    } else {
        seq![]
    }) + (if lacked_capability(thread.events@) {
        seq![DocType::Spec]
    } else {
        seq![]
    })
}

/// What the model is asked for a doc with.
pub open spec fn prompt_of(t: DocType) -> Seq<char> {
    match t {
        DocType::Summary => SUMMARY_PROMPT@,
        DocType::Lesson => LESSON_PROMPT@,
        DocType::Spec => SPEC_PROMPT@,
        _ => ISSUE_PROMPT@,
    }
}

/// The doc is kept: any but an issue of 20 bytes or less.
pub open spec fn is_kept(t: DocType, content: Seq<char>) -> bool {
    t == DocType::Issue ==> utf8_len(content) > 20
}

fn any_errors(events: &Vec<ThreadEvent>) -> (r: bool)
    ensures
        r == had_errors(events@),
{
    let mut i: usize = 0;
    while i < events.len()
        invariant
            i <= events.len(),
            forall|k: int|
                0 <= k < i ==> !((#[trigger] events@[k]).kind is ActionFailed
                    || events@[k].kind is StepFailed),
        decreases events.len() - i,
    {
        if matches!(
            &events[i].kind,
            EventKind::ActionFailed { .. } | EventKind::StepFailed { .. }
        ) {
            return true;
        }
        i += 1;
    }
    false
}

fn any_lacked_capability(events: &Vec<ThreadEvent>) -> (r: bool)
    ensures
        r == lacked_capability(events@),
{
    let mut i: usize = 0;
    while i < events.len()
        invariant
            i <= events.len(),
            forall|k: int|
                0 <= k < i ==> !((#[trigger] events@[k]).kind matches EventKind::ActionFailed {
                    error,
                    ..
                } && begins_with(error@, "no lease for action '"@)),
        decreases events.len() - i,
    {
        if let EventKind::ActionFailed { error, .. } = &events[i].kind {
            if starts_with_text(error.as_str(), "no lease for action '") {
                return true;
            }
        }
        i += 1;
    }
    false
}

/// A reflection on its way through its docs.
#[derive(Debug)]
pub struct Reflection {
    transcript: String,
    plan: Vec<DocType>,
    done: usize,
    docs: Vec<MemoryDoc>,
    tokens: TokenUsage,
}

impl Reflection {
    /// What the model is shown of the thread.
    pub closed spec fn shown(self) -> Seq<char> {
        self.transcript@
    }

    /// The docs that are still to be asked for.
    pub closed spec fn ahead(self) -> Seq<DocType> {
        self.plan@.skip(self.done as int)
    }

    /// The docs that were kept so far.
    pub closed spec fn kept(self) -> Seq<DocView> {
        doc_views(self.docs@)
    }

    /// The tokens used so far.
    pub closed spec fn used(self) -> TokenUsage {
        self.tokens
    }

    /// The counter stays within the plan.
    pub closed spec fn wf(self) -> bool {
        self.done <= self.plan@.len()
    }

    /// The tokens used so far.
    pub fn tokens_used(&self) -> (r: TokenUsage)
        ensures
            r == self.used(),
    {
        self.tokens
    }

    /// The request for the next doc, if there is one left.
    pub fn next_request(&self) -> (r: Option<LlmRequest>)
        requires
            self.wf(),
        ensures
            r is Some == (self.ahead().len() > 0),
            r matches Some(request) ==> request.force_text && message_views(request.messages@)
                == doc_request_of(self.shown(), prompt_of(self.ahead()[0])),
    {
        if self.done < self.plan.len() {
            let prompt = match self.plan[self.done] {
                DocType::Summary => SUMMARY_PROMPT,
                DocType::Lesson => LESSON_PROMPT,
                DocType::Spec => SPEC_PROMPT,
                _ => ISSUE_PROMPT,
            };
            Some(doc_request(self.transcript.as_str(), prompt))
        } else {
            None
        }
    }

    /// Takes the model's answer to the last request: the doc is kept where it
    /// says something, and its tokens count either way. A failed request ends
    /// the reflection with its error.
    pub fn take_reply(&mut self, thread: &Thread, reply: Result<LlmOutput, EngineError>) -> (r:
        Result<(), EngineError>)
        requires
            old(self).wf(),
            old(self).ahead().len() > 0,
            reply matches Ok(output) ==> old(self).used().fits(output.usage),
        ensures
            final(self).wf(),
            final(self).shown() == old(self).shown(),
            (match reply {
                Ok(output) => {
                    let t = old(self).ahead()[0];
                    let content = response_content(output.response);
                    &&& r is Ok
                    &&& final(self).ahead() == old(self).ahead().drop_first()
                    &&& final(self).used() == old(self).used().plus(output.usage)
                    &&& final(self).kept() == (if is_kept(t, content) {
                        old(self).kept().push(doc_of(*thread, t, content))
                    } else {
                        old(self).kept()
                    })
                },
                Err(e) => {
                    &&& r is Err
                    &&& r->Err_0 == e
                    &&& final(self).ahead() == old(self).ahead()
                    &&& final(self).used() == old(self).used()
                    &&& final(self).kept() == old(self).kept()
                },
            }),
    {
        match reply {
            Ok(output) => {
                let t = self.plan[self.done];
                let (doc, usage) = produce_doc(thread, t, output);
                if t != DocType::Issue || byte_len(doc.content.as_str()) > 20 {
                    self.docs.push(doc);
                    assert(doc_views(self.docs@) =~= old(self).kept().push(doc@));
                }
                self.tokens.record(usage);
                if self.done < self.plan.len() {
                    self.done = self.done + 1;
                }
                assert(self.ahead() =~= old(self).ahead().drop_first());
                Ok(())
            },
            Err(e) => Err(e),
        }
    }

    /// What the reflection came to.
    pub fn finish(self) -> (r: ReflectionResult)
        ensures
            doc_views(r.docs@) == self.kept(),
            r.tokens_used == self.used(),
    {
        ReflectionResult { docs: self.docs, tokens_used: self.tokens }
    }
}

/// Starts the reflection on a finished thread.
pub fn reflect(thread: &Thread) -> (r: Reflection)
    ensures
        r.wf(),
        r.shown() == transcript_of(*thread),
        r.ahead() == plan_of(*thread),
        r.kept() == Seq::<DocView>::empty(),
        r.used() == TokenUsage::zero(),
{
    let mut plan: Vec<DocType> = Vec::new();
    plan.push(DocType::Summary);
    let failed = any_errors(&thread.events);
    if failed {
        plan.push(DocType::Lesson);
    }
    if thread.state == ThreadState::Failed || failed {
        plan.push(DocType::Issue);
    }
    if any_lacked_capability(&thread.events) {
        plan.push(DocType::Spec);
    }
    assert(plan@ =~= plan_of(*thread));
    let r = Reflection {
        transcript: build_transcript(thread),
        plan,
        done: 0,
        docs: Vec::new(),
        tokens: TokenUsage::none(),
    };
    assert(doc_views(r.docs@) =~= seq![]);
    assert(r.ahead() =~= plan@);
    r
}

// ── Laws ────────────────────────────────────────────────────

/// A summary is always asked for, first; lessons exactly where something
/// failed; issues where something failed or the thread did; missing
/// capabilities exactly where no lease covered an action, and then something
/// failed too.
pub proof fn law_plan(thread: Thread)
    ensures
        plan_of(thread).len() > 0,
        plan_of(thread)[0] == DocType::Summary,
        plan_of(thread).contains(DocType::Lesson) <==> had_errors(thread.events@),
        plan_of(thread).contains(DocType::Issue) <==> (had_errors(thread.events@) || thread.state
            == ThreadState::Failed),
        plan_of(thread).contains(DocType::Spec) <==> lacked_capability(thread.events@),
        lacked_capability(thread.events@) ==> had_errors(thread.events@),
{
    let plan = plan_of(thread);
    let failed = had_errors(thread.events@);
    if lacked_capability(thread.events@) {
        assert(plan.last() == DocType::Spec);
        assert(plan[plan.len() - 1] == DocType::Spec);
    }
    if failed {
        assert(plan[1] == DocType::Lesson);
        assert(plan[2] == DocType::Issue);
    } else if thread.state == ThreadState::Failed {
        assert(plan[1] == DocType::Issue);
    }
}

/// A call that is refused for want of a lease leaves a missing capability.
pub proof fn law_refused_calls_lack_a_capability(
    events: Seq<ThreadEvent>,
    i: int,
    step_id: StepId,
    call: CallView,
)
    requires
        0 <= i < events.len(),
        seq![events[i].kind@] == events_left(step_id, call, DispatchEvent::Lease(false)),
    ensures
        lacked_capability(events),
{
    let left = events_left(step_id, call, DispatchEvent::Lease(false));
    assert(left[0] == events[i].kind@);
    let said = "no lease for action '"@ + call.action_name + "'"@;
    assert(said.subrange(0, "no lease for action '"@.len() as int) =~= "no lease for action '"@);
    assert(begins_with(said, "no lease for action '"@));
}

/// The states of a reflection on a thread whose requests were answered with
/// these outputs.
pub open spec fn reflection_run(
    thread: Thread,
    states: Seq<Reflection>,
    outputs: Seq<LlmOutput>,
) -> bool {
    &&& states.len() == outputs.len() + 1
    &&& outputs.len() <= plan_of(thread).len()
    &&& states[0].ahead() == plan_of(thread)
    &&& states[0].kept() == Seq::<DocView>::empty()
    &&& forall|i: int| 0 <= i < outputs.len() ==> #[trigger] reply_taken(thread, states, outputs, i)
}

/// Reply `i` of a run is taken as `Reflection::take_reply` does.
pub open spec fn reply_taken(
    thread: Thread,
    states: Seq<Reflection>,
    outputs: Seq<LlmOutput>,
    i: int,
) -> bool {
    let t = states[i].ahead()[0];
    let content = response_content(outputs[i].response);
    &&& states[i + 1].ahead() == states[i].ahead().drop_first()
    &&& states[i + 1].kept() == (if is_kept(t, content) {
        states[i].kept().push(doc_of(thread, t, content))
    } else {
        states[i].kept()
    })
}

/// Where every reply says more than 20 bytes, each doc that was asked for is
/// kept, in order and with what the model said. So a thread that lacked a
/// capability leaves a doc that names it once the plan is done.
pub proof fn law_every_doc_asked_for_is_kept(
    thread: Thread,
    states: Seq<Reflection>,
    outputs: Seq<LlmOutput>,
)
    requires
        reflection_run(thread, states, outputs),
        forall|i: int|
            0 <= i < outputs.len() ==> utf8_len(
                response_content((#[trigger] outputs[i]).response),
            ) > 20,
    ensures
        states.last().ahead() == plan_of(thread).skip(outputs.len() as int),
        states.last().kept() == Seq::new(
            outputs.len(),
            |i: int| doc_of(thread, plan_of(thread)[i], response_content(outputs[i].response)),
        ),
        lacked_capability(thread.events@) && states.last().ahead().len() == 0 ==> {
            &&& outputs.len() > 0
            &&& states.last().kept().last() == doc_of(
                thread,
                DocType::Spec,
                response_content(outputs.last().response),
            )
        },
    decreases outputs.len(),
{
    let plan = plan_of(thread);
    let n = outputs.len() as int;
    if n == 0 {
        assert(plan.skip(0) =~= plan);
        assert(states.last().kept() =~= Seq::new(
            0,
            |i: int| doc_of(thread, plan[i], response_content(outputs[i].response)),
        ));
    } else {
        let earlier = states.drop_last();
        let said = outputs.drop_last();
        assert forall|i: int| 0 <= i < said.len() implies #[trigger] reply_taken(
            thread,
            earlier,
            said,
            i,
        ) by {
            assert(reply_taken(thread, states, outputs, i));
        }
        assert forall|i: int| 0 <= i < said.len() implies utf8_len(
            response_content((#[trigger] said[i]).response),
        ) > 20 by {
            assert(said[i] == outputs[i]);
        }
        law_every_doc_asked_for_is_kept(thread, earlier, said);
        assert(reply_taken(thread, states, outputs, n - 1));
        assert(plan.skip(n - 1)[0] == plan[n - 1]);
        assert(plan.skip(n - 1).drop_first() =~= plan.skip(n));
        assert(states.last().kept() =~= Seq::new(
            outputs.len(),
            |i: int| doc_of(thread, plan[i], response_content(outputs[i].response)),
        ));
    }
    if lacked_capability(thread.events@) {
        assert(plan.last() == DocType::Spec);
    }
}

/// A transcript lists errors exactly where the reflection asks for lessons.
pub proof fn law_errors_are_listed(events: Seq<ThreadEvent>)
    ensures
        error_lines(events).len() > 0 <==> had_errors(events),
    decreases events.len(),
{
    if events.len() > 0 {
        let rest = events.drop_last();
        law_errors_are_listed(rest);
        let n = events.len() - 1;
        if had_errors(events) && !had_errors(rest) {
            let i = choose|i: int|
                0 <= i < events.len() && ((#[trigger] events[i]).kind is ActionFailed
                    || events[i].kind is StepFailed);
            if i < n {
                assert(rest[i] == events[i]);
            }
            assert(error_line(events.last()).len() > 0);
        }
        if had_errors(rest) {
            let i = choose|i: int|
                0 <= i < rest.len() && ((#[trigger] rest[i]).kind is ActionFailed
                    || rest[i].kind is StepFailed);
            assert(events[i] == rest[i]);
        }
        if error_line(events.last()).len() > 0 {
            assert(events[n] == events.last());
        }
    }
}

/// A transcript tells the thread's goal, its steps, its tokens and its own
/// state, in this order and before any message: that of a failed thread says
/// that it failed.
pub proof fn law_transcripts_tell_the_state(thread: Thread, name: &'static str, r: String)
    requires
        call_ensures(build_transcript, (&thread,), r),
        call_ensures(ThreadState::name, (&thread.state,), name),
    ensures
        exists|rest: Seq<char>|
            r@ == #[trigger] ("Goal: "@ + thread.goal@ + "\n"@ + "Steps: "@ + decimal(
                thread.step_count as nat,
            ) + "\n"@ + "Tokens used: "@ + decimal(thread.total_tokens_used as nat) + "\n"@
                + "State: "@ + name@ + "\n"@ + "\n--- Messages ---"@ + rest),
        thread.state == ThreadState::Failed ==> name@ == "Failed"@,
        thread.state == ThreadState::Done ==> name@ == "Done"@,
        thread.state == ThreadState::Completed ==> name@ == "Completed"@,
{
    let lines = transcript_lines(thread);
    let head = lines.take(5);
    let sep = "\n"@;
    assert(head[0] == "Goal: "@ + thread.goal@);
    assert(head[1] == "Steps: "@ + decimal(thread.step_count as nat));
    assert(head[2] == "Tokens used: "@ + decimal(thread.total_tokens_used as nat));
    assert(head[3] == "State: "@ + state_name(thread.state));
    assert(head[4] == "\n--- Messages ---"@);
    assert(head.drop_last() =~= lines.take(4));
    assert(lines.take(4).drop_last() =~= lines.take(3));
    assert(lines.take(3).drop_last() =~= lines.take(2));
    assert(lines.take(2).drop_last() =~= lines.take(1));
    let text = "Goal: "@ + thread.goal@ + "\n"@ + "Steps: "@ + decimal(thread.step_count as nat)
        + "\n"@ + "Tokens used: "@ + decimal(thread.total_tokens_used as nat) + "\n"@ + "State: "@
        + name@ + "\n"@ + "\n--- Messages ---"@;
    assert(joined(lines.take(1), sep) == head[0]);
    assert(joined(lines.take(2), sep) == head[0] + sep + head[1]);
    assert(joined(lines.take(3), sep) == head[0] + sep + head[1] + sep + head[2]);
    assert(joined(lines.take(4), sep) == head[0] + sep + head[1] + sep + head[2] + sep + head[3]);
    assert(joined(head, sep) == head[0] + sep + head[1] + sep + head[2] + sep + head[3] + sep
        + head[4]);
    assert(joined(head, sep) =~= text);
    let tail = lines.skip(5);
    assert(lines =~= head + tail);
    if tail.len() == 0 {
        assert(lines =~= head);
        assert(r@ =~= text + Seq::<char>::empty());
    } else {
        lemma_joined_more(head, tail, sep);
        assert(r@ =~= text + (sep + joined(tail, sep)));
    }
    crate::engine::types::law_state_names(thread.state, name);
}

/// The threads hold the same, apart from their states, messages and events.
pub open spec fn same_work(a: Thread, b: Thread) -> bool {
    &&& a.goal@ == b.goal@
    &&& a.step_count == b.step_count
    &&& a.total_tokens_used == b.total_tokens_used
}

/// Two threads that differ in their state have different transcripts.
pub proof fn law_transcripts_tell_states_apart(a: Thread, b: Thread, x: String, y: String)
    requires
        call_ensures(build_transcript, (&a,), x),
        call_ensures(build_transcript, (&b,), y),
        same_work(a, b),
        a.messages@ == b.messages@,
        a.events@ == b.events@,
        x@ == y@,
    ensures
        a.state == b.state,
{
    let la = transcript_lines(a);
    let lb = transcript_lines(b);
    let head = la.take(3);
    let tail = la.skip(4);
    assert(lb.take(3) =~= head);
    assert(lb.skip(4) =~= tail);
    assert(la =~= head + (seq![la[3]] + tail));
    assert(lb =~= head + (seq![lb[3]] + tail));
    lemma_middle(head, la[3], lb[3], tail, "\n"@);
    let k = "State: "@.len() as int;
    assert(la[3].skip(k) =~= state_name(a.state));
    assert(lb[3].skip(k) =~= state_name(b.state));
    lemma_state_names_differ(a.state, b.state);
}

/// Joined texts that differ in one place alone differ.
proof fn lemma_middle(
    head: Seq<Seq<char>>,
    a: Seq<char>,
    b: Seq<char>,
    tail: Seq<Seq<char>>,
    sep: Seq<char>,
)
    requires
        head.len() > 0,
        tail.len() > 0,
        joined(head + (seq![a] + tail), sep) == joined(head + (seq![b] + tail), sep),
    ensures
        a == b,
{
    lemma_joined_more(head, seq![a] + tail, sep);
    lemma_joined_more(head, seq![b] + tail, sep);
    lemma_joined_more(seq![a], tail, sep);
    lemma_joined_more(seq![b], tail, sep);
    assert(joined(seq![a], sep) == a);
    assert(joined(seq![b], sep) == b);
    let front = joined(head, sep) + sep;
    let back = sep + joined(tail, sep);
    let x = joined(head + (seq![a] + tail), sep);
    assert(x =~= front + a + back);
    assert(x =~= front + b + back);
    assert(a.len() == b.len());
    assert(x.subrange(front.len() as int, (front.len() + a.len()) as int) =~= a);
    assert(x.subrange(front.len() as int, (front.len() + b.len()) as int) =~= b);
}

proof fn lemma_state_names_differ(a: ThreadState, b: ThreadState)
    requires
        state_name(a) == state_name(b),
    ensures
        a == b,
{
    reveal_strlit("Created");
    reveal_strlit("Running");
    reveal_strlit("Waiting");
    reveal_strlit("Suspended");
    reveal_strlit("Completed");
    reveal_strlit("Failed");
    reveal_strlit("Reflecting");
    reveal_strlit("Done");
    assert("Created"@[0] == 'C' && "Completed"@.len() == 9);
    assert("Running"@[0] == 'R' && "Waiting"@[0] == 'W');
    assert("Suspended"@[0] == 'S' && "Reflecting"@.len() == 10);
    assert("Failed"@.len() == 6 && "Done"@.len() == 4);
}

/// A message more is a line more at the end of a transcript without errors: who
/// said it and its first 500 characters, with a mark where it has more bytes.
pub proof fn law_transcripts_grow_by_messages(
    a: Thread,
    b: Thread,
    m: ThreadMessage,
    role: &'static str,
    x: String,
    y: String,
)
    requires
        call_ensures(build_transcript, (&a,), x),
        call_ensures(build_transcript, (&b,), y),
        call_ensures(MessageRole::name, (&m.role,), role),
        same_work(a, b),
        a.state == b.state,
        a.messages@.len() < 30,
        b.messages@ == a.messages@.push(m),
        a.events@.len() == 0,
        b.events@.len() == 0,
    ensures
        y@ == x@ + "\n"@ + "["@ + role@ + "] "@ + (if m.content@.len() <= 500 {
            m.content@
        } else {
            m.content@.take(500)
        }) + (if utf8_len(m.content@) > 500 {
            "..."@
        } else {
            ""@
        }),
{
    assert(error_lines(a.events@) == Seq::<Seq<char>>::empty());
    assert(error_lines(b.events@) == Seq::<Seq<char>>::empty());
    let la = transcript_lines(a);
    let lb = transcript_lines(b);
    assert(lb =~= la.push(message_line(m)));
    assert(lb.drop_last() =~= la);
    assert(y@ == x@ + "\n"@ + message_line(m));
    assert(y@ =~= x@ + "\n"@ + "["@ + role@ + "] "@ + (if m.content@.len() <= 500 {
        m.content@
    } else {
        m.content@.take(500)
    }) + (if utf8_len(m.content@) > 500 {
        "..."@
    } else {
        ""@
    }));
}

/// Of many messages a transcript shows the last 30, and only these count.
pub proof fn law_transcripts_show_the_last_messages(a: Thread, b: Thread, x: String, y: String)
    requires
        call_ensures(build_transcript, (&a,), x),
        call_ensures(build_transcript, (&b,), y),
        same_work(a, b),
        a.state == b.state,
        a.events@ == b.events@,
        a.messages@.len() >= 30,
        b.messages@ == a.messages@.skip(a.messages@.len() - 30),
    ensures
        x@ == y@,
{
    if a.messages@.len() == 30 {
        assert(a.messages@.skip(0) =~= a.messages@);
    }
    assert(transcript_lines(a) =~= transcript_lines(b));
}

/// An event more changes a transcript where it is a failure, and then by a line
/// at the end that tells what failed and why; the first failure opens the
/// errors.
pub proof fn law_transcripts_grow_by_errors(
    a: Thread,
    b: Thread,
    e: ThreadEvent,
    x: String,
    y: String,
)
    requires
        call_ensures(build_transcript, (&a,), x),
        call_ensures(build_transcript, (&b,), y),
        same_work(a, b),
        a.state == b.state,
        a.messages@ == b.messages@,
        b.events@ == a.events@.push(e),
    ensures
        !(e.kind is ActionFailed) && !(e.kind is StepFailed) ==> y@ == x@,
        ({
            let opening = if exists|i: int|
                0 <= i < a.events@.len() && ((#[trigger] a.events@[i]).kind is ActionFailed
                    || a.events@[i].kind is StepFailed) {
                ""@
            } else {
                "\n"@ + "\n--- Errors ---"@
            };
            &&& e.kind matches EventKind::ActionFailed { action_name, error, .. } ==> y@ == x@
                + opening + "\n"@ + "Action '"@ + action_name@ + "' failed: "@ + error@
            &&& e.kind matches EventKind::StepFailed { error, .. } ==> y@ == x@ + opening + "\n"@
                + "Step failed: "@ + error@
        }),
{
    let sep = "\n"@;
    let opening = "\n"@ + "\n--- Errors ---"@;
    reveal_strlit("");
    lemma_one_event_more(a, b, e);
    if error_line(e).len() > 0 {
        let line = error_line(e)[0];
        if had_errors(a.events@) {
            assert(x@ + ""@ =~= x@);
        } else {
            assert(y@ =~= x@ + opening + sep + line);
        }
        match e.kind {
            EventKind::ActionFailed { action_name, error, .. } => {
                let front = x@ + (if had_errors(a.events@) {
                    ""@
                } else {
                    opening
                }) + sep;
                assert(front + line =~= front + "Action '"@ + action_name@ + "' failed: "@ + error@);
            },
            EventKind::StepFailed { error, .. } => {
                let front = x@ + (if had_errors(a.events@) {
                    ""@
                } else {
                    opening
                }) + sep;
                assert(front + line =~= front + "Step failed: "@ + error@);
            },
            _ => {},
        }
    }
}

proof fn lemma_one_event_more(a: Thread, b: Thread, e: ThreadEvent)
    requires
        same_work(a, b),
        a.state == b.state,
        a.messages@ == b.messages@,
        b.events@ == a.events@.push(e),
    ensures
        error_line(e).len() == 0 ==> transcript_of(b) == transcript_of(a),
        error_line(e).len() > 0 && had_errors(a.events@) ==> transcript_of(b) == transcript_of(a)
            + "\n"@ + error_line(e)[0],
        error_line(e).len() > 0 && !had_errors(a.events@) ==> transcript_of(b) == transcript_of(a)
            + "\n"@ + "\n--- Errors ---"@ + "\n"@ + error_line(e)[0],
{
    let sep = "\n"@;
    let la = transcript_lines(a);
    let lb = transcript_lines(b);
    assert(b.events@.drop_last() =~= a.events@);
    law_errors_are_listed(a.events@);
    let line = error_line(e);
    assert(error_lines(b.events@) == error_lines(a.events@) + line);
    if line.len() == 0 {
        assert(error_lines(b.events@) =~= error_lines(a.events@));
        assert(lb =~= la);
    } else {
        assert(line =~= seq![line[0]]);
        if had_errors(a.events@) {
            assert(lb =~= la.push(line[0]));
            assert(lb.drop_last() =~= la);
        } else {
            let opened = la.push("\n--- Errors ---"@);
            assert(error_lines(a.events@) =~= Seq::<Seq<char>>::empty());
            assert(lb =~= opened.push(line[0]));
            assert(lb.drop_last() =~= opened);
            assert(opened.drop_last() =~= la);
            assert(joined(opened, sep) == transcript_of(a) + sep + "\n--- Errors ---"@);
        }
    }
}

/// A reflection starts with the thread's own transcript and nothing used. It
/// asks for a summary first; then for lessons where an action or a step
/// failed; then for issues there and where the thread failed; and at last for
/// missing capabilities where an action failed for want of a lease. It asks for
/// nothing else, and for nothing twice.
pub proof fn law_what_a_reflection_asks_for(thread: Thread, transcript: String, r: Reflection)
    requires
        call_ensures(reflect, (&thread,), r),
        call_ensures(build_transcript, (&thread,), transcript),
    ensures
        r.shown() == transcript@,
        r.kept().len() == 0,
        r.used().input_tokens == 0 && r.used().output_tokens == 0,
        ({
            let events = thread.events@;
            let failed = exists|i: int|
                0 <= i < events.len() && ((#[trigger] events[i]).kind is ActionFailed
                    || events[i].kind is StepFailed);
            let unleased = exists|i: int|
                0 <= i < events.len() && ((
                #[trigger] events[i]).kind matches EventKind::ActionFailed { error, .. } && exists|
                    rest: Seq<char>,
                | error@ == #[trigger] ("no lease for action '"@ + rest));
            let asked = r.ahead();
            &&& asked[0] == DocType::Summary
            &&& failed <==> asked.len() > 1 && asked[1] == DocType::Lesson
            &&& failed ==> asked[2] == DocType::Issue
            &&& !failed && thread.state == ThreadState::Failed ==> asked[1] == DocType::Issue
            &&& unleased ==> asked == seq![
                DocType::Summary,
                DocType::Lesson,
                DocType::Issue,
                DocType::Spec,
            ]
            &&& !unleased && failed ==> asked.len() == 3
            &&& !failed && thread.state == ThreadState::Failed ==> asked.len() == 2
            &&& !failed && thread.state != ThreadState::Failed ==> asked.len() == 1
        }),
{
    let events = thread.events@;
    let p = "no lease for action '"@;
    assert forall|i: int| 0 <= i < events.len() implies ((
    #[trigger] events[i]).kind matches EventKind::ActionFailed { error, .. } ==> (begins_with(
        error@,
        p,
    ) <==> exists|rest: Seq<char>| error@ == #[trigger] (p + rest))) by {
        if let EventKind::ActionFailed { error, .. } = events[i].kind {
            if begins_with(error@, p) {
                assert(error@ =~= p + error@.skip(p.len() as int));
            }
            if exists|rest: Seq<char>| error@ == #[trigger] (p + rest) {
                let rest = choose|rest: Seq<char>| error@ == #[trigger] (p + rest);
                assert(error@.subrange(0, p.len() as int) =~= p);
            }
        }
    }
    law_plan(thread);
    let unleased = exists|i: int|
        0 <= i < events.len() && ((#[trigger] events[i]).kind matches EventKind::ActionFailed {
            error,
            ..
        } && exists|rest: Seq<char>| error@ == #[trigger] (p + rest));
    if unleased {
        let i = choose|i: int|
            0 <= i < events.len() && ((#[trigger] events[i]).kind matches EventKind::ActionFailed {
                error,
                ..
            } && exists|rest: Seq<char>| error@ == #[trigger] (p + rest));
        assert(events[i].kind is ActionFailed);
        assert(lacked_capability(events));
    }
    if lacked_capability(events) {
        let i = choose|i: int|
            0 <= i < events.len() && ((#[trigger] events[i]).kind matches EventKind::ActionFailed {
                error,
                ..
            } && begins_with(error@, p));
        assert(events[i].kind is ActionFailed);
        assert(unleased);
        assert(r.ahead() =~= seq![
            DocType::Summary,
            DocType::Lesson,
            DocType::Issue,
            DocType::Spec,
        ]);
    }
}

/// Each request shows the model the whole transcript and then says what is
/// asked for: a summary, lessons, missing capabilities or issues.
pub proof fn law_requests_ask_for_the_next_doc(state: Reflection, r: Option<LlmRequest>)
    requires
        call_ensures(Reflection::next_request, (&state,), r),
    ensures
        r is None <==> state.ahead().len() == 0,
        r matches Some(request) ==> {
            let asked = request.messages@[1].content@;
            let t = state.ahead()[0];
            &&& request.force_text
            &&& request.messages@.len() == 2
            &&& request.messages@[0].role == MessageRole::System
            &&& request.messages@[0].content@
                == "You are analyzing a completed agent thread. Here is the transcript:\n\n"@
                + state.shown()
            &&& request.messages@[1].role == MessageRole::User
            &&& t == DocType::Summary ==> begins_with(asked, "Summarize what this thread"@)
            &&& t == DocType::Lesson ==> begins_with(asked, "Extract lessons learned"@)
            &&& t == DocType::Issue ==> begins_with(asked, "Identify any unresolved issues"@)
            &&& t == DocType::Spec ==> begins_with(asked, "Identify the capabilities"@)
        },
{
    if r is Some {
        let request = r->0;
        let t = state.ahead()[0];
        let want = doc_request_of(state.shown(), prompt_of(t));
        let views = message_views(request.messages@);
        assert(views.len() == 2);
        assert(views[0] == request.messages@[0]@);
        assert(views[1] == request.messages@[1]@);
        assert(views[1].content == prompt_of(t));
        reveal_strlit(
            "Summarize what this thread accomplished in 2-4 sentences. Include:\n- The goal and whether it was achieved\n- Key results or outputs\n- Tools/actions that were used\nBe factual and concise.",
        );
        reveal_strlit(
            "Extract lessons learned from this thread's execution. Focus on:\n- Errors encountered and how they were resolved (or not)\n- Workarounds that were discovered\n- Surprising findings about tool behavior\n- Patterns that could be reused in similar tasks\nWrite each lesson as a single clear sentence. If there are no meaningful lessons, write 'No lessons.'.",
        );
        reveal_strlit(
            "Identify any unresolved issues from this thread. Focus on:\n- Errors that were not resolved\n- Tasks that could not be completed\n- Missing tools or capabilities that were needed\n- Data quality issues encountered\nIf there are no unresolved issues, write 'No issues.'.",
        );
        reveal_strlit(
            "Identify the capabilities that this thread needed and did not have. Focus on:\n- Actions that were called but are not available\n- What each missing action was expected to do\n- Existing actions that could stand in for it\nWrite each missing capability as a single clear sentence.",
        );
        reveal_strlit("Summarize what this thread");
        reveal_strlit("Extract lessons learned");
        reveal_strlit("Identify any unresolved issues");
        reveal_strlit("Identify the capabilities");
        assert(SUMMARY_PROMPT@.subrange(0, 26) =~= "Summarize what this thread"@);
        assert(LESSON_PROMPT@.subrange(0, 23) =~= "Extract lessons learned"@);
        assert(ISSUE_PROMPT@.subrange(0, 30) =~= "Identify any unresolved issues"@);
        assert(SPEC_PROMPT@.subrange(0, 25) =~= "Identify the capabilities"@);
    }
}

/// A reply is taken for the doc that was asked for: what the model said is kept
/// as that doc, unless it is an issue of 20 bytes or less; its tokens count
/// either way; and a failed request changes nothing and is handed back.
pub proof fn law_replies_become_docs(
    state: &mut Reflection,
    thread: Thread,
    reply: Result<LlmOutput, EngineError>,
    text: String,
    r: Result<(), EngineError>,
)
    requires
        call_ensures(Reflection::take_reply, (state, &thread, reply), r),
        old(state).ahead().len() > 0,
        reply matches Ok(output) ==> old(state).used().fits(output.usage),
        reply matches Ok(output) ==> call_ensures(
            crate::engine::types::LlmResponse::into_content,
            (output.response,),
            text,
        ),
    ensures
        reply is Ok <==> r is Ok,
        reply matches Err(e) ==> r == Err::<(), EngineError>(e) && final(state).ahead() == old(state).ahead() && final(state).kept() == old(state).kept() && final(state).used() == old(state).used(),
        reply matches Ok(output) ==> {
            let t = old(state).ahead()[0];
            let before = old(state).kept();
            let after = final(state).kept();
            &&& final(state).ahead().len() == old(state).ahead().len() - 1
            &&& forall|i: int|
                0 <= i < final(state).ahead().len() ==> #[trigger] final(state).ahead()[i] == old(state).ahead()[i + 1]
            &&& final(state).used().input_tokens == old(state).used().input_tokens
                + output.usage.input_tokens
            &&& final(state).used().output_tokens == old(state).used().output_tokens
                + output.usage.output_tokens
            &&& t == DocType::Issue && utf8_len(text@) <= 20 ==> after == before
            &&& t != DocType::Issue || utf8_len(text@) > 20 ==> {
                &&& after.len() == before.len() + 1
                &&& after.drop_last() == before
                &&& after.last().doc_type == t
                &&& after.last().content == text@
                &&& after.last().project_id == thread.project_id
                &&& after.last().source_thread == Some(thread.id)
            }
        },
{
    if reply is Ok {
        let output = reply->Ok_0;
        let t = old(state).ahead()[0];
        let before = old(state).kept();
        if is_kept(t, text@) {
            assert(final(state).kept().drop_last() =~= before);
        }
    }
}

/// A doc names what it is and the goal it is about, holds what the model said,
/// and belongs to the thread and its project; what it cost is what the model
/// counted.
pub proof fn law_docs_name_their_goal(
    thread: Thread,
    t: DocType,
    output: LlmOutput,
    text: String,
    r: (MemoryDoc, TokenUsage),
)
    requires
        call_ensures(produce_doc, (&thread, t, output), r),
        call_ensures(crate::engine::types::LlmResponse::into_content, (output.response,), text),
    ensures
        r.0.doc_type == t,
        r.0.project_id == thread.project_id,
        r.0.source_thread == Some(thread.id),
        r.0.content@ == text@,
        r.1 == output.usage,
        t == DocType::Summary ==> r.0.title@ == "Summary: "@ + thread.goal@,
        t == DocType::Lesson ==> r.0.title@ == "Lessons: "@ + thread.goal@,
        t == DocType::Issue ==> r.0.title@ == "Issues: "@ + thread.goal@,
        t == DocType::Playbook ==> r.0.title@ == "Playbook: "@ + thread.goal@,
        t == DocType::Spec ==> r.0.title@ == "Spec: "@ + thread.goal@,
        t == DocType::Note ==> r.0.title@ == "Note: "@ + thread.goal@,
{
}

/// A request for a doc shows the transcript and then asks, in plain text.
pub proof fn law_requests_for_docs(transcript: &str, prompt: &str, r: LlmRequest)
    requires
        call_ensures(doc_request, (transcript, prompt), r),
    ensures
        r.force_text,
        r.messages@.len() == 2,
        r.messages@[0].role == MessageRole::System,
        r.messages@[0].content@
            == "You are analyzing a completed agent thread. Here is the transcript:\n\n"@
            + transcript@,
        r.messages@[1].role == MessageRole::User,
        r.messages@[1].content@ == prompt@,
{
    let views = message_views(r.messages@);
    assert(views.len() == r.messages@.len());
    assert(views[0] == r.messages@[0]@ && views[1] == r.messages@[1]@);
}

} // verus!
