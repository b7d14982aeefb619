//! The conversation: messages, the tools of the current turn and the status.

use vstd::prelude::*;
use crate::text::{char_count, repeat_char, repeated};
use crate::time::{now, since, span_between, Span, Timestamp};
use crate::tui::line::{
    append_spans, blank, blank_line, copy_line, one, push_line, span, span_views, styled,
    styled_views, two, SpanStyle, SpanView, StyledLine, TextSpan,
};
use crate::tui::slot::TuiSlot;

verus! {

broadcast use vstd::string::group_string_axioms;

/// Who a message is from.
#[derive(Clone, Copy, Debug, PartialEq, Eq, Structural)]
pub enum ChatRole {
    User,
    Assistant,
    System,
}

/// A message of the conversation. `body` holds the lines of its content as
/// they are laid out in the usable width: markdown for the assistant, wrapped
/// text for the system; a user's message stands as it is.
#[derive(Debug)]
pub struct ChatMessage {
    pub role: ChatRole,
    pub content: String,
    pub timestamp: Timestamp,
    pub body: Vec<StyledLine>,
}

/// How a tool call went.
#[derive(Clone, Copy, Debug, PartialEq, Eq, Structural)]
pub enum ToolStatus {
    Running,
    Success,
    Failed,
}

/// A tool call.
#[derive(Debug)]
pub struct ToolActivity {
    pub name: String,
    pub detail: Option<String>,
    pub status: ToolStatus,
    pub started_at: Timestamp,
    pub duration_ms: Option<u64>,
}

/// The texts of a tool's line: its duration, and its command cut to fit.
#[derive(Debug)]
pub struct ToolTexts {
    pub duration: String,
    pub command: String,
}

/// What the conversation shows.
#[derive(Debug)]
pub struct AppState {
    pub messages: Vec<ChatMessage>,
    pub recent_tools: Vec<ToolActivity>,
    pub active_tools: Vec<ToolActivity>,
    pub status_text: String,
    pub is_streaming: bool,
    /// How many lines the view is scrolled up from the bottom.
    pub scroll_offset: u16,
}

// ── Messages ────────────────────────────────────────────────

/// Columns that content may use: all but four.
pub open spec fn usable(width: u16) -> nat {
    if width < 4 {
        0
    } else {
        (width - 4) as nat
    }
}

/// The columns that content may use.
pub fn usable_columns(width: u16) -> (r: usize)
    ensures
        r == usable(width),
{
    (width as usize).saturating_sub(4)
}

/// The columns in which a message's body is laid out: an answer is indented by
/// two more.
pub fn body_columns(role: ChatRole, width: u16) -> (r: usize)
    ensures
        r == (match role {
            ChatRole::Assistant => minus(usable(width), 2),
            _ => usable(width),
        }),
{
    match role {
        ChatRole::Assistant => usable_columns(width).saturating_sub(2),
        _ => usable_columns(width),
    }
}

/// The rule above an answer: at most 60 columns.
pub open spec fn separator(usable_width: nat) -> Seq<SpanView> {
    let n = if usable_width < 60 {
        usable_width
    } else {
        60
    };
    seq![span("  "@ + repeated('\u{2500}', n), SpanStyle::Dim)]
}

/// A line moved in by two columns.
pub open spec fn indented(line: Seq<SpanView>) -> Seq<SpanView> {
    seq![span("  "@, SpanStyle::Raw)] + line
}

/// The lines of one message. A user's message has a blank line above it
/// unless it is the first thing shown.
pub open spec fn message_block(m: ChatMessage, first: bool, usable_width: nat) -> Seq<
    Seq<SpanView>,
> {
    match m.role {
        ChatRole::User => (if first {
            Seq::<Seq<SpanView>>::empty()
        } else {
            seq![blank_line()]
        }) + seq![
            seq![span("\u{25CF} "@, SpanStyle::Accent), span(m.content@, SpanStyle::Bold)],
            blank_line(),
        ],
        ChatRole::Assistant => seq![separator(usable_width)] + styled_views(m.body@).map_values(
            |l: Seq<SpanView>| indented(l),
        ) + seq![blank_line()],
        ChatRole::System => styled_views(m.body@),
    }
}

/// The lines of all messages.
pub open spec fn message_lines(messages: Seq<ChatMessage>, usable_width: nat) -> Seq<Seq<SpanView>>
    decreases messages.len(),
{
    if messages.len() == 0 {
        seq![]
    } else {
        let above = message_lines(messages.drop_last(), usable_width);
        above + message_block(messages.last(), above.len() == 0, usable_width)
    }
}

fn push_separator(lines: &mut Vec<StyledLine>, usable_width: usize)
    ensures
        styled_views(final(lines)@) == styled_views(old(lines)@).push(
            separator(usable_width as nat),
        ),
{
    let n: usize = if usable_width < 60 {
        usable_width
    } else {
        60
    };
    let mut text = "  ".to_string();
    text.append(repeat_char('\u{2500}', n).as_str());
    push_line(lines, one(styled(text, SpanStyle::Dim)));
}

fn indent(line: &StyledLine) -> (r: StyledLine)
    ensures
        r@ == indented(line@),
{
    let mut spans: Vec<TextSpan> = Vec::new();
    spans.push(styled("  ".to_string(), SpanStyle::Raw));
    assert(span_views(spans@) =~= seq![span("  "@, SpanStyle::Raw)]);
    append_spans(&mut spans, &line.spans);
    StyledLine { spans }
}

fn push_indented(lines: &mut Vec<StyledLine>, body: &Vec<StyledLine>)
    ensures
        styled_views(final(lines)@) == styled_views(old(lines)@) + styled_views(body@).map_values(
            |l: Seq<SpanView>| indented(l),
        ),
{
    let ghost all = styled_views(body@).map_values(|l: Seq<SpanView>| indented(l));
    let mut i: usize = 0;
    assert(styled_views(lines@) =~= styled_views(lines@) + all.take(0));
    while i < body.len()
        invariant
            i <= body.len(),
            all == styled_views(body@).map_values(|l: Seq<SpanView>| indented(l)),
            styled_views(lines@) == styled_views(old(lines)@) + all.take(i as int),
        decreases body.len() - i,
    {
        let line = indent(&body[i]);
        assert(all[i as int] == line@);
        push_line(lines, line);
        i += 1;
        assert(all.take(i as int) =~= all.take(i - 1).push(all[i - 1]));
        assert(styled_views(lines@) =~= styled_views(old(lines)@) + all.take(i as int));
    }
    assert(all.take(i as int) =~= all);
}

fn push_copies(lines: &mut Vec<StyledLine>, body: &Vec<StyledLine>)
    ensures
        styled_views(final(lines)@) == styled_views(old(lines)@) + styled_views(body@),
{
    let ghost all = styled_views(body@);
    let mut i: usize = 0;
    assert(styled_views(lines@) =~= styled_views(lines@) + all.take(0));
    while i < body.len()
        invariant
            i <= body.len(),
            all == styled_views(body@),
            styled_views(lines@) == styled_views(old(lines)@) + all.take(i as int),
        decreases body.len() - i,
    {
        let line = copy_line(&body[i]);
        assert(all[i as int] == line@);
        push_line(lines, line);
        i += 1;
        assert(all.take(i as int) =~= all.take(i - 1).push(all[i - 1]));
        assert(styled_views(lines@) =~= styled_views(old(lines)@) + all.take(i as int));
    }
    assert(all.take(i as int) =~= all);
}

fn push_message(lines: &mut Vec<StyledLine>, m: &ChatMessage, usable_width: usize)
    ensures
        styled_views(final(lines)@) == styled_views(old(lines)@) + message_block(
            *m,
            old(lines).len() == 0,
            usable_width as nat,
        ),
{
    let ghost before = styled_views(lines@);
    let ghost block = message_block(*m, lines.len() == 0, usable_width as nat);
    match m.role {
        ChatRole::User => {
            if lines.len() > 0 {
                push_line(lines, blank());
            }
            push_line(
                lines,
                two(
                    styled("\u{25CF} ".to_string(), SpanStyle::Accent),
                    styled(m.content.clone(), SpanStyle::Bold),
                ),
            );
            push_line(lines, blank());
            assert(styled_views(lines@) =~= before + block);
        },
        ChatRole::Assistant => {
            push_separator(lines, usable_width);
            push_indented(lines, &m.body);
            push_line(lines, blank());
            assert(styled_views(lines@) =~= before + block);
        },
        ChatRole::System => {
            push_copies(lines, &m.body);
        },
    }
}

// ── Tools ───────────────────────────────────────────────────

/// The width of a text in columns, as `unicode_width` counts it.
pub uninterp spec fn width_of(s: Seq<char>) -> nat;

/// `unicode_width::UnicodeWidthStr::width`: the width of a text in terminal
/// columns, which depends on the text alone.
#[verifier::external_body]
fn display_width(s: &str) -> (r: usize)
    ensures
        r == width_of(s@),
{
    unicode_width::UnicodeWidthStr::width(s)
}

/// `b` taken from `a`, but never below zero.
pub open spec fn minus(a: nat, b: nat) -> nat {
    if a < b {
        0
    } else {
        (a - b) as nat
    }
}

/// The icon of a tool and its style.
pub open spec fn tool_icon(status: ToolStatus, is_active: bool) -> (Seq<char>, SpanStyle) {
    if is_active {
        ("\u{25CB}"@, SpanStyle::Accent)
    } else {
        match status {
            ToolStatus::Success => ("\u{25CF}"@, SpanStyle::Success),
            ToolStatus::Failed => ("\u{2717}"@, SpanStyle::Error),
            ToolStatus::Running => ("\u{25CB}"@, SpanStyle::Accent),
        }
    }
}

fn icon_for(status: ToolStatus, is_active: bool) -> (r: (&'static str, SpanStyle))
    ensures
        (r.0@, r.1) == tool_icon(status, is_active),
{
    if is_active {
        ("\u{25CB}", SpanStyle::Accent)
    } else {
        match status {
            ToolStatus::Success => ("\u{25CF}", SpanStyle::Success),
            ToolStatus::Failed => ("\u{2717}", SpanStyle::Error),
            ToolStatus::Running => ("\u{25CB}", SpanStyle::Accent),
        }
    }
}

/// What stands before a tool's command.
pub open spec fn tool_prefix(status: ToolStatus, is_active: bool) -> Seq<char> {
    "  \u{250A} "@ + tool_icon(status, is_active).0 + " "@
}

fn prefix_for(status: ToolStatus, is_active: bool) -> (r: String)
    ensures
        r@ == tool_prefix(status, is_active),
{
    let mut prefix = "  \u{250A} ".to_string();
    prefix.append(icon_for(status, is_active).0);
    prefix.append(" ");
    prefix
}

/// How long a tool has been running, or ran, in milliseconds; nothing where
/// that is not known.
pub open spec fn elapsed_of(tool: ToolActivity, is_active: bool, now: Timestamp) -> Option<u64> {
    if is_active {
        let d = span_between(now.secs, now.nanos, tool.started_at.secs, tool.started_at.nanos);
        Some(
            (Span { secs: d.0 as i64, nanos: d.1 as i32 }).abs_millis_spec() as u64,
        )
    } else {
        tool.duration_ms
    }
}

/// How long a tool has been running, or ran, in milliseconds.
pub fn tool_elapsed_ms(tool: &ToolActivity, is_active: bool, now: Timestamp) -> (r: Option<u64>)
    requires
        now.valid(),
        tool.started_at.valid(),
    ensures
        r == elapsed_of(*tool, is_active, now),
{
    if is_active {
        let span = since(now, tool.started_at);
        Some(span.abs_millis())
    } else {
        tool.duration_ms
    }
}

/// How long a tool has been running until now, or ran, in milliseconds.
pub fn tool_elapsed_now(tool: &ToolActivity, is_active: bool) -> (r: Option<u64>)
    requires
        tool.started_at.valid(),
    ensures
        exists|at: Timestamp| #[trigger] at.valid() && r == elapsed_of(*tool, is_active, at),
{
    tool_elapsed_ms(tool, is_active, now())
}

/// The command of a tool: its detail, or its name where it has none.
pub open spec fn command_of(tool: ToolActivity) -> Seq<char> {
    match tool.detail {
        Some(detail) => "$  "@ + detail@,
        None => "$  "@ + tool.name@,
    }
}

/// The command of a tool, before it is cut to fit.
pub fn tool_command(tool: &ToolActivity) -> (r: String)
    ensures
        r@ == command_of(*tool),
{
    let mut text = "$  ".to_string();
    match &tool.detail {
        Some(detail) => text.append(detail.as_str()),
        None => text.append(tool.name.as_str()),
    }
    text
}

/// Columns that are left for a tool's command, beside its icon, its duration
/// and a gap of two.
pub open spec fn command_room(
    status: ToolStatus,
    is_active: bool,
    duration: Seq<char>,
    usable_width: nat,
) -> nat {
    minus(usable_width, width_of(tool_prefix(status, is_active)) + width_of(duration) + 2)
}

/// How many columns a tool's command may take.
pub fn available_for_command(
    tool: &ToolActivity,
    is_active: bool,
    duration: &str,
    usable_width: usize,
) -> (r: usize)
    ensures
        r == command_room(tool.status, is_active, duration@, usable_width as nat),
{
    let prefix = prefix_for(tool.status, is_active);
    usable_width.saturating_sub(display_width(prefix.as_str())).saturating_sub(
        display_width(duration),
    ).saturating_sub(2)
}

/// The blanks between a command and its duration: what is left of the width,
/// and at least one.
pub open spec fn gap_of(
    status: ToolStatus,
    is_active: bool,
    texts: ToolTexts,
    usable_width: nat,
) -> nat {
    let left = minus(
        usable_width,
        width_of(tool_prefix(status, is_active)) + width_of(texts.command@) + width_of(
            texts.duration@,
        ),
    );
    if left < 1 {
        1
    } else {
        left
    }
}

/// The line of a tool.
pub open spec fn tool_line(
    tool: ToolActivity,
    texts: ToolTexts,
    usable_width: nat,
    is_active: bool,
) -> Seq<SpanView> {
    seq![
        span("  \u{250A} "@, SpanStyle::Dim),
        span(
            tool_icon(tool.status, is_active).0 + " "@,
            tool_icon(tool.status, is_active).1,
        ),
        span(texts.command@, SpanStyle::Dim),
        span(
            repeated(' ', gap_of(tool.status, is_active, texts, usable_width)),
            SpanStyle::Raw,
        ),
        span(texts.duration@, SpanStyle::Dim),
    ]
}

/// Lays a tool's line out: icon, command, and the duration at the right.
pub fn render_tool_line(
    tool: &ToolActivity,
    texts: &ToolTexts,
    usable_width: usize,
    is_active: bool,
) -> (r: StyledLine)
    ensures
        r@ == tool_line(*tool, *texts, usable_width as nat, is_active),
{
    let (icon, icon_style) = icon_for(tool.status, is_active);
    let prefix = prefix_for(tool.status, is_active);
    let left: usize = usable_width.saturating_sub(display_width(prefix.as_str())).saturating_sub(
        display_width(texts.command.as_str()),
    ).saturating_sub(display_width(texts.duration.as_str()));
    let gap: usize = if left < 1 {
        1
    } else {
        left
    };
    let mut icon_text = icon.to_string();
    icon_text.append(" ");
    let mut spans: Vec<TextSpan> = Vec::new();
    spans.push(styled("  \u{250A} ".to_string(), SpanStyle::Dim));
    spans.push(styled(icon_text, icon_style));
    spans.push(styled(texts.command.clone(), SpanStyle::Dim));
    spans.push(styled(repeat_char(' ', gap), SpanStyle::Raw));
    spans.push(styled(texts.duration.clone(), SpanStyle::Dim));
    assert(span_views(spans@) =~= tool_line(*tool, *texts, usable_width as nat, is_active));
    StyledLine { spans }
}

/// When the assistant last spoke.
pub open spec fn last_answer(messages: Seq<ChatMessage>) -> Option<Timestamp>
    decreases messages.len(),
{
    if messages.len() == 0 {
        None
    } else if messages.last().role == ChatRole::Assistant {
        Some(messages.last().timestamp)
    } else {
        last_answer(messages.drop_last())
    }
}

/// The tool belongs to the current turn: it started after the last answer.
pub open spec fn in_turn(tool: ToolActivity, answered: Option<Timestamp>) -> bool {
    match answered {
        Some(at) => at.before(tool.started_at),
        None => true,
    }
}

fn last_answer_at(messages: &Vec<ChatMessage>) -> (r: Option<Timestamp>)
    ensures
        r == last_answer(messages@),
{
    let mut n: usize = messages.len();
    assert(messages@.take(n as int) =~= messages@);
    while n > 0
        invariant
            n <= messages.len(),
            last_answer(messages@) == last_answer(messages@.take(n as int)),
        decreases n,
    {
        let m = &messages[n - 1];
        proof {
            let head = messages@.take(n as int);
            assert(head.last() == messages@[n - 1]);
            assert(head.drop_last() =~= messages@.take(n - 1));
        }
        if m.role == ChatRole::Assistant {
            return Some(m.timestamp);
        }
        n -= 1;
    }
    None
}

/// The positions of the finished tools of the current turn, in order.
pub open spec fn turn_positions(tools: Seq<ToolActivity>, answered: Option<Timestamp>) -> Seq<int>
    decreases tools.len(),
{
    if tools.len() == 0 {
        seq![]
    } else {
        let before = turn_positions(tools.drop_last(), answered);
        if in_turn(tools.last(), answered) {
            before.push(tools.len() - 1)
        } else {
            before
        }
    }
}

/// Which finished tools belong to the current turn.
pub fn turn_tools(state: &AppState) -> (r: Vec<usize>)
    ensures
        r@.map_values(|i: usize| i as int) == turn_positions(
            state.recent_tools@,
            last_answer(state.messages@),
        ),
        forall|k: int| 0 <= k < r.len() ==> #[trigger] r@[k] < state.recent_tools.len(),
{
    let answered = last_answer_at(&state.messages);
    let tools = &state.recent_tools;
    let mut out: Vec<usize> = Vec::new();
    let mut i: usize = 0;
    assert(tools@.take(0) =~= seq![]);
    assert(out@.map_values(|i: usize| i as int) =~= seq![]);
    while i < tools.len()
        invariant
            i <= tools.len(),
            forall|k: int| 0 <= k < out.len() ==> #[trigger] out@[k] < tools.len(),
            out@.map_values(|i: usize| i as int) == turn_positions(tools@.take(i as int), answered),
        decreases tools.len() - i,
    {
        proof {
            let next = tools@.take(i + 1);
            assert(next.drop_last() =~= tools@.take(i as int));
            assert(next.last() == tools@[i as int]);
        }
        let current = match answered {
            Some(at) => at.is_before(tools[i].started_at),
            None => true,
        };
        let ghost before = out@;
        if current {
            out.push(i);
            assert(out@.map_values(|i: usize| i as int) =~= before.map_values(
                |i: usize| i as int,
            ).push(i as int));
        }
        i += 1;
    }
    assert(tools@.take(i as int) =~= tools@);
    out
}

/// The lines of the tools of the current turn: a blank line and one line for
/// each, finished ones first; nothing where there are none.
pub open spec fn tool_lines(
    state: AppState,
    recent: Seq<ToolTexts>,
    active: Seq<ToolTexts>,
    usable_width: nat,
) -> Seq<Seq<SpanView>> {
    let turn = turn_positions(state.recent_tools@, last_answer(state.messages@));
    if turn.len() == 0 && state.active_tools@.len() == 0 {
        seq![]
    } else {
        seq![blank_line()] + Seq::new(
            turn.len(),
            |i: int| tool_line(state.recent_tools@[turn[i]], recent[i], usable_width, false),
        ) + Seq::new(
            state.active_tools@.len(),
            |i: int| tool_line(state.active_tools@[i], active[i], usable_width, true),
        )
    }
}

/// The line that shows what the agent is doing.
pub open spec fn status_lines(state: AppState) -> Seq<Seq<SpanView>> {
    if state.status_text@.len() > 0 && !state.is_streaming {
        seq![seq![span("  \u{25CB} "@ + state.status_text@, SpanStyle::Dim)]]
    } else {
        seq![]
    }
}

/// All lines of the conversation.
pub open spec fn all_lines(
    state: AppState,
    recent: Seq<ToolTexts>,
    active: Seq<ToolTexts>,
    usable_width: nat,
) -> Seq<Seq<SpanView>> {
    message_lines(state.messages@, usable_width) + tool_lines(state, recent, active, usable_width)
        + status_lines(state)
}

/// The part of `lines` that an area of this height shows when it is scrolled
/// up from the bottom by `scroll` lines.
pub open spec fn visible(lines: Seq<Seq<SpanView>>, height: nat, scroll: nat) -> Seq<
    Seq<SpanView>,
> {
    lines.subrange(
        minus(lines.len(), height + scroll) as int,
        minus(lines.len(), scroll) as int,
    )
}

fn keep_visible(lines: Vec<StyledLine>, height: usize, scroll: usize) -> (r: Vec<StyledLine>)
    requires
        height + scroll <= usize::MAX,
    ensures
        styled_views(r@) == visible(styled_views(lines@), height as nat, scroll as nat),
{
    let total: usize = lines.len();
    let start: usize = total.saturating_sub(height + scroll);
    let end: usize = total.saturating_sub(scroll);
    let mut out: Vec<StyledLine> = Vec::new();
    let mut i: usize = start;
    while i < end
        invariant
            start <= i <= end <= total,
            total == lines.len(),
            out.len() == i - start,
            forall|k: int| 0 <= k < out.len() ==> (#[trigger] out@[k])@ == lines@[start + k]@,
        decreases end - i,
    {
        out.push(copy_line(&lines[i]));
        i += 1;
    }
    assert(styled_views(out@) =~= visible(styled_views(lines@), height as nat, scroll as nat));
    out
}

/// Shows the conversation in a theme.
#[derive(Debug)]
pub struct ConversationWidget<T> {
    theme: T,
}

impl<T> ConversationWidget<T> {
    /// The widget's theme.
    pub closed spec fn look(self) -> T {
        self.theme
    }

    /// A widget in a theme.
    pub fn new(theme: T) -> (r: ConversationWidget<T>)
        ensures
            r.look() == theme,
    {
        ConversationWidget { theme }
    }

    /// The widget's theme.
    pub fn theme(&self) -> (r: &T)
        ensures
            *r == self.look(),
    {
        &self.theme
    }

    /// The widget's identifier.
    pub fn id(&self) -> (r: &'static str)
        ensures
            r@ == "conversation"@,
    {
        "conversation"
    }

    /// The conversation has a tab.
    pub fn slot(&self) -> (r: TuiSlot)
        ensures
            r == TuiSlot::Tab,
    {
        TuiSlot::Tab
    }

    fn push_tools(
        lines: &mut Vec<StyledLine>,
        state: &AppState,
        turn: &Vec<usize>,
        recent: &Vec<ToolTexts>,
        active: &Vec<ToolTexts>,
        usable_width: usize,
    )
        requires
            turn@.map_values(|i: usize| i as int) == turn_positions(
                state.recent_tools@,
                last_answer(state.messages@),
            ),
            forall|k: int| 0 <= k < turn.len() ==> #[trigger] turn@[k] < state.recent_tools.len(),
            recent.len() == turn.len(),
            active.len() == state.active_tools.len(),
        ensures
            styled_views(final(lines)@) == styled_views(old(lines)@) + tool_lines(
                *state,
                recent@,
                active@,
                usable_width as nat,
            ),
    {
        let ghost before = styled_views(lines@);
        let ghost all = tool_lines(*state, recent@, active@, usable_width as nat);
        let ghost positions = turn_positions(state.recent_tools@, last_answer(state.messages@));
        assert(turn@.map_values(|i: usize| i as int).len() == positions.len());
        if turn.len() == 0 && state.active_tools.len() == 0 {
            assert(styled_views(lines@) =~= before + all);
            return;
        }
        push_line(lines, blank());
        assert(styled_views(lines@) =~= before + all.take(1));
        let mut i: usize = 0;
        while i < turn.len()
            invariant
                i <= turn.len(),
                recent.len() == turn.len(),
                turn.len() == positions.len(),
                turn@.map_values(|i: usize| i as int) == positions,
                positions == turn_positions(state.recent_tools@, last_answer(state.messages@)),
                forall|k: int|
                    0 <= k < turn.len() ==> #[trigger] turn@[k] < state.recent_tools.len(),
                all == tool_lines(*state, recent@, active@, usable_width as nat),
                all.len() == 1 + turn.len() + state.active_tools.len(),
                turn.len() > 0 || state.active_tools.len() > 0,
                styled_views(lines@) == before + all.take(1 + i as int),
            decreases turn.len() - i,
        {
            let line = render_tool_line(
                &state.recent_tools[turn[i]],
                &recent[i],
                usable_width,
                false,
            );
            assert(positions[i as int] == turn@.map_values(|i: usize| i as int)[i as int]);
            assert(line@ == all[1 + i]);
            push_line(lines, line);
            i += 1;
            assert(all.take(1 + i as int) =~= all.take(i as int).push(all[i as int]));
            assert(styled_views(lines@) =~= before + all.take(1 + i as int));
        }
        let mut j: usize = 0;
        while j < state.active_tools.len()
            invariant
                j <= state.active_tools.len(),
                active.len() == state.active_tools.len(),
                turn.len() == positions.len(),
                positions == turn_positions(state.recent_tools@, last_answer(state.messages@)),
                all == tool_lines(*state, recent@, active@, usable_width as nat),
                all.len() == 1 + turn.len() + state.active_tools.len(),
                turn.len() > 0 || state.active_tools.len() > 0,
                styled_views(lines@) == before + all.take(1 + turn.len() + j as int),
            decreases state.active_tools.len() - j,
        {
            let line = render_tool_line(&state.active_tools[j], &active[j], usable_width, true);
            assert(line@ == all[1 + turn.len() + j]);
            push_line(lines, line);
            j += 1;
            assert(all.take(1 + turn.len() + j as int) =~= all.take(turn.len() + j as int).push(
                all[turn.len() + j],
            ));
            assert(styled_views(lines@) =~= before + all.take(1 + turn.len() + j as int));
        }
        assert(all.take(1 + turn.len() + j as int) =~= all);
    }

    /// The lines of the conversation in an area of this size; none where it
    /// is too small. `recent` and `active` hold the texts of the finished
    /// tools of the current turn and of the running ones.
    pub fn render(
        &self,
        width: u16,
        height: u16,
        state: &AppState,
        recent: &Vec<ToolTexts>,
        active: &Vec<ToolTexts>,
    ) -> (r: Vec<StyledLine>)
        requires
            recent.len() == turn_positions(
                state.recent_tools@,
                last_answer(state.messages@),
            ).len(),
            active.len() == state.active_tools.len(),
        ensures
            styled_views(r@) == (if height == 0 || width < 4 {
                Seq::<Seq<SpanView>>::empty()
            } else {
                visible(
                    all_lines(*state, recent@, active@, usable(width)),
                    height as nat,
                    state.scroll_offset as nat,
                )
            }),
    {
        let mut lines: Vec<StyledLine> = Vec::new();
        assert(styled_views(lines@) =~= seq![]);
        if height == 0 || width < 4 {
            return lines;
        }
        let usable_width: usize = usable_columns(width);
        let mut i: usize = 0;
        assert(state.messages@.take(0) =~= seq![]);
        while i < state.messages.len()
            invariant
                i <= state.messages.len(),
                styled_views(lines@) == message_lines(
                    state.messages@.take(i as int),
                    usable_width as nat,
                ),
            decreases state.messages.len() - i,
        {
            proof {
                let next = state.messages@.take(i + 1);
                assert(next.drop_last() =~= state.messages@.take(i as int));
                assert(next.last() == state.messages@[i as int]);
                assert(styled_views(lines@).len() == lines.len());
            }
            push_message(&mut lines, &state.messages[i], usable_width);
            i += 1;
        }
        assert(state.messages@.take(i as int) =~= state.messages@);
        let turn = turn_tools(state);
        proof {
            let positions = turn_positions(state.recent_tools@, last_answer(state.messages@));
            assert(turn@.map_values(|i: usize| i as int).len() == positions.len());
        }
        Self::push_tools(&mut lines, state, &turn, recent, active, usable_width);
        let ghost before = styled_views(lines@);
        if char_count(state.status_text.as_str()) > 0 && !state.is_streaming {
            let mut text = "  \u{25CB} ".to_string();
            text.append(state.status_text.as_str());
            push_line(&mut lines, one(styled(text, SpanStyle::Dim)));
        }
        assert(styled_views(lines@) =~= before + status_lines(*state));
        keep_visible(lines, height as usize, state.scroll_offset as usize)
    }

    /// Scrolls the view: up where `delta` is negative, else down. Tells
    /// whether the view moved.
    pub fn scroll(&self, state: &mut AppState, delta: i16) -> (r: bool)
        ensures
            r == (final(state).scroll_offset != old(state).scroll_offset),
            final(state).scroll_offset == (if old(state).scroll_offset - delta < 0 {
                0
            } else if old(state).scroll_offset - delta > u16::MAX {
                u16::MAX as int
            } else {
                old(state).scroll_offset - delta
            }),
            final(state).messages == old(state).messages,
            final(state).recent_tools == old(state).recent_tools,
            final(state).active_tools == old(state).active_tools,
            final(state).status_text == old(state).status_text,
            final(state).is_streaming == old(state).is_streaming,
    {
        let before: u16 = state.scroll_offset;
        let target: i32 = (before as i32) - (delta as i32);
        state.scroll_offset = if target < 0 {
            0
        } else if target > 65535 {
            65535
        } else {
            target as u16
        };
        state.scroll_offset != before
    }
}

// ── Laws ────────────────────────────────────────────────────

/// The view never has more lines than the area has rows, and without scrolling
/// it ends with the last line.
pub proof fn law_view_fits_its_area(lines: Seq<Seq<SpanView>>, height: nat, scroll: nat)
    requires
        height > 0,
    ensures
        visible(lines, height, scroll).len() <= height,
        scroll == 0 && lines.len() > 0 ==> visible(lines, height, scroll).len() > 0 && visible(
            lines,
            height,
            scroll,
        ).last() == lines.last(),
        lines.len() >= height + scroll ==> visible(lines, height, scroll).len() == height,
{
}

/// Scrolling up by one line shows the lines one further up.
pub proof fn law_scrolling_moves_by_lines(
    lines: Seq<Seq<SpanView>>,
    height: nat,
    scroll: nat,
    i: int,
)
    requires
        lines.len() >= height + scroll + 1,
        0 < i < height,
    ensures
        visible(lines, height, scroll + 1)[i] == visible(lines, height, scroll)[i - 1],
{
}

/// Content may use all columns but four, and an answer all but six, as far as
/// there are that many.
pub proof fn law_columns_for_content(role: ChatRole, width: u16, r: usize, body: usize)
    requires
        call_ensures(usable_columns, (width,), r),
        call_ensures(body_columns, (role, width), body),
    ensures
        width >= 4 ==> r + 4 == width,
        width < 4 ==> r == 0,
        !(role is Assistant) ==> body == r,
        role is Assistant && width >= 6 ==> body + 6 == width,
        role is Assistant && width < 6 ==> body == 0,
{
}

/// A finished tool took the time that was recorded; a running one has taken the
/// time since it started.
pub proof fn law_tools_take_time(
    tool: ToolActivity,
    is_active: bool,
    now: Timestamp,
    r: Option<u64>,
    run: Span,
    ms: u64,
)
    requires
        call_ensures(tool_elapsed_ms, (&tool, is_active, now), r),
        ({
            let d = span_between(now.secs, now.nanos, tool.started_at.secs, tool.started_at.nanos);
            run.secs == d.0 as i64 && run.nanos == d.1 as i32
        }),
        call_ensures(Span::abs_millis, (&run,), ms),
    ensures
        is_active ==> r == Some(ms),
        !is_active ==> r == tool.duration_ms,
{
}

/// A tool's command is its detail, or its name where it has none.
pub proof fn law_tools_have_commands(tool: ToolActivity, r: String)
    requires
        call_ensures(tool_command, (&tool,), r),
    ensures
        tool.detail matches Some(detail) ==> r@ == "$  "@ + detail@,
        tool.detail is None ==> r@ == "$  "@ + tool.name@,
{
}

/// A running tool has an open circle, a finished one a full one, and a failed
/// one a cross, each in its own style.
pub open spec fn icon_is(
    status: ToolStatus,
    is_active: bool,
    icon: Seq<char>,
    style: SpanStyle,
) -> bool {
    &&& is_active || status is Running ==> icon == "\u{25CB}"@ && style is Accent
    &&& !is_active && status is Success ==> icon == "\u{25CF}"@ && style is Success
    &&& !is_active && status is Failed ==> icon == "\u{2717}"@ && style is Error
}

/// A command gets the columns that are left beside its icon, its duration and a
/// gap of two.
pub proof fn law_commands_get_what_is_left(
    tool: ToolActivity,
    is_active: bool,
    duration: &str,
    usable_width: usize,
    r: usize,
    icon: Seq<char>,
    style: SpanStyle,
)
    requires
        call_ensures(available_for_command, (&tool, is_active, duration, usable_width), r),
        icon_is(tool.status, is_active, icon, style),
    ensures
        ({
            let taken = width_of("  \u{250A} "@ + icon + " "@) + width_of(duration@) + 2;
            &&& taken <= usable_width ==> r + taken == usable_width
            &&& taken > usable_width ==> r == 0
        }),
{
}

/// The line of a tool: its icon, its command, and its duration at the right end,
/// behind at least one blank.
pub proof fn law_tools_have_lines(
    tool: ToolActivity,
    texts: ToolTexts,
    usable_width: usize,
    is_active: bool,
    r: StyledLine,
    icon: Seq<char>,
    style: SpanStyle,
)
    requires
        call_ensures(render_tool_line, (&tool, &texts, usable_width, is_active), r),
        icon_is(tool.status, is_active, icon, style),
    ensures
        ({
            let s = r.spans@;
            let taken = width_of("  \u{250A} "@ + icon + " "@) + width_of(texts.command@)
                + width_of(texts.duration@);
            &&& s.len() == 5
            &&& s[0].content@ == "  \u{250A} "@ && s[0].style is Dim
            &&& s[1].content@ == icon + " "@ && s[1].style == style
            &&& s[2].content@ == texts.command@ && s[2].style is Dim
            &&& s[3].style is Raw
            &&& taken < usable_width ==> s[3].content@ == repeated(
                ' ',
                (usable_width - taken) as nat,
            )
            &&& taken >= usable_width ==> s[3].content@ == repeated(' ', 1)
            &&& s[4].content@ == texts.duration@ && s[4].style is Dim
        }),
{
    let s = r.spans@;
    let w = r@;
    assert(w.len() == s.len());
    assert(w[0] == s[0]@ && w[1] == s[1]@ && w[2] == s[2]@ && w[3] == s[3]@ && w[4] == s[4]@);
}

proof fn lemma_last_answer(messages: Seq<ChatMessage>, j: int)
    requires
        -1 <= j < messages.len(),
        forall|i: int| j < i < messages.len() ==> !((#[trigger] messages[i]).role is Assistant),
        j >= 0 ==> messages[j].role is Assistant,
    ensures
        j >= 0 ==> last_answer(messages) == Some(messages[j].timestamp),
        j < 0 ==> last_answer(messages) is None,
    decreases messages.len(),
{
    if messages.len() > 0 {
        if j < messages.len() - 1 {
            assert(!(messages[messages.len() - 1].role is Assistant));
            assert forall|i: int| j < i < messages.drop_last().len() implies !((
            #[trigger] messages.drop_last()[i]).role is Assistant) by {
                assert(!(messages[i].role is Assistant));
            }
            lemma_last_answer(messages.drop_last(), j);
        }
    }
}

proof fn lemma_turn_positions(tools: Seq<ToolActivity>, answered: Option<Timestamp>)
    ensures
        ({
            let all = turn_positions(tools, answered);
            &&& forall|k: int|
                0 <= k < all.len() ==> 0 <= #[trigger] all[k] < tools.len() && in_turn(
                    tools[all[k]],
                    answered,
                )
            &&& forall|p: int|
                0 <= p < tools.len() && in_turn(#[trigger] tools[p], answered) ==> all.contains(p)
            &&& forall|k: int, l: int|
                0 <= k < l < all.len() ==> #[trigger] all[k] < #[trigger] all[l]
        }),
    decreases tools.len(),
{
    if tools.len() > 0 {
        let rest = tools.drop_last();
        let before = turn_positions(rest, answered);
        let all = turn_positions(tools, answered);
        lemma_turn_positions(rest, answered);
        assert forall|k: int| 0 <= k < all.len() implies 0 <= #[trigger] all[k] < tools.len()
            && in_turn(tools[all[k]], answered) by {
            if k < before.len() {
                assert(all[k] == before[k]);
                assert(rest[before[k]] == tools[before[k]]);
            }
        }
        assert forall|p: int| 0 <= p < tools.len() && in_turn(#[trigger] tools[p], answered) implies
            all.contains(p) by {
            if p < rest.len() {
                assert(rest[p] == tools[p]);
                let k = before.index_of(p);
                assert(before.contains(p));
                assert(all[k] == p);
            } else {
                assert(all[all.len() - 1] == p);
            }
        }
    }
}

/// The tools of the current turn are those that started after the assistant last
/// spoke, in order; before the assistant has spoken, all of them.
pub proof fn law_tools_of_the_turn(state: AppState, r: Vec<usize>, j: int, p: usize)
    requires
        call_ensures(turn_tools, (&state,), r),
        -1 <= j < state.messages@.len(),
        forall|i: int|
            j < i < state.messages@.len() ==> !((#[trigger] state.messages@[i]).role is Assistant),
        j >= 0 ==> state.messages@[j].role is Assistant,
    ensures
        r@.contains(p) <==> p < state.recent_tools@.len() && (j >= 0 ==> {
            let spoke = state.messages@[j].timestamp;
            let started = state.recent_tools@[p as int].started_at;
            spoke.secs < started.secs || (spoke.secs == started.secs && spoke.nanos
                < started.nanos)
        }),
        forall|k: int, l: int| 0 <= k < l < r@.len() ==> #[trigger] r@[k] < #[trigger] r@[l],
{
    let answered = last_answer(state.messages@);
    lemma_last_answer(state.messages@, j);
    lemma_turn_positions(state.recent_tools@, answered);
    let all = turn_positions(state.recent_tools@, answered);
    let seen = r@.map_values(|i: usize| i as int);
    assert(seen.len() == r@.len());
    assert forall|k: int| 0 <= k < r@.len() implies #[trigger] r@[k] as int == all[k] by {
        assert(seen[k] == r@[k] as int);
    }
    if r@.contains(p) {
        let k = r@.index_of(p);
        assert(all[k] == p as int);
        assert(in_turn(state.recent_tools@[all[k]], answered));
    }
    if p < state.recent_tools@.len() && in_turn(state.recent_tools@[p as int], answered) {
        assert(all.contains(p as int));
        let k = all.index_of(p as int);
        assert(r@[k] == p);
    }
    assert forall|k: int, l: int| 0 <= k < l < r@.len() implies #[trigger] r@[k] < #[trigger] r@[l]
    by {
        assert(all[k] < all[l]);
    }
}

/// The widget keeps its theme and has its own name and place.
pub proof fn law_conversation_widget<T>(
    theme: T,
    widget: ConversationWidget<T>,
    kept: &T,
    id: &str,
    slot: TuiSlot,
)
    requires
        call_ensures(ConversationWidget::<T>::new, (theme,), widget),
        call_ensures(ConversationWidget::<T>::theme, (&widget,), kept),
        call_ensures(ConversationWidget::<T>::id, (&widget,), id),
        call_ensures(ConversationWidget::<T>::slot, (&widget,), slot),
    ensures
        *kept == theme,
        id@ == "conversation"@,
        slot is Tab,
{
}

/// Scrolling moves the view by the lines it is told to, up for a negative
/// number, and not beyond either end of its range; it tells whether it moved.
pub proof fn law_views_are_scrolled<T>(
    widget: ConversationWidget<T>,
    state: &mut AppState,
    delta: i16,
    r: bool,
)
    requires
        call_ensures(ConversationWidget::<T>::scroll, (&widget, state, delta), r),
    ensures
        ({
            let target = old(state).scroll_offset - delta;
            &&& 0 <= target <= 65535 ==> final(state).scroll_offset == target
            &&& target < 0 ==> final(state).scroll_offset == 0
            &&& target > 65535 ==> final(state).scroll_offset == 65535
        }),
        r <==> final(state).scroll_offset != old(state).scroll_offset,
        final(state).messages@ == old(state).messages@,
        final(state).status_text@ == old(state).status_text@,
{
}

/// An area without rows, or with less than four columns, shows nothing; and an
/// area that does not show all lines shows as many as it has rows, counted from
/// the line that the view is scrolled up to.
pub proof fn law_area_shows_a_window<T>(
    widget: ConversationWidget<T>,
    width: u16,
    high: u16,
    height: u16,
    top: AppState,
    state: AppState,
    recent: Vec<ToolTexts>,
    active: Vec<ToolTexts>,
    all: Vec<StyledLine>,
    r: Vec<StyledLine>,
)
    requires
        call_ensures(
            ConversationWidget::<T>::render,
            (&widget, width, high, &top, &recent, &active),
            all,
        ),
        call_ensures(
            ConversationWidget::<T>::render,
            (&widget, width, height, &state, &recent, &active),
            r,
        ),
        top.scroll_offset == 0,
        top == (AppState { scroll_offset: 0, ..state }),
        all@.len() < high,
    ensures
        height == 0 || width < 4 ==> r@.len() == 0,
        height > 0 && width >= 4 ==> {
            let end = all@.len() - state.scroll_offset;
            let begin = end - height;
            styled_views(r@) == styled_views(all@).subrange(
                if begin < 0 {
                    0
                } else {
                    begin
                },
                if end < 0 {
                    0
                } else {
                    end
                },
            )
        },
{
    assert(styled_views(r@).len() == r@.len());
    assert(styled_views(all@).len() == all@.len());
    if height > 0 && width >= 4 {
        let lines = all_lines(state, recent@, active@, usable(width));
        assert(lines == all_lines(top, recent@, active@, usable(width)));
        assert(visible(lines, high as nat, 0) =~= lines);
    }
}

/// All lines are shown: the view is at the bottom, and the area has a row left.
pub open spec fn shows_all(state: AppState, width: u16, height: u16, shown: Seq<StyledLine>) -> bool {
    state.scroll_offset == 0 && width >= 4 && shown.len() < height
}

proof fn lemma_shown<T>(
    widget: ConversationWidget<T>,
    width: u16,
    height: u16,
    state: AppState,
    recent: Vec<ToolTexts>,
    active: Vec<ToolTexts>,
    r: Vec<StyledLine>,
)
    requires
        call_ensures(
            ConversationWidget::<T>::render,
            (&widget, width, height, &state, &recent, &active),
            r,
        ),
        shows_all(state, width, height, r@),
    ensures
        styled_views(r@) == all_lines(state, recent@, active@, (width - 4) as nat),
{
    assert(styled_views(r@).len() == r@.len());
    let lines = all_lines(state, recent@, active@, (width - 4) as nat);
    assert(visible(lines, height as nat, 0) =~= lines);
}

/// Without tools and status, a message more is shown below the others. A user's
/// stands behind a bullet, with a blank line below it and, unless it is the
/// first, one above; an answer stands below a rule of at most sixty columns,
/// each line moved in by two, with a blank line below it; what the system says
/// is shown as it is laid out.
pub proof fn law_messages_are_shown<T>(
    widget: ConversationWidget<T>,
    width: u16,
    height: u16,
    before: AppState,
    after: AppState,
    m: ChatMessage,
    none: Vec<ToolTexts>,
    x: Vec<StyledLine>,
    y: Vec<StyledLine>,
    i: int,
)
    requires
        call_ensures(
            ConversationWidget::<T>::render,
            (&widget, width, height, &before, &none, &none),
            x,
        ),
        call_ensures(
            ConversationWidget::<T>::render,
            (&widget, width, height, &after, &none, &none),
            y,
        ),
        shows_all(before, width, height, x@),
        shows_all(after, width, height, y@),
        after.messages@ == before.messages@.push(m),
        before.recent_tools@.len() == 0 && before.active_tools@.len() == 0,
        after.recent_tools@.len() == 0 && after.active_tools@.len() == 0,
        before.status_text@.len() == 0 && after.status_text@.len() == 0,
        none@.len() == 0,
    ensures
        ({
            let a = styled_views(x@);
            let b = styled_views(y@);
            let n = a.len() as int;
            let lead = if n > 0 {
                1int
            } else {
                0
            };
            let empty = seq![(SpanView { content: ""@, style: SpanStyle::Raw })];
            let rule = if width - 4 < 60 {
                (width - 4) as nat
            } else {
                60
            };
            &&& b.len() >= n && b.take(n) == a
            &&& m.role is User ==> {
                &&& b.len() == n + lead + 2
                &&& n > 0 ==> b[n] == empty
                &&& b[n + lead] == seq![
                    (SpanView { content: "\u{25CF} "@, style: SpanStyle::Accent }),
                    (SpanView { content: m.content@, style: SpanStyle::Bold }),
                ]
                &&& b.last() == empty
            }
            &&& m.role is Assistant ==> {
                &&& b.len() == n + m.body@.len() + 2
                &&& b[n] == seq![
                    (SpanView {
                        content: "  "@ + repeated('\u{2500}', rule),
                        style: SpanStyle::Dim,
                    }),
                ]
                &&& 0 <= i < m.body@.len() ==> b[n + 1 + i] == seq![
                    (SpanView { content: "  "@, style: SpanStyle::Raw }),
                ] + m.body@[i]@
                &&& b.last() == empty
            }
            &&& m.role is System ==> {
                &&& b.len() == n + m.body@.len()
                &&& 0 <= i < m.body@.len() ==> b[n + i] == m.body@[i]@
            }
        }),
{
    lemma_shown(widget, width, height, before, none, none, x);
    lemma_shown(widget, width, height, after, none, none, y);
    let room = (width - 4) as nat;
    let a = styled_views(x@);
    let b = styled_views(y@);
    let block = message_block(m, a.len() == 0, room);
    assert(turn_positions(before.recent_tools@, last_answer(before.messages@)).len() == 0);
    assert(turn_positions(after.recent_tools@, last_answer(after.messages@)).len() == 0);
    assert(a =~= message_lines(before.messages@, room));
    assert(after.messages@.drop_last() =~= before.messages@);
    assert(b =~= a + block);
    assert(b.take(a.len() as int) =~= a);
    assert(styled_views(m.body@).len() == m.body@.len());
}

/// A running tool more is shown by its line, below everything; the first of all
/// tools has a blank line above it.
pub proof fn law_running_tools_are_shown<T>(
    widget: ConversationWidget<T>,
    width: u16,
    height: u16,
    before: AppState,
    after: AppState,
    tool: ToolActivity,
    recent: Vec<ToolTexts>,
    active: Vec<ToolTexts>,
    more: Vec<ToolTexts>,
    texts: ToolTexts,
    turn: Vec<usize>,
    line: StyledLine,
    x: Vec<StyledLine>,
    y: Vec<StyledLine>,
)
    requires
        call_ensures(
            ConversationWidget::<T>::render,
            (&widget, width, height, &before, &recent, &active),
            x,
        ),
        call_ensures(
            ConversationWidget::<T>::render,
            (&widget, width, height, &after, &recent, &more),
            y,
        ),
        shows_all(before, width, height, x@),
        shows_all(after, width, height, y@),
        after.messages@ == before.messages@,
        after.recent_tools@ == before.recent_tools@,
        after.active_tools@ == before.active_tools@.push(tool),
        more@ == active@.push(texts),
        active@.len() == before.active_tools@.len(),
        before.status_text@.len() == 0 && after.status_text@.len() == 0,
        call_ensures(turn_tools, (&before,), turn),
        call_ensures(render_tool_line, (&tool, &texts, (width - 4) as usize, true), line),
    ensures
        ({
            let a = styled_views(x@);
            let b = styled_views(y@);
            let first = turn@.len() == 0 && before.active_tools@.len() == 0;
            &&& first ==> b == a.push(
                seq![(SpanView { content: ""@, style: SpanStyle::Raw })],
            ).push(line@)
            &&& !first ==> b == a.push(line@)
        }),
{
    lemma_shown(widget, width, height, before, recent, active, x);
    lemma_shown(widget, width, height, after, recent, more, y);
    let room = (width - 4) as nat;
    let a = styled_views(x@);
    let b = styled_views(y@);
    let seen = turn@.map_values(|i: usize| i as int);
    assert(seen.len() == turn@.len());
    let s = tool_lines(before, recent@, active@, room);
    let t = tool_lines(after, recent@, more@, room);
    let above = message_lines(before.messages@, room);
    assert(a =~= above + s);
    assert(b =~= above + t);
    let n = before.active_tools@.len() as int;
    assert(t.last() == tool_line(after.active_tools@[n], more@[n], room, true));
    if turn@.len() == 0 && before.active_tools@.len() == 0 {
        assert(t =~= seq![blank_line(), line@]);
        assert(b =~= a.push(blank_line()).push(line@));
    } else {
        assert(t.drop_last() =~= s) by {
            assert forall|k: int| 0 <= k < s.len() implies t[k] == s[k] by {
                let j = k - 1 - turn@.len();
                if j >= 0 {
                    assert(after.active_tools@[j] == before.active_tools@[j]);
                    assert(more@[j] == active@[j]);
                }
            }
        }
        assert(t =~= s.push(line@));
        assert(b =~= a.push(line@));
    }
}

/// While nothing runs, a finished tool more is shown by its line where it belongs
/// to the current turn, and not at all where it does not.
pub proof fn law_finished_tools_are_shown<T>(
    widget: ConversationWidget<T>,
    width: u16,
    height: u16,
    before: AppState,
    after: AppState,
    tool: ToolActivity,
    recent: Vec<ToolTexts>,
    more: Vec<ToolTexts>,
    none: Vec<ToolTexts>,
    texts: ToolTexts,
    turn: Vec<usize>,
    now_in: Vec<usize>,
    line: StyledLine,
    x: Vec<StyledLine>,
    y: Vec<StyledLine>,
)
    requires
        call_ensures(
            ConversationWidget::<T>::render,
            (&widget, width, height, &before, &recent, &none),
            x,
        ),
        call_ensures(turn_tools, (&before,), turn),
        call_ensures(turn_tools, (&after,), now_in),
        recent@.len() == turn@.len(),
        more@ == (if now_in@.len() > turn@.len() {
            recent@.push(texts)
        } else {
            recent@
        }),
        call_ensures(
            ConversationWidget::<T>::render,
            (&widget, width, height, &after, &more, &none),
            y,
        ),
        shows_all(before, width, height, x@),
        shows_all(after, width, height, y@),
        after.messages@ == before.messages@,
        after.recent_tools@ == before.recent_tools@.push(tool),
        before.active_tools@.len() == 0 && after.active_tools@.len() == 0 && none@.len() == 0,
        before.status_text@.len() == 0 && after.status_text@.len() == 0,
        call_ensures(render_tool_line, (&tool, &texts, (width - 4) as usize, false), line),
    ensures
        ({
            let a = styled_views(x@);
            let b = styled_views(y@);
            let belongs = now_in@.len() > turn@.len();
            &&& !belongs ==> b == a
            &&& belongs && turn@.len() == 0 ==> b == a.push(
                seq![(SpanView { content: ""@, style: SpanStyle::Raw })],
            ).push(line@)
            &&& belongs && turn@.len() > 0 ==> b == a.push(line@)
        }),
{
    lemma_shown(widget, width, height, before, recent, none, x);
    lemma_shown(widget, width, height, after, more, none, y);
    let room = (width - 4) as nat;
    let a = styled_views(x@);
    let b = styled_views(y@);
    let answered = last_answer(before.messages@);
    let p = turn_positions(before.recent_tools@, answered);
    let q = turn_positions(after.recent_tools@, answered);
    assert(turn@.map_values(|i: usize| i as int).len() == turn@.len());
    assert(now_in@.map_values(|i: usize| i as int).len() == now_in@.len());
    assert(after.recent_tools@.drop_last() =~= before.recent_tools@);
    lemma_turn_positions(before.recent_tools@, answered);
    let s = tool_lines(before, recent@, none@, room);
    let t = tool_lines(after, more@, none@, room);
    let above = message_lines(before.messages@, room);
    assert(a =~= above + s);
    assert(b =~= above + t);
    assert forall|k: int| 0 <= k < p.len() implies after.recent_tools@[#[trigger] p[k]]
        == before.recent_tools@[p[k]] by {}
    if now_in@.len() > turn@.len() {
        assert(q == p.push(before.recent_tools@.len() as int));
        assert(t.last() == line@);
        if turn@.len() == 0 {
            assert(t =~= seq![blank_line(), line@]);
            assert(b =~= a.push(blank_line()).push(line@));
        } else {
            assert(t.drop_last() =~= s) by {
                assert forall|k: int| 0 <= k < s.len() implies t[k] == s[k] by {
                    if k > 0 {
                        assert(q[k - 1] == p[k - 1]);
                    }
                }
            }
            assert(t =~= s.push(line@));
            assert(b =~= a.push(line@));
        }
    } else {
        assert(q == p);
        assert(t =~= s);
    }
}

/// The status is shown below everything, behind an open circle, where there is
/// one and no answer is coming in.
pub proof fn law_status_is_shown<T>(
    widget: ConversationWidget<T>,
    width: u16,
    height: u16,
    before: AppState,
    after: AppState,
    recent: Vec<ToolTexts>,
    active: Vec<ToolTexts>,
    x: Vec<StyledLine>,
    y: Vec<StyledLine>,
)
    requires
        call_ensures(
            ConversationWidget::<T>::render,
            (&widget, width, height, &before, &recent, &active),
            x,
        ),
        call_ensures(
            ConversationWidget::<T>::render,
            (&widget, width, height, &after, &recent, &active),
            y,
        ),
        shows_all(before, width, height, x@),
        shows_all(after, width, height, y@),
        after.messages@ == before.messages@,
        after.recent_tools@ == before.recent_tools@,
        after.active_tools@ == before.active_tools@,
        before.status_text@.len() == 0,
    ensures
        after.status_text@.len() == 0 || after.is_streaming ==> styled_views(y@) == styled_views(
            x@,
        ),
        after.status_text@.len() > 0 && !after.is_streaming ==> styled_views(y@) == styled_views(
            x@,
        ).push(
            seq![
                (SpanView {
                    content: "  \u{25CB} "@ + after.status_text@,
                    style: SpanStyle::Dim,
                }),
            ],
        ),
{
    lemma_shown(widget, width, height, before, recent, active, x);
    lemma_shown(widget, width, height, after, recent, active, y);
    let room = (width - 4) as nat;
    assert(tool_lines(before, recent@, active@, room) =~= tool_lines(
        after,
        recent@,
        active@,
        room,
    ));
    assert(styled_views(x@) + status_lines(after) =~= styled_views(y@));
}

} // verus!
