//! The sidebar's list of threads.

use vstd::prelude::*;
use crate::text::{
    append_decimal, byte_len, decimal, pad_right, padded, repeat_char, repeated, utf8_len,
};
use crate::time::{now, since, span_between, Timestamp};
use crate::tui::line::{
    one, push_line, span, span_views, styled, styled_views, two, SpanStyle, SpanView,
    StyledLine, TextSpan,
};
use crate::tui::slot::TuiSlot;

verus! {

broadcast use vstd::string::group_string_axioms;

/// Where a thread is.
#[derive(Clone, Copy, Debug, PartialEq, Eq, Structural)]
pub enum ThreadStatus {
    Active,
    Idle,
    Completed,
    Failed,
}

/// The word for a status.
pub open spec fn status_word(s: ThreadStatus) -> Seq<char> {
    match s {
        ThreadStatus::Active => "active"@,
        ThreadStatus::Idle => "idle"@,
        ThreadStatus::Completed => "done"@,
        ThreadStatus::Failed => "failed"@,
    }
}

impl ThreadStatus {
    /// The word that is shown for the status.
    pub fn label(&self) -> (r: &'static str)
        ensures
            r@ == status_word(*self),
    {
        match self {
            ThreadStatus::Active => "active",
            ThreadStatus::Idle => "idle",
            ThreadStatus::Completed => "done",
            ThreadStatus::Failed => "failed",
        }
    }
}

/// The icon of a status.
pub open spec fn icon_of(s: ThreadStatus) -> Seq<char> {
    match s {
        ThreadStatus::Active => "\u{25CF}"@,
        ThreadStatus::Idle => "\u{25CB}"@,
        ThreadStatus::Completed => "\u{2713}"@,
        ThreadStatus::Failed => "\u{2717}"@,
    }
}

/// The icon that is shown for a status.
pub fn status_icon(status: ThreadStatus) -> (r: &'static str)
    ensures
        r@ == icon_of(status),
{
    match status {
        ThreadStatus::Active => "\u{25CF}",
        ThreadStatus::Idle => "\u{25CB}",
        ThreadStatus::Completed => "\u{2713}",
        ThreadStatus::Failed => "\u{2717}",
    }
}

/// A length of time in short: seconds, minutes, or hours with minutes.
pub open spec fn uptime_text(secs: nat) -> Seq<char> {
    if secs < 60 {
        decimal(secs) + "s"@
    } else if secs < 3600 {
        decimal(secs / 60) + "m"@
    } else if (secs % 3600) / 60 > 0 {
        decimal(secs / 3600) + "h "@ + decimal((secs % 3600) / 60) + "m"@
    } else {
        decimal(secs / 3600) + "h"@
    }
}

/// Writes a length of time in short.
pub fn format_uptime(secs: u64) -> (r: String)
    ensures
        r@ == uptime_text(secs as nat),
{
    let mut out = String::new();
    if secs < 60 {
        append_decimal(&mut out, secs);
        out.append("s");
    } else if secs < 3600 {
        append_decimal(&mut out, secs / 60);
        out.append("m");
    } else {
        let h: u64 = secs / 3600;
        let m: u64 = (secs % 3600) / 60;
        append_decimal(&mut out, h);
        if m > 0 {
            out.append("h ");
            append_decimal(&mut out, m);
            out.append("m");
        } else {
            out.append("h");
        }
    }
    assert(out@ =~= uptime_text(secs as nat));
    out
}

/// A thread as the sidebar knows it.
#[derive(Debug)]
pub struct ThreadInfo {
    pub id: String,
    pub label: String,
    pub is_foreground: bool,
    pub is_running: bool,
    pub duration_secs: u64,
    pub status: ThreadStatus,
    pub started_at: Timestamp,
}

/// The name of a thread: its label, or its identifier where it has none.
pub open spec fn name_of(t: ThreadInfo) -> Seq<char> {
    if t.label@.len() == 0 {
        t.id@
    } else {
        t.label@
    }
}

impl ThreadInfo {
    /// The name that is shown for the thread, before it is cut to fit.
    pub fn name(&self) -> (r: &str)
        ensures
            r@ == name_of(*self),
    {
        if crate::text::char_count(self.label.as_str()) == 0 {
            self.id.as_str()
        } else {
            self.label.as_str()
        }
    }
}

/// Columns that are left for names: all but 21, and never under 4.
pub open spec fn name_columns(width: nat) -> nat {
    if width < 25 {
        4
    } else {
        (width - 21) as nat
    }
}

/// How many columns a name may take at a width.
pub fn max_name_len(width: usize) -> (r: usize)
    ensures
        r == name_columns(width as nat),
{
    let left: usize = width.saturating_sub(21);
    if left < 4 {
        4
    } else {
        left
    }
}

/// How long a thread has run, in whole seconds; 0 where it starts in the
/// future.
pub open spec fn uptime_of(now: Timestamp, started_at: Timestamp) -> nat {
    let secs = span_between(now.secs, now.nanos, started_at.secs, started_at.nanos).0;
    if secs < 0 {
        0
    } else {
        secs as nat
    }
}

fn uptime_secs(now: Timestamp, started_at: Timestamp) -> (r: u64)
    requires
        now.valid(),
        started_at.valid(),
    ensures
        r == uptime_of(now, started_at),
        now.ordinary() && started_at.ordinary() ==> r == (if now.total_nanos()
            < started_at.total_nanos() {
            0
        } else {
            (now.total_nanos() - started_at.total_nanos()) / 1_000_000_000
        }),
{
    let span = since(now, started_at);
    if span.secs < 0 {
        0
    } else {
        span.secs as u64
    }
}

/// The style of a status.
pub open spec fn style_of(s: ThreadStatus) -> SpanStyle {
    match s {
        ThreadStatus::Active => SpanStyle::Accent,
        ThreadStatus::Idle => SpanStyle::Dim,
        ThreadStatus::Completed => SpanStyle::Success,
        ThreadStatus::Failed => SpanStyle::Error,
    }
}

/// The heading: how many threads there are, and a rule over the rest of the
/// width.
pub open spec fn header_line(count: nat, width: nat) -> Seq<SpanView> {
    let text = " THREADS ("@ + decimal(count) + ")"@;
    let used = utf8_len(text) + 1;
    seq![
        span(text, SpanStyle::Bold),
        span(
            if width > used {
                " "@ + repeated('\u{2500}', (width - used) as nat)
            } else {
                ""@
            },
            SpanStyle::Dim,
        ),
    ]
}

/// The row of a thread whose name was cut to `name`.
pub open spec fn thread_row(t: ThreadInfo, name: Seq<char>, width: nat, now: Timestamp) -> Seq<
    SpanView,
> {
    seq![
        span(" "@ + icon_of(t.status) + " "@, style_of(t.status)),
        span(padded(name, name_columns(width)), SpanStyle::Bold),
        span("  "@, SpanStyle::Raw),
        span(padded(status_word(t.status), 6), style_of(t.status)),
        span("  "@, SpanStyle::Raw),
        span(uptime_text(uptime_of(now, t.started_at)), SpanStyle::Dim),
    ]
}

/// All lines of the list, before it is cut to the height.
pub open spec fn list_lines(
    threads: Seq<ThreadInfo>,
    names: Seq<String>,
    width: nat,
    now: Timestamp,
) -> Seq<Seq<SpanView>> {
    seq![header_line(threads.len(), width)] + (if threads.len() == 0 {
        seq![seq![span(" (no threads)"@, SpanStyle::Dim)]]
    } else {
        Seq::new(threads.len(), |i: int| thread_row(threads[i], names[i]@, width, now))
    })
}

/// The first `n` of a list, or all where there are fewer.
pub open spec fn first_lines(lines: Seq<Seq<SpanView>>, n: nat) -> Seq<Seq<SpanView>> {
    if lines.len() <= n {
        lines
    } else {
        lines.take(n as int)
    }
}

/// The lines that an area of this size shows; none where it is too small.
pub open spec fn shown_list(
    threads: Seq<ThreadInfo>,
    names: Seq<String>,
    width: u16,
    height: u16,
    now: Timestamp,
) -> Seq<Seq<SpanView>> {
    if height == 0 || width < 4 {
        seq![]
    } else {
        first_lines(list_lines(threads, names, width as nat, now), height as nat)
    }
}

/// Shows the list of threads in a theme.
#[derive(Debug)]
pub struct ThreadListWidget<T> {
    theme: T,
}

impl<T> ThreadListWidget<T> {
    /// The widget's theme.
    pub closed spec fn look(self) -> T {
        self.theme
    }

    /// A widget in a theme.
    pub fn new(theme: T) -> (r: ThreadListWidget<T>)
        ensures
            r.look() == theme,
    {
        ThreadListWidget { theme }
    }

    /// The widget's theme.
    pub fn theme(&self) -> (r: &T)
        ensures
            *r == self.look(),
    {
        &self.theme
    }

    /// The widget's identifier.
    pub fn id(&self) -> (r: &'static str)
        ensures
            r@ == "thread_list"@,
    {
        "thread_list"
    }

    /// The list has a section of the sidebar.
    pub fn slot(&self) -> (r: TuiSlot)
        ensures
            r == TuiSlot::SidebarSection,
    {
        TuiSlot::SidebarSection
    }

    /// The style of a status.
    pub fn status_style(&self, status: ThreadStatus) -> (r: SpanStyle)
        ensures
            r == style_of(status),
    {
        match status {
            ThreadStatus::Active => SpanStyle::Accent,
            ThreadStatus::Idle => SpanStyle::Dim,
            ThreadStatus::Completed => SpanStyle::Success,
            ThreadStatus::Failed => SpanStyle::Error,
        }
    }

    fn header(count: usize, width: usize) -> (r: StyledLine)
        ensures
            r@ == header_line(count as nat, width as nat),
    {
        let mut text = " THREADS (".to_string();
        append_decimal(&mut text, count as u64);
        text.append(")");
        let rule_len: usize = width.saturating_sub(byte_len(text.as_str())).saturating_sub(1);
        let rule = if rule_len > 0 {
            let mut rule = " ".to_string();
            rule.append(repeat_char('\u{2500}', rule_len).as_str());
            rule
        } else {
            "".to_string()
        };
        two(styled(text, SpanStyle::Bold), styled(rule, SpanStyle::Dim))
    }

    fn row(&self, t: &ThreadInfo, name: &str, width: usize, now: Timestamp) -> (r: StyledLine)
        requires
            now.valid(),
            t.started_at.valid(),
        ensures
            r@ == thread_row(*t, name@, width as nat, now),
    {
        let style = self.status_style(t.status);
        let mut icon = " ".to_string();
        icon.append(status_icon(t.status));
        icon.append(" ");
        let mut spans: Vec<TextSpan> = Vec::new();
        spans.push(styled(icon, style));
        spans.push(styled(pad_right(name, max_name_len(width)), SpanStyle::Bold));
        spans.push(styled("  ".to_string(), SpanStyle::Raw));
        spans.push(styled(pad_right(t.status.label(), 6), style));
        spans.push(styled("  ".to_string(), SpanStyle::Raw));
        spans.push(styled(format_uptime(uptime_secs(now, t.started_at)), SpanStyle::Dim));
        assert(span_views(spans@) =~= thread_row(*t, name@, width as nat, now));
        StyledLine { spans }
    }

    /// The lines of the list in an area of this size, at the current time.
    /// `names` holds the threads' names, cut to what the width allows.
    pub fn render(
        &self,
        width: u16,
        height: u16,
        threads: &Vec<ThreadInfo>,
        names: &Vec<String>,
    ) -> (r: Vec<StyledLine>)
        requires
            threads.len() == names.len(),
            forall|i: int| 0 <= i < threads.len() ==> (#[trigger] threads@[i]).started_at.valid(),
        ensures
            exists|at: Timestamp| #[trigger]
                at.valid() && styled_views(r@) == shown_list(threads@, names@, width, height, at),
    {
        self.render_at(width, height, threads, names, now())
    }

    /// The lines of the list in an area of this size, at the time `now`; none
    /// where the area is too small.
    pub fn render_at(
        &self,
        width: u16,
        height: u16,
        threads: &Vec<ThreadInfo>,
        names: &Vec<String>,
        now: Timestamp,
    ) -> (r: Vec<StyledLine>)
        requires
            threads.len() == names.len(),
            now.valid(),
            forall|i: int| 0 <= i < threads.len() ==> (#[trigger] threads@[i]).started_at.valid(),
        ensures
            styled_views(r@) == shown_list(threads@, names@, width, height, now),
    {
        let mut lines: Vec<StyledLine> = Vec::new();
        assert(styled_views(lines@) =~= seq![]);
        if height == 0 || width < 4 {
            return lines;
        }
        let ghost all = list_lines(threads@, names@, width as nat, now);
        push_line(&mut lines, Self::header(threads.len(), width as usize));
        if threads.len() == 0 {
            push_line(&mut lines, one(styled(" (no threads)".to_string(), SpanStyle::Dim)));
        }
        let mut i: usize = 0;
        assert(styled_views(lines@) =~= all.take(lines.len() as int));
        while i < threads.len()
            invariant
                i <= threads.len(),
                threads.len() == names.len(),
                now.valid(),
                forall|k: int|
                    0 <= k < threads.len() ==> (#[trigger] threads@[k]).started_at.valid(),
                all == list_lines(threads@, names@, width as nat, now),
                styled_views(lines@) == all.take(lines.len() as int),
                threads.len() > 0 ==> lines.len() == i + 1,
                threads.len() == 0 ==> lines.len() == 2,
            decreases threads.len() - i,
        {
            let line = self.row(&threads[i], names[i].as_str(), width as usize, now);
            assert(line@ == all[i + 1]);
            push_line(&mut lines, line);
            i += 1;
            assert(styled_views(lines@) =~= all.take(lines.len() as int));
        }
        assert(all.take(lines.len() as int) =~= all);
        cut(&mut lines, height as usize);
        lines
    }
}

fn cut(lines: &mut Vec<StyledLine>, n: usize)
    ensures
        styled_views(final(lines)@) == first_lines(styled_views(old(lines)@), n as nat),
{
    if lines.len() > n {
        lines.truncate(n);
        assert(styled_views(lines@) =~= styled_views(old(lines)@).take(n as int));
    }
}

// ── Laws ────────────────────────────────────────────────────

/// The list never has more lines than the area has rows, and in any area that
/// is not too small its first line is the heading.
pub proof fn law_list_fits_its_area(
    threads: Seq<ThreadInfo>,
    names: Seq<String>,
    width: u16,
    height: u16,
    now: Timestamp,
)
    ensures
        shown_list(threads, names, width, height, now).len() <= height,
        height > 0 && width >= 4 ==> {
            let shown = shown_list(threads, names, width, height, now);
            shown.len() > 0 && shown[0] == header_line(threads.len(), width as nat)
        },
{
}

/// Rows align: the status column of every row starts where that of any other
/// row does, for names that were cut to fit.
pub proof fn law_rows_align(
    a: ThreadInfo,
    a_name: Seq<char>,
    b: ThreadInfo,
    b_name: Seq<char>,
    width: nat,
    now: Timestamp,
)
    requires
        a_name.len() <= name_columns(width),
        b_name.len() <= name_columns(width),
    ensures
        thread_row(a, a_name, width, now)[1].content.len() == thread_row(
            b,
            b_name,
            width,
            now,
        )[1].content.len(),
        thread_row(a, a_name, width, now)[3].content.len() == thread_row(
            b,
            b_name,
            width,
            now,
        )[3].content.len(),
{
    reveal_strlit("active");
    reveal_strlit("idle");
    reveal_strlit("done");
    reveal_strlit("failed");
}

/// Every status has its own word, its own icon and its style.
pub proof fn law_statuses_are_shown<T>(
    status: ThreadStatus,
    widget: ThreadListWidget<T>,
    word: &str,
    icon: &str,
    style: SpanStyle,
)
    requires
        call_ensures(ThreadStatus::label, (&status,), word),
        call_ensures(status_icon, (status,), icon),
        call_ensures(ThreadListWidget::<T>::status_style, (&widget, status), style),
    ensures
        status is Active ==> word@ == "active"@ && icon@ == "\u{25CF}"@ && style is Accent,
        status is Idle ==> word@ == "idle"@ && icon@ == "\u{25CB}"@ && style is Dim,
        status is Completed ==> word@ == "done"@ && icon@ == "\u{2713}"@ && style is Success,
        status is Failed ==> word@ == "failed"@ && icon@ == "\u{2717}"@ && style is Error,
{
}

/// A length of time is told in seconds below a minute, in minutes below an hour,
/// and else in hours, with the minutes that are left over where there are any.
pub proof fn law_uptimes_are_told(hours: u64, minutes: u64, seconds: u64, total: u64, r: String)
    requires
        minutes < 60,
        seconds < 60,
        total == hours * 3600 + minutes * 60 + seconds,
        call_ensures(format_uptime, (total,), r),
    ensures
        hours == 0 && minutes == 0 ==> r@ == decimal(seconds as nat) + "s"@,
        hours == 0 && minutes > 0 ==> r@ == decimal(minutes as nat) + "m"@,
        hours > 0 && minutes == 0 ==> r@ == decimal(hours as nat) + "h"@,
        hours > 0 && minutes > 0 ==> r@ == decimal(hours as nat) + "h "@ + decimal(minutes as nat)
            + "m"@,
{
    assert(total / 3600 == hours);
    assert(total % 3600 == minutes * 60 + seconds);
    assert((total % 3600) / 60 == minutes);
    if hours == 0 {
        assert(total / 60 == minutes);
    }
}

/// A thread goes by its label, or by its identifier where it has none, and names
/// get all columns but 21, though never less than 4.
pub proof fn law_names_of_threads(t: ThreadInfo, name: &str, width: usize, columns: usize)
    requires
        call_ensures(ThreadInfo::name, (&t,), name),
        call_ensures(max_name_len, (width,), columns),
    ensures
        t.label@.len() > 0 ==> name@ == t.label@,
        t.label@.len() == 0 ==> name@ == t.id@,
        width >= 25 ==> columns + 21 == width,
        width < 25 ==> columns == 4,
{
}

/// The widget keeps its theme and has its own name and place.
pub proof fn law_thread_list_widget<T>(
    theme: T,
    widget: ThreadListWidget<T>,
    kept: &T,
    id: &str,
    slot: TuiSlot,
)
    requires
        call_ensures(ThreadListWidget::<T>::new, (theme,), widget),
        call_ensures(ThreadListWidget::<T>::theme, (&widget,), kept),
        call_ensures(ThreadListWidget::<T>::id, (&widget,), id),
        call_ensures(ThreadListWidget::<T>::slot, (&widget,), slot),
    ensures
        *kept == theme,
        id@ == "thread_list"@,
        slot is SidebarSection,
{
}

/// The list: a heading with the number of threads, and a line for each thread in
/// order, or one that says that there are none; as many lines as fit.
pub proof fn law_threads_are_listed<T>(
    widget: ThreadListWidget<T>,
    width: u16,
    height: u16,
    threads: Vec<ThreadInfo>,
    names: Vec<String>,
    now: Timestamp,
    r: Vec<StyledLine>,
)
    requires
        call_ensures(
            ThreadListWidget::<T>::render_at,
            (&widget, width, height, &threads, &names, now),
            r,
        ),
    ensures
        height == 0 || width < 4 ==> r@.len() == 0,
        height > 0 && width >= 4 ==> {
            let n = threads@.len();
            let all = if n == 0 {
                2
            } else {
                n + 1
            };
            let title = " THREADS ("@ + decimal(n) + ")"@;
            &&& r@.len() == (if all < height {
                all as int
            } else {
                height as int
            })
            &&& r@[0].spans@.len() == 2
            &&& r@[0].spans@[0].content@ == title && r@[0].spans@[0].style is Bold
            &&& r@[0].spans@[1].style is Dim
            &&& width > utf8_len(title) + 1 ==> r@[0].spans@[1].content@ == " "@ + repeated(
                '\u{2500}',
                (width - utf8_len(title) - 1) as nat,
            )
            &&& width <= utf8_len(title) + 1 ==> r@[0].spans@[1].content@ == ""@
            &&& n == 0 && height > 1 ==> r@[1].spans@.len() == 1 && r@[1].spans@[0].content@
                == " (no threads)"@ && r@[1].spans@[0].style is Dim
        },
{
    let v = styled_views(r@);
    assert(v.len() == r@.len());
    if height > 0 && width >= 4 {
        assert(v[0] == r@[0]@);
        assert(r@[0]@.len() == r@[0].spans@.len());
        assert(r@[0]@[0] == r@[0].spans@[0]@ && r@[0]@[1] == r@[0].spans@[1]@);
        if threads@.len() == 0 && height > 1 {
            assert(v[1] == r@[1]@);
            assert(r@[1]@.len() == r@[1].spans@.len());
            assert(r@[1]@[0] == r@[1].spans@[0]@);
        }
    }
}

/// The line of a thread: its icon, its name filled up to the columns for names,
/// its status filled up to six columns, and how long it has run, which is
/// nothing where it starts in the future.
pub proof fn law_threads_have_their_lines<T>(
    widget: ThreadListWidget<T>,
    width: u16,
    height: u16,
    threads: Vec<ThreadInfo>,
    names: Vec<String>,
    now: Timestamp,
    r: Vec<StyledLine>,
    i: int,
    icon: &str,
    word: &str,
    style: SpanStyle,
    columns: usize,
    secs: u64,
    time: String,
)
    requires
        call_ensures(
            ThreadListWidget::<T>::render_at,
            (&widget, width, height, &threads, &names, now),
            r,
        ),
        0 <= i < threads@.len(),
        width >= 4,
        i + 1 < height,
        call_ensures(status_icon, (threads@[i].status,), icon),
        call_ensures(ThreadStatus::label, (&threads@[i].status,), word),
        call_ensures(ThreadListWidget::<T>::status_style, (&widget, threads@[i].status), style),
        call_ensures(max_name_len, (width as usize,), columns),
        ({
            let run = span_between(
                now.secs,
                now.nanos,
                threads@[i].started_at.secs,
                threads@[i].started_at.nanos,
            ).0;
            secs == (if run < 0 {
                0
            } else {
                run
            })
        }),
        call_ensures(format_uptime, (secs,), time),
    ensures
        i + 1 < r@.len(),
        ({
            let s = r@[i + 1].spans@;
            &&& s.len() == 6
            &&& s[0].content@ == " "@ + icon@ + " "@ && s[0].style == style
            &&& s[1].content@ == padded(names@[i]@, columns as nat) && s[1].style is Bold
            &&& s[2].content@ == "  "@ && s[2].style is Raw
            &&& s[3].content@ == padded(word@, 6) && s[3].style == style
            &&& s[4].content@ == "  "@ && s[4].style is Raw
            &&& s[5].content@ == time@ && s[5].style is Dim
        }),
{
    let v = styled_views(r@);
    assert(v.len() == r@.len());
    assert(v[i + 1] == r@[i + 1]@);
    assert(v[i + 1] == thread_row(threads@[i], names@[i]@, width as nat, now));
    let s = r@[i + 1].spans@;
    let w = r@[i + 1]@;
    assert(w.len() == s.len());
    assert(w[0] == s[0]@ && w[1] == s[1]@ && w[2] == s[2]@ && w[3] == s[3]@ && w[4] == s[4]@
        && w[5] == s[5]@);
}

} // verus!
