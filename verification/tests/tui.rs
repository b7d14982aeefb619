use ironclaw::time::Timestamp;
use ironclaw::tui::conversation::{
    available_for_command, body_columns, render_tool_line, tool_command, tool_elapsed_ms,
    tool_elapsed_now, turn_tools, usable_columns, AppState, ChatMessage, ChatRole,
    ConversationWidget, ToolActivity, ToolStatus, ToolTexts,
};
use ironclaw::tui::line::{SpanStyle, StyledLine, TextSpan};
use ironclaw::tui::slot::TuiSlot;
use ironclaw::tui::thread_list::{
    format_uptime, max_name_len, status_icon, ThreadInfo, ThreadListWidget, ThreadStatus,
};
use ratatui::buffer::Buffer;
use ratatui::layout::Rect;
use ratatui::text::{Line, Span};
use ratatui::widgets::{Paragraph, Widget};

fn ago(secs: i64) -> Timestamp {
    let at = chrono::Utc::now() - chrono::Duration::seconds(secs);
    Timestamp { secs: at.timestamp(), nanos: at.timestamp_subsec_nanos() }
}

fn thread(id: &str, label: &str, status: ThreadStatus, secs: i64) -> ThreadInfo {
    ThreadInfo {
        id: id.to_string(),
        label: label.to_string(),
        is_foreground: true,
        is_running: true,
        duration_secs: secs as u64,
        status,
        started_at: ago(secs),
    }
}

fn names(threads: &[ThreadInfo], width: u16) -> Vec<String> {
    threads
        .iter()
        .map(|t| t.name().chars().take(max_name_len(width as usize)).collect())
        .collect()
}

fn draw(lines: &[StyledLine], w: u16, h: u16) -> String {
    let area = Rect::new(0, 0, w, h);
    let mut buf = Buffer::empty(area);
    let shown: Vec<Line> = lines
        .iter()
        .map(|l| Line::from(l.spans.iter().map(|s| Span::raw(s.content.clone())).collect::<Vec<_>>()))
        .collect();
    Paragraph::new(shown).render(area, &mut buf);
    let mut text = String::new();
    for y in area.top()..area.bottom() {
        for x in area.left()..area.right() {
            text.push_str(buf[(x, y)].symbol());
        }
        text.push('\n');
    }
    text
}

fn render_threads(threads: Vec<ThreadInfo>, w: u16, h: u16) -> String {
    let widget = ThreadListWidget::new(());
    let shown = names(&threads, w);
    let lines = widget.render(w, h, &threads, &shown);
    draw(&lines, w, h)
}

fn plain(lines: &[StyledLine]) -> Vec<String> {
    lines.iter().map(|l| l.spans.iter().map(|s| s.content.as_str()).collect::<String>()).collect()
}

#[test]
fn widgets_have_their_places() {
    let list = ThreadListWidget::new(());
    assert_eq!((list.id(), list.slot()), ("thread_list", TuiSlot::SidebarSection));
    let conversation = ConversationWidget::new(());
    assert_eq!((conversation.id(), conversation.slot()), ("conversation", TuiSlot::Tab));
}

#[test]
fn empty_threads_shows_no_threads() {
    let text = render_threads(vec![], 40, 5);
    assert!(text.contains("THREADS (0)"));
    assert!(text.contains("(no threads)"));
}

#[test]
fn renders_active_thread() {
    let text = render_threads(vec![thread("t1", "main", ThreadStatus::Active, 120)], 50, 5);
    assert!(text.contains("THREADS (1)"));
    assert!(text.contains("main"));
    assert!(text.contains("active"));
    assert!(text.contains("\u{25CF}"));
}

#[test]
fn renders_idle_thread() {
    let text = render_threads(vec![thread("t2", "background", ThreadStatus::Idle, 900)], 50, 5);
    assert!(text.contains("idle"));
    assert!(text.contains("\u{25CB}"));
}

#[test]
fn renders_completed_thread() {
    let text = render_threads(vec![thread("job-123", "job-123", ThreadStatus::Completed, 300)], 50, 5);
    assert!(text.contains("done"));
    assert!(text.contains("\u{2713}"));
}

#[test]
fn renders_failed_thread() {
    let text = render_threads(vec![thread("job-456", "job-456", ThreadStatus::Failed, 60)], 50, 5);
    assert!(text.contains("failed"));
    assert!(text.contains("\u{2717}"));
}

#[test]
fn multiple_threads_render() {
    let text = render_threads(
        vec![
            thread("t1", "main", ThreadStatus::Active, 120),
            thread("t2", "worker", ThreadStatus::Idle, 900),
            thread("t3", "cleanup", ThreadStatus::Completed, 45),
        ],
        50,
        8,
    );
    assert!(text.contains("THREADS (3)"));
    assert!(text.contains("main"));
    assert!(text.contains("worker"));
    assert!(text.contains("cleanup"));
}

#[test]
fn too_small_area_renders_nothing() {
    let text = render_threads(vec![], 3, 5);
    assert!(!text.contains("THREADS"));
}

#[test]
fn zero_height_renders_nothing() {
    let text = render_threads(vec![thread("t1", "main", ThreadStatus::Active, 0)], 40, 0);
    assert!(text.is_empty() || text.trim().is_empty());
}

#[test]
fn thread_status_display() {
    assert_eq!(ThreadStatus::Active.label(), "active");
    assert_eq!(ThreadStatus::Idle.label(), "idle");
    assert_eq!(ThreadStatus::Completed.label(), "done");
    assert_eq!(ThreadStatus::Failed.label(), "failed");
}

#[test]
fn format_uptime_seconds() {
    assert_eq!(format_uptime(30), "30s");
}

#[test]
fn format_uptime_minutes() {
    assert_eq!(format_uptime(150), "2m");
}

#[test]
fn format_uptime_hours() {
    assert_eq!(format_uptime(3720), "1h 2m");
}

#[test]
fn format_uptime_exact_hour() {
    assert_eq!(format_uptime(7200), "2h");
}

#[test]
fn label_falls_back_to_id() {
    let text = render_threads(vec![thread("abc-def", "", ThreadStatus::Active, 0)], 50, 5);
    assert!(text.contains("abc-def"));
}

#[test]
fn rows_are_exact() {
    let now = Timestamp { secs: 10_000, nanos: 500 };
    let mut a = thread("t1", "main", ThreadStatus::Active, 0);
    a.started_at = Timestamp { secs: 9_880, nanos: 400 };
    let mut b = thread("t2", "", ThreadStatus::Completed, 0);
    b.started_at = Timestamp { secs: 20_000, nanos: 0 };
    let threads = vec![a, b];
    let shown = names(&threads, 30);
    let widget = ThreadListWidget::new("theme");
    let lines = widget.render_at(30, 10, &threads, &shown, now);
    assert_eq!(
        plain(&lines),
        vec![
            format!(" THREADS (2) {}", "\u{2500}".repeat(17)),
            " \u{25CF} main       active  2m".to_string(),
            " \u{2713} t2         done    0s".to_string(),
        ]
    );
    assert_eq!(lines[1].spans[0].style, SpanStyle::Accent);
    assert_eq!(lines[2].spans[3].style, SpanStyle::Success);
    assert_eq!(lines[1].spans[1].style, SpanStyle::Bold);
    assert_eq!(widget.render_at(30, 2, &threads, &shown, now).len(), 2);
    assert_eq!(widget.id(), "thread_list");
    assert_eq!(*widget.theme(), "theme");
    assert_eq!(max_name_len(10), 4);
    assert_eq!(max_name_len(25), 4);
    assert_eq!(max_name_len(26), 5);
    assert_eq!(status_icon(ThreadStatus::Failed), "\u{2717}");
}

fn span(text: &str, style: SpanStyle) -> TextSpan {
    TextSpan { content: text.to_string(), style }
}

fn one_line(text: &str) -> StyledLine {
    StyledLine { spans: vec![span(text, SpanStyle::Custom(7))] }
}

fn chat(role: ChatRole, content: &str, at: i64) -> ChatMessage {
    ChatMessage {
        role,
        content: content.to_string(),
        timestamp: Timestamp { secs: at, nanos: 0 },
        body: vec![one_line(content)],
    }
}

fn tool(name: &str, detail: Option<&str>, status: ToolStatus, at: i64, ms: Option<u64>) -> ToolActivity {
    ToolActivity {
        name: name.to_string(),
        detail: detail.map(str::to_string),
        status,
        started_at: Timestamp { secs: at, nanos: 0 },
        duration_ms: ms,
    }
}

fn state() -> AppState {
    AppState {
        messages: vec![
            chat(ChatRole::System, "hello", 1),
            chat(ChatRole::User, "do it", 2),
            chat(ChatRole::Assistant, "done", 10),
        ],
        recent_tools: vec![
            tool("old", None, ToolStatus::Success, 5, Some(10)),
            tool("new", Some("ls"), ToolStatus::Failed, 11, Some(10)),
        ],
        active_tools: vec![tool("run", None, ToolStatus::Running, 12, None)],
        status_text: "thinking".to_string(),
        is_streaming: false,
        scroll_offset: 0,
    }
}

fn texts(command: &str, duration: &str) -> ToolTexts {
    ToolTexts { duration: duration.to_string(), command: command.to_string() }
}

#[test]
fn conversation_is_exact() {
    let widget = ConversationWidget::new(());
    let s = state();
    assert_eq!(turn_tools(&s), vec![1]);
    let lines = widget.render(24, 40, &s, &vec![texts("$  ls", "10ms")], &vec![texts("$  run", "1s")]);
    assert_eq!(
        plain(&lines),
        vec![
            "hello".to_string(),
            "".to_string(),
            "\u{25CF} do it".to_string(),
            "".to_string(),
            format!("  {}", "\u{2500}".repeat(20)),
            "  done".to_string(),
            "".to_string(),
            "".to_string(),
            "  \u{250A} \u{2717} $  ls     10ms".to_string(),
            "  \u{250A} \u{25CB} $  run      1s".to_string(),
            "  \u{25CB} thinking".to_string(),
        ]
    );
    assert_eq!(lines[5].spans[1].style, SpanStyle::Custom(7));
    assert_eq!(widget.id(), "conversation");
    assert!(widget.render(3, 40, &s, &vec![texts("", "")], &vec![texts("", "")]).is_empty());
    assert!(widget.render(24, 0, &s, &vec![texts("", "")], &vec![texts("", "")]).is_empty());
}

#[test]
fn view_scrolls_from_the_bottom() {
    let widget = ConversationWidget::new(());
    let mut s = state();
    let recent = vec![texts("a", "b")];
    let active = vec![texts("c", "d")];
    let bottom = plain(&widget.render(24, 3, &s, &recent, &active));
    assert_eq!(bottom.len(), 3);
    assert_eq!(bottom[2], "  \u{25CB} thinking");
    assert!(widget.scroll(&mut s, -1));
    assert_eq!(s.scroll_offset, 1);
    let up = plain(&widget.render(24, 3, &s, &recent, &active));
    assert_eq!(up[1], bottom[0]);
    assert_eq!(up[2], bottom[1]);
    assert!(widget.scroll(&mut s, 5));
    assert_eq!(s.scroll_offset, 0);
    assert!(!widget.scroll(&mut s, 5));
    assert!(!widget.scroll(&mut s, 0));
    assert!(widget.scroll(&mut s, i16::MIN));
    assert!(widget.scroll(&mut s, i16::MIN));
    assert!(!widget.scroll(&mut s, -1));
    assert_eq!(s.scroll_offset, u16::MAX);
    assert!(widget.render(24, 3, &s, &recent, &active).is_empty());
    s.is_streaming = true;
    s.scroll_offset = 0;
    let streaming = plain(&widget.render(24, 1, &s, &recent, &active));
    assert!(!streaming[0].contains("thinking"));
}

#[test]
fn columns_of_bodies() {
    assert_eq!(usable_columns(24), 20);
    assert_eq!(body_columns(ChatRole::Assistant, 24), 18);
    assert_eq!(body_columns(ChatRole::System, 24), 20);
    assert_eq!(body_columns(ChatRole::User, 24), 20);
    assert_eq!(body_columns(ChatRole::Assistant, 5), 0);
    assert_eq!(body_columns(ChatRole::System, 3), 0);
}

#[test]
fn first_user_message_has_no_blank_above() {
    let widget = ConversationWidget::new(());
    let s = AppState {
        messages: vec![chat(ChatRole::User, "hi", 1), chat(ChatRole::User, "again", 2)],
        recent_tools: vec![],
        active_tools: vec![],
        status_text: String::new(),
        is_streaming: false,
        scroll_offset: 0,
    };
    let lines = widget.render(100, 10, &s, &vec![], &vec![]);
    assert_eq!(plain(&lines), vec!["\u{25CF} hi", "", "", "\u{25CF} again", ""]);
}

#[test]
fn tool_lines_use_display_width() {
    let t = tool("t", Some("\u{4F60}\u{597D}"), ToolStatus::Success, 0, Some(5));
    assert_eq!(tool_command(&t), "$  \u{4F60}\u{597D}");
    assert_eq!(tool_command(&tool("t", None, ToolStatus::Success, 0, None)), "$  t");
    assert_eq!(available_for_command(&t, false, "5ms", 20), 9);
    assert_eq!(available_for_command(&t, false, "5ms", 4), 0);
    let line = render_tool_line(&t, &texts("$  \u{4F60}\u{597D}", "5ms"), 20, false);
    assert_eq!(plain(&[line])[0], "  \u{250A} \u{25CF} $  \u{4F60}\u{597D}    5ms");
    let tight = render_tool_line(&t, &texts("long command", "5ms"), 5, false);
    assert_eq!(tight.spans[3].content, " ");
    assert_eq!(tight.spans[1].style, SpanStyle::Success);
    let active = render_tool_line(&t, &texts("x", ""), 5, true);
    assert_eq!(active.spans[1].style, SpanStyle::Accent);
    assert_eq!(active.spans[1].content, "\u{25CB} ");
}

#[test]
fn elapsed_time_of_tools() {
    let t = tool("t", None, ToolStatus::Running, 100, Some(42));
    let now = Timestamp { secs: 101, nanos: 234_567_000 };
    assert_eq!(tool_elapsed_ms(&t, true, now), Some(1234));
    assert_eq!(tool_elapsed_ms(&t, false, now), Some(42));
    let before = Timestamp { secs: 98, nanos: 500_000_000 };
    assert_eq!(tool_elapsed_ms(&t, true, before), Some(1500));
    let fresh = ToolActivity { started_at: ago(0), ..tool("t", None, ToolStatus::Running, 0, None) };
    assert!(tool_elapsed_now(&fresh, true).expect("running") < 60_000);
    assert_eq!(tool_elapsed_now(&fresh, false), None);
}
