//! Lines of styled text.

use vstd::prelude::*;

verus! {

broadcast use vstd::string::group_string_axioms;

/// How a piece of text looks. `Custom` stands for a style that whoever made
/// the text keeps under that number.
#[derive(Clone, Copy, Debug, PartialEq, Eq, Structural)]
pub enum SpanStyle {
    Raw,
    Accent,
    Bold,
    Dim,
    Success,
    Error,
    Custom(usize),
}

/// A piece of text in one style.
#[derive(Debug)]
pub struct TextSpan {
    pub content: String,
    pub style: SpanStyle,
}

/// What a piece of text holds.
pub ghost struct SpanView {
    pub content: Seq<char>,
    pub style: SpanStyle,
}

impl View for TextSpan {
    type V = SpanView;

    open spec fn view(&self) -> SpanView {
        SpanView { content: self.content@, style: self.style }
    }
}

/// The pieces of a list.
pub open spec fn span_views(list: Seq<TextSpan>) -> Seq<SpanView> {
    list.map_values(|s: TextSpan| s@)
}

/// One line.
#[derive(Debug)]
pub struct StyledLine {
    pub spans: Vec<TextSpan>,
}

impl View for StyledLine {
    type V = Seq<SpanView>;

    open spec fn view(&self) -> Seq<SpanView> {
        span_views(self.spans@)
    }
}

/// The lines of a list.
pub open spec fn styled_views(list: Seq<StyledLine>) -> Seq<Seq<SpanView>> {
    list.map_values(|l: StyledLine| l@)
}

/// A piece of text.
pub open spec fn span(content: Seq<char>, style: SpanStyle) -> SpanView {
    SpanView { content, style }
}

/// A piece of text in a style.
pub fn styled(content: String, style: SpanStyle) -> (r: TextSpan)
    ensures
        r@ == span(content@, style),
{
    TextSpan { content, style }
}

/// The empty line.
pub open spec fn blank_line() -> Seq<SpanView> {
    seq![span(""@, SpanStyle::Raw)]
}

/// An empty line.
pub fn blank() -> (r: StyledLine)
    ensures
        r@ == blank_line(),
{
    one(styled("".to_string(), SpanStyle::Raw))
}

/// A line of one piece.
pub fn one(s: TextSpan) -> (r: StyledLine)
    ensures
        r@ == seq![s@],
{
    let mut spans: Vec<TextSpan> = Vec::new();
    spans.push(s);
    assert(span_views(spans@) =~= seq![s@]);
    StyledLine { spans }
}

/// A line of two pieces.
pub fn two(a: TextSpan, b: TextSpan) -> (r: StyledLine)
    ensures
        r@ == seq![a@, b@],
{
    let mut spans: Vec<TextSpan> = Vec::new();
    spans.push(a);
    spans.push(b);
    assert(span_views(spans@) =~= seq![a@, b@]);
    StyledLine { spans }
}

/// Adds a line to the end of a list.
pub fn push_line(lines: &mut Vec<StyledLine>, line: StyledLine)
    ensures
        styled_views(final(lines)@) == styled_views(old(lines)@).push(line@),
        final(lines).len() == old(lines).len() + 1,
{
    lines.push(line);
    assert(styled_views(lines@) =~= styled_views(old(lines)@).push(line@));
}

/// A copy of a line's pieces, added to `out`.
pub fn append_spans(out: &mut Vec<TextSpan>, spans: &Vec<TextSpan>)
    ensures
        span_views(final(out)@) == span_views(old(out)@) + span_views(spans@),
{
    let mut i: usize = 0;
    assert(span_views(out@) =~= span_views(out@) + span_views(spans@).take(0));
    while i < spans.len()
        invariant
            i <= spans.len(),
            span_views(out@) == span_views(old(out)@) + span_views(spans@).take(i as int),
        decreases spans.len() - i,
    {
        let ghost before = out@;
        let copy = TextSpan { content: spans[i].content.clone(), style: spans[i].style };
        assert(copy@ == span_views(spans@)[i as int]);
        out.push(copy);
        i += 1;
        assert(span_views(out@) =~= span_views(before).push(copy@));
        assert(span_views(spans@).take(i as int) =~= span_views(spans@).take(i - 1).push(copy@));
        assert(span_views(out@) =~= span_views(old(out)@) + span_views(spans@).take(i as int));
    }
    assert(span_views(spans@).take(i as int) =~= span_views(spans@));
}

/// A copy of a line.
pub fn copy_line(line: &StyledLine) -> (r: StyledLine)
    ensures
        r@ == line@,
{
    let mut spans: Vec<TextSpan> = Vec::new();
    append_spans(&mut spans, &line.spans);
    assert(span_views(spans@) =~= line@);
    StyledLine { spans }
}

// ── Laws ────────────────────────────────────────────────────

/// Lines are made of the pieces that they are given, in order, and a copy holds
/// the same pieces; an empty line is one empty piece.
pub proof fn law_lines_hold_their_pieces(
    text: String,
    style: SpanStyle,
    a: TextSpan,
    b: TextSpan,
    line: StyledLine,
    piece: TextSpan,
    empty: StyledLine,
    single: StyledLine,
    pair: StyledLine,
    copy: StyledLine,
)
    requires
        call_ensures(styled, (text, style), piece),
        call_ensures(blank, (), empty),
        call_ensures(one, (a,), single),
        call_ensures(two, (a, b), pair),
        call_ensures(copy_line, (&line,), copy),
    ensures
        piece.content@ == text@ && piece.style == style,
        empty.spans@.len() == 1 && empty.spans@[0].content@ == ""@ && empty.spans@[0].style is Raw,
        single.spans@.len() == 1 && single.spans@[0]@ == a@,
        pair.spans@.len() == 2 && pair.spans@[0]@ == a@ && pair.spans@[1]@ == b@,
        copy.spans@.len() == line.spans@.len(),
        forall|i: int|
            0 <= i < line.spans@.len() ==> (#[trigger] copy.spans@[i])@ == line.spans@[i]@,
{
    assert(piece@.content == piece.content@ && piece@.style == piece.style);
    assert(span_views(empty.spans@).len() == empty.spans@.len());
    assert(span_views(empty.spans@)[0] == empty.spans@[0]@);
    assert(span_views(single.spans@).len() == single.spans@.len());
    assert(span_views(single.spans@)[0] == single.spans@[0]@);
    assert(span_views(pair.spans@).len() == pair.spans@.len());
    assert(span_views(pair.spans@)[0] == pair.spans@[0]@);
    assert(span_views(pair.spans@)[1] == pair.spans@[1]@);
    assert(span_views(copy.spans@).len() == copy.spans@.len());
    assert(span_views(line.spans@).len() == line.spans@.len());
    assert forall|i: int| 0 <= i < line.spans@.len() implies (#[trigger] copy.spans@[i])@
        == line.spans@[i]@ by {
        assert(span_views(copy.spans@)[i] == span_views(line.spans@)[i]);
    }
}

/// A line joins a list at its end, and pieces join others behind them.
pub proof fn law_lines_join_a_list(
    lines: &mut Vec<StyledLine>,
    line: StyledLine,
    out: &mut Vec<TextSpan>,
    more: Vec<TextSpan>,
)
    requires
        call_ensures(push_line, (lines, line), ()),
        call_ensures(append_spans, (out, &more), ()),
    ensures
        final(lines)@.len() == old(lines)@.len() + 1,
        styled_views(final(lines)@).last() == line@,
        styled_views(final(lines)@).drop_last() == styled_views(old(lines)@),
        span_views(final(out)@).take(old(out)@.len() as int) == span_views(old(out)@),
        span_views(final(out)@).skip(old(out)@.len() as int) == span_views(more@),
{
    assert(styled_views(final(lines)@).drop_last() =~= styled_views(old(lines)@));
    assert(span_views(final(out)@).take(old(out)@.len() as int) =~= span_views(old(out)@));
    assert(span_views(final(out)@).skip(old(out)@.len() as int) =~= span_views(more@));
}

} // verus!
