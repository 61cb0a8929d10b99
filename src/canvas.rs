//! Terminal drawing as data: every paint is a list of [`PaintOp`]s that a
//! terminal backend replays in order.

use vstd::prelude::*;

verus! {

/// Width of every status badge, such as `[ ok ]`.
pub const BADGE_WIDTH: u16 = 6;

/// Column at which a step's label starts (after the bullet and a space).
pub const LABEL_COLUMN: u16 = 2;

/// The colours the engine draws with.
#[derive(Clone, Copy, Debug, PartialEq, Eq, Structural)]
pub enum Color {
    Green,
    Red,
    Blue,
    White,
    Reset,
}

/// What the badge region at the right end of a row shows.
#[derive(Clone, Copy, Debug, PartialEq, Eq, Structural)]
pub enum Badge {
    /// The step succeeded: `[ ok ]`.
    Passed,
    /// The step failed: `[ !! ]`.
    Failed,
    /// The step is in flight; the frame index is taken modulo the cycle length.
    Spinner(u8),
}

/// One primitive terminal operation.
#[derive(Debug, PartialEq, Eq)]
pub enum PaintOp {
    /// Move the cursor to (column, row), both zero-based.
    MoveTo(u16, u16),
    SetColor(Color),
    Print(String),
    ClearLine,
    ClearAll,
    HideCursor,
    ShowCursor,
}

/// The mathematical value of a [`PaintOp`]: printed text becomes its characters.
pub ghost enum PaintView {
    MoveTo(u16, u16),
    SetColor(Color),
    Print(Seq<char>),
    ClearLine,
    ClearAll,
    HideCursor,
    ShowCursor,
}

impl View for PaintOp {
    type V = PaintView;

    open spec fn view(&self) -> PaintView {
        match self {
            PaintOp::MoveTo(c, r) => PaintView::MoveTo(*c, *r),
            PaintOp::SetColor(c) => PaintView::SetColor(*c),
            PaintOp::Print(s) => PaintView::Print(s@),
            PaintOp::ClearLine => PaintView::ClearLine,
            PaintOp::ClearAll => PaintView::ClearAll,
            PaintOp::HideCursor => PaintView::HideCursor,
            PaintOp::ShowCursor => PaintView::ShowCursor,
        }
    }
}

/// The views of a list of operations, in order.
pub open spec fn ops_view(ops: Seq<PaintOp>) -> Seq<PaintView> {
    ops.map_values(|o: PaintOp| o@)
}

/// Number of frames in the spinner cycle.
pub const SPINNER_FRAMES: u8 = 4;

/// The two characters of spinner frame `i` (taken modulo the cycle).
pub open spec fn frame_text(i: u8) -> Seq<char> {
    let k = i % 4;
    if k == 0 {
        seq!['.', ' ']
    } else if k == 1 {
        seq!['.', '.']
    } else if k == 2 {
        seq!['.', ':']
    } else {
        seq![':', ':']
    }
}

/// The text between the brackets of a badge.
pub open spec fn badge_inner(b: Badge) -> Seq<char> {
    match b {
        Badge::Passed => seq![' ', 'o', 'k', ' '],
        Badge::Failed => seq![' ', '!', '!', ' '],
        Badge::Spinner(i) => seq![' '] + frame_text(i) + seq![' '],
    }
}

/// The colour of a badge's inner text, which is also the colour of the row's bullet.
pub open spec fn badge_color(b: Badge) -> Color {
    match b {
        Badge::Failed => Color::Red,
        _ => Color::Green,
    }
}

/// Where a badge starts on a terminal `cols` columns wide: flush right, or at
/// column 0 when the terminal is narrower than the badge.
pub open spec fn badge_column_of(cols: u16) -> u16 {
    if cols >= BADGE_WIDTH {
        (cols - BADGE_WIDTH) as u16
    } else {
        0
    }
}

/// Operations that draw only the badge region of `row`.
pub open spec fn badge_plan(row: u16, cols: u16, b: Badge) -> Seq<PaintView> {
    seq![
        PaintView::SetColor(Color::Blue),
        PaintView::MoveTo(badge_column_of(cols), row),
        PaintView::Print(seq!['[']),
        PaintView::SetColor(badge_color(b)),
        PaintView::Print(badge_inner(b)),
        PaintView::SetColor(Color::Blue),
        PaintView::Print(seq![']']),
        PaintView::SetColor(Color::Reset),
    ]
}

/// Operations that draw the bullet and the label of `row`, each after an
/// explicit cursor move.
pub open spec fn label_plan(row: u16, bullet: Color, label: Seq<char>) -> Seq<PaintView> {
    seq![
        PaintView::SetColor(bullet),
        PaintView::MoveTo(0, row),
        PaintView::Print(seq!['*']),
        PaintView::MoveTo(LABEL_COLUMN, row),
        PaintView::SetColor(Color::White),
        PaintView::Print(label),
    ]
}

/// A whole status row: bullet, label and badge.
pub open spec fn status_plan(row: u16, cols: u16, label: Seq<char>, b: Badge) -> Seq<PaintView> {
    label_plan(row, badge_color(b), label) + badge_plan(row, cols, b)
}

/// Operations that wipe `row`.
pub open spec fn clear_row_plan(row: u16) -> Seq<PaintView> {
    seq![PaintView::MoveTo(0, row), PaintView::ClearLine]
}

/// Column at which a badge starts on a terminal `cols` columns wide.
pub fn badge_column(cols: u16) -> (r: u16)
    ensures
        r == badge_column_of(cols),
        r as int + BADGE_WIDTH as int >= cols as int,
{
    cols.saturating_sub(BADGE_WIDTH)
}

/// The two characters of spinner frame `i`, taken modulo the cycle.
pub fn spinner_frame(i: u8) -> (r: &'static str)
    ensures
        r@ == frame_text(i),
{
    proof {
        reveal_strlit(". ");
        reveal_strlit("..");
        reveal_strlit(".:");
        reveal_strlit("::");
    }
    let k = i % SPINNER_FRAMES;
    if k == 0 {
        ". "
    } else if k == 1 {
        ".."
    } else if k == 2 {
        ".:"
    } else {
        "::"
    }
}

/// The text between a badge's brackets.
pub fn badge_text(b: Badge) -> (r: String)
    ensures
        r@ == badge_inner(b),
{
    proof {
        reveal_strlit(" ok ");
        reveal_strlit(" !! ");
        reveal_strlit(" ");
    }
    match b {
        Badge::Passed => String::from_str(" ok "),
        Badge::Failed => String::from_str(" !! "),
        Badge::Spinner(i) => {
            let mut s = String::from_str(" ");
            s.append(spinner_frame(i));
            s.append(" ");
            s
        },
    }
}

/// The bullet and badge colour for `b`.
pub fn color_of(b: Badge) -> (r: Color)
    ensures
        r == badge_color(b),
{
    match b {
        Badge::Failed => Color::Red,
        _ => Color::Green,
    }
}

fn text(s: &str) -> (r: PaintOp)
    ensures
        r@ == PaintView::Print(s@),
{
    PaintOp::Print(String::from_str(s))
}

/// Draws only the badge region of `row`; the rest of the row is untouched.
pub fn paint_badge(row: u16, cols: u16, b: Badge) -> (r: Vec<PaintOp>)
    ensures
        ops_view(r@) == badge_plan(row, cols, b),
{
    proof {
        reveal_strlit("[");
        reveal_strlit("]");
        assert("["@ =~= seq!['[']);
        assert("]"@ =~= seq![']']);
    }
    let mut ops: Vec<PaintOp> = Vec::new();
    ops.push(PaintOp::SetColor(Color::Blue));
    ops.push(PaintOp::MoveTo(badge_column(cols), row));
    ops.push(text("["));
    ops.push(PaintOp::SetColor(color_of(b)));
    ops.push(PaintOp::Print(badge_text(b)));
    ops.push(PaintOp::SetColor(Color::Blue));
    ops.push(text("]"));
    ops.push(PaintOp::SetColor(Color::Reset));
    assert(ops_view(ops@) =~= badge_plan(row, cols, b));
    ops
}

/// Draws the bullet and the label of `row`, leaving the badge region alone.
pub fn paint_label(row: u16, bullet: Color, label: &str) -> (r: Vec<PaintOp>)
    ensures
        ops_view(r@) == label_plan(row, bullet, label@),
{
    proof {
        reveal_strlit("*");
        assert("*"@ =~= seq!['*']);
    }
    let mut ops: Vec<PaintOp> = Vec::new();
    ops.push(PaintOp::SetColor(bullet));
    ops.push(PaintOp::MoveTo(0, row));
    ops.push(text("*"));
    ops.push(PaintOp::MoveTo(LABEL_COLUMN, row));
    ops.push(PaintOp::SetColor(Color::White));
    ops.push(text(label));
    assert(ops_view(ops@) =~= label_plan(row, bullet, label@));
    ops
}

/// Draws a whole status row: bullet, label and the badge `b`.
pub fn paint_status(row: u16, cols: u16, label: &str, b: Badge) -> (r: Vec<PaintOp>)
    ensures
        ops_view(r@) == status_plan(row, cols, label@, b),
{
    let mut ops = paint_label(row, color_of(b), label);
    let mut badge = paint_badge(row, cols, b);
    let ghost first = ops@;
    let ghost second = badge@;
    ops.append(&mut badge);
    assert(ops_view(ops@) =~= ops_view(first) + ops_view(second));
    ops
}

/// Draws `description` on `row` with a green `[ ok ]` badge.
pub fn ok(description: &str, row: u16, cols: u16) -> (r: Vec<PaintOp>)
    ensures
        ops_view(r@) == status_plan(row, cols, description@, Badge::Passed),
{
    paint_status(row, cols, description, Badge::Passed)
}

/// Draws `description` on `row` with a red `[ !! ]` badge.
pub fn ko(description: &str, row: u16, cols: u16) -> (r: Vec<PaintOp>)
    ensures
        ops_view(r@) == status_plan(row, cols, description@, Badge::Failed),
{
    paint_status(row, cols, description, Badge::Failed)
}

/// Wipes `row`.
pub fn clear_row(row: u16) -> (r: Vec<PaintOp>)
    ensures
        ops_view(r@) == clear_row_plan(row),
{
    let mut ops: Vec<PaintOp> = Vec::new();
    ops.push(PaintOp::MoveTo(0, row));
    ops.push(PaintOp::ClearLine);
    assert(ops_view(ops@) =~= clear_row_plan(row));
    ops
}

/// Takes the canvas at the start of a run: clear the screen, hide the cursor.
pub fn acquire() -> (r: Vec<PaintOp>)
    ensures
        ops_view(r@) == seq![PaintView::ClearAll, PaintView::HideCursor],
{
    let mut ops: Vec<PaintOp> = Vec::new();
    ops.push(PaintOp::ClearAll);
    ops.push(PaintOp::HideCursor);
    assert(ops_view(ops@) =~= seq![PaintView::ClearAll, PaintView::HideCursor]);
    ops
}

/// Gives the canvas back at the end of a run: show the cursor and leave the
/// scoreboard above the prompt.
pub fn release() -> (r: Vec<PaintOp>)
    ensures
        ops_view(r@) == seq![PaintView::ShowCursor, PaintView::Print(seq!['\n', '\n'])],
{
    proof {
        reveal_strlit("\n\n");
        assert("\n\n"@ =~= seq!['\n', '\n']);
    }
    let mut ops: Vec<PaintOp> = Vec::new();
    ops.push(PaintOp::ShowCursor);
    ops.push(text("\n\n"));
    assert(ops_view(ops@) =~= seq![PaintView::ShowCursor, PaintView::Print(seq!['\n', '\n'])]);
    ops
}

} // verus!
