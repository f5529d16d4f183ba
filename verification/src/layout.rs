//! The screen layout: the areas given to the title, the sent messages, the
//! input and the status line, and the heights that decide them.
//!
//! Areas are split by the constraint solver of `ratatui`, behind `split`.
use ratatui::layout::{
    Constraint as SolverConstraint, Direction as SolverDirection, Layout, Rect as SolverRect,
};
use vstd::prelude::*;

verus! {

/// A rectangle of terminal cells: its top left corner, width and height.
#[derive(Clone, Copy, Debug, PartialEq, Eq, Structural)]
pub struct Rect {
    pub x: u16,
    pub y: u16,
    pub width: u16,
    pub height: u16,
}

/// The direction in which an area is split.
#[derive(Clone, Copy, Debug, PartialEq, Eq, Structural)]
pub enum Direction {
    Horizontal,
    Vertical,
}

/// What a part of a split asks for: a share of the space left over, at most a
/// size, or exactly a size.
#[derive(Clone, Copy, Debug, PartialEq, Eq, Structural)]
pub enum Constraint {
    Fill(u16),
    Max(u16),
    Length(u16),
}

/// The parts into which `ratatui`'s layout solver splits an area.
pub uninterp spec fn split_areas(direction: Direction, constraints: Seq<Constraint>, area: Rect) -> Seq<Rect>;

/// `Layout::split` of `ratatui` with the default margin, spacing and flex:
/// the area split in the direction, one part per constraint. What the parts
/// are is named by `split_areas`; that there is one per constraint is stated.
#[verifier::external_body]
pub fn split(direction: Direction, constraints: &Vec<Constraint>, area: Rect) -> (parts: Vec<Rect>)
    ensures
        parts@ == split_areas(direction, constraints@, area),
        parts@.len() == constraints@.len(),
{
    let d = match direction {
        Direction::Horizontal => SolverDirection::Horizontal,
        Direction::Vertical => SolverDirection::Vertical,
    };
    let cs = constraints.iter().map(|c| match *c {
        Constraint::Fill(n) => SolverConstraint::Fill(n),
        Constraint::Max(n) => SolverConstraint::Max(n),
        Constraint::Length(n) => SolverConstraint::Length(n),
    });
    let r = SolverRect { x: area.x, y: area.y, width: area.width, height: area.height };
    let parts = Layout::default().direction(d).constraints(cs).split(r);
    parts.iter().map(|p| Rect { x: p.x, y: p.y, width: p.width, height: p.height }).collect()
}

/// The fewest rows the input area takes.
pub const MIN_INPUT_HEIGHT: u16 = 5;

/// The most rows the input area takes.
pub const MAX_INPUT_HEIGHT: u16 = 12;

/// `rows` held between `MIN_INPUT_HEIGHT` and `MAX_INPUT_HEIGHT`.
pub open spec fn clamp_input_rows(rows: u16) -> u16 {
    if rows < MIN_INPUT_HEIGHT {
        MIN_INPUT_HEIGHT
    } else if rows > MAX_INPUT_HEIGHT {
        MAX_INPUT_HEIGHT
    } else {
        rows
    }
}

/// The height of the input area for an input of `line_count` lines: the line
/// count, taken as a `u16`, held between 5 and 12.
pub fn input_height(line_count: usize) -> (h: u16)
    ensures
        h == clamp_input_rows(line_count as u16),
        MIN_INPUT_HEIGHT <= h <= MAX_INPUT_HEIGHT,
{
    let rows = line_count as u16;
    if rows < MIN_INPUT_HEIGHT {
        MIN_INPUT_HEIGHT
    } else if rows > MAX_INPUT_HEIGHT {
        MAX_INPUT_HEIGHT
    } else {
        rows
    }
}

/// The height of a sent message of `line_count` lines: its lines and one row of
/// padding above and below, taken as a `u16`.
pub fn message_height(line_count: usize) -> (h: u16)
    requires
        line_count + 2 <= usize::MAX,
    ensures
        h == (line_count + 2) as u16,
{
    (line_count + 2) as u16
}

/// The column of the screen that holds everything: at most 120 cells wide,
/// centred between two equal margins.
pub open spec fn centered_column(area: Rect) -> Rect {
    split_areas(
        Direction::Horizontal,
        seq![Constraint::Fill(1), Constraint::Max(120), Constraint::Fill(1)],
        area,
    )[1]
}

/// The rows of the column: the title (2 rows), the messages (the rest), the
/// input (`input_height` rows) and the status line (1 row).
pub open spec fn screen_rows(area: Rect, input_lines: usize) -> Seq<Rect> {
    split_areas(
        Direction::Vertical,
        seq![
            Constraint::Length(2),
            Constraint::Fill(1),
            Constraint::Length(clamp_input_rows(input_lines as u16)),
            Constraint::Length(1),
        ],
        centered_column(area),
    )
}

/// One row constraint per sent message: its `message_height`.
pub open spec fn message_constraints(message_lines: Seq<usize>) -> Seq<Constraint> {
    message_lines.map_values(|n: usize| Constraint::Length((n + 2) as u16))
}

/// The areas of the screen.
#[derive(Debug)]
pub struct ScreenLayout {
    pub title: Rect,
    pub messages: Vec<Rect>,
    pub input: Rect,
    pub status: Rect,
}

/// Lays the screen out for an input of `input_lines` lines and sent messages
/// of `message_lines` lines each, in that order.
pub fn screen_layout(area: Rect, input_lines: usize, message_lines: &Vec<usize>) -> (s: ScreenLayout)
    requires
        forall|i: int| 0 <= i < message_lines@.len() ==> #[trigger] message_lines@[i] + 2 <= usize::MAX,
    ensures
        s.title == screen_rows(area, input_lines)[0],
        s.input == screen_rows(area, input_lines)[2],
        s.status == screen_rows(area, input_lines)[3],
        s.messages@.len() == message_lines@.len(),
        s.messages@ == split_areas(
            Direction::Vertical,
            message_constraints(message_lines@),
            screen_rows(area, input_lines)[1],
        ),
{
    let columns = split(
        Direction::Horizontal,
        &vec![Constraint::Fill(1), Constraint::Max(120), Constraint::Fill(1)],
        area,
    );
    let column = columns[1];
    let height = input_height(input_lines);
    let rows = split(
        Direction::Vertical,
        &vec![
            Constraint::Length(2),
            Constraint::Fill(1),
            Constraint::Length(height),
            Constraint::Length(1),
        ],
        column,
    );
    let mut constraints: Vec<Constraint> = Vec::new();
    let mut i: usize = 0;
    while i < message_lines.len()
        invariant
            i <= message_lines@.len(),
            constraints@ == message_constraints(message_lines@.take(i as int)),
            forall|j: int| 0 <= j < message_lines@.len() ==> #[trigger] message_lines@[j] + 2 <= usize::MAX,
        decreases message_lines@.len() - i,
    {
        proof {
            assert(message_lines@.take(i as int + 1) =~= message_lines@.take(i as int).push(message_lines@[i as int]));
        }
        constraints.push(Constraint::Length(message_height(message_lines[i])));
        i = i + 1;
        proof {
            assert(constraints@ =~= message_constraints(message_lines@.take(i as int)));
        }
    }
    proof {
        assert(message_lines@.take(message_lines@.len() as int) =~= message_lines@);
    }
    let messages = split(Direction::Vertical, &constraints, rows[1]);
    ScreenLayout { title: rows[0], messages, input: rows[2], status: rows[3] }
}

/// The two parts of a message's area: the caret column (3 cells) and the text.
pub open spec fn message_parts(area: Rect) -> Seq<Rect> {
    split_areas(Direction::Horizontal, seq![Constraint::Length(3), Constraint::Fill(1)], area)
}

/// Splits a message's area into its caret column and its text area.
pub fn message_areas(area: Rect) -> (r: (Rect, Rect))
    ensures
        r.0 == message_parts(area)[0],
        r.1 == message_parts(area)[1],
{
    let parts = split(Direction::Horizontal, &vec![Constraint::Length(3), Constraint::Fill(1)], area);
    (parts[0], parts[1])
}

} // verus!
