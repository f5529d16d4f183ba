use vstd::prelude::*;
use vstd::string::StringExecFns;

verus! {

/// The editing mode of the input line.
#[derive(Clone, Copy, Debug, PartialEq, Eq, Structural)]
pub enum Mode {
    Normal,
    Insert,
    /// `true` keeps replacing until Esc; `false` replaces one character.
    Replace(bool),
    Visual,
    /// Waiting for the motion of a pending operator (`y`, `c` or `d`).
    Operator(char),
}

/// The colours that modes are shown in.
#[derive(Clone, Copy, Debug, PartialEq, Eq, Structural)]
pub enum ModeColor {
    Reset,
    LightBlue,
    LightRed,
    LightYellow,
    LightGreen,
}

/// How the text cursor is drawn: the terminal's own style, or reversed video
/// in a colour.
#[derive(Clone, Copy, Debug, PartialEq, Eq, Structural)]
pub enum CursorStyle {
    Plain,
    Reversed(ModeColor),
}

/// The colour of a mode.
pub open spec fn mode_color(m: Mode) -> ModeColor {
    match m {
        Mode::Normal => ModeColor::Reset,
        Mode::Insert => ModeColor::LightBlue,
        Mode::Replace(_) => ModeColor::LightRed,
        Mode::Visual => ModeColor::LightYellow,
        Mode::Operator(_) => ModeColor::LightGreen,
    }
}

/// The name of a mode as the status line shows it.
pub open spec fn mode_label(m: Mode) -> Seq<char> {
    match m {
        Mode::Normal => "NORMAL"@,
        Mode::Insert => "INSERT"@,
        Mode::Replace(_) => "REPLACE"@,
        Mode::Visual => "VISUAL"@,
        Mode::Operator(c) => "O-PENDING("@ + seq![c] + ")"@,
    }
}

/// The hint that the status line offers in a mode.
pub open spec fn mode_help(m: Mode) -> Seq<char> {
    match m {
        Mode::Normal => "type q to quit, type i to enter insert mode"@,
        Mode::Replace(_) | Mode::Insert => "type Esc to back to normal mode"@,
        Mode::Visual => "type y to yank, type d to delete, type Esc to back to normal mode"@,
        Mode::Operator(_) => "move cursor to apply operator"@,
    }
}

/// `char::to_string`: the string that holds just the character.
#[verifier::external_body]
fn char_to_string(c: char) -> (s: String)
    ensures
        s@ == seq![c],
{
    c.to_string()
}

impl Mode {
    /// The colour of this mode.
    pub fn color(&self) -> (c: ModeColor)
        ensures
            c == mode_color(*self),
    {
        match self {
            Mode::Normal => ModeColor::Reset,
            Mode::Insert => ModeColor::LightBlue,
            Mode::Replace(_) => ModeColor::LightRed,
            Mode::Visual => ModeColor::LightYellow,
            Mode::Operator(_) => ModeColor::LightGreen,
        }
    }

    /// The cursor of this mode: reversed video in the mode's colour.
    pub fn cursor_style(&self) -> (s: CursorStyle)
        ensures
            s == CursorStyle::Reversed(mode_color(*self)),
    {
        CursorStyle::Reversed(self.color())
    }

    /// The name of this mode, as `NORMAL`, `INSERT`, `REPLACE`, `VISUAL` or
    /// `O-PENDING(op)`.
    pub fn label(&self) -> (s: String)
        ensures
            s@ == mode_label(*self),
    {
        match self {
            Mode::Normal => String::from_str("NORMAL"),
            Mode::Insert => String::from_str("INSERT"),
            Mode::Replace(_) => String::from_str("REPLACE"),
            Mode::Visual => String::from_str("VISUAL"),
            Mode::Operator(c) => {
                let mut s = String::from_str("O-PENDING(");
                let op = char_to_string(*c);
                s.append(op.as_str());
                s.append(")");
                s
            },
        }
    }

    /// The hint shown for this mode.
    pub fn help(&self) -> (s: &'static str)
        ensures
            s@ == mode_help(*self),
    {
        match self {
            Mode::Normal => "type q to quit, type i to enter insert mode",
            Mode::Replace(_) | Mode::Insert => "type Esc to back to normal mode",
            Mode::Visual => "type y to yank, type d to delete, type Esc to back to normal mode",
            Mode::Operator(_) => "move cursor to apply operator",
        }
    }
}

} // verus!
