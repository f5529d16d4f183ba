//! What the keys do to the text, derived from the plans of the key handlers
//! and the effects that the text area's wrappers state.
use crate::editor::{
    EditorView, Motion, cursor_in_line, cursor_line, printable_ascii_line, pos_before, pos_in_text,
    put_lines, selection_deleted, selection_placed, selection_range, text_between, without_between,
};
use crate::keys::{Key, KeyInput};
use crate::message::{
    TextOp, insert_plan, lemma_plan_empty, lemma_plan_frame, lemma_plan_one, normal_plan, op_effect,
    pending_plan, plan_effect, replace_plan, traversal_motion, traversal_ops, visual_plan,
};
use vstd::prelude::*;

verus! {

/// The view after a plan of two commands passes through a view after the first.
proof fn lemma_plan_two(a: EditorView, o1: TextOp, o2: TextOp, c: EditorView) -> (b: EditorView)
    requires
        plan_effect(a, seq![o1, o2], c),
    ensures
        op_effect(a, o1, b),
        op_effect(b, o2, c),
{
    let ops = seq![o1, o2];
    assert(ops[0] == o1);
    assert(ops.drop_first() =~= seq![o2]);
    let b = choose|b: EditorView| #[trigger] op_effect(a, ops[0], b) && plan_effect(b, ops.drop_first(), c);
    let rest = ops.drop_first();
    assert(rest[0] == o2);
    assert(rest.drop_first() =~= Seq::<TextOp>::empty());
    let m = choose|m: EditorView| #[trigger] op_effect(b, rest[0], m) && plan_effect(m, rest.drop_first(), c);
    b
}

/// In normal mode, `q`, `i`, `v`, `r`, `R`, `y`, `c`, `d` and Enter send no
/// command: the text, cursor, selection and cursor style stay as they were.
pub proof fn mode_keys_leave_text(c: char, input: KeyInput, before_end: bool, a: EditorView, b: EditorView)
    requires
        input.key == Key::Char(c) && (c == 'q' || c == 'i' || c == 'v' || c == 'R' || c == 'y' || c == 'c'
            || c == 'd' || (c == 'r' && !input.ctrl)) || input.key == Key::Enter,
        plan_effect(a, normal_plan(input, before_end).0, b),
    ensures
        b == a,
{
    lemma_plan_empty(a);
}

/// In normal mode a key that is not a command only moves the cursor: the
/// text, the selection and the cursor style stay.
pub proof fn other_normal_keys_only_move(input: KeyInput, before_end: bool, a: EditorView, b: EditorView)
    requires
        input.key != Key::Enter,
        forall|c: char| input.key == Key::Char(c) ==> !(c == 'q' || c == 'i' || c == 'I' || c == 'a' || c == 'A'
            || c == 'o' || c == 'O' || c == 'x' || c == 'X' || c == 'v' || c == 'r' || c == 'R' || c == 'y'
            || c == 'c' || c == 'd' || c == 'u' || c == 'U' || c == 'p'),
        plan_effect(a, normal_plan(input, before_end).0, b),
    ensures
        b.lines == a.lines,
        b.selection == a.selection,
        b.cursor_style == a.cursor_style,
        b.yank == a.yank,
        traversal_motion(input.key) matches Some(m) ==> b.cursor == (a.targets)(m),
        traversal_motion(input.key) is None ==> b == a,
{
    let ops = normal_plan(input, before_end).0;
    assert(ops == traversal_ops(input.key));
    if ops.len() == 0 {
        lemma_plan_empty(a);
    } else {
        let m = ops[0]->Move_0;
        assert(ops == seq![TextOp::Move(m)]);
        lemma_plan_one(a, TextOp::Move(m), b);
    }
}

/// `I` moves the cursor to column 0 of its line and changes nothing else.
pub proof fn capital_i_goes_to_line_start(input: KeyInput, before_end: bool, a: EditorView, b: EditorView)
    requires
        input.key == Key::Char('I'),
        plan_effect(a, normal_plan(input, before_end).0, b),
    ensures
        b == (EditorView { cursor: (a.cursor.0, 0usize), targets: b.targets, ..a }),
{
    lemma_plan_one(a, TextOp::Move(Motion::Head), b);
}

/// `A` moves the cursor to the end of its line and changes nothing else.
pub proof fn capital_a_goes_to_line_end(input: KeyInput, before_end: bool, a: EditorView, b: EditorView)
    requires
        input.key == Key::Char('A'),
        a.cursor.0 < a.lines.len(),
        plan_effect(a, normal_plan(input, before_end).0, b),
    ensures
        b == (EditorView { cursor: (a.cursor.0, b.cursor.1), targets: b.targets, ..a }),
        b.cursor.1 == cursor_line(a).len(),
{
    lemma_plan_one(a, TextOp::Move(Motion::End), b);
}

/// `a` before the end of a line moves the cursor forward: one character right
/// when each character of the line takes a cell. Elsewhere it leaves the
/// cursor. The text never changes.
pub proof fn small_a_appends(input: KeyInput, before_end: bool, a: EditorView, b: EditorView)
    requires
        input.key == Key::Char('a'),
        plan_effect(a, normal_plan(input, before_end).0, b),
    ensures
        b.lines == a.lines,
        b.selection == a.selection,
        !before_end ==> b == a,
        before_end ==> b.cursor == (a.targets)(Motion::Forward),
        before_end && cursor_in_line(a) && a.cursor.1 < cursor_line(a).len() && printable_ascii_line(a)
            ==> b.cursor == (a.cursor.0, (a.cursor.1 + 1) as usize),
{
    if before_end {
        lemma_plan_one(a, TextOp::Move(Motion::Forward), b);
    } else {
        lemma_plan_empty(a);
    }
}

/// `x` on a character of a line whose characters each take a cell, with no
/// selection, deletes that character and leaves the cursor where it is.
pub proof fn x_deletes_char_under_cursor(input: KeyInput, before_end: bool, a: EditorView, b: EditorView)
    requires
        input.key == Key::Char('x'),
        a.selection == None::<(usize, usize)>,
        cursor_in_line(a),
        a.cursor.1 < cursor_line(a).len(),
        printable_ascii_line(a),
        plan_effect(a, normal_plan(input, before_end).0, b),
    ensures
        b.lines == a.lines.update(
            a.cursor.0 as int,
            cursor_line(a).take(a.cursor.1 as int) + cursor_line(a).skip(a.cursor.1 + 1),
        ),
        b.cursor == a.cursor,
        b.selection == None::<(usize, usize)>,
        b.cursor_style == a.cursor_style,
        b.yank == a.yank,
{
    lemma_plan_one(a, TextOp::DeleteNextChar, b);
}

/// `u` right after an `x` that changed the text brings the text back as it
/// was, when the text area records edits.
pub proof fn undo_after_x_restores(
    x: KeyInput,
    u: KeyInput,
    before_end: bool,
    later_before_end: bool,
    a: EditorView,
    b: EditorView,
    c: EditorView,
)
    requires
        x.key == Key::Char('x'),
        u.key == Key::Char('u') || u.key == Key::Char('U'),
        a.keeps_history,
        plan_effect(a, normal_plan(x, before_end).0, b),
        b.lines != a.lines,
        plan_effect(b, normal_plan(u, later_before_end).0, c),
    ensures
        c.lines == a.lines,
{
    lemma_plan_one(a, TextOp::DeleteNextChar, b);
    lemma_plan_one(b, TextOp::Undo, c);
}

/// Control-R right after that `u` makes the deletion again.
pub proof fn redo_after_undo_repeats_x(
    x: KeyInput,
    u: KeyInput,
    r: KeyInput,
    be1: bool,
    be2: bool,
    be3: bool,
    a: EditorView,
    b: EditorView,
    c: EditorView,
    d: EditorView,
)
    requires
        x.key == Key::Char('x'),
        u.key == Key::Char('u') || u.key == Key::Char('U'),
        r.key == Key::Char('r') && r.ctrl,
        a.keeps_history,
        plan_effect(a, normal_plan(x, be1).0, b),
        b.lines != a.lines,
        plan_effect(b, normal_plan(u, be2).0, c),
        plan_effect(c, normal_plan(r, be3).0, d),
    ensures
        d.lines == b.lines,
{
    lemma_plan_one(a, TextOp::DeleteNextChar, b);
    lemma_plan_one(b, TextOp::Undo, c);
    lemma_plan_one(c, TextOp::Redo, d);
}

/// Undo in normal mode, with an edit to undo, brings back the text from before
/// that edit; with none, it changes nothing.
pub proof fn u_undoes(u: KeyInput, before_end: bool, a: EditorView, b: EditorView)
    requires
        u.key == Key::Char('u') || u.key == Key::Char('U'),
        plan_effect(a, normal_plan(u, before_end).0, b),
    ensures
        a.undo matches Some(text) ==> b.lines == text,
        a.undo == None::<Seq<Seq<char>>> ==> b == a,
{
    lemma_plan_one(a, TextOp::Undo, b);
}

/// `X` after the first column, with no selection, deletes the character before
/// the cursor, which moves one left.
pub proof fn capital_x_deletes_char_before_cursor(input: KeyInput, before_end: bool, a: EditorView, b: EditorView)
    requires
        input.key == Key::Char('X'),
        a.selection == None::<(usize, usize)>,
        cursor_in_line(a),
        a.cursor.1 > 0,
        plan_effect(a, normal_plan(input, before_end).0, b),
    ensures
        b.lines == a.lines.update(
            a.cursor.0 as int,
            cursor_line(a).take(a.cursor.1 - 1) + cursor_line(a).skip(a.cursor.1 as int),
        ),
        b.cursor == (a.cursor.0, (a.cursor.1 - 1) as usize),
        b.selection == None::<(usize, usize)>,
{
    lemma_plan_one(a, TextOp::DeleteChar, b);
}

/// `o`, with no selection, opens an empty line below the cursor's line and
/// puts the cursor at its start.
pub proof fn small_o_opens_line_below(input: KeyInput, before_end: bool, a: EditorView, b: EditorView)
    requires
        input.key == Key::Char('o'),
        a.selection == None::<(usize, usize)>,
        cursor_in_line(a),
        plan_effect(a, normal_plan(input, before_end).0, b),
    ensures
        b.lines == a.lines.take(a.cursor.0 + 1) + seq![Seq::<char>::empty()] + a.lines.skip(a.cursor.0 + 1),
        b.cursor == ((a.cursor.0 + 1) as usize, 0usize),
        b.selection == None::<(usize, usize)>,
        b.cursor_style == a.cursor_style,
{
    let r = a.cursor.0;
    let m = lemma_plan_two(a, TextOp::Move(Motion::End), TextOp::InsertNewline, b);
    let line = cursor_line(a);
    assert(cursor_line(m) == line);
    assert(line.take(line.len() as int) =~= line);
    assert(line.skip(line.len() as int) =~= Seq::<char>::empty());
    assert(a.lines.take(r as int) + seq![line] =~= a.lines.take(r + 1));
    assert(b.lines =~= a.lines.take(r + 1) + seq![Seq::<char>::empty()] + a.lines.skip(r + 1));
}

/// `O`, with no selection, opens an empty line above the cursor's line; the
/// cursor then goes where `Up` leads from the start of the line below it.
pub proof fn capital_o_opens_line_above(input: KeyInput, before_end: bool, a: EditorView, b: EditorView)
    requires
        input.key == Key::Char('O'),
        a.selection == None::<(usize, usize)>,
        cursor_in_line(a),
        plan_effect(a, normal_plan(input, before_end).0, b),
    ensures
        b.lines == a.lines.take(a.cursor.0 as int) + seq![Seq::<char>::empty()] + a.lines.skip(a.cursor.0 as int),
        b.selection == None::<(usize, usize)>,
        b.cursor_style == a.cursor_style,
        exists|v: EditorView|
            v.lines == b.lines && v.cursor == ((a.cursor.0 + 1) as usize, 0usize) && b.cursor == (#[trigger] v.targets)(
                Motion::Up,
            ),
{
    let r = a.cursor.0;
    let ops = normal_plan(input, before_end).0;
    assert(ops[0] == TextOp::Move(Motion::Head));
    let v1 = choose|v: EditorView| #[trigger] op_effect(a, ops[0], v) && plan_effect(v, ops.drop_first(), b);
    assert(ops.drop_first() =~= seq![TextOp::InsertNewline, TextOp::Move(Motion::Up)]);
    let v2 = lemma_plan_two(v1, TextOp::InsertNewline, TextOp::Move(Motion::Up), b);
    let line = cursor_line(a);
    assert(cursor_line(v1) == line);
    assert(line.take(0) =~= Seq::<char>::empty());
    assert(line.skip(0) =~= line);
    assert(a.lines.take(r as int) + seq![Seq::<char>::empty(), line] + a.lines.skip(r + 1)
        =~= a.lines.take(r as int) + seq![Seq::<char>::empty()] + a.lines.skip(r as int));
    assert(v2.lines == b.lines && v2.cursor == ((r + 1) as usize, 0usize) && b.cursor == (v2.targets)(Motion::Up));
}

/// In visual mode `d` (and `c`) cuts the selected text, over one line or
/// several: it goes into the yank buffer and out of the text, and the cursor
/// goes to where it began. With nothing selected, the text, the cursor and
/// the yank buffer stay.
pub proof fn visual_cut_removes_selection(c: char, input: KeyInput, a: EditorView, b: EditorView)
    requires
        input.key == Key::Char(c),
        c == 'd' || c == 'c',
        selection_placed(a),
        plan_effect(a, visual_plan(input).0, b),
    ensures
        b.selection == None::<(usize, usize)>,
        selection_range(a) matches Some((s, e)) ==> {
            &&& b.lines == without_between(a.lines, s, e)
            &&& b.cursor == s
            &&& b.yank == text_between(a.lines, s, e)
        },
        selection_range(a) is None ==> b.lines == a.lines && b.cursor == a.cursor && b.yank == a.yank,
{
    lemma_plan_one(a, TextOp::Cut, b);
}

/// In visual mode `y` copies the selected text into the yank buffer and ends
/// the selection; the text and the cursor stay.
pub proof fn visual_yank_copies_selection(input: KeyInput, a: EditorView, b: EditorView)
    requires
        input.key == Key::Char('y'),
        selection_placed(a),
        plan_effect(a, visual_plan(input).0, b),
    ensures
        b.lines == a.lines,
        b.cursor == a.cursor,
        b.selection == None::<(usize, usize)>,
        selection_range(a) matches Some((s, e)) ==> b.yank == text_between(a.lines, s, e),
        selection_range(a) is None ==> b.yank == a.yank,
{
    lemma_plan_one(a, TextOp::Copy, b);
}

/// An operator followed by a motion key acts on the text between the cursor
/// and the motion's target (when that target lies on the text): `y` copies
/// it, `c` and `d` cut it, and the yank buffer then holds it.
pub proof fn operator_with_motion_acts_to_target(op: char, input: KeyInput, m: Motion, a: EditorView, b: EditorView)
    requires
        op == 'y' || op == 'c' || op == 'd',
        traversal_motion(input.key) == Some(m),
        cursor_in_line(a),
        pos_in_text(a.lines, (a.targets)(m)),
        plan_effect(a, pending_plan(input, op).0, b),
    ensures
        b.selection == None::<(usize, usize)>,
        ({
            let t = (a.targets)(m);
            let (s, e) = if pos_before(t, a.cursor) { (t, a.cursor) } else { (a.cursor, t) };
            &&& t != a.cursor ==> b.yank == text_between(a.lines, s, e)
            &&& t == a.cursor ==> b.yank == a.yank && b.lines == a.lines
            &&& (op == 'y' || t == a.cursor) ==> b.lines == a.lines
            &&& (op != 'y' && t != a.cursor) ==> b.lines == without_between(a.lines, s, e) && b.cursor == s
        }),
{
    let ops = pending_plan(input, op).0;
    let last = if op == 'y' { TextOp::Copy } else { TextOp::Cut };
    assert(ops =~= seq![TextOp::StartSelection, TextOp::Move(m), last]);
    let v1 = choose|v: EditorView| #[trigger] op_effect(a, ops[0], v) && plan_effect(v, ops.drop_first(), b);
    assert(ops.drop_first() =~= seq![TextOp::Move(m), last]);
    let v2 = lemma_plan_two(v1, TextOp::Move(m), last, b);
    assert(v2.cursor == (a.targets)(m));
    assert(v2.selection == Some(a.cursor));
}

/// In insert mode a character typed without Control or Alt goes in at the
/// cursor, with no selection, and the cursor moves one right.
pub proof fn insert_mode_types_char(ch: char, input: KeyInput, a: EditorView, b: EditorView)
    requires
        input.key == Key::Char(ch),
        !input.ctrl,
        !input.alt,
        ch != '\n' && ch != '\r',
        a.selection == None::<(usize, usize)>,
        cursor_in_line(a),
        plan_effect(a, insert_plan(input).0, b),
    ensures
        b.lines == a.lines.update(
            a.cursor.0 as int,
            cursor_line(a).take(a.cursor.1 as int) + seq![ch] + cursor_line(a).skip(a.cursor.1 as int),
        ),
        b.cursor == (a.cursor.0, (a.cursor.1 + 1) as usize),
{
    lemma_plan_one(a, TextOp::Input(input), b);
}

/// In replace mode, a character on a character of a line drawn one cell per
/// character, with no selection, takes that character's place, and the
/// cursor moves one right.
pub proof fn replace_overwrites_char(
    keep: bool,
    ch: char,
    input: KeyInput,
    can_replace: bool,
    a: EditorView,
    b: EditorView,
)
    requires
        input.key == Key::Char(ch),
        ch != '\n' && ch != '\r',
        can_replace,
        a.selection == None::<(usize, usize)>,
        cursor_in_line(a),
        a.cursor.1 < cursor_line(a).len(),
        printable_ascii_line(a),
        plan_effect(a, replace_plan(input, keep, can_replace).0, b),
    ensures
        b.lines == a.lines.update(
            a.cursor.0 as int,
            cursor_line(a).take(a.cursor.1 as int) + seq![ch] + cursor_line(a).skip(a.cursor.1 + 1),
        ),
        b.cursor == (a.cursor.0, (a.cursor.1 + 1) as usize),
{
    let (r, c) = a.cursor;
    let line = cursor_line(a);
    let m = lemma_plan_two(a, TextOp::DeleteNextChar, TextOp::InsertChar(ch), b);
    let shorter = line.take(c as int) + line.skip(c + 1);
    assert(cursor_line(m) == shorter);
    assert(shorter.take(c as int) =~= line.take(c as int));
    assert(shorter.skip(c as int) =~= line.skip(c + 1));
    assert(b.lines =~= a.lines.update(r as int, line.take(c as int) + seq![ch] + line.skip(c + 1)));
}

/// A key without a character in replace mode changes nothing.
pub proof fn replace_ignores_other_keys(keep: bool, input: KeyInput, can_replace: bool, a: EditorView, b: EditorView)
    requires
        input.key is Char == false,
        plan_effect(a, replace_plan(input, keep, can_replace).0, b),
    ensures
        b == a,
{
    lemma_plan_empty(a);
}

/// `dd` (or `cc`, or `yy`, `dy` and the like with `c` or `d` as the operator)
/// empties the cursor's line, leaves the cursor at its start, and puts the
/// line's text in the yank buffer when there was any.
pub proof fn operator_twice_cuts_the_line(op: char, input: KeyInput, a: EditorView, b: EditorView)
    requires
        op == 'c' || op == 'd',
        input.key == Key::Char('y') || input.key == Key::Char('c') || input.key == Key::Char('d'),
        a.cursor.0 < a.lines.len(),
        plan_effect(a, pending_plan(input, op).0, b),
    ensures
        b.lines == a.lines.update(a.cursor.0 as int, Seq::<char>::empty()),
        b.cursor == (a.cursor.0, 0usize),
        b.selection == None::<(usize, usize)>,
        cursor_line(a).len() > 0 ==> b.yank == seq![cursor_line(a)],
        cursor_line(a).len() == 0 ==> b.yank == a.yank,
{
    let r = a.cursor.0;
    let ops = pending_plan(input, op).0;
    assert(ops =~= seq![
        TextOp::Move(Motion::Head),
        TextOp::StartSelection,
        TextOp::Move(Motion::End),
        TextOp::Cut,
    ]);
    let v1 = choose|v: EditorView| #[trigger] op_effect(a, ops[0], v) && plan_effect(v, ops.drop_first(), b);
    let r1 = ops.drop_first();
    assert(r1 =~= seq![TextOp::StartSelection, TextOp::Move(Motion::End), TextOp::Cut]);
    let v2 = choose|v: EditorView| #[trigger] op_effect(v1, r1[0], v) && plan_effect(v, r1.drop_first(), b);
    let r2 = r1.drop_first();
    assert(r2 =~= seq![TextOp::Move(Motion::End), TextOp::Cut]);
    let v3 = lemma_plan_two(v2, TextOp::Move(Motion::End), TextOp::Cut, b);
    let line = cursor_line(a);
    assert(cursor_line(v3) == line);
    assert(line.take(0) + line.skip(line.len() as int) =~= Seq::<char>::empty());
    assert(line.subrange(0, line.len() as int) =~= line);
    if line.len() == 0 {
        assert(a.lines.update(r as int, Seq::<char>::empty()) =~= a.lines);
    } else {
        assert(without_between(a.lines, (r, 0usize), (r, line.len() as usize)) =~= a.lines.update(
            r as int,
            Seq::<char>::empty(),
        ));
    }
}

/// `yy` (and `yc`, `yd`: the operator `y` with a repeated operator key)
/// copies the cursor's whole line: the text stays, the cursor ends at the end
/// of the line, and the yank buffer holds the line when it has text.
pub proof fn operator_y_twice_copies_the_line(input: KeyInput, a: EditorView, b: EditorView)
    requires
        input.key == Key::Char('y') || input.key == Key::Char('c') || input.key == Key::Char('d'),
        a.cursor.0 < a.lines.len(),
        plan_effect(a, pending_plan(input, 'y').0, b),
    ensures
        b.lines == a.lines,
        b.cursor == (a.cursor.0, cursor_line(a).len() as usize),
        b.selection == None::<(usize, usize)>,
        cursor_line(a).len() > 0 ==> b.yank == seq![cursor_line(a)],
        cursor_line(a).len() == 0 ==> b.yank == a.yank,
{
    let ops = pending_plan(input, 'y').0;
    assert(ops =~= seq![
        TextOp::Move(Motion::Head),
        TextOp::StartSelection,
        TextOp::Move(Motion::End),
        TextOp::Copy,
    ]);
    let v1 = choose|v: EditorView| #[trigger] op_effect(a, ops[0], v) && plan_effect(v, ops.drop_first(), b);
    let r1 = ops.drop_first();
    assert(r1 =~= seq![TextOp::StartSelection, TextOp::Move(Motion::End), TextOp::Copy]);
    let v2 = choose|v: EditorView| #[trigger] op_effect(v1, r1[0], v) && plan_effect(v, r1.drop_first(), b);
    let r2 = r1.drop_first();
    assert(r2 =~= seq![TextOp::Move(Motion::End), TextOp::Copy]);
    let v3 = lemma_plan_two(v2, TextOp::Move(Motion::End), TextOp::Copy, b);
    let line = cursor_line(a);
    assert(cursor_line(v3) == line);
    assert(line.subrange(0, line.len() as int) =~= line);
}

/// The cursor lands where the motion that the original names for the key
/// leads: `h` back, `j` down, `k` up, `l` forward, `w`/`W` to the next word,
/// `e`/`E` to the end of the word, `b`/`B` to the previous word, `^`/`_` to
/// the start of the line, `$` to its end, `{` and `}` to the previous and
/// next paragraph.
pub open spec fn lands_as_named(key: Key, a: EditorView, b: EditorView) -> bool {
    &&& key == Key::Char('h') ==> b.cursor == (a.targets)(Motion::Back)
    &&& key == Key::Char('j') ==> b.cursor == (a.targets)(Motion::Down)
    &&& key == Key::Char('k') ==> b.cursor == (a.targets)(Motion::Up)
    &&& key == Key::Char('l') ==> b.cursor == (a.targets)(Motion::Forward)
    &&& (key == Key::Char('w') || key == Key::Char('W')) ==> b.cursor == (a.targets)(Motion::WordForward)
    &&& (key == Key::Char('e') || key == Key::Char('E')) ==> b.cursor == (a.targets)(Motion::WordEnd)
    &&& (key == Key::Char('b') || key == Key::Char('B')) ==> b.cursor == (a.targets)(Motion::WordBack)
    &&& (key == Key::Char('^') || key == Key::Char('_')) ==> b.cursor == (a.targets)(Motion::Head)
    &&& key == Key::Char('$') ==> b.cursor == (a.targets)(Motion::End)
    &&& key == Key::Char('{') ==> b.cursor == (a.targets)(Motion::ParagraphBack)
    &&& key == Key::Char('}') ==> b.cursor == (a.targets)(Motion::ParagraphForward)
}

/// In normal mode each motion key moves the cursor by the motion it names,
/// and leaves the text, the selection and the yank buffer.
pub proof fn normal_motion_keys_move_as_named(input: KeyInput, before_end: bool, a: EditorView, b: EditorView)
    requires
        traversal_motion(input.key) is Some,
        plan_effect(a, normal_plan(input, before_end).0, b),
    ensures
        lands_as_named(input.key, a, b),
        b.lines == a.lines,
        b.selection == a.selection,
        b.yank == a.yank,
{
    let m = traversal_motion(input.key)->Some_0;
    assert(normal_plan(input, before_end).0 == seq![TextOp::Move(m)]);
    lemma_plan_one(a, TextOp::Move(m), b);
}

/// In visual mode each motion key moves the cursor by the motion it names
/// and keeps the selection going, so it grows or shrinks with the cursor.
pub proof fn visual_motion_keys_move_as_named(input: KeyInput, a: EditorView, b: EditorView)
    requires
        traversal_motion(input.key) is Some,
        plan_effect(a, visual_plan(input).0, b),
    ensures
        lands_as_named(input.key, a, b),
        b.lines == a.lines,
        b.selection == a.selection,
        b.yank == a.yank,
{
    let m = traversal_motion(input.key)->Some_0;
    assert(visual_plan(input).0 == seq![TextOp::Move(m)]);
    lemma_plan_one(a, TextOp::Move(m), b);
}

/// In visual mode `p` puts the yank buffer in place of the selected text:
/// the selection is deleted, then the yank goes in where it began.
pub proof fn visual_p_replaces_selection(input: KeyInput, a: EditorView, b: EditorView)
    requires
        input.key == Key::Char('p'),
        selection_placed(a),
        a.yank.len() > 0,
        plan_effect(a, visual_plan(input).0, b),
    ensures
        b.lines == put_lines(selection_deleted(a), a.yank).0,
        b.cursor == put_lines(selection_deleted(a), a.yank).1,
        b.selection == None::<(usize, usize)>,
        b.yank == a.yank,
{
    lemma_plan_one(a, TextOp::Paste, b);
}

/// `p` with no selection puts the yank buffer in at the cursor (see
/// `put_lines`); the yank buffer stays for the next `p`.
pub proof fn p_puts_yank(input: KeyInput, before_end: bool, a: EditorView, b: EditorView)
    requires
        input.key == Key::Char('p'),
        a.selection == None::<(usize, usize)>,
        cursor_in_line(a),
        a.yank.len() > 0,
        plan_effect(a, normal_plan(input, before_end).0, b),
    ensures
        b.lines == put_lines(a, a.yank).0,
        b.cursor == put_lines(a, a.yank).1,
        b.yank == a.yank,
        b.selection == None::<(usize, usize)>,
{
    lemma_plan_one(a, TextOp::Paste, b);
    assert(selection_deleted(a) == a);
}

/// `dd` on a line with text, then `p`, gives the line back: the text is as
/// it was, and the yank buffer holds the line.
pub proof fn dd_then_p_restores_line(
    d: KeyInput,
    p: KeyInput,
    before_end: bool,
    a: EditorView,
    b: EditorView,
    c: EditorView,
)
    requires
        d.key == Key::Char('d'),
        p.key == Key::Char('p'),
        a.cursor.0 < a.lines.len(),
        cursor_line(a).len() > 0,
        plan_effect(a, pending_plan(d, 'd').0, b),
        plan_effect(b, normal_plan(p, before_end).0, c),
    ensures
        c.lines == a.lines,
        c.yank == seq![cursor_line(a)],
{
    operator_twice_cuts_the_line('d', d, a, b);
    let r = a.cursor.0;
    let line = cursor_line(a);
    assert(cursor_line(b) == Seq::<char>::empty());
    p_puts_yank(p, before_end, b, c);
    assert(Seq::<char>::empty().take(0) + line + Seq::<char>::empty().skip(0) =~= line);
    assert(c.lines =~= a.lines);
}

/// In visual mode `v` ends the selection and changes nothing else, and `u`
/// changes nothing.
pub proof fn visual_v_and_u(c: char, input: KeyInput, a: EditorView, b: EditorView)
    requires
        input.key == Key::Char(c),
        c == 'v' || c == 'u' || c == 'U',
        plan_effect(a, visual_plan(input).0, b),
    ensures
        c == 'v' ==> b == (EditorView { selection: None, ..a }),
        c != 'v' ==> b == a,
{
    if c == 'v' {
        lemma_plan_one(a, TextOp::CancelSelection, b);
    } else {
        lemma_plan_empty(a);
    }
}

/// No key in any mode changes the cursor style or the mask.
pub proof fn keys_keep_cursor_style(ops: Seq<TextOp>, a: EditorView, b: EditorView)
    requires
        plan_effect(a, ops, b),
        forall|i: int| 0 <= i < ops.len() ==> !(#[trigger] ops[i] is SetCursorStyle),
    ensures
        b.cursor_style == a.cursor_style,
        b.masked == a.masked,
{
    lemma_plan_frame(a, ops, b);
}

} // verus!
