//! The keyboard input state machine: on each hardware key event a raw
//! scancode arrives; a press goes through a fixed 128-entry
//! scancode-to-character table and updates the cursor and the console
//! surface, a release is ignored.

use vstd::prelude::*;
use crate::console::Console;

verus! {

/// Character code that the table maps the backspace key to.
pub const BACKSPACE: u8 = 0x08;

/// Character code that the table maps the enter key to.
pub const NEWLINE: u8 = 0x0a;

/// Bit 7 of a scancode: set on a key-release event, clear on a press.
pub const RELEASE_BIT: u8 = 0x80;

/// The fixed scancode-to-character table: one character code for each of
/// the 128 scancodes, `0` standing for "no printable character" (escape,
/// control, shift, alt, and every code past the mapped range).
pub open spec fn scancode_ascii(code: u8) -> u8 {
    match code {
        1 => 0x1b,
        2 => 0x31,  // '1'
        3 => 0x32,  // '2'
        4 => 0x33,  // '3'
        5 => 0x34,  // '4'
        6 => 0x35,  // '5'
        7 => 0x36,  // '6'
        8 => 0x37,  // '7'
        9 => 0x38,  // '8'
        10 => 0x39,  // '9'
        11 => 0x30,  // '0'
        12 => 0x2d,  // '-'
        13 => 0x3d,  // '='
        14 => BACKSPACE,
        15 => 0x09,  // tab
        16 => 0x71,  // 'q'
        17 => 0x77,  // 'w'
        18 => 0x65,  // 'e'
        19 => 0x72,  // 'r'
        20 => 0x74,  // 't'
        21 => 0x79,  // 'y'
        22 => 0x75,  // 'u'
        23 => 0x69,  // 'i'
        24 => 0x6f,  // 'o'
        25 => 0x70,  // 'p'
        26 => 0x5b,  // '['
        27 => 0x5d,  // ']'
        28 => NEWLINE,
        30 => 0x61,  // 'a'
        31 => 0x73,  // 's'
        32 => 0x64,  // 'd'
        33 => 0x66,  // 'f'
        34 => 0x67,  // 'g'
        35 => 0x68,  // 'h'
        36 => 0x6a,  // 'j'
        37 => 0x6b,  // 'k'
        38 => 0x6c,  // 'l'
        39 => 0x3b,  // ';'
        40 => 0x27,  // '\''
        41 => 0x60,  // '`'
        43 => 0x5c,  // '\\'
        44 => 0x7a,  // 'z'
        45 => 0x78,  // 'x'
        46 => 0x63,  // 'c'
        47 => 0x76,  // 'v'
        48 => 0x62,  // 'b'
        49 => 0x6e,  // 'n'
        50 => 0x6d,  // 'm'
        51 => 0x2c,  // ','
        52 => 0x2e,  // '.'
        53 => 0x2f,  // '/'
        55 => 0x2a,  // '*'
        57 => 0x20,  // space
        _ => 0,
    }
}

/// Looks a scancode up in the fixed table.
pub fn ascii_for(code: u8) -> (r: u8)
    ensures
        r == scancode_ascii(code),
{
    match code {
        1 => 0x1b,
        2 => 0x31,  // '1'
        3 => 0x32,  // '2'
        4 => 0x33,  // '3'
        5 => 0x34,  // '4'
        6 => 0x35,  // '5'
        7 => 0x36,  // '6'
        8 => 0x37,  // '7'
        9 => 0x38,  // '8'
        10 => 0x39,  // '9'
        11 => 0x30,  // '0'
        12 => 0x2d,  // '-'
        13 => 0x3d,  // '='
        14 => BACKSPACE,
        15 => 0x09,  // tab
        16 => 0x71,  // 'q'
        17 => 0x77,  // 'w'
        18 => 0x65,  // 'e'
        19 => 0x72,  // 'r'
        20 => 0x74,  // 't'
        21 => 0x79,  // 'y'
        22 => 0x75,  // 'u'
        23 => 0x69,  // 'i'
        24 => 0x6f,  // 'o'
        25 => 0x70,  // 'p'
        26 => 0x5b,  // '['
        27 => 0x5d,  // ']'
        28 => NEWLINE,
        30 => 0x61,  // 'a'
        31 => 0x73,  // 's'
        32 => 0x64,  // 'd'
        33 => 0x66,  // 'f'
        34 => 0x67,  // 'g'
        35 => 0x68,  // 'h'
        36 => 0x6a,  // 'j'
        37 => 0x6b,  // 'k'
        38 => 0x6c,  // 'l'
        39 => 0x3b,  // ';'
        40 => 0x27,  // '\''
        41 => 0x60,  // '`'
        43 => 0x5c,  // '\\'
        44 => 0x7a,  // 'z'
        45 => 0x78,  // 'x'
        46 => 0x63,  // 'c'
        47 => 0x76,  // 'v'
        48 => 0x62,  // 'b'
        49 => 0x6e,  // 'n'
        50 => 0x6d,  // 'm'
        51 => 0x2c,  // ','
        52 => 0x2e,  // '.'
        53 => 0x2f,  // '/'
        55 => 0x2a,  // '*'
        57 => 0x20,  // space
        _ => 0,
    }
}

/// A scancode with bit 7 set is a key-release event.
pub open spec fn is_release(code: u8) -> bool {
    code & RELEASE_BIT != 0
}

/// The character a press event carries: the table entry for the scancode's
/// low 7 bits. Masking to 7 bits keeps the lookup in range by
/// construction.
pub open spec fn pressed_ascii(code: u8) -> u8 {
    scancode_ascii(code & 0x7f)
}

/// The capacity policy: a cursor that would land at or past the capacity
/// wraps to the start of the surface, so the cursor stays strictly below
/// the capacity after every event.
pub open spec fn wrap_cursor(c: int, cap: int) -> int {
    if c >= cap {
        0
    } else {
        c
    }
}

/// Where the cursor stands after one scancode: unchanged on a release;
/// back one cell on a backspace that has room; at the next multiple of the
/// row width on a newline; one cell further otherwise — with the wrap
/// policy applied wherever the cursor would reach the capacity.
pub open spec fn step_cursor(cursor: int, width: int, cap: int, code: u8) -> int {
    if is_release(code) {
        cursor
    } else {
        let a = pressed_ascii(code);
        if a == BACKSPACE && cursor > 0 {
            cursor - 1
        } else if a == NEWLINE {
            wrap_cursor(cursor + (width - cursor % width), cap)
        } else {
            wrap_cursor(cursor + 1, cap)
        }
    }
}

/// What the console cells hold after one scancode: unchanged on a release
/// or a newline; on a backspace that has room, the character byte of the
/// cell behind the cursor is cleared and its attribute byte kept; any
/// other press writes its character into the cell at the cursor, keeping
/// that cell's attribute byte. A backspace with the cursor at the start,
/// and the "no character" table entry `0`, fall under the ordinary-press
/// arm and write like any character.
pub open spec fn step_cells(cells: Seq<u16>, cursor: int, code: u8) -> Seq<u16> {
    if is_release(code) {
        cells
    } else {
        let a = pressed_ascii(code);
        if a == BACKSPACE && cursor > 0 {
            cells.update(cursor - 1, cells[cursor - 1] & 0xff00)
        } else if a == NEWLINE {
            cells
        } else {
            cells.update(cursor, cells[cursor] & 0xff00 | (a as u16))
        }
    }
}

/// The cursor: the single piece of state the keyboard handler owns,
/// initialized to zero before the first interrupt and updated only by the
/// handler.
pub struct KeyboardState {
    pub cursor: usize,
}

impl KeyboardState {
    /// The state before the first key event: cursor at the start.
    pub fn new() -> (r: KeyboardState)
        ensures
            r.cursor == 0,
    {
        KeyboardState { cursor: 0 }
    }
}

/// Handles one key event. A release (bit 7 of the scancode set) leaves the
/// cursor and every cell untouched; a press steps the cursor and the cells
/// exactly as `step_cursor` and `step_cells` say. The cursor stays
/// strictly below the console's capacity: where an advance would reach it,
/// the cursor wraps to the start.
pub fn keydown(state: &mut KeyboardState, con: &mut Console, code: u8)
    requires
        old(con).wf(),
        (old(state).cursor as int) < old(con).capacity(),
    ensures
        final(con).wf(),
        final(con).width == old(con).width,
        final(con).capacity() == old(con).capacity(),
        (final(state).cursor as int) == step_cursor(
            old(state).cursor as int,
            old(con).width as int,
            old(con).capacity(),
            code,
        ),
        final(con).cells@ == step_cells(old(con).cells@, old(state).cursor as int, code),
        (final(state).cursor as int) < final(con).capacity(),
{
    if code & RELEASE_BIT == 0 {
        let total = con.cells.len();
        let a = ascii_for(code & 0x7f);
        if a == BACKSPACE && state.cursor > 0 {
            state.cursor = state.cursor - 1;
            let idx = state.cursor;
            let cell = con.cells[idx];
            con.cells[idx] = cell & 0xff00;
        } else if a == NEWLINE {
            let w = con.width;
            let c = state.cursor;
            let rem = c % w;
            proof {
                assert((c as int) + ((w as int) - (c as int) % (w as int)) <= (total as int))
                    by (nonlinear_arith)
                    requires
                        (c as int) < (total as int),
                        (total as int) % (w as int) == 0,
                        0 < (w as int),
                        rem == (c as int) % (w as int),
                ;
            }
            let next = c + (w - rem);
            state.cursor = if next >= total {
                0
            } else {
                next
            };
        } else {
            let idx = state.cursor;
            let cell = con.cells[idx];
            con.cells[idx] = cell & 0xff00 | (a as u16);
            let next = idx + 1;
            state.cursor = if next >= total {
                0
            } else {
                next
            };
        }
    }
}

/// A key-release scancode changes nothing: the cursor stands where it was
/// and no console cell is written, whatever the state was.
pub proof fn lemma_release_no_effect(cursor: int, cells: Seq<u16>, width: int, cap: int, code: u8)
    requires
        is_release(code),
    ensures
        step_cursor(cursor, width, cap, code) == cursor,
        step_cells(cells, cursor, code) == cells,
{
}

/// The cursor invariant: from any in-range cursor, one event of any kind
/// leaves the cursor in range again — the capacity policy wraps every
/// advance that would reach the capacity.
pub proof fn lemma_cursor_stays_in_bounds(cursor: int, width: int, cap: int, code: u8)
    requires
        0 <= cursor < cap,
        0 < width,
    ensures
        0 <= step_cursor(cursor, width, cap, code) < cap,
{
    if !is_release(code) {
        let a = pressed_ascii(code);
        if a == BACKSPACE && cursor > 0 {
        } else if a == NEWLINE {
            assert(0 <= cursor % width < width);
        } else {
        }
    }
}

/// The state after a whole sequence of key events, one `step_cursor` /
/// `step_cells` step per scancode, in order: the pair of final cursor and
/// final cells.
pub open spec fn run_state(cursor: int, cells: Seq<u16>, width: int, cap: int, codes: Seq<
    u8,
>) -> (int, Seq<u16>)
    decreases codes.len(),
{
    if codes.len() == 0 {
        (cursor, cells)
    } else {
        run_state(
            step_cursor(cursor, width, cap, codes[0]),
            step_cells(cells, cursor, codes[0]),
            width,
            cap,
            codes.drop_first(),
        )
    }
}

/// Feeds a sequence of scancodes to the handler, exactly one `keydown`
/// per event, in order: afterwards the cursor and the cells are exactly
/// the fold of the single-event step over the sequence.
pub fn handle_events(state: &mut KeyboardState, con: &mut Console, codes: &Vec<u8>)
    requires
        old(con).wf(),
        (old(state).cursor as int) < old(con).capacity(),
    ensures
        final(con).wf(),
        final(con).width == old(con).width,
        final(con).capacity() == old(con).capacity(),
        (final(state).cursor as int) == run_state(
            old(state).cursor as int,
            old(con).cells@,
            old(con).width as int,
            old(con).capacity(),
            codes@,
        ).0,
        final(con).cells@ == run_state(
            old(state).cursor as int,
            old(con).cells@,
            old(con).width as int,
            old(con).capacity(),
            codes@,
        ).1,
        (final(state).cursor as int) < final(con).capacity(),
{
    let n = codes.len();
    let mut i: usize = 0;
    proof {
        assert(codes@.skip(0) =~= codes@);
    }
    while i < n
        invariant
            i <= n,
            n == codes@.len(),
            con.wf(),
            con.width == old(con).width,
            con.capacity() == old(con).capacity(),
            (state.cursor as int) < con.capacity(),
            run_state(
                state.cursor as int,
                con.cells@,
                con.width as int,
                con.capacity(),
                codes@.skip(i as int),
            ) == run_state(
                old(state).cursor as int,
                old(con).cells@,
                old(con).width as int,
                old(con).capacity(),
                codes@,
            ),
        decreases n - i,
    {
        let code = codes[i];
        keydown(state, con, code);
        proof {
            assert(codes@.skip(i as int)[0] == codes@[i as int]);
            assert(codes@.skip(i as int).drop_first() =~= codes@.skip(i as int + 1));
        }
        i = i + 1;
    }
    proof {
        assert(codes@.skip(n as int).len() == 0);
    }
}

} // verus!
