//! The text of one grid row.
//!
//! A note is shown as its pitch name, its octave, a space and its
//! instrument in three digits; a silent step as a run of one glyph.

use crate::note::{Cell, Note, MAX_KEY};
use vstd::prelude::*;

verus! {

/// The number of characters in the row of a silent step.
pub const CELL_WIDTH: usize = 7;

/// The number of digits an instrument is shown with.
pub const INSTRUMENT_DIGITS: usize = 3;

/// The lowest pitch whose octave is not negative.
pub const FIRST_PLAIN_KEY: u8 = 12;

/// The character that fills the row of a silent step.
#[derive(Clone, Copy, Debug, PartialEq, Eq, Structural)]
pub enum EmptyGlyph {
    Dot,
    Space,
}

impl EmptyGlyph {
    /// The character this glyph stands for.
    pub open spec fn symbol(self) -> char {
        match self {
            EmptyGlyph::Dot => '.',
            EmptyGlyph::Space => ' ',
        }
    }
}

/// The character of one decimal digit.
pub open spec fn digit_char(d: int) -> char {
    if d == 0 {
        '0'
    } else if d == 1 {
        '1'
    } else if d == 2 {
        '2'
    } else if d == 3 {
        '3'
    } else if d == 4 {
        '4'
    } else if d == 5 {
        '5'
    } else if d == 6 {
        '6'
    } else if d == 7 {
        '7'
    } else if d == 8 {
        '8'
    } else {
        '9'
    }
}

/// The decimal digits of `n`, most significant first, without leading zeros.
pub open spec fn decimal(n: nat) -> Seq<char>
    decreases n,
{
    if n < 10 {
        seq![digit_char(n as int)]
    } else {
        decimal(n / 10).push(digit_char((n % 10) as int))
    }
}

/// The decimal digits of `i`, after a minus sign where `i` is negative.
pub open spec fn signed_decimal(i: int) -> Seq<char> {
    if i < 0 {
        seq!['-'] + decimal((-i) as nat)
    } else {
        decimal(i as nat)
    }
}

/// The decimal digits of `n`, with zeros in front until there are `width`
/// characters. A number with more digits than `width` keeps them all.
pub open spec fn zero_padded(n: nat, width: nat) -> Seq<char> {
    let digits = decimal(n);
    if digits.len() < width {
        Seq::new((width - digits.len()) as nat, |i: int| '0') + digits
    } else {
        digits
    }
}

/// The two-character name of a pitch class: a letter, then `#` for a sharp
/// or a space for a natural.
pub open spec fn pitch_name(class: int) -> Seq<char> {
    if class == 0 {
        seq!['C', ' ']
    } else if class == 1 {
        seq!['C', '#']
    } else if class == 2 {
        seq!['D', ' ']
    } else if class == 3 {
        seq!['D', '#']
    } else if class == 4 {
        seq!['E', ' ']
    } else if class == 5 {
        seq!['F', ' ']
    } else if class == 6 {
        seq!['F', '#']
    } else if class == 7 {
        seq!['G', ' ']
    } else if class == 8 {
        seq!['G', '#']
    } else if class == 9 {
        seq!['A', ' ']
    } else if class == 10 {
        seq!['A', '#']
    } else {
        seq!['B', ' ']
    }
}

/// The octave of a pitch. Key 0 lies in octave -1 and key 60 in octave 4.
pub open spec fn octave(key: int) -> int {
    key / 12 - 1
}

/// The text of a pitch: its name, then its octave.
pub open spec fn key_text(key: u8) -> Seq<char> {
    pitch_name(key as int % 12) + signed_decimal(octave(key as int))
}

/// The text of a note: its pitch, a space, and its instrument in three digits.
pub open spec fn note_text(note: Note) -> Seq<char> {
    key_text(note.key()) + seq![' '] + zero_padded(note.instrument() as nat, INSTRUMENT_DIGITS as nat)
}

/// The text of a silent step: `CELL_WIDTH` times the glyph.
pub open spec fn placeholder(glyph: EmptyGlyph) -> Seq<char> {
    Seq::new(CELL_WIDTH as nat, |i: int| glyph.symbol())
}

/// The text of a cell.
pub open spec fn cell_text(cell: Cell, glyph: EmptyGlyph) -> Seq<char> {
    match cell {
        Cell::Empty => placeholder(glyph),
        Cell::Occupied(note) => note_text(note),
    }
}

/// A number has one digit below 10, two below 100 and three below 1000.
pub proof fn lemma_decimal_len_small(n: nat)
    requires
        n < 1000,
    ensures
        decimal(n).len() == if n < 10 {
            1nat
        } else if n < 100 {
            2nat
        } else {
            3nat
        },
{
    reveal_with_fuel(decimal, 3);
}

/// Every number has at least one digit.
pub proof fn lemma_decimal_nonempty(n: nat)
    ensures
        decimal(n).len() >= 1,
    decreases n,
{
    if n >= 10 {
        lemma_decimal_nonempty(n / 10);
    }
}

/// An instrument always takes exactly `INSTRUMENT_DIGITS` characters.
pub proof fn lemma_instrument_width(instrument: u8)
    ensures
        zero_padded(instrument as nat, INSTRUMENT_DIGITS as nat).len() == INSTRUMENT_DIGITS,
{
    lemma_decimal_len_small(instrument as nat);
}

/// The text of a pitch is three characters long from `FIRST_PLAIN_KEY` up to
/// `MAX_KEY`, and four below, where the octave carries a minus sign.
pub proof fn lemma_key_text_len(key: u8)
    requires
        key <= MAX_KEY,
    ensures
        key_text(key).len() == if key < FIRST_PLAIN_KEY {
            4nat
        } else {
            3nat
        },
{
    let o = octave(key as int);
    if key < FIRST_PLAIN_KEY {
        assert(o == -1);
        lemma_decimal_len_small(1);
    } else {
        assert(0 <= o <= 9);
        lemma_decimal_len_small(o as nat);
    }
}

/// The row of a silent step is `CELL_WIDTH` characters long, whatever the
/// glyph.
pub proof fn lemma_placeholder_width(glyph: EmptyGlyph)
    ensures
        placeholder(glyph).len() == CELL_WIDTH,
{
}

/// The row of a note is `CELL_WIDTH` characters long where its octave is not
/// negative, and one longer where it is.
pub proof fn lemma_note_text_width(note: Note)
    requires
        note.key() <= MAX_KEY,
    ensures
        note_text(note).len() == if note.key() < FIRST_PLAIN_KEY {
            CELL_WIDTH + 1
        } else {
            CELL_WIDTH as int
        },
{
    lemma_key_text_len(note.key());
    lemma_instrument_width(note.instrument());
}

/// A silent step and a step with a note of a non-negative octave take rows
/// of the same length.
pub proof fn lemma_rows_align(note: Note, glyph: EmptyGlyph)
    requires
        FIRST_PLAIN_KEY <= note.key() <= MAX_KEY,
    ensures
        cell_text(Cell::Occupied(note), glyph).len() == cell_text(Cell::Empty, glyph).len(),
{
    lemma_note_text_width(note);
}

/// The text of one decimal digit.
fn digit_str(d: u32) -> (text: &'static str)
    requires
        d < 10,
    ensures
        text@ == seq![digit_char(d as int)],
{
    proof {
        reveal_strlit("0");
        reveal_strlit("1");
        reveal_strlit("2");
        reveal_strlit("3");
        reveal_strlit("4");
        reveal_strlit("5");
        reveal_strlit("6");
        reveal_strlit("7");
        reveal_strlit("8");
        reveal_strlit("9");
    }
    let text = if d == 0 {
        "0"
    } else if d == 1 {
        "1"
    } else if d == 2 {
        "2"
    } else if d == 3 {
        "3"
    } else if d == 4 {
        "4"
    } else if d == 5 {
        "5"
    } else if d == 6 {
        "6"
    } else if d == 7 {
        "7"
    } else if d == 8 {
        "8"
    } else {
        "9"
    };
    assert(text@ =~= seq![digit_char(d as int)]);
    text
}

/// Writes `n` in decimal.
pub fn decimal_string(n: u32) -> (text: String)
    ensures
        text@ == decimal(n as nat),
    decreases n,
{
    if n < 10 {
        let text = String::from_str(digit_str(n));
        text
    } else {
        let mut text = decimal_string(n / 10);
        text.append(digit_str(n % 10));
        assert(text@ =~= decimal(n as nat));
        text
    }
}

/// Writes `i` in decimal, with a minus sign where it is negative.
pub fn signed_decimal_string(i: i32) -> (text: String)
    ensures
        text@ == signed_decimal(i as int),
{
    if i < 0 {
        let magnitude: u32 = (-(i as i64)) as u32;
        let digits = decimal_string(magnitude);
        let mut text = String::from_str("-");
        text.append(digits.as_str());
        proof {
            reveal_strlit("-");
            assert(text@ =~= signed_decimal(i as int));
        }
        text
    } else {
        decimal_string(i as u32)
    }
}

/// A number that fits in 32 bits has at most ten digits.
pub proof fn lemma_decimal_len_bound(n: nat)
    requires
        n <= u32::MAX,
    ensures
        1 <= decimal(n).len() <= 10,
{
    reveal_with_fuel(decimal, 11);
}

/// Counts the decimal digits of `n`.
pub fn digit_count(n: u32) -> (count: usize)
    ensures
        count == decimal(n as nat).len(),
        1 <= count <= 10,
{
    let mut rest: u32 = n;
    let mut count: usize = 1;
    proof {
        lemma_decimal_len_bound(n as nat);
    }
    while rest >= 10
        invariant
            1 <= count,
            decimal(n as nat).len() == decimal(rest as nat).len() + count - 1,
            decimal(n as nat).len() <= 10,
        decreases rest,
    {
        proof {
            lemma_decimal_nonempty((rest / 10) as nat);
        }
        rest = rest / 10;
        count = count + 1;
    }
    count
}

/// Writes `n` in decimal, with zeros in front until there are `width`
/// characters.
pub fn zero_padded_string(n: u32, width: usize) -> (text: String)
    ensures
        text@ == zero_padded(n as nat, width as nat),
{
    let count = digit_count(n);
    let mut text = String::new();
    let mut filled: usize = count;
    while filled < width
        invariant
            count <= filled,
            filled <= width || filled == count,
            text@ == Seq::new((filled - count) as nat, |i: int| '0'),
        decreases width - filled,
    {
        proof {
            reveal_strlit("0");
        }
        text.append("0");
        filled = filled + 1;
        assert(text@ =~= Seq::new((filled - count) as nat, |i: int| '0'));
    }
    let digits = decimal_string(n);
    text.append(digits.as_str());
    assert(text@ =~= zero_padded(n as nat, width as nat));
    text
}

/// The name of a pitch class.
fn pitch_name_str(class: u8) -> (name: &'static str)
    requires
        class < 12,
    ensures
        name@ == pitch_name(class as int),
{
    proof {
        reveal_strlit("C ");
        reveal_strlit("C#");
        reveal_strlit("D ");
        reveal_strlit("D#");
        reveal_strlit("E ");
        reveal_strlit("F ");
        reveal_strlit("F#");
        reveal_strlit("G ");
        reveal_strlit("G#");
        reveal_strlit("A ");
        reveal_strlit("A#");
        reveal_strlit("B ");
    }
    let name = if class == 0 {
        "C "
    } else if class == 1 {
        "C#"
    } else if class == 2 {
        "D "
    } else if class == 3 {
        "D#"
    } else if class == 4 {
        "E "
    } else if class == 5 {
        "F "
    } else if class == 6 {
        "F#"
    } else if class == 7 {
        "G "
    } else if class == 8 {
        "G#"
    } else if class == 9 {
        "A "
    } else if class == 10 {
        "A#"
    } else {
        "B "
    };
    assert(name@ =~= pitch_name(class as int));
    name
}

/// Writes a pitch as its name and octave: key 60 gives `C 4`, key 9 gives
/// `A -1`.
pub fn key_to_string(key: u8) -> (text: String)
    ensures
        text@ == key_text(key),
{
    let octave: i32 = (key / 12) as i32 - 1;
    let mut text = String::from_str(pitch_name_str(key % 12));
    let digits = signed_decimal_string(octave);
    text.append(digits.as_str());
    text
}

/// Writes a note as its pitch, a space and its instrument in three digits.
pub fn format_note(note: Note) -> (text: String)
    ensures
        text@ == note_text(note),
{
    let mut text = key_to_string(note.key());
    proof {
        reveal_strlit(" ");
    }
    text.append(" ");
    let digits = zero_padded_string(note.instrument() as u32, INSTRUMENT_DIGITS);
    text.append(digits.as_str());
    assert(text@ =~= note_text(note));
    text
}

/// The row of a silent step.
fn placeholder_str(glyph: EmptyGlyph) -> (text: &'static str)
    ensures
        text@ == placeholder(glyph),
{
    proof {
        reveal_strlit(".......");
        reveal_strlit("       ");
    }
    let text = match glyph {
        EmptyGlyph::Dot => ".......",
        EmptyGlyph::Space => "       ",
    };
    assert(text@ =~= placeholder(glyph));
    text
}

/// Writes the row of a cell: the note it holds, or the glyph `CELL_WIDTH`
/// times over.
pub fn format_cell(cell: Cell, glyph: EmptyGlyph) -> (text: String)
    ensures
        text@ == cell_text(cell, glyph),
{
    match cell {
        Cell::Empty => String::from_str(placeholder_str(glyph)),
        Cell::Occupied(note) => format_note(note),
    }
}

} // verus!
