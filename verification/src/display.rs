use crate::cursor::{min_int, Cursor};
use crate::terminal::Style;
use vstd::prelude::*;

verus! {

/// Number of bytes shown in one row.
pub const COLUMNS: u8 = 16;

/// Number of bytes shown between two gaps of the hexadecimal display.
pub const BLOCKSIZE: u8 = 2;

/// A run of text of one row, shown either plain or as part of the selection.
#[derive(Debug, Clone, PartialEq, Eq)]
pub struct Fragment {
    pub text: String,
    pub selected: bool,
}

/// What a `Fragment` stands for: its characters and whether it is selected.
pub struct FragmentView {
    pub text: Seq<char>,
    pub selected: bool,
}

impl View for Fragment {
    type V = FragmentView;

    open spec fn view(&self) -> FragmentView {
        FragmentView { text: self.text@, selected: self.selected }
    }
}

impl DeepView for Fragment {
    type V = FragmentView;

    open spec fn deep_view(&self) -> FragmentView {
        self@
    }
}

/// The sixteen hexadecimal digits, in lower case.
pub open spec fn hex_digits() -> Seq<char> {
    seq!['0', '1', '2', '3', '4', '5', '6', '7', '8', '9', 'a', 'b', 'c', 'd', 'e', 'f']
}

/// The sixteen hexadecimal digits as superscript glyphs.
pub open spec fn superscript_digits() -> Seq<char> {
    seq!['⁰', '¹', '²', '³', '⁴', '⁵', '⁶', '⁷', '⁸', '⁹', 'ᵃ', 'ᵇ', 'ᶜ', 'ᵈ', 'ᵉ', 'ᶠ']
}

/// A byte has a glyph of its own: it is a printable ASCII character.
pub open spec fn is_printable(byte: u8) -> bool {
    0x20 <= byte <= 0x7e
}

/// The two hexadecimal digits of a byte.
pub open spec fn hex_text(byte: u8) -> Seq<char> {
    seq![hex_digits()[byte as int / 16], hex_digits()[byte as int % 16]]
}

/// The two hexadecimal digits of a byte as superscript glyphs.
pub open spec fn superscript_text(byte: u8) -> Seq<char> {
    seq![superscript_digits()[byte as int / 16], superscript_digits()[byte as int % 16]]
}

/// What the character display shows for a byte, two columns wide: blanks
/// for 0, the character and a blank for printable ASCII, and the byte's two
/// digits in superscript for everything else.
pub open spec fn unicode_text(byte: u8) -> Seq<char> {
    if byte == 0 {
        seq![' ', ' ']
    } else if is_printable(byte) {
        seq![byte as char, ' ']
    } else {
        superscript_text(byte)
    }
}

/// The string that holds `first` and `second`, in this order.
///
/// Trusted: the body lets `format!` write the two characters; that a `char`
/// is written as itself is what `std::fmt::Display` documents for it.
#[verifier::external_body]
fn two_chars(first: char, second: char) -> (text: String)
    ensures
        text@ == seq![first, second],
{
    format!("{}{}", first, second)
}

/// The digit of a value below sixteen.
fn hex_digit(nibble: u8) -> (digit: char)
    requires
        nibble < 16,
    ensures
        digit == hex_digits()[nibble as int],
{
    if nibble < 10 {
        (0x30 + nibble) as char
    } else {
        (0x61 + (nibble - 10)) as char
    }
}

/// The two hexadecimal digits of a byte, as the hexadecimal display shows
/// them.
pub fn render_hex_byte(byte: u8) -> (text: String)
    ensures
        text@ == hex_text(byte),
{
    two_chars(hex_digit(byte / 16), hex_digit(byte % 16))
}

/// The superscript glyph of a value below sixteen.
pub fn unicode_superscript_hex(byte: u8) -> (glyph: char)
    requires
        byte < 16,
    ensures
        glyph == superscript_digits()[byte as int],
{
    match byte {
        0x0 => '⁰',
        0x1 => '¹',
        0x2 => '²',
        0x3 => '³',
        0x4 => '⁴',
        0x5 => '⁵',
        0x6 => '⁶',
        0x7 => '⁷',
        0x8 => '⁸',
        0x9 => '⁹',
        0xa => 'ᵃ',
        0xb => 'ᵇ',
        0xc => 'ᶜ',
        0xd => 'ᵈ',
        0xe => 'ᵉ',
        _ => 'ᶠ',
    }
}

/// The two digits of a byte as superscript glyphs.
pub fn render_unicode_byte_as_hex(byte: u8) -> (text: String)
    ensures
        text@ == superscript_text(byte),
{
    let high = byte / 16;
    let low = byte % 16;
    two_chars(unicode_superscript_hex(high), unicode_superscript_hex(low))
}

/// What the character display shows for a byte.
pub fn render_unicode_byte(byte: u8) -> (text: String)
    ensures
        text@ == unicode_text(byte),
{
    if byte == 0 {
        two_chars(' ', ' ')
    } else if 0x20 <= byte && byte <= 0x7e {
        two_chars(byte as char, ' ')
    } else {
        render_unicode_byte_as_hex(byte)
    }
}

/// Number of rows that `count` bytes take.
pub open spec fn line_count(count: int) -> int {
    (count + COLUMNS - 1) / (COLUMNS as int)
}

/// Number of bytes in row `row` of `count` bytes: a full row, or what is
/// left for the last one.
pub open spec fn row_len(count: int, row: int) -> int {
    min_int(COLUMNS as int, count - row * COLUMNS)
}

/// What the character display shows for the byte at `index`: its text,
/// selected where the cursor holds the byte's offset.
pub open spec fn unicode_fragment(bytes: Seq<u8>, bytes_start: u64, cursor: Cursor, index: int)
    -> FragmentView {
    FragmentView {
        text: unicode_text(bytes[index]),
        selected: cursor.start <= bytes_start + index < cursor.end,
    }
}

/// The first `count` fragments of row `row` of the character display: one
/// for each byte.
pub open spec fn unicode_row(
    bytes: Seq<u8>,
    bytes_start: u64,
    cursor: Cursor,
    row: int,
    count: int,
) -> Seq<FragmentView> {
    Seq::new(
        count as nat,
        |column: int| unicode_fragment(bytes, bytes_start, cursor, row * COLUMNS + column),
    )
}

/// The rows of the character display for `bytes`, which lie at the offsets
/// from `bytes_start` on.
pub open spec fn unicode_lines(bytes: Seq<u8>, bytes_start: u64, cursor: Cursor) -> Seq<
    Seq<FragmentView>,
> {
    Seq::new(
        line_count(bytes.len() as int) as nat,
        |row: int| unicode_row(bytes, bytes_start, cursor, row, row_len(bytes.len() as int, row)),
    )
}

/// A gap stands in front of the byte in this column: the column begins a
/// block, and it is not the first of its row.
pub open spec fn has_gap(column: int) -> bool {
    column > 0 && column % (BLOCKSIZE as int) == 0
}

/// What the hexadecimal display shows for the byte at `index`: a gap where
/// the column asks for one, then the two digits of the byte. Digits are
/// selected where the cursor holds the byte's offset; the gap is selected
/// with them, except in front of the first selected byte.
pub open spec fn hex_group(bytes: Seq<u8>, bytes_start: u64, cursor: Cursor, index: int) -> Seq<
    FragmentView,
> {
    let selected = cursor.start <= bytes_start + index < cursor.end;
    let digits = FragmentView { text: hex_text(bytes[index]), selected };
    if has_gap(index % (COLUMNS as int)) {
        seq![
            FragmentView { text: seq![' '], selected: selected && bytes_start + index != cursor.start },
            digits,
        ]
    } else {
        seq![digits]
    }
}

/// The fragments of the first `count` bytes of row `row` of the
/// hexadecimal display.
pub open spec fn hex_row(bytes: Seq<u8>, bytes_start: u64, cursor: Cursor, row: int, count: int)
    -> Seq<FragmentView>
    decreases count,
{
    if count <= 0 {
        Seq::empty()
    } else {
        hex_row(bytes, bytes_start, cursor, row, count - 1) + hex_group(
            bytes,
            bytes_start,
            cursor,
            row * COLUMNS + count - 1,
        )
    }
}

/// The rows of the hexadecimal display for `bytes`, which lie at the
/// offsets from `bytes_start` on.
pub open spec fn hex_lines(bytes: Seq<u8>, bytes_start: u64, cursor: Cursor) -> Seq<
    Seq<FragmentView>,
> {
    Seq::new(
        line_count(bytes.len() as int) as nat,
        |row: int| hex_row(bytes, bytes_start, cursor, row, row_len(bytes.len() as int, row)),
    )
}

/// The rows of the character display: one fragment for each byte,
/// `COLUMNS` bytes to a row.
pub fn render_unicode(bytes: &[u8], bytes_start: u64, cursor: Cursor) -> (lines: Vec<Vec<Fragment>>)
    requires
        bytes_start + bytes@.len() <= u64::MAX,
    ensures
        lines.deep_view() == unicode_lines(bytes@, bytes_start, cursor),
{
    let mut column: u8 = 0;
    let mut lines: Vec<Vec<Fragment>> = Vec::new();
    let mut spans: Vec<Fragment> = Vec::new();
    let mut byte = bytes_start;
    let mut index: usize = 0;
    while index < bytes.len()
        invariant
            index <= bytes@.len(),
            bytes_start + bytes@.len() <= u64::MAX,
            byte == bytes_start + index,
            column < 16,
            index == lines@.len() * 16 + column,
            forall|row: int|
                0 <= row < lines@.len() ==> (#[trigger] lines@[row]).deep_view() == unicode_row(
                    bytes@,
                    bytes_start,
                    cursor,
                    row,
                    16,
                ),
            spans.deep_view() == unicode_row(
                bytes@,
                bytes_start,
                cursor,
                lines@.len() as int,
                column as int,
            ),
        decreases bytes@.len() - index,
    {
        let text = render_unicode_byte(bytes[index]);
        let fragment = Fragment { text, selected: cursor.contains(byte) };
        let ghost row = lines@.len() as int;
        let ghost before = spans.deep_view();
        let ghost added = fragment@;
        proof {
            lemma_index_of(row, column as int);
            assert(added == unicode_fragment(bytes@, bytes_start, cursor, row * COLUMNS + column));
        }
        spans.push(fragment);
        column += 1;
        assert(spans.deep_view() =~= before.push(added));
        assert(before.push(added) =~= unicode_row(bytes@, bytes_start, cursor, row, column as int));
        if column == COLUMNS {
            lines.push(spans);
            spans = Vec::new();
            column = 0;
            assert(spans.deep_view() =~= unicode_row(
                bytes@,
                bytes_start,
                cursor,
                lines@.len() as int,
                0,
            ));
        }
        byte += 1;
        index += 1;
    }
    proof {
        let count = bytes@.len() as int;
        lemma_rows_of(count);
        assert(lines@.len() == count / 16);
        assert(column == count % 16);
    }
    if spans.len() > 0 {
        lines.push(spans);
    }
    assert(lines.deep_view() =~= unicode_lines(bytes@, bytes_start, cursor));
    lines
}

/// The text of a gap between two blocks.
fn gap_text() -> (text: String)
    ensures
        text@ == seq![' '],
{
    proof {
        reveal_strlit(" ");
    }
    let text = " ".to_owned();
    assert(text@ =~= seq![' ']);
    text
}

/// The rows of the hexadecimal display: two digits for each byte, a gap
/// between blocks of `BLOCKSIZE` bytes, `COLUMNS` bytes to a row.
pub fn render_hex(bytes: &[u8], bytes_start: u64, cursor: Cursor) -> (lines: Vec<Vec<Fragment>>)
    requires
        bytes_start + bytes@.len() <= u64::MAX,
    ensures
        lines.deep_view() == hex_lines(bytes@, bytes_start, cursor),
{
    let mut column: u8 = 0;
    let mut lines: Vec<Vec<Fragment>> = Vec::new();
    let mut spans: Vec<Fragment> = Vec::new();
    let mut byte = bytes_start;
    let mut index: usize = 0;
    while index < bytes.len()
        invariant
            index <= bytes@.len(),
            bytes_start + bytes@.len() <= u64::MAX,
            byte == bytes_start + index,
            column < 16,
            index == lines@.len() * 16 + column,
            forall|row: int|
                0 <= row < lines@.len() ==> (#[trigger] lines@[row]).deep_view() == hex_row(
                    bytes@,
                    bytes_start,
                    cursor,
                    row,
                    16,
                ),
            spans.deep_view() == hex_row(
                bytes@,
                bytes_start,
                cursor,
                lines@.len() as int,
                column as int,
            ),
            column > 0 ==> spans@.len() > 0,
        decreases bytes@.len() - index,
    {
        let selected = cursor.contains(byte);
        let ghost row = lines@.len() as int;
        let ghost before = spans.deep_view();
        proof {
            lemma_index_of(row, column as int);
            assert(BLOCKSIZE == 2);
        }
        if column > 0 && column % BLOCKSIZE == 0 {
            let gap = Fragment { text: gap_text(), selected: selected && byte != cursor.start() };
            spans.push(gap);
        }
        let digits = Fragment { text: render_hex_byte(bytes[index]), selected };
        spans.push(digits);
        column += 1;
        assert(spans.deep_view() =~= before + hex_group(
            bytes@,
            bytes_start,
            cursor,
            row * COLUMNS + column - 1,
        ));
        if column == COLUMNS {
            lines.push(spans);
            spans = Vec::new();
            column = 0;
            assert(spans.deep_view() =~= hex_row(
                bytes@,
                bytes_start,
                cursor,
                lines@.len() as int,
                0,
            ));
        }
        byte += 1;
        index += 1;
    }
    proof {
        let count = bytes@.len() as int;
        lemma_rows_of(count);
        assert(lines@.len() == count / 16);
        assert(column == count % 16);
    }
    if spans.len() > 0 {
        lines.push(spans);
    }
    assert(lines.deep_view() =~= hex_lines(bytes@, bytes_start, cursor));
    lines
}

/// The byte in column `column` of row `row` is the byte at index
/// `16 * row + column`.
proof fn lemma_index_of(row: int, column: int)
    ensures
        COLUMNS == 16,
        row * COLUMNS + column == 16 * row + column,
{
    assert(row * COLUMNS == 16 * row) by (nonlinear_arith)
        requires
            COLUMNS == 16,
    ;
}

/// `count` bytes fill `count / 16` rows, and a shorter last row where
/// `count` is not a multiple of 16.
proof fn lemma_rows_of(count: int)
    requires
        count >= 0,
    ensures
        line_count(count) == count / 16 + if count % 16 == 0 {
            0int
        } else {
            1int
        },
        forall|row: int| 0 <= row < count / 16 ==> #[trigger] row_len(count, row) == 16,
        row_len(count, count / 16) == count % 16,
{
    assert(COLUMNS == 16);
    assert forall|row: int| 0 <= row < count / 16 implies #[trigger] row_len(count, row) == 16 by {
        lemma_index_of(row, 0);
    }
    lemma_index_of(count / 16, 0);
}

/// The hexadecimal display: its style, the bytes to show, the offset of
/// the first of them, and the selection.
#[derive(Debug, Clone)]
pub struct HexDisplay {
    pub style: Style,
    pub data: Vec<u8>,
    pub data_start: u64,
    pub cursor: Cursor,
}

impl HexDisplay {
    /// A display without colours or bytes, with an empty selection at
    /// offset 0.
    pub fn default() -> (display: Self)
        ensures
            display.style == (Style { bg: None, fg: None }),
            display.data@ == Seq::<u8>::empty(),
            display.data_start == 0,
            display.cursor == (Cursor { start: 0, end: 0 }),
    {
        HexDisplay {
            style: Style::default(),
            data: Vec::new(),
            data_start: 0,
            cursor: Cursor { start: 0, end: 0 },
        }
    }

    pub fn set_data(&mut self, data: Vec<u8>, data_start: u64)
        ensures
            final(self).data == data,
            final(self).data_start == data_start,
            final(self).style == old(self).style,
            final(self).cursor == old(self).cursor,
    {
        self.data = data;
        self.data_start = data_start;
    }

    /// This display in another style.
    pub fn style(self, style: Style) -> (display: Self)
        ensures
            display.style == style,
            display.data == self.data,
            display.data_start == self.data_start,
            display.cursor == self.cursor,
    {
        let mut display = self;
        display.style = style;
        display
    }

    /// The rows to show.
    pub fn lines(&self) -> (lines: Vec<Vec<Fragment>>)
        requires
            self.data_start + self.data@.len() <= u64::MAX,
        ensures
            lines.deep_view() == hex_lines(self.data@, self.data_start, self.cursor),
    {
        render_hex(self.data.as_slice(), self.data_start, self.cursor)
    }
}

/// The character display: its style, the bytes to show, the offset of the
/// first of them, and the selection.
#[derive(Debug, Clone)]
pub struct UnicodeDisplay {
    pub style: Style,
    pub data: Vec<u8>,
    pub data_start: u64,
    pub cursor: Cursor,
}

impl UnicodeDisplay {
    /// A display without colours or bytes, with an empty selection at
    /// offset 0.
    pub fn default() -> (display: Self)
        ensures
            display.style == (Style { bg: None, fg: None }),
            display.data@ == Seq::<u8>::empty(),
            display.data_start == 0,
            display.cursor == (Cursor { start: 0, end: 0 }),
    {
        UnicodeDisplay {
            style: Style::default(),
            data: Vec::new(),
            data_start: 0,
            cursor: Cursor::new(0, 0),
        }
    }

    pub fn set_data(&mut self, data: Vec<u8>, data_start: u64)
        ensures
            final(self).data == data,
            final(self).data_start == data_start,
            final(self).style == old(self).style,
            final(self).cursor == old(self).cursor,
    {
        self.data = data;
        self.data_start = data_start;
    }

    /// This display in another style.
    pub fn style(self, style: Style) -> (display: Self)
        ensures
            display.style == style,
            display.data == self.data,
            display.data_start == self.data_start,
            display.cursor == self.cursor,
    {
        let mut display = self;
        display.style = style;
        display
    }

    /// The rows to show.
    pub fn lines(&self) -> (lines: Vec<Vec<Fragment>>)
        requires
            self.data_start + self.data@.len() <= u64::MAX,
        ensures
            lines.deep_view() == unicode_lines(self.data@, self.data_start, self.cursor),
    {
        render_unicode(self.data.as_slice(), self.data_start, self.cursor)
    }
}

} // verus!
