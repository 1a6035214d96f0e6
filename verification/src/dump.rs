//! Rendering one window of memory as a line of the dump.

use vstd::prelude::*;
use vstd::string::StringExecFns;
use crate::hex::{address_field, address_text, hex_char, hex_digit, hex_pair, push_char};
use crate::style::{no_escape, paint, painted, style_for, style_of, Codes};

verus! {

/// The number of bytes in a window.
pub const WINDOW: usize = 16;

/// What a byte is to the character column.
#[derive(Clone, Copy, Debug, PartialEq, Eq, Structural)]
pub enum ByteClass {
    /// `0x00`: shown in the hex column only.
    Zero,
    /// `0x20` to `0x7e`: shown as the character it encodes.
    PrintableAscii,
    /// Any other value: shown as a dot.
    Other,
}

/// Whether the read of a window delivered its bytes.
#[derive(Clone, Copy, Debug, PartialEq, Eq, Structural)]
pub enum Outcome {
    Success,
    Failure,
}

/// One window of the target's memory: where it was read and what came back.
/// After a failed read the bytes mean nothing.
#[derive(Clone, Copy, Debug)]
pub struct ReadWindow {
    pub address: usize,
    pub bytes: [u8; 16],
    pub outcome: Outcome,
}

/// What the dump shows, fixed for a whole scan.
#[derive(Clone, Copy, Debug, PartialEq, Eq, Structural)]
pub struct DumpConfig {
    /// Add the character column.
    pub show_ascii: bool,
    /// Leave out the lines of windows that hold zeros only.
    pub hide_zero_lines: bool,
}

/// The class of a byte's value.
pub open spec fn class_of(b: u8) -> ByteClass {
    if b == 0 {
        ByteClass::Zero
    } else if 0x20 <= b <= 0x7e {
        ByteClass::PrintableAscii
    } else {
        ByteClass::Other
    }
}

/// Every byte is zero.
pub open spec fn all_zero(bytes: Seq<u8>) -> bool {
    forall|i: int| 0 <= i < bytes.len() ==> bytes[i] == 0
}

/// The number of bytes that are not zero.
pub open spec fn count_nonzero(bytes: Seq<u8>) -> nat
    decreases bytes.len(),
{
    if bytes.len() == 0 {
        0
    } else {
        count_nonzero(bytes.drop_last()) + if bytes.last() == 0 { 0nat } else { 1nat }
    }
}

/// A byte in the hex column, before emphasis: its two digits and a space.
pub open spec fn hex_cell(b: u8) -> Seq<char> {
    hex_pair(b).push(' ')
}

/// The hex column: the cell of each byte in its emphasis, in order.
/// `codes[i]` tells which codes were written round cell `i`.
pub open spec fn hex_column(bytes: Seq<u8>, codes: Seq<Codes>) -> Seq<char>
    decreases bytes.len(),
{
    if bytes.len() == 0 {
        Seq::empty()
    } else {
        hex_column(bytes.drop_last(), codes.drop_last()) + painted(
            hex_cell(bytes.last()),
            style_of(bytes.last()),
            codes.last(),
        )
    }
}

/// The character that stands for a byte which is not zero.
pub open spec fn ascii_char(b: u8) -> char {
    if class_of(b) == ByteClass::PrintableAscii {
        b as char
    } else {
        '.'
    }
}

/// The character column: one character for each byte that is not zero, in
/// order, and nothing for a zero.
pub open spec fn ascii_column(bytes: Seq<u8>) -> Seq<char>
    decreases bytes.len(),
{
    if bytes.len() == 0 {
        Seq::empty()
    } else if bytes.last() == 0 {
        ascii_column(bytes.drop_last())
    } else {
        ascii_column(bytes.drop_last()).push(ascii_char(bytes.last()))
    }
}

/// The line that stands for a window whose read failed.
pub open spec fn failure_text() -> Seq<char> {
    "ERROR: Could not read data"@
}

/// No line is written for the window: it was read, it holds zeros only,
/// and such lines are hidden.
pub open spec fn suppressed(window: ReadWindow, config: DumpConfig) -> bool {
    window.outcome == Outcome::Success && config.hide_zero_lines && all_zero(window.bytes@)
}

/// The line of a window that was read: address, hex column and, where it
/// is asked for, character column, divided by ` | `.
pub open spec fn line_text(window: ReadWindow, config: DumpConfig, codes: Seq<Codes>) -> Seq<
    char,
> {
    let base = address_text(window.address) + " | "@ + hex_column(window.bytes@, codes);
    if config.show_ascii {
        base + " | "@ + ascii_column(window.bytes@)
    } else {
        base
    }
}

/// The text of a line, if there is one.
pub open spec fn text_of(out: Option<String>) -> Option<Seq<char>> {
    match out {
        Some(line) => Some(line@),
        None => None,
    }
}

/// `out` is what rendering the window gives: nothing exactly where the
/// window is suppressed, the failure line after a failed read, and
/// otherwise the window's line, with the codes of its emphases as the
/// terminal library wrote them, cell by cell.
pub open spec fn renders(out: Option<Seq<char>>, window: ReadWindow, config: DumpConfig) -> bool {
    match out {
        None => suppressed(window, config),
        Some(line) => if window.outcome == Outcome::Failure {
            line == failure_text()
        } else {
            !suppressed(window, config) && exists|codes: Seq<Codes>|
                codes.len() == WINDOW && line == line_text(window, config, codes)
        },
    }
}

/// A line is left out only for a window that was read, holds zeros only
/// and is hidden by the configuration: a window with a byte that is not
/// zero always has its line, and so has every window where nothing is
/// hidden.
pub proof fn lemma_zero_line_filter(out: Option<Seq<char>>, window: ReadWindow, config: DumpConfig)
    requires
        renders(out, window, config),
    ensures
        out.is_none() <==> window.outcome == Outcome::Success && config.hide_zero_lines
            && all_zero(window.bytes@),
        !all_zero(window.bytes@) ==> out.is_some(),
        !config.hide_zero_lines ==> out.is_some(),
{
}

/// The character column has one character for each byte that is not zero,
/// and each is a dot or the printable character that its byte encodes.
pub proof fn lemma_ascii_column(bytes: Seq<u8>)
    ensures
        ascii_column(bytes).len() == count_nonzero(bytes),
        ascii_column(bytes).len() <= bytes.len(),
        forall|i: int|
            0 <= i < ascii_column(bytes).len() ==> {
                let c = #[trigger] ascii_column(bytes)[i];
                c == '.' || (0x20 <= c as u32 <= 0x7e)
            },
    decreases bytes.len(),
{
    if bytes.len() > 0 {
        lemma_ascii_column(bytes.drop_last());
    }
}

/// The class of a byte.
pub fn classify(b: u8) -> (class: ByteClass)
    ensures
        class == class_of(b),
{
    if b == 0x00 {
        ByteClass::Zero
    } else if 0x20 <= b && b <= 0x7e {
        ByteClass::PrintableAscii
    } else {
        ByteClass::Other
    }
}

/// Tells whether a read that reports `result` bytes delivered its window:
/// only the whole window counts, and so does no error value.
pub fn delivered(result: isize) -> (ok: bool)
    ensures
        ok == (result == WINDOW as int),
{
    result == 16
}

/// Tells whether every byte is zero.
pub fn is_all_zero(bytes: &[u8]) -> (r: bool)
    ensures
        r == all_zero(bytes@),
{
    let mut i: usize = 0;
    while i < bytes.len()
        invariant
            i <= bytes@.len(),
            forall|j: int| 0 <= j < i ==> bytes@[j] == 0,
        decreases bytes@.len() - i,
    {
        if bytes[i] != 0 {
            return false;
        }
        i += 1;
    }
    true
}

/// The two digits of a byte and the space after them.
pub fn hex_cell_text(b: u8) -> (s: String)
    ensures
        s@ == hex_cell(b),
        no_escape(s@),
{
    let mut s = String::new();
    push_char(&mut s, hex_digit(b / 16));
    push_char(&mut s, hex_digit(b % 16));
    push_char(&mut s, ' ');
    proof {
        assert(s@ =~= hex_cell(b));
        assert(hex_char((b / 16) as nat) != '\x1b');
        assert(hex_char((b % 16) as nat) != '\x1b');
    }
    s
}

/// Renders the hex column, each byte in the emphasis of its value.
pub fn hex_column_text(bytes: &[u8]) -> (s: String)
    ensures
        exists|codes: Seq<Codes>| codes.len() == bytes@.len() && s@ == hex_column(bytes@, codes),
{
    let mut s = String::new();
    let ghost mut codes: Seq<Codes> = Seq::empty();
    let mut i: usize = 0;
    while i < bytes.len()
        invariant
            i <= bytes@.len(),
            codes.len() == i,
            s@ == hex_column(bytes@.subrange(0, i as int), codes),
        decreases bytes@.len() - i,
    {
        let cell = hex_cell_text(bytes[i]);
        let shown = paint(cell.as_str(), style_for(bytes[i]));
        proof {
            let style = style_of(bytes@[i as int]);
            let used = choose|used: Codes| shown@ == painted(cell@, style, used);
            let head = bytes@.subrange(0, i + 1);
            assert(head.drop_last() =~= bytes@.subrange(0, i as int));
            assert(codes.push(used).drop_last() =~= codes);
            codes = codes.push(used);
        }
        s.append(shown.as_str());
        i += 1;
    }
    proof {
        assert(bytes@.subrange(0, bytes@.len() as int) =~= bytes@);
    }
    s
}

/// Renders the character column.
pub fn ascii_column_text(bytes: &[u8]) -> (s: String)
    ensures
        s@ == ascii_column(bytes@),
{
    let mut s = String::new();
    let mut i: usize = 0;
    while i < bytes.len()
        invariant
            i <= bytes@.len(),
            s@ == ascii_column(bytes@.subrange(0, i as int)),
        decreases bytes@.len() - i,
    {
        proof {
            assert(bytes@.subrange(0, i + 1).drop_last() =~= bytes@.subrange(0, i as int));
        }
        match classify(bytes[i]) {
            ByteClass::Zero => {},
            ByteClass::PrintableAscii => {
                push_char(&mut s, bytes[i] as char);
            },
            ByteClass::Other => {
                push_char(&mut s, '.');
            },
        }
        i += 1;
    }
    proof {
        assert(bytes@.subrange(0, bytes@.len() as int) =~= bytes@);
    }
    s
}

/// The fixed line for a window whose read failed.
pub fn failure_line() -> (s: String)
    ensures
        s@ == failure_text(),
{
    String::from_str("ERROR: Could not read data")
}

/// Renders a window as a line of the dump, without a line end.
///
/// A window whose read failed gives the fixed failure line. A window of
/// zeros gives no line where such lines are hidden. Any other window gives
/// its address, its hex column and, where asked for, its character column.
pub fn render(window: &ReadWindow, config: &DumpConfig) -> (out: Option<String>)
    ensures
        renders(text_of(out), *window, *config),
{
    match window.outcome {
        Outcome::Failure => {
            return Some(failure_line());
        },
        Outcome::Success => {},
    }
    if config.hide_zero_lines && is_all_zero(window.bytes.as_slice()) {
        return None;
    }
    let mut line = address_field(window.address);
    line.append(" | ");
    let hex = hex_column_text(window.bytes.as_slice());
    line.append(hex.as_str());
    if config.show_ascii {
        line.append(" | ");
        let ascii = ascii_column_text(window.bytes.as_slice());
        line.append(ascii.as_str());
    }
    Some(line)
}

} // verus!
