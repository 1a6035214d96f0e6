//! The three emphases of the hex column and the terminal codes that carry
//! them.

use colored::Colorize;
use vstd::prelude::*;

verus! {

/// How a byte's two digits are set off in the hex column.
#[derive(Clone, Copy, Debug, PartialEq, Eq, Structural)]
pub enum Style {
    /// No emphasis: the zero byte.
    Neutral,
    /// Black on green: `0x01` to `0x7f`.
    Strong,
    /// Yellow: `0x80` to `0xff`.
    Secondary,
}

/// The emphasis that a byte's value calls for.
pub open spec fn style_of(b: u8) -> Style {
    if b == 0 {
        Style::Neutral
    } else if b <= 0x7f {
        Style::Strong
    } else {
        Style::Secondary
    }
}

/// The code that switches an emphasis on.
pub open spec fn style_on(style: Style) -> Seq<char> {
    match style {
        Style::Neutral => Seq::empty(),
        Style::Strong => seq!['\x1b', '[', '4', '2', ';', '3', '0', 'm'],
        Style::Secondary => seq!['\x1b', '[', '3', '3', 'm'],
    }
}

/// The code that switches every emphasis off.
pub open spec fn style_off() -> Seq<char> {
    seq!['\x1b', '[', '0', 'm']
}

/// Which codes came to stand round a text. The terminal library asks
/// whether colour is in use more than once while it writes a text, so
/// where colour is switched off in the midst of that the closing code can
/// stand alone.
#[derive(Clone, Copy, Debug, PartialEq, Eq, Structural)]
pub enum Codes {
    /// None: colour is not in use.
    Absent,
    /// The code of the emphasis before the text and the closing code after it.
    Both,
    /// The closing code only.
    Closing,
}

/// A text in an emphasis. The neutral emphasis leaves the text bare,
/// whatever the codes.
pub open spec fn painted(text: Seq<char>, style: Style, codes: Codes) -> Seq<char> {
    if style == Style::Neutral {
        text
    } else {
        match codes {
            Codes::Absent => text,
            Codes::Both => style_on(style) + text + style_off(),
            Codes::Closing => text + style_off(),
        }
    }
}

/// `out` is `text` in the emphasis, with one of the three sets of codes.
pub open spec fn is_painted(out: Seq<char>, text: Seq<char>, style: Style) -> bool {
    exists|codes: Codes| out == painted(text, style, codes)
}

/// The text holds no escape character.
pub open spec fn no_escape(text: Seq<char>) -> bool {
    forall|i: int| 0 <= i < text.len() ==> text[i] != '\x1b'
}

/// The three emphases divide the byte values among them: each value has
/// exactly one, decided by the range it lies in.
pub proof fn lemma_styles_partition(b: u8)
    ensures
        style_of(b) == Style::Neutral <==> b == 0x00,
        style_of(b) == Style::Strong <==> 0x01 <= b <= 0x7f,
        style_of(b) == Style::Secondary <==> 0x80 <= b <= 0xff,
        b == 0x00 || (0x01 <= b <= 0x7f) || (0x80 <= b <= 0xff),
{
}

/// The emphasis for a byte.
pub fn style_for(b: u8) -> (style: Style)
    ensures
        style == style_of(b),
{
    if b == 0x00 {
        Style::Neutral
    } else if b <= 0x7f {
        Style::Strong
    } else {
        Style::Secondary
    }
}

/// `Colorize::normal` and `Colorize::clear` of `colored` on a `&str`, then
/// the text of the result. Both give a string without colour or style,
/// which `colored` writes out as the input itself.
#[verifier::external_body]
fn plain(text: &str) -> (out: String)
    ensures
        out@ == text@,
{
    text.normal().clear().to_string()
}

/// `Colorize::black` and `Colorize::on_green` of `colored` on a `&str`, then
/// the text of the result. Where `colored` finds colour switched off it
/// writes the input itself; otherwise the input between `ESC[42;30m` and
/// `ESC[0m`, the first of which it leaves out if colour is switched off
/// while it writes. An input that holds a reset code of its own is changed
/// by `colored`, so inputs with an escape character are left out.
#[verifier::external_body]
fn black_on_green(text: &str) -> (out: String)
    requires
        no_escape(text@),
    ensures
        is_painted(out@, text@, Style::Strong),
{
    text.black().on_green().to_string()
}

/// `Colorize::yellow` of `colored` on a `&str`, then the text of the
/// result. Where `colored` finds colour switched off it writes the input
/// itself; otherwise the input between `ESC[33m` and `ESC[0m`, the first of
/// which it leaves out if colour is switched off while it writes. Inputs
/// with an escape character are left out, as for the other emphasis.
#[verifier::external_body]
fn yellow(text: &str) -> (out: String)
    requires
        no_escape(text@),
    ensures
        is_painted(out@, text@, Style::Secondary),
{
    text.yellow().to_string()
}

/// Sets a text in an emphasis. Whether the codes are written is the
/// terminal library's decision, taken from the environment at each call.
pub fn paint(text: &str, style: Style) -> (out: String)
    requires
        no_escape(text@),
    ensures
        is_painted(out@, text@, style),
{
    match style {
        Style::Neutral => {
            let out = plain(text);
            assert(out@ == painted(text@, style, Codes::Absent));
            out
        },
        Style::Strong => black_on_green(text),
        Style::Secondary => yellow(text),
    }
}

} // verus!
