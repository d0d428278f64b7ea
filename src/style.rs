use vstd::prelude::*;

verus! {

/// The bytes that switch a terminal to a green foreground.
pub open spec fn green_prefix() -> Seq<u8> {
    seq![0x1bu8, 0x5bu8, 0x33u8, 0x32u8, 0x6du8]
}

/// The bytes that reset every terminal style.
pub open spec fn reset_suffix() -> Seq<u8> {
    seq![0x1bu8, 0x5bu8, 0x30u8, 0x6du8]
}

/// `text` as it is shown in green.
pub open spec fn green(text: Seq<u8>) -> Seq<u8> {
    green_prefix() + text + reset_suffix()
}

/// Relies on ansi_term's `Colour::Green.paint` written out through
/// `ANSIByteString::write_to`: the style prefix `ESC [ 3 2 m`, the text
/// unchanged, then the reset code `ESC [ 0 m`. Writing into a `Vec` cannot fail.
#[verifier::external_body]
pub(crate) fn paint_green(text: &[u8]) -> (r: Vec<u8>)
    ensures
        r@ == green(text@),
{
    let mut out: Vec<u8> = Vec::new();
    let _ = ansi_term::Colour::Green.paint(text).write_to(&mut out);
    out
}

} // verus!
