//! The interactive console: what is echoed for each byte typed.

use crate::text::crlf;
use vstd::prelude::*;
use vstd::string::StringSliceAdditionalSpecFns;

verus! {

/// Carriage return.
pub const CR: u8 = 0x0d;

/// Backspace.
pub const BACKSPACE: u8 = 0x08;

/// The UTF-8 encoding of the character whose code point is the byte `x`.
pub open spec fn char_utf8(x: u8) -> Seq<u8> {
    if x < 0x80 {
        seq![x]
    } else {
        seq![(0xc0 | (x >> 6u8)) as u8, (0x80 | (x & 0x3f)) as u8]
    }
}

/// What is echoed when `x` is typed after `prev`: a line ending in a crab
/// after `r`, else in a turtle, for a carriage return; the byte twice and a
/// bandage for a backspace; a waffle for `w`; the character itself otherwise.
pub open spec fn response(prev: u8, x: u8) -> Seq<u8> {
    if x == CR {
        (if prev == 0x72 {
            " 🦀".spec_bytes()
        } else {
            " 🐢".spec_bytes()
        }) + crlf()
    } else if x == BACKSPACE {
        char_utf8(x) + char_utf8(x) + "🩹".spec_bytes()
    } else if x == 0x77 {
        "🧇".spec_bytes()
    } else {
        char_utf8(x)
    }
}

/// Appends the UTF-8 encoding of the character whose code point is `x`.
pub fn push_char(out: &mut Vec<u8>, x: u8)
    ensures
        final(out)@ == old(out)@ + char_utf8(x),
{
    if x < 0x80 {
        out.push(x);
    } else {
        out.push(0xc0 | (x >> 6u8));
        out.push(0x80 | (x & 0x3f));
    }
    assert(final(out)@ =~= old(out)@ + char_utf8(x));
}

/// The console's memory of the last byte typed.
pub struct Shell {
    pub prev: u8,
}

impl Shell {
    /// A console that has seen nothing typed yet.
    pub fn new() -> (s: Shell)
        ensures
            s.prev == 0,
    {
        Shell { prev: 0 }
    }

    /// The bytes to echo for the typed byte `x`, which becomes the last byte typed.
    pub fn on_byte(&mut self, x: u8) -> (r: Vec<u8>)
        ensures
            r@ == response(old(self).prev, x),
            final(self).prev == x,
    {
        let mut out: Vec<u8> = Vec::new();
        if x == CR {
            if self.prev == 0x72 {
                crate::text::push_str(&mut out, " 🦀");
            } else {
                crate::text::push_str(&mut out, " 🐢");
            }
            crate::text::push_crlf(&mut out);
        } else if x == BACKSPACE {
            push_char(&mut out, x);
            push_char(&mut out, x);
            crate::text::push_str(&mut out, "🩹");
        } else if x == 0x77 {
            crate::text::push_str(&mut out, "🧇");
        } else {
            push_char(&mut out, x);
        }
        assert(out@ =~= response(self.prev, x));
        self.prev = x;
        out
    }
}

} // verus!
