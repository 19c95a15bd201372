//! Display colors assigned to admitted users, and their canonical text form.

use vstd::prelude::*;
use vstd::string::StringExecFns;

verus! {

/// An RGBA display color with 8-bit channels.
#[derive(Clone, Copy, PartialEq, Eq, Structural, Debug)]
pub struct Color {
    pub r: u8,
    pub g: u8,
    pub b: u8,
    pub a: u8,
}

/// The character for one decimal digit.
pub open spec fn digit_char(d: int) -> char {
    if d == 0 {
        '0'
    } else if d == 1 {
        '1'
    } else if d == 2 {
        '2'
    } else if d == 3 {
        '3'
    } else if d == 4 {
        '4'
    } else if d == 5 {
        '5'
    } else if d == 6 {
        '6'
    } else if d == 7 {
        '7'
    } else if d == 8 {
        '8'
    } else {
        '9'
    }
}

/// The decimal text of a channel value, without leading zeros.
pub open spec fn dec_text(n: u8) -> Seq<char> {
    if n < 10 {
        seq![digit_char(n as int)]
    } else if n < 100 {
        seq![digit_char(n as int / 10), digit_char(n as int % 10)]
    } else {
        seq![
            digit_char(n as int / 100),
            digit_char((n as int / 10) % 10),
            digit_char(n as int % 10),
        ]
    }
}

/// The canonical textual form of a color: `rgba(R, G, B, A)` with decimal
/// channel values.
pub open spec fn color_text(c: Color) -> Seq<char> {
    "rgba("@ + dec_text(c.r) + ", "@ + dec_text(c.g) + ", "@ + dec_text(c.b) + ", "@ + dec_text(
        c.a,
    ) + ")"@
}

/// The fixed color every newly admitted user receives, a mid gray, until a
/// richer allocation policy exists.
pub open spec fn spec_default_color() -> Color {
    Color { r: 128, g: 128, b: 128, a: 255 }
}

fn digit_str(d: u8) -> (r: &'static str)
    requires
        d < 10,
    ensures
        r@ =~= seq![digit_char(d as int)],
{
    proof {
        reveal_strlit("0");
        reveal_strlit("1");
        reveal_strlit("2");
        reveal_strlit("3");
        reveal_strlit("4");
        reveal_strlit("5");
        reveal_strlit("6");
        reveal_strlit("7");
        reveal_strlit("8");
        reveal_strlit("9");
    }
    match d {
        0 => "0",
        1 => "1",
        2 => "2",
        3 => "3",
        4 => "4",
        5 => "5",
        6 => "6",
        7 => "7",
        8 => "8",
        _ => "9",
    }
}

fn push_dec(out: &mut String, n: u8)
    ensures
        final(out)@ == old(out)@ + dec_text(n),
{
    if n < 10 {
        out.append(digit_str(n));
        assert(out@ =~= old(out)@ + dec_text(n));
    } else if n < 100 {
        out.append(digit_str(n / 10));
        out.append(digit_str(n % 10));
        assert(out@ =~= old(out)@ + dec_text(n));
    } else {
        out.append(digit_str(n / 100));
        out.append(digit_str((n / 10) % 10));
        out.append(digit_str(n % 10));
        assert(out@ =~= old(out)@ + dec_text(n));
    }
}

impl Color {
    /// The fixed default color for new users.
    pub fn default_user_color() -> (r: Color)
        ensures
            r == spec_default_color(),
    {
        Color { r: 128, g: 128, b: 128, a: 255 }
    }

    /// Serializes the color to its canonical text form.
    pub fn canonical_text(&self) -> (r: String)
        ensures
            r@ == color_text(*self),
    {
        let mut out = "rgba(".to_owned();
        push_dec(&mut out, self.r);
        out.append(", ");
        push_dec(&mut out, self.g);
        out.append(", ");
        push_dec(&mut out, self.b);
        out.append(", ");
        push_dec(&mut out, self.a);
        out.append(")");
        assert(out@ =~= color_text(*self));
        out
    }
}

} // verus!
