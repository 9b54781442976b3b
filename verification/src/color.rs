//! Marks that make outgoing text bold, coloured and the like.

use vstd::prelude::*;
use vstd::string::StringExecFns;

verus! {

pub const WHITE: &'static str = "00";

pub const BLACK: &'static str = "01";

pub const BLUE: &'static str = "02";

pub const GREEN: &'static str = "03";

pub const RED: &'static str = "04";

pub const BROWN: &'static str = "05";

pub const PURPLE: &'static str = "06";

pub const ORANGE: &'static str = "07";

pub const YELLOW: &'static str = "08";

pub const LIME: &'static str = "09";

pub const TEAL: &'static str = "10";

pub const LIGHT_CYAN: &'static str = "11";

pub const LIGHT_BLUE: &'static str = "12";

pub const PINK: &'static str = "13";

pub const GREY: &'static str = "14";

pub const LIGHT_GREY: &'static str = "15";

pub const TRANSPARENT: &'static str = "99";

/// The mark that resets all formatting.
pub open spec fn reset_mark() -> Seq<char> {
    seq!['\u{0f}']
}

/// The mark that toggles bold text.
pub open spec fn bold_mark() -> Seq<char> {
    seq!['\u{02}']
}

/// The mark that toggles italic text.
pub open spec fn italic_mark() -> Seq<char> {
    seq!['\u{1d}']
}

/// The mark that toggles underlined text.
pub open spec fn underline_mark() -> Seq<char> {
    seq!['\u{1f}']
}

/// The mark that starts and ends a colour.
pub open spec fn color_mark() -> Seq<char> {
    seq!['\u{03}']
}

/// `s` between two marks.
fn between(mark: &str, s: &str) -> (r: String)
    ensures
        r@ == mark@ + s@ + mark@,
{
    let mut r = String::from_str(mark);
    r.append(s);
    r.append(mark);
    r
}

/// `s` as plain text.
pub fn normal(s: &str) -> (r: String)
    ensures
        r@ == reset_mark() + s@ + reset_mark(),
{
    proof {
        reveal_strlit("\x0F");
        assert("\x0F"@ =~= reset_mark());
    }
    between("\x0F", s)
}

/// `s` in bold.
pub fn bold(s: &str) -> (r: String)
    ensures
        r@ == bold_mark() + s@ + bold_mark(),
{
    proof {
        reveal_strlit("\x02");
        assert("\x02"@ =~= bold_mark());
    }
    between("\x02", s)
}

/// `s` in italics.
pub fn italic(s: &str) -> (r: String)
    ensures
        r@ == italic_mark() + s@ + italic_mark(),
{
    proof {
        reveal_strlit("\x1D");
        assert("\x1D"@ =~= italic_mark());
    }
    between("\x1D", s)
}

/// `s` underlined.
pub fn underline(s: &str) -> (r: String)
    ensures
        r@ == underline_mark() + s@ + underline_mark(),
{
    proof {
        reveal_strlit("\x1F");
        assert("\x1F"@ =~= underline_mark());
    }
    between("\x1F", s)
}

/// `s` in the colour `fg`.
pub fn foreground(s: &str, fg: &str) -> (r: String)
    ensures
        r@ == color_mark() + fg@ + s@ + color_mark(),
{
    proof {
        reveal_strlit("\x03");
        assert("\x03"@ =~= color_mark());
    }
    let mut r = String::from_str("\x03");
    r.append(fg);
    r.append(s);
    r.append("\x03");
    r
}

/// `s` on the colour `bg`.
pub fn background(s: &str, bg: &str) -> (r: String)
    ensures
        r@ == color_mark() + seq![','] + bg@ + s@ + color_mark(),
{
    proof {
        reveal_strlit("\x03");
        reveal_strlit(",");
        assert("\x03"@ =~= color_mark());
        assert(","@ =~= seq![',']);
    }
    let mut r = String::from_str("\x03");
    r.append(",");
    r.append(bg);
    r.append(s);
    r.append("\x03");
    r
}

/// `s` in the colour `fg` on the colour `bg`.
pub fn color(s: &str, fg: &str, bg: &str) -> (r: String)
    ensures
        r@ == color_mark() + fg@ + seq![','] + bg@ + s@ + color_mark(),
{
    proof {
        reveal_strlit("\x03");
        reveal_strlit(",");
        assert("\x03"@ =~= color_mark());
        assert(","@ =~= seq![',']);
    }
    let mut r = String::from_str("\x03");
    r.append(fg);
    r.append(",");
    r.append(bg);
    r.append(s);
    r.append("\x03");
    r
}

} // verus!
