//! Plain text assembled from literals and decimal numbers.
use vstd::prelude::*;
use vstd::string::*;

verus! {

/// The character of the decimal digit `d`.
pub open spec fn digit(d: int) -> char {
    (d + 48) as u8 as char
}

/// `n` written in base ten, without leading zeros.
pub open spec fn decimal(n: int) -> Seq<char>
    decreases n,
{
    if n < 10 {
        seq![digit(n)]
    } else {
        decimal(n / 10).push(digit(n % 10))
    }
}

fn digit_str(d: u64) -> (r: &'static str)
    requires
        d < 10,
    ensures
        r@ == seq![digit(d as int)],
{
    proof {
        reveal_strlit("0");
        reveal_strlit("1");
        reveal_strlit("2");
        reveal_strlit("3");
        reveal_strlit("4");
        reveal_strlit("5");
        reveal_strlit("6");
        reveal_strlit("7");
        reveal_strlit("8");
        reveal_strlit("9");
    }
    let r = match d {
        0 => "0",
        1 => "1",
        2 => "2",
        3 => "3",
        4 => "4",
        5 => "5",
        6 => "6",
        7 => "7",
        8 => "8",
        _ => "9",
    };
    assert(r@ =~= seq![digit(d as int)]);
    r
}

/// A piece of text under construction.
pub struct Text {
    chars: String,
}

impl View for Text {
    type V = Seq<char>;

    closed spec fn view(&self) -> Seq<char> {
        self.chars@
    }
}

impl Text {
    /// Text that begins with `s`.
    pub fn new(s: &str) -> (r: Text)
        ensures
            r@ == s@,
    {
        Text { chars: s.to_owned() }
    }

    /// Appends `s`.
    pub fn s(self, s: &str) -> (r: Text)
        ensures
            r@ == self@ + s@,
    {
        Text { chars: self.chars.concat(s) }
    }

    /// Appends `n` in base ten.
    pub fn n(self, n: u64) -> (r: Text)
        ensures
            r@ == self@ + decimal(n as int),
    {
        let digits = decimal_string(n);
        self.s(digits.as_str())
    }

    /// The finished text.
    pub fn done(self) -> (r: String)
        ensures
            r@ == self@,
    {
        self.chars
    }
}

/// `n` in base ten.
pub fn decimal_string(n: u64) -> (r: String)
    ensures
        r@ == decimal(n as int),
    decreases n,
{
    if n < 10 {
        digit_str(n).to_owned()
    } else {
        let head = decimal_string(n / 10);
        let last = digit_str(n % 10);
        proof {
            assert(decimal(n as int / 10).push(digit(n as int % 10)) =~= decimal(n as int / 10)
                + seq![digit(n as int % 10)]);
        }
        head.concat(last)
    }
}

} // verus!
