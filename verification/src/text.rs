//! Text that the daemon hands to the guest: numbers in decimal, and paths
//! below a directory.

use vstd::prelude::*;
use vstd::string::StringExecFns;

verus! {

/// The character for the digit `d`.
pub open spec fn digit_char(d: nat) -> char {
    if d == 0 {
        '0'
    } else if d == 1 {
        '1'
    } else if d == 2 {
        '2'
    } else if d == 3 {
        '3'
    } else if d == 4 {
        '4'
    } else if d == 5 {
        '5'
    } else if d == 6 {
        '6'
    } else if d == 7 {
        '7'
    } else if d == 8 {
        '8'
    } else {
        '9'
    }
}

/// The digits of `n` in decimal, most significant first, without leading
/// zeros; zero is the one digit `0`.
pub open spec fn decimal_digits(n: nat) -> Seq<char>
    decreases n,
{
    if n < 10 {
        seq![digit_char(n)]
    } else {
        decimal_digits(n / 10).push(digit_char(n % 10))
    }
}

/// `v` in decimal, with a minus sign in front where it is negative.
pub open spec fn decimal_text(v: int) -> Seq<char> {
    if v < 0 {
        seq!['-'] + decimal_digits((-v) as nat)
    } else {
        decimal_digits(v as nat)
    }
}

/// The text of the digit `d`.
fn digit_str(d: u32) -> (s: &'static str)
    requires
        d < 10,
    ensures
        s@ == seq![digit_char(d as nat)],
{
    proof {
        reveal_strlit("0");
        reveal_strlit("1");
        reveal_strlit("2");
        reveal_strlit("3");
        reveal_strlit("4");
        reveal_strlit("5");
        reveal_strlit("6");
        reveal_strlit("7");
        reveal_strlit("8");
        reveal_strlit("9");
    }
    if d == 0 {
        "0"
    } else if d == 1 {
        "1"
    } else if d == 2 {
        "2"
    } else if d == 3 {
        "3"
    } else if d == 4 {
        "4"
    } else if d == 5 {
        "5"
    } else if d == 6 {
        "6"
    } else if d == 7 {
        "7"
    } else if d == 8 {
        "8"
    } else {
        "9"
    }
}

/// `n` in decimal.
pub fn unsigned_decimal(n: u32) -> (s: String)
    ensures
        s@ == decimal_digits(n as nat),
    decreases n,
{
    if n < 10 {
        String::from_str(digit_str(n))
    } else {
        unsigned_decimal(n / 10).concat(digit_str(n % 10))
    }
}

/// `v` in decimal.
pub fn decimal(v: i32) -> (s: String)
    ensures
        s@ == decimal_text(v as int),
{
    if v < 0 {
        proof {
            reveal_strlit("-");
        }
        let magnitude = (-(v as i64)) as u32;
        String::from_str("-").concat(unsigned_decimal(magnitude).as_str())
    } else {
        unsigned_decimal(v as u32)
    }
}

/// The path of `name` below `dir`.
pub open spec fn below(dir: Seq<char>, name: Seq<char>) -> Seq<char> {
    dir + seq!['/'] + name
}

/// The path of `name` below `dir`.
pub fn path_below(dir: &str, name: &str) -> (p: String)
    ensures
        p@ == below(dir@, name@),
{
    proof {
        reveal_strlit("/");
    }
    String::from_str(dir).concat("/").concat(name)
}

} // verus!
