use vstd::prelude::*;

verus! {

/// The decimal digit for `d`, which is below ten.
pub open spec fn digit_char(d: nat) -> char {
    seq!['0', '1', '2', '3', '4', '5', '6', '7', '8', '9'][d as int]
}

/// `n` written in decimal, without leading zeros.
pub open spec fn decimal(n: nat) -> Seq<char>
    decreases n,
{
    if n < 10 {
        seq![digit_char(n)]
    } else {
        decimal(n / 10) + seq![digit_char(n % 10)]
    }
}

/// The text that marks a place in the source: `[<file>:<line>]`.
pub open spec fn location_tag(file: Seq<char>, line: nat) -> Seq<char> {
    "["@ + file + ":"@ + decimal(line) + "]"@
}

fn digit_str(d: u32) -> (r: &'static str)
    requires
        d < 10,
    ensures
        r@ == seq![digit_char(d as nat)],
{
    proof {
        reveal_strlit("0");
        reveal_strlit("1");
        reveal_strlit("2");
        reveal_strlit("3");
        reveal_strlit("4");
        reveal_strlit("5");
        reveal_strlit("6");
        reveal_strlit("7");
        reveal_strlit("8");
        reveal_strlit("9");
    }
    match d {
        0 => "0",
        1 => "1",
        2 => "2",
        3 => "3",
        4 => "4",
        5 => "5",
        6 => "6",
        7 => "7",
        8 => "8",
        _ => "9",
    }
}

/// `n` written in decimal.
pub fn decimal_text(n: u32) -> (r: String)
    ensures
        r@ == decimal(n as nat),
    decreases n,
{
    if n < 10 {
        String::from_str(digit_str(n))
    } else {
        let mut text = decimal_text(n / 10);
        text.append(digit_str(n % 10));
        text
    }
}

/// The text `[<file>:<line>]` that marks a place in the source.
pub fn location_text(file: &str, line: u32) -> (r: String)
    ensures
        r@ == location_tag(file@, line as nat),
{
    let mut text = String::from_str("[");
    text.append(file);
    text.append(":");
    let digits = decimal_text(line);
    text.append(digits.as_str());
    text.append("]");
    text
}

} // verus!
