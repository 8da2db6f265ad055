//! Stateless greeting handlers.

use vstd::prelude::*;
use vstd::string::*;

verus! {

/// The character that stands for one decimal digit.
pub open spec fn digit_char(d: nat) -> char {
    if d == 0 {
        '0'
    } else if d == 1 {
        '1'
    } else if d == 2 {
        '2'
    } else if d == 3 {
        '3'
    } else if d == 4 {
        '4'
    } else if d == 5 {
        '5'
    } else if d == 6 {
        '6'
    } else if d == 7 {
        '7'
    } else if d == 8 {
        '8'
    } else {
        '9'
    }
}

/// The decimal numeral of `n`: most significant digit first, no sign and no
/// leading zero, and `"0"` for zero.
pub open spec fn decimal(n: nat) -> Seq<char>
    decreases n,
{
    if n < 10 {
        seq![digit_char(n)]
    } else {
        decimal(n / 10).push(digit_char(n % 10))
    }
}

/// The body of the greeting for `name`.
pub open spec fn greeting(name: Seq<char>) -> Seq<char> {
    "Hello, "@ + name + "!"@
}

/// The body that confirms a wait of `seconds` seconds.
pub open spec fn waited(seconds: nat) -> Seq<char> {
    "Waited for "@ + decimal(seconds) + " seconds"@
}

/// What the delay endpoint asks of its caller: suspend the request for
/// `seconds` seconds, then answer with `body`.
#[derive(Debug, PartialEq, Eq)]
pub struct Delay {
    pub seconds: u64,
    pub body: String,
}

fn digit_str(d: u64) -> (s: &'static str)
    requires
        d < 10,
    ensures
        s@ == seq![digit_char(d as nat)],
{
    proof {
        reveal_strlit("0");
        reveal_strlit("1");
        reveal_strlit("2");
        reveal_strlit("3");
        reveal_strlit("4");
        reveal_strlit("5");
        reveal_strlit("6");
        reveal_strlit("7");
        reveal_strlit("8");
        reveal_strlit("9");
    }
    if d == 0 {
        "0"
    } else if d == 1 {
        "1"
    } else if d == 2 {
        "2"
    } else if d == 3 {
        "3"
    } else if d == 4 {
        "4"
    } else if d == 5 {
        "5"
    } else if d == 6 {
        "6"
    } else if d == 7 {
        "7"
    } else if d == 8 {
        "8"
    } else {
        "9"
    }
}

/// Appends the decimal numeral of `n` to `out`.
pub fn push_decimal(out: &mut String, n: u64)
    ensures
        final(out)@ == old(out)@ + decimal(n as nat),
    decreases n,
{
    if n >= 10 {
        push_decimal(out, n / 10);
    }
    out.append(digit_str(n % 10));
}

/// The static greeting.
pub fn index() -> (body: &'static str)
    ensures
        body@ == "Hello, world!"@,
{
    "Hello, world!"
}

/// Greets `name`, which is taken verbatim.
pub fn hello(name: &str) -> (body: String)
    ensures
        body@ == greeting(name@),
{
    let mut body = String::from_str("Hello, ");
    body.append(name);
    body.append("!");
    body
}

/// Plans the answer of the delay endpoint: a wait of exactly `seconds`
/// seconds, and the body that confirms it.
pub fn delay(seconds: u64) -> (plan: Delay)
    ensures
        plan.seconds == seconds,
        plan.body@ == waited(seconds as nat),
{
    let mut body = String::from_str("Waited for ");
    push_decimal(&mut body, seconds);
    body.append(" seconds");
    Delay { seconds, body }
}

} // verus!
