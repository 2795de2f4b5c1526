//! The ways a scaffolding request can fail, and the exact message text each
//! failure carries to the caller.

use vstd::prelude::*;

verus! {

/// How a request to the dispatcher can fail.
#[derive(Debug)]
pub enum ErrorKind {
    /// The requested framework tag is not in the supported set.
    UnsupportedFramework,
    /// The operating system could not start the shell process; carries the OS
    /// error text.
    SpawnError(String),
    /// The shell process ran but exited with a non-zero status; carries the
    /// exit code when the OS reported one.
    CommandFailed(Option<i32>),
}

/// The character for a single decimal digit.
pub open spec fn digit_char(d: nat) -> char {
    if d == 0 {
        '0'
    } else if d == 1 {
        '1'
    } else if d == 2 {
        '2'
    } else if d == 3 {
        '3'
    } else if d == 4 {
        '4'
    } else if d == 5 {
        '5'
    } else if d == 6 {
        '6'
    } else if d == 7 {
        '7'
    } else if d == 8 {
        '8'
    } else {
        '9'
    }
}

/// The decimal representation of a natural number, most significant digit
/// first, with no leading zeros (except for the number zero itself).
pub open spec fn decimal_rep(n: nat) -> Seq<char>
    decreases n,
{
    if n < 10 {
        seq![digit_char(n)]
    } else {
        decimal_rep(n / 10).push(digit_char(n % 10))
    }
}

/// The decimal representation of an integer: a minus sign before the digits
/// when it is negative.
pub open spec fn signed_decimal(i: int) -> Seq<char> {
    if i < 0 {
        seq!['-'] + decimal_rep((-i) as nat)
    } else {
        decimal_rep(i as nat)
    }
}

/// A one-character string holding the given decimal digit.
fn digit_string(d: u64) -> (r: String)
    requires
        d < 10,
    ensures
        r@ == seq![digit_char(d as nat)],
{
    let r: String = if d == 0 {
        String::from_str("0")
    } else if d == 1 {
        String::from_str("1")
    } else if d == 2 {
        String::from_str("2")
    } else if d == 3 {
        String::from_str("3")
    } else if d == 4 {
        String::from_str("4")
    } else if d == 5 {
        String::from_str("5")
    } else if d == 6 {
        String::from_str("6")
    } else if d == 7 {
        String::from_str("7")
    } else if d == 8 {
        String::from_str("8")
    } else {
        String::from_str("9")
    };
    proof {
        reveal_strlit("0");
        reveal_strlit("1");
        reveal_strlit("2");
        reveal_strlit("3");
        reveal_strlit("4");
        reveal_strlit("5");
        reveal_strlit("6");
        reveal_strlit("7");
        reveal_strlit("8");
        reveal_strlit("9");
        assert(r@ =~= seq![digit_char(d as nat)]);
    }
    r
}

/// Appends the decimal digits of `n` to `s`.
fn push_decimal(s: &mut String, n: u64)
    ensures
        final(s)@ == old(s)@ + decimal_rep(n as nat),
    decreases n,
{
    if n >= 10 {
        push_decimal(s, n / 10);
    }
    let d: String = digit_string(n % 10);
    s.append(d.as_str());
    proof {
        assert(s@ =~= old(s)@ + decimal_rep(n as nat));
    }
}

/// The decimal digits of `i`, with a leading minus sign when it is negative.
pub fn signed_decimal_string(i: i32) -> (r: String)
    ensures
        r@ == signed_decimal(i as int),
{
    let wide: i64 = i as i64;
    if wide < 0 {
        let mut s: String = String::from_str("-");
        let mag: u64 = (-wide) as u64;
        push_decimal(&mut s, mag);
        proof {
            reveal_strlit("-");
            assert(s@ =~= signed_decimal(i as int));
        }
        s
    } else {
        let mut s: String = String::new();
        push_decimal(&mut s, wide as u64);
        proof {
            assert(s@ =~= signed_decimal(i as int));
        }
        s
    }
}

impl ErrorKind {
    /// The message text for this error, as the caller sees it.
    pub open spec fn message_spec(self) -> Seq<char> {
        match self {
            ErrorKind::UnsupportedFramework => "Framework not supported"@,
            ErrorKind::SpawnError(e) => e@,
            ErrorKind::CommandFailed(code) => match code {
                Some(c) => "Command failed with status: "@ + signed_decimal(c as int),
                None => "Command failed with status: unknown"@,
            },
        }
    }

    /// Renders the message text for this error.
    pub fn message(&self) -> (r: String)
        ensures
            r@ == self.message_spec(),
    {
        match self {
            ErrorKind::UnsupportedFramework => String::from_str("Framework not supported"),
            ErrorKind::SpawnError(e) => e.clone(),
            ErrorKind::CommandFailed(code) => match code {
                Some(c) => {
                    let mut s: String = String::from_str("Command failed with status: ");
                    let digits: String = signed_decimal_string(*c);
                    s.append(digits.as_str());
                    s
                },
                None => String::from_str("Command failed with status: unknown"),
            },
        }
    }
}

} // verus!
