//! Pidfile contents.
//!
//! A pidfile holds a process id written in decimal, optionally signed, with
//! nothing around it — the form `i32::from_str` reads.  Digits are taken from
//! left to right and the first problem met is the one reported.

use vstd::prelude::*;

verus! {

/// Why a pidfile's contents are not a process id.
#[derive(Clone, Copy, Debug, PartialEq, Eq, Structural)]
pub enum PidParseError {
    /// The contents are empty.
    Empty,
    /// A character is not a decimal digit (or the contents are a lone sign).
    InvalidDigit,
    /// The number is too large for a process id.
    PosOverflow,
    /// The number is too small for a process id.
    NegOverflow,
}

/// A decimal digit.
pub open spec fn is_digit(c: char) -> bool {
    '0' <= c && c <= '9'
}

/// The value of a decimal digit.
pub open spec fn digit_value(c: char) -> int {
    (c as int) - ('0' as int)
}

/// The outcome of reading the first `n` characters of `digits` as a number
/// with the given sign.
pub open spec fn scan_digits(digits: Seq<char>, n: int, negative: bool) -> Result<int, PidParseError>
    decreases n,
{
    if n <= 0 {
        Ok(0)
    } else {
        match scan_digits(digits, n - 1, negative) {
            Err(e) => Err(e),
            Ok(acc) => {
                let c = digits[n - 1];
                if !is_digit(c) {
                    Err(PidParseError::InvalidDigit)
                } else if negative {
                    let v = acc * 10 - digit_value(c);
                    if v < i32::MIN {
                        Err(PidParseError::NegOverflow)
                    } else {
                        Ok(v)
                    }
                } else {
                    let v = acc * 10 + digit_value(c);
                    if v > i32::MAX {
                        Err(PidParseError::PosOverflow)
                    } else {
                        Ok(v)
                    }
                }
            },
        }
    }
}

/// The process id a pidfile holding `s` names.
pub open spec fn pid_of(s: Seq<char>) -> Result<int, PidParseError> {
    if s.len() == 0 {
        Err(PidParseError::Empty)
    } else if (s[0] == '+' || s[0] == '-') && s.len() == 1 {
        Err(PidParseError::InvalidDigit)
    } else if s[0] == '+' {
        scan_digits(s.drop_first(), s.len() - 1, false)
    } else if s[0] == '-' {
        scan_digits(s.drop_first(), s.len() - 1, true)
    } else {
        scan_digits(s, s.len() as int, false)
    }
}

proof fn lemma_scan_bounds(digits: Seq<char>, n: int, negative: bool)
    ensures
        scan_digits(digits, n, negative) matches Ok(v) ==> i32::MIN <= v <= i32::MAX && (negative ==> v
            <= 0) && (!negative ==> v >= 0),
    decreases n,
{
    if n > 0 {
        lemma_scan_bounds(digits, n - 1, negative);
    }
}

/// Reads the process id held in a pidfile's contents.
pub fn parse_pid(contents: &str) -> (r: Result<i32, PidParseError>)
    ensures
        match (r, pid_of(contents@)) {
            (Ok(p), Ok(v)) => p == v,
            (Err(e1), Err(e2)) => e1 == e2,
            _ => false,
        },
{
    let n = contents.unicode_len();
    if n == 0 {
        return Err(PidParseError::Empty);
    }
    let first = contents.get_char(0);
    if (first == '+' || first == '-') && n == 1 {
        return Err(PidParseError::InvalidDigit);
    }
    let negative = first == '-';
    let start: usize = if first == '+' || first == '-' { 1 } else { 0 };
    let ghost digits = if start == 1 { contents@.drop_first() } else { contents@ };
    proof {
        if start == 1 {
            assert forall|j: int| 0 <= j < digits.len() implies digits[j] == contents@[j + start] by {}
        }
    }
    proof {
        assert(contents@[0] == first);
        if start == 0 {
            assert(digits == contents@);
        }
    }
    let mut acc: i32 = 0;
    let mut i: usize = start;
    while i < n
        invariant
            n == contents@.len(),
            start <= i <= n,
            start == 0 || start == 1,
            digits.len() == n - start,
            forall|j: int| 0 <= j < digits.len() ==> digits[j] == contents@[j + start],
            scan_digits(digits, i - start, negative) == Ok::<int, PidParseError>(acc as int),
            negative ==> acc <= 0,
            !negative ==> acc >= 0,
            pid_of(contents@) == scan_digits(digits, digits.len() as int, negative),
        decreases n - i,
    {
        let c = contents.get_char(i);
        proof {
            assert(digits[i - start] == c);
        }
        if !('0' <= c && c <= '9') {
            proof {
                assert(scan_digits(digits, i - start + 1, negative) == Err::<int, PidParseError>(
                    PidParseError::InvalidDigit,
                ));
                lemma_scan_rest_err(digits, (i - start) as int + 1, digits.len() as int, negative);
            }
            return Err(PidParseError::InvalidDigit);
        }
        let d: i64 = (c as u32 - '0' as u32) as i64;
        let v: i64 = if negative { acc as i64 * 10 - d } else { acc as i64 * 10 + d };
        proof {
            assert(digit_value(c) == d);
            assert(scan_digits(digits, i - start + 1, negative) == if negative {
                if v < i32::MIN { Err(PidParseError::NegOverflow) } else { Ok(v as int) }
            } else {
                if v > i32::MAX { Err(PidParseError::PosOverflow) } else { Ok(v as int) }
            });
        }
        if negative && v < i32::MIN as i64 {
            proof {
                assert(scan_digits(digits, i - start + 1, negative) == Err::<int, PidParseError>(
                    PidParseError::NegOverflow,
                ));
                lemma_scan_rest_err(digits, (i - start) as int + 1, digits.len() as int, negative);
            }
            return Err(PidParseError::NegOverflow);
        }
        if !negative && v > i32::MAX as i64 {
            proof {
                assert(scan_digits(digits, i - start + 1, negative) == Err::<int, PidParseError>(
                    PidParseError::PosOverflow,
                ));
                lemma_scan_rest_err(digits, (i - start) as int + 1, digits.len() as int, negative);
            }
            return Err(PidParseError::PosOverflow);
        }
        acc = v as i32;
        i += 1;
    }
    proof {
        assert(i - start == digits.len());
    }
    Ok(acc)
}

/// The decimal digits of `m`, most significant first.
pub open spec fn decimal(m: nat) -> Seq<char>
    decreases m,
{
    if m < 10 {
        seq![digit_char(m)]
    } else {
        decimal(m / 10) + seq![digit_char(m % 10)]
    }
}

/// The digit character for a value below ten.
pub open spec fn digit_char(d: nat) -> char {
    (('0' as nat) + d) as char
}

/// The text a pidfile holds for `pid`: its decimal digits, after a minus sign
/// when it is negative.
pub open spec fn pid_text_of(pid: int) -> Seq<char> {
    if pid < 0 {
        seq!['-'] + decimal((-pid) as nat)
    } else {
        decimal(pid as nat)
    }
}

/// Reading a prefix only looks at that prefix.
proof fn lemma_scan_prefix(a: Seq<char>, b: Seq<char>, n: int, negative: bool)
    requires
        0 <= n <= a.len(),
        n <= b.len(),
        forall|j: int| 0 <= j < n ==> a[j] == b[j],
    ensures
        scan_digits(a, n, negative) == scan_digits(b, n, negative),
    decreases n,
{
    if n > 0 {
        lemma_scan_prefix(a, b, n - 1, negative);
    }
}

/// Reading the decimal digits of `m` gives `m` back, with the sign asked for.
proof fn lemma_scan_decimal(m: nat, negative: bool)
    requires
        negative ==> m <= 0x8000_0000,
        !negative ==> m <= 0x7fff_ffff,
    ensures
        decimal(m).len() >= 1,
        forall|j: int| 0 <= j < decimal(m).len() ==> is_digit(#[trigger] decimal(m)[j]),
        scan_digits(decimal(m), decimal(m).len() as int, negative) == Ok::<int, PidParseError>(
            if negative { -m } else { m as int },
        ),
    decreases m,
{
    if m >= 10 {
        let q = (m / 10) as nat;
        let r = (m % 10) as nat;
        lemma_scan_decimal(q, negative);
        let dq = decimal(q);
        let dm = decimal(m);
        assert(dm == dq + seq![digit_char(r)]);
        assert forall|j: int| 0 <= j < dm.len() implies is_digit(#[trigger] dm[j]) by {
            if j < dq.len() {
                assert(dm[j] == dq[j]);
            }
        }
        lemma_scan_prefix(dm, dq, dq.len() as int, negative);
        assert(digit_value(digit_char(r)) == r);
        assert(q * 10 + r == m);
        assert(dm[dq.len() as int] == digit_char(r));
        assert(scan_digits(dm, dq.len() as int, negative) == Ok::<int, PidParseError>(
            if negative { -q } else { q as int },
        ));
        assert(is_digit(digit_char(r)));
        assert(scan_digits(dm, dm.len() as int, negative) == Ok::<int, PidParseError>(
            if negative { -m } else { m as int },
        ));
    } else {
        assert(digit_value(digit_char(m)) == m);
        assert(decimal(m)[0] == digit_char(m));
        assert(scan_digits(decimal(m), 0, negative) == Ok::<int, PidParseError>(0));
    }
}

/// What a pidfile holds for a process id reads back as that process id.
pub proof fn lemma_pid_text_round_trip(pid: i32)
    ensures
        pid_of(pid_text_of(pid as int)) == Ok::<int, PidParseError>(pid as int),
{
    let s = pid_text_of(pid as int);
    if pid < 0 {
        let m = (-(pid as int)) as nat;
        lemma_scan_decimal(m, true);
        let d = decimal(m);
        assert(s.drop_first() == d);
        assert(s[0] == '-');
    } else {
        lemma_scan_decimal(pid as nat, false);
        assert(s[0] != '+' && s[0] != '-') by {
            assert(is_digit(s[0]));
        }
    }
}

/// The digit character for a value below ten, as text.
fn digit_str(d: u32) -> (s: &'static str)
    requires
        d < 10,
    ensures
        s@ == seq![digit_char(d as nat)],
{
    proof {
        reveal_strlit("0");
        reveal_strlit("1");
        reveal_strlit("2");
        reveal_strlit("3");
        reveal_strlit("4");
        reveal_strlit("5");
        reveal_strlit("6");
        reveal_strlit("7");
        reveal_strlit("8");
        reveal_strlit("9");
    }
    match d {
        0 => "0",
        1 => "1",
        2 => "2",
        3 => "3",
        4 => "4",
        5 => "5",
        6 => "6",
        7 => "7",
        8 => "8",
        _ => "9",
    }
}

/// The decimal digits of `m`.
fn decimal_text(m: u32) -> (s: String)
    ensures
        s@ == decimal(m as nat),
    decreases m,
{
    if m < 10 {
        digit_str(m).to_owned()
    } else {
        decimal_text(m / 10).concat(digit_str(m % 10))
    }
}

/// The text a pidfile holds for `pid`.
pub fn pid_text(pid: i32) -> (s: String)
    ensures
        s@ == pid_text_of(pid as int),
        pid_of(s@) == Ok::<int, PidParseError>(pid as int),
{
    proof {
        lemma_pid_text_round_trip(pid);
    }
    if pid < 0 {
        let m: u32 = (-(pid as i64)) as u32;
        let minus = "-";
        proof {
            reveal_strlit("-");
        }
        minus.to_owned().concat(decimal_text(m).as_str())
    } else {
        decimal_text(pid as u32)
    }
}

/// Once reading a prefix fails, reading any longer prefix fails the same way.
proof fn lemma_scan_rest_err(digits: Seq<char>, k: int, m: int, negative: bool)
    requires
        0 <= k <= m,
        scan_digits(digits, k, negative) is Err,
    ensures
        scan_digits(digits, m, negative) == scan_digits(digits, k, negative),
    decreases m - k,
{
    if m > k {
        lemma_scan_rest_err(digits, k, m - 1, negative);
    }
}

} // verus!
