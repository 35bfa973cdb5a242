//! Port selection: a manually pinned port or a freshly allocated one.

use vstd::prelude::*;

verus! {

/// Whether `c` is an ASCII decimal digit.
pub open spec fn is_digit(c: char) -> bool {
    '0' <= c && c <= '9'
}

/// The numeric value of a decimal digit.
pub open spec fn digit_value(c: char) -> nat {
    (c as int - '0' as int) as nat
}

/// The value of a string of decimal digits, most significant first.
pub open spec fn digits_value(s: Seq<char>) -> nat
    decreases s.len(),
{
    if s.len() == 0 {
        0
    } else {
        digits_value(s.drop_last()) * 10 + digit_value(s.last())
    }
}

/// The digits of a port string once an optional leading `+` is removed.
pub open spec fn unsigned_digits(s: Seq<char>) -> Seq<char> {
    if s.len() > 0 && s[0] == '+' {
        s.drop_first()
    } else {
        s
    }
}

/// What a textual port override denotes: a non-empty run of decimal digits,
/// optionally preceded by `+`, whose value fits in 16 bits.
pub open spec fn port_of(s: Seq<char>) -> Option<u16> {
    let d = unsigned_digits(s);
    if d.len() > 0 && (forall|i: int| 0 <= i < d.len() ==> is_digit(#[trigger] d[i]))
        && digits_value(d) <= 65535 {
        Some(digits_value(d) as u16)
    } else {
        None
    }
}

/// Parses a port override the way `u16::from_str` does.
pub fn parse_port(s: &str) -> (r: Option<u16>)
    ensures
        r == port_of(s@),
{
    let n = s.unicode_len();
    let mut start: usize = 0;
    if n > 0 && s.get_char(0) == '+' {
        start = 1;
    }
    let ghost d = unsigned_digits(s@);
    assert(d =~= s@.subrange(start as int, n as int));
    if start == n {
        return None;
    }
    let mut val: u32 = 0;
    let mut i: usize = start;
    while i < n
        invariant
            start <= i <= n,
            n == s@.len(),
            d == unsigned_digits(s@),
            d =~= s@.subrange(start as int, n as int),
            forall|j: int| 0 <= j < i - start ==> is_digit(#[trigger] d[j]),
            val <= 65536,
            val as nat == if digits_value(d.subrange(0, i - start)) <= 65535 {
                digits_value(d.subrange(0, i - start))
            } else {
                65536
            },
        decreases n - i,
    {
        let c = s.get_char(i);
        if !('0' <= c && c <= '9') {
            assert(d[i - start] == c);
            assert(!is_digit(d[(i - start) as int]));
            return None;
        }
        let ghost prev = d.subrange(0, i - start);
        let ghost next = d.subrange(0, i + 1 - start);
        assert(next.drop_last() =~= prev);
        assert(next.last() == c);
        let dv: u32 = (c as u32) - ('0' as u32);
        if val > 65535 {
            assert(digits_value(next) > 65535) by (nonlinear_arith)
                requires
                    digits_value(next) == digits_value(prev) * 10 + digit_value(c),
                    digits_value(prev) > 65535,
            ;
        } else {
            val = val * 10 + dv;
            if val > 65535 {
                val = 65536;
            }
        }
        i = i + 1;
    }
    assert(d.subrange(0, n - start) =~= d);
    if val > 65535 {
        None
    } else {
        Some(val as u16)
    }
}

} // verus!

verus! {

/// Relies on portpicker::pick_unused_port: a port that was free on both TCP
/// and UDP when it was tried, or `None`; which one depends on the machine.
#[verifier::external_body]
pub(crate) fn pick_unused_port() -> (r: Option<u16>) {
    portpicker::pick_unused_port()
}

/// The port that an optional manual override pins, if it is present and valid.
pub open spec fn manual_port_of(manual: Option<String>) -> Option<u16> {
    match manual {
        Some(s) => port_of(s@),
        None => None,
    }
}

/// Reads a manual port override; absent or invalid text pins nothing.
pub fn manual_port(manual: &Option<String>) -> (r: Option<u16>)
    ensures
        r == manual_port_of(*manual),
{
    match manual {
        Some(s) => parse_port(s.as_str()),
        None => None,
    }
}

} // verus!
