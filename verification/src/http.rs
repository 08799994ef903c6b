//! Reading an HTTP response's status line, as the readiness probe needs
//! it: the probe sends a HEAD request, reads the first line of the
//! response, and is satisfied exactly when that line carries a success
//! status. The socket work is the caller's; the bytes are judged here.

use vstd::prelude::*;

verus! {

/// An ASCII decimal digit.
pub open spec fn is_digit(b: u8) -> bool {
    0x30 <= b <= 0x39
}

/// Position `i` holds the first space of the line.
pub open spec fn is_first_space(s: Seq<u8>, i: int) -> bool {
    &&& 0 <= i < s.len()
    &&& s[i] == 0x20
    &&& forall|j: int| 0 <= j < i ==> s[j] != 0x20
}

/// The line has the shape of a status line as far as the probe cares:
/// some version token, a space, then a three-digit status code.
pub open spec fn valid_status_line(s: Seq<u8>) -> bool {
    exists|i: int|
        {
            &&& #[trigger] is_first_space(s, i)
            &&& i + 3 < s.len()
            &&& is_digit(s[i + 1])
            &&& is_digit(s[i + 2])
            &&& is_digit(s[i + 3])
        }
}

/// The status code spelled by the three digits after the first space.
pub open spec fn status_code_of(s: Seq<u8>, i: int) -> int {
    100 * (s[i + 1] - 0x30) + 10 * (s[i + 2] - 0x30) + (s[i + 3] - 0x30)
}

/// An HTTP status code that reports success.
pub open spec fn spec_is_success(code: int) -> bool {
    200 <= code < 300
}

/// Parses the status code out of a response's first line: `Some` exactly
/// when the line has a version token, a space and three digits, and then
/// the number those digits spell.
pub fn parse_status_code(line: &Vec<u8>) -> (r: Option<u16>)
    ensures
        r is Some <==> valid_status_line(line@),
        r matches Some(c) ==> forall|i: int|
            is_first_space(line@, i) ==> c == status_code_of(line@, i),
{
    let n = line.len();
    let mut i: usize = 0;
    while i < n && line[i] != 0x20
        invariant
            n == line@.len(),
            i <= n,
            forall|j: int| 0 <= j < i ==> line@[j] != 0x20,
        decreases n - i,
    {
        i = i + 1;
    }
    if i >= n {
        proof {
            assert forall|k: int| !is_first_space(line@, k) by {}
        }
        return None;
    }
    assert(is_first_space(line@, i as int));
    proof {
        assert forall|k: int| is_first_space(line@, k) implies k == i as int by {
            if k < i {
                assert(line@[k] != 0x20);
            } else if k > i {
                assert(line@[i as int] != 0x20);
            }
        }
    }
    if n - i <= 3 {
        return None;
    }
    let d1 = line[i + 1];
    let d2 = line[i + 2];
    let d3 = line[i + 3];
    if d1 < 0x30 || d1 > 0x39 || d2 < 0x30 || d2 > 0x39 || d3 < 0x30 || d3 > 0x39 {
        return None;
    }
    let code: u16 = 100 * ((d1 - 0x30) as u16) + 10 * ((d2 - 0x30) as u16) + ((d3 - 0x30) as u16);
    Some(code)
}

/// Whether a status code reports success.
pub fn is_success_status(code: u16) -> (r: bool)
    ensures
        r == spec_is_success(code as int),
{
    200 <= code && code < 300
}

/// Judges a response's first line for the readiness probe: true exactly
/// when it is a status line carrying a success status.
pub fn probe_response_ok(line: &Vec<u8>) -> (r: bool)
    ensures
        r <==> valid_status_line(line@) && (forall|i: int|
            is_first_space(line@, i) ==> spec_is_success(status_code_of(line@, i))),
{
    match parse_status_code(line) {
        Some(code) => {
            let ok = is_success_status(code);
            proof {
                if valid_status_line(line@) {
                    let w = choose|i: int|
                        {
                            &&& #[trigger] is_first_space(line@, i)
                            &&& i + 3 < line@.len()
                            &&& is_digit(line@[i + 1])
                            &&& is_digit(line@[i + 2])
                            &&& is_digit(line@[i + 3])
                        };
                    assert(is_first_space(line@, w));
                }
            }
            ok
        },
        None => false,
    }
}

} // verus!
