//! Text utilities the supervisor's contracts are stated over: substring
//! containment (how log lines are matched against markers), decimal
//! rendering of numbers (ports in URLs and addresses), and the service
//! URL and bind-address builders.

use vstd::prelude::*;

verus! {

/// The needle `n` occurs in `h` starting at position `i`.
pub open spec fn is_match_at(h: Seq<char>, n: Seq<char>, i: int) -> bool {
    0 <= i && i + n.len() <= h.len() && h.subrange(i, i + n.len() as int) == n
}

/// Substring containment, case sensitive: the needle occurs somewhere in
/// the haystack.
pub open spec fn contains_seq(h: Seq<char>, n: Seq<char>) -> bool {
    exists|i: int| is_match_at(h, n, i)
}

/// Whether the needle occurs in the haystack as a contiguous substring.
pub fn contains_str(h: &str, n: &str) -> (r: bool)
    ensures
        r == contains_seq(h@, n@),
{
    let hl = h.unicode_len();
    let nl = n.unicode_len();
    if nl > hl {
        assert(forall|i: int| !is_match_at(h@, n@, i));
        return false;
    }
    if nl == 0 {
        proof {
            assert(h@.subrange(0, 0) =~= n@);
            assert(is_match_at(h@, n@, 0));
        }
        return true;
    }
    let mut i: usize = 0;
    loop
        invariant
            1 <= nl <= hl,
            hl == h@.len(),
            nl == n@.len(),
            i <= hl - nl + 1,
            forall|p: int| 0 <= p < i ==> !is_match_at(h@, n@, p),
        decreases hl - nl + 1 - i,
    {
        if i > hl - nl {
            assert forall|p: int| !is_match_at(h@, n@, p) by {
                if p >= i {
                    assert(p + n@.len() > h@.len());
                }
            }
            return false;
        }
        let mut j: usize = 0;
        let mut hit = true;
        while j < nl
            invariant
                nl <= hl,
                hl == h@.len(),
                nl == n@.len(),
                i <= hl - nl,
                j <= nl,
                hit ==> forall|k: int| 0 <= k < j ==> h@[i + k] == n@[k],
                !hit ==> !is_match_at(h@, n@, i as int),
            decreases nl - j,
        {
            if h.get_char(i + j) != n.get_char(j) {
                proof {
                    if is_match_at(h@, n@, i as int) {
                        assert(h@.subrange(i as int, i + n@.len() as int)[j as int] == n@[j as int]);
                    }
                }
                hit = false;
                j = nl;
            } else {
                j = j + 1;
            }
        }
        if hit {
            proof {
                assert(h@.subrange(i as int, i + n@.len() as int) =~= n@);
                assert(is_match_at(h@, n@, i as int));
            }
            return true;
        }
        i = i + 1;
    }
}

/// The character for one decimal digit.
pub open spec fn digit_char(d: int) -> char {
    if d == 0 {
        '0'
    } else if d == 1 {
        '1'
    } else if d == 2 {
        '2'
    } else if d == 3 {
        '3'
    } else if d == 4 {
        '4'
    } else if d == 5 {
        '5'
    } else if d == 6 {
        '6'
    } else if d == 7 {
        '7'
    } else if d == 8 {
        '8'
    } else {
        '9'
    }
}

/// The decimal rendering of a number, most significant digit first, with
/// no leading zeros (a single `'0'` for zero itself).
pub open spec fn dec_rep(n: nat) -> Seq<char>
    decreases n,
{
    if n < 10 {
        seq![digit_char(n as int)]
    } else {
        dec_rep(n / 10) + seq![digit_char((n % 10) as int)]
    }
}

/// One decimal digit as a string slice.
fn digit_str(d: u64) -> (r: &'static str)
    requires
        d < 10,
    ensures
        r@ == seq![digit_char(d as int)],
{
    if d == 0 {
        proof {
            reveal_strlit("0");
        }
        assert("0"@ =~= seq![digit_char(0)]);
        "0"
    } else if d == 1 {
        proof {
            reveal_strlit("1");
        }
        assert("1"@ =~= seq![digit_char(1)]);
        "1"
    } else if d == 2 {
        proof {
            reveal_strlit("2");
        }
        assert("2"@ =~= seq![digit_char(2)]);
        "2"
    } else if d == 3 {
        proof {
            reveal_strlit("3");
        }
        assert("3"@ =~= seq![digit_char(3)]);
        "3"
    } else if d == 4 {
        proof {
            reveal_strlit("4");
        }
        assert("4"@ =~= seq![digit_char(4)]);
        "4"
    } else if d == 5 {
        proof {
            reveal_strlit("5");
        }
        assert("5"@ =~= seq![digit_char(5)]);
        "5"
    } else if d == 6 {
        proof {
            reveal_strlit("6");
        }
        assert("6"@ =~= seq![digit_char(6)]);
        "6"
    } else if d == 7 {
        proof {
            reveal_strlit("7");
        }
        assert("7"@ =~= seq![digit_char(7)]);
        "7"
    } else if d == 8 {
        proof {
            reveal_strlit("8");
        }
        assert("8"@ =~= seq![digit_char(8)]);
        "8"
    } else {
        proof {
            reveal_strlit("9");
        }
        assert("9"@ =~= seq![digit_char(9)]);
        "9"
    }
}

/// Renders a number in decimal.
pub fn u64_to_string(n: u64) -> (r: String)
    ensures
        r@ == dec_rep(n as nat),
    decreases n,
{
    if n < 10 {
        String::from_str(digit_str(n))
    } else {
        let mut s = u64_to_string(n / 10);
        s.append(digit_str(n % 10));
        s
    }
}

/// The characters of the URL the supervisor reports for a service ready on
/// the given port.
pub open spec fn url_chars(port: u16) -> Seq<char> {
    "http://127.0.0.1:"@ + dec_rep(port as nat)
}

/// Builds the loopback service URL for a port.
pub fn service_url(port: u16) -> (r: String)
    ensures
        r@ == url_chars(port),
{
    let mut s = String::from_str("http://127.0.0.1:");
    let digits = u64_to_string(port as u64);
    s.append(digits.as_str());
    s
}

/// The characters of a `host:port` bind address.
pub open spec fn addr_chars(host: Seq<char>, port: u16) -> Seq<char> {
    host + ":"@ + dec_rep(port as nat)
}

/// Builds the `host:port` address a port probe binds to.
pub fn bind_addr(host: &str, port: u16) -> (r: String)
    ensures
        r@ == addr_chars(host@, port),
{
    let mut s = String::from_str(host);
    s.append(":");
    let digits = u64_to_string(port as u64);
    s.append(digits.as_str());
    s
}

/// The base URL begins with the scheme prefix that `host_of` strips.
pub open spec fn has_http_prefix(s: Seq<char>) -> bool {
    s.len() >= 7 && s.subrange(0, 7) == "http://"@
}

/// The host part of a base URL: the URL with a leading `http://` stripped,
/// or the URL unchanged when it has no such prefix.
pub fn host_of(url: &str) -> (r: &str)
    ensures
        has_http_prefix(url@) ==> r@ == url@.skip(7),
        !has_http_prefix(url@) ==> r@ == url@,
{
    proof {
        reveal_strlit("http://");
    }
    let len = url.unicode_len();
    if len >= 7 && url.get_char(0) == 'h' && url.get_char(1) == 't' && url.get_char(2) == 't'
        && url.get_char(3) == 'p' && url.get_char(4) == ':' && url.get_char(5) == '/'
        && url.get_char(6) == '/' {
        proof {
            assert(url@.subrange(0, 7) =~= "http://"@);
        }
        let r = url.substring_char(7, len);
        proof {
            assert(url@.subrange(7, url@.len() as int) =~= url@.skip(7));
        }
        r
    } else {
        proof {
            if has_http_prefix(url@) {
                assert(url@.subrange(0, 7)[0] == "http://"@[0]);
                assert(url@.subrange(0, 7)[1] == "http://"@[1]);
                assert(url@.subrange(0, 7)[2] == "http://"@[2]);
                assert(url@.subrange(0, 7)[3] == "http://"@[3]);
                assert(url@.subrange(0, 7)[4] == "http://"@[4]);
                assert(url@.subrange(0, 7)[5] == "http://"@[5]);
                assert(url@.subrange(0, 7)[6] == "http://"@[6]);
            }
        }
        url
    }
}

} // verus!
