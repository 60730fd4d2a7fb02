//! The HTTP request method: a closed tag with exactly nine values, a parser
//! that accepts only the canonical uppercase ASCII token of each tag, and a
//! renderer that returns that token.

use vstd::prelude::*;

verus! {

/// One of the nine HTTP request methods, in their fixed declaration order.
#[derive(Debug, PartialEq, Eq, Structural, Copy, Clone)]
pub enum HttpMethod {
    GET,
    POST,
    PUT,
    DELETE,
    PATCH,
    HEAD,
    OPTIONS,
    CONNECT,
    TRACE,
}

/// The canonical token of a method, as a byte sequence.
pub open spec fn method_bytes(m: HttpMethod) -> Seq<u8> {
    match m {
        HttpMethod::GET => seq!['G' as u8, 'E' as u8, 'T' as u8],
        HttpMethod::POST => seq!['P' as u8, 'O' as u8, 'S' as u8, 'T' as u8],
        HttpMethod::PUT => seq!['P' as u8, 'U' as u8, 'T' as u8],
        HttpMethod::DELETE => seq!['D' as u8, 'E' as u8, 'L' as u8, 'E' as u8, 'T' as u8, 'E' as u8],
        HttpMethod::PATCH => seq!['P' as u8, 'A' as u8, 'T' as u8, 'C' as u8, 'H' as u8],
        HttpMethod::HEAD => seq!['H' as u8, 'E' as u8, 'A' as u8, 'D' as u8],
        HttpMethod::OPTIONS => seq!['O' as u8, 'P' as u8, 'T' as u8, 'I' as u8, 'O' as u8, 'N' as u8, 'S' as u8],
        HttpMethod::CONNECT => seq!['C' as u8, 'O' as u8, 'N' as u8, 'N' as u8, 'E' as u8, 'C' as u8, 'T' as u8],
        HttpMethod::TRACE => seq!['T' as u8, 'R' as u8, 'A' as u8, 'C' as u8, 'E' as u8],
    }
}

/// The canonical token of a method, as a character sequence.
pub open spec fn method_chars(m: HttpMethod) -> Seq<char> {
    match m {
        HttpMethod::GET => seq!['G', 'E', 'T'],
        HttpMethod::POST => seq!['P', 'O', 'S', 'T'],
        HttpMethod::PUT => seq!['P', 'U', 'T'],
        HttpMethod::DELETE => seq!['D', 'E', 'L', 'E', 'T', 'E'],
        HttpMethod::PATCH => seq!['P', 'A', 'T', 'C', 'H'],
        HttpMethod::HEAD => seq!['H', 'E', 'A', 'D'],
        HttpMethod::OPTIONS => seq!['O', 'P', 'T', 'I', 'O', 'N', 'S'],
        HttpMethod::CONNECT => seq!['C', 'O', 'N', 'N', 'E', 'C', 'T'],
        HttpMethod::TRACE => seq!['T', 'R', 'A', 'C', 'E'],
    }
}

/// What parsing a byte sequence yields: the tag whose canonical token the
/// input equals byte for byte, and nothing on any other input.
pub open spec fn parse_method(b: Seq<u8>) -> Option<HttpMethod> {
    if b == method_bytes(HttpMethod::GET) {
        Some(HttpMethod::GET)
    } else if b == method_bytes(HttpMethod::POST) {
        Some(HttpMethod::POST)
    } else if b == method_bytes(HttpMethod::PUT) {
        Some(HttpMethod::PUT)
    } else if b == method_bytes(HttpMethod::DELETE) {
        Some(HttpMethod::DELETE)
    } else if b == method_bytes(HttpMethod::PATCH) {
        Some(HttpMethod::PATCH)
    } else if b == method_bytes(HttpMethod::HEAD) {
        Some(HttpMethod::HEAD)
    } else if b == method_bytes(HttpMethod::OPTIONS) {
        Some(HttpMethod::OPTIONS)
    } else if b == method_bytes(HttpMethod::CONNECT) {
        Some(HttpMethod::CONNECT)
    } else if b == method_bytes(HttpMethod::TRACE) {
        Some(HttpMethod::TRACE)
    } else {
        None
    }
}

impl HttpMethod {
    /// Parses a byte sequence: returns the tag whose canonical token the
    /// input matches exactly, and `None` on every other input.
    pub fn from_bytes(b: &[u8]) -> (r: Option<Self>)
        ensures
            r == parse_method(b@),
    {
        let n = b.len();
        if n == 3 && b[0] == 'G' as u8 && b[1] == 'E' as u8 && b[2] == 'T' as u8 {
            proof {
                assert(b@ =~= method_bytes(HttpMethod::GET));
            }
            Some(HttpMethod::GET)
        } else if n == 4 && b[0] == 'P' as u8 && b[1] == 'O' as u8 && b[2] == 'S' as u8 && b[3] == 'T' as u8 {
            proof {
                assert(b@ =~= method_bytes(HttpMethod::POST));
            }
            Some(HttpMethod::POST)
        } else if n == 3 && b[0] == 'P' as u8 && b[1] == 'U' as u8 && b[2] == 'T' as u8 {
            proof {
                assert(b@ =~= method_bytes(HttpMethod::PUT));
            }
            Some(HttpMethod::PUT)
        } else if n == 6 && b[0] == 'D' as u8 && b[1] == 'E' as u8 && b[2] == 'L' as u8 && b[3] == 'E' as u8
            && b[4] == 'T' as u8 && b[5] == 'E' as u8 {
            proof {
                assert(b@ =~= method_bytes(HttpMethod::DELETE));
            }
            Some(HttpMethod::DELETE)
        } else if n == 5 && b[0] == 'P' as u8 && b[1] == 'A' as u8 && b[2] == 'T' as u8 && b[3] == 'C' as u8
            && b[4] == 'H' as u8 {
            proof {
                assert(b@ =~= method_bytes(HttpMethod::PATCH));
            }
            Some(HttpMethod::PATCH)
        } else if n == 4 && b[0] == 'H' as u8 && b[1] == 'E' as u8 && b[2] == 'A' as u8 && b[3] == 'D' as u8 {
            proof {
                assert(b@ =~= method_bytes(HttpMethod::HEAD));
            }
            Some(HttpMethod::HEAD)
        } else if n == 7 && b[0] == 'O' as u8 && b[1] == 'P' as u8 && b[2] == 'T' as u8 && b[3] == 'I' as u8
            && b[4] == 'O' as u8 && b[5] == 'N' as u8 && b[6] == 'S' as u8 {
            proof {
                assert(b@ =~= method_bytes(HttpMethod::OPTIONS));
            }
            Some(HttpMethod::OPTIONS)
        } else if n == 7 && b[0] == 'C' as u8 && b[1] == 'O' as u8 && b[2] == 'N' as u8 && b[3] == 'N' as u8
            && b[4] == 'E' as u8 && b[5] == 'C' as u8 && b[6] == 'T' as u8 {
            proof {
                assert(b@ =~= method_bytes(HttpMethod::CONNECT));
            }
            Some(HttpMethod::CONNECT)
        } else if n == 5 && b[0] == 'T' as u8 && b[1] == 'R' as u8 && b[2] == 'A' as u8 && b[3] == 'C' as u8
            && b[4] == 'E' as u8 {
            proof {
                assert(b@ =~= method_bytes(HttpMethod::TRACE));
            }
            Some(HttpMethod::TRACE)
        } else {
            proof {
                assert(b@ != method_bytes(HttpMethod::GET));
                assert(b@ != method_bytes(HttpMethod::POST));
                assert(b@ != method_bytes(HttpMethod::PUT));
                assert(b@ != method_bytes(HttpMethod::DELETE));
                assert(b@ != method_bytes(HttpMethod::PATCH));
                assert(b@ != method_bytes(HttpMethod::HEAD));
                assert(b@ != method_bytes(HttpMethod::OPTIONS));
                assert(b@ != method_bytes(HttpMethod::CONNECT));
                assert(b@ != method_bytes(HttpMethod::TRACE));
            }
            None
        }
    }

    /// Renders a method as its canonical token: the one fixed string per tag
    /// that, parsed again, yields the same tag.
    pub fn as_str(&self) -> (r: &'static str)
        ensures
            r@ == method_chars(*self),
    {
        match self {
            HttpMethod::GET => {
                let s = "GET";
                proof {
                    reveal_strlit("GET");
                    assert(s@ =~= method_chars(HttpMethod::GET));
                }
                s
            },
            HttpMethod::POST => {
                let s = "POST";
                proof {
                    reveal_strlit("POST");
                    assert(s@ =~= method_chars(HttpMethod::POST));
                }
                s
            },
            HttpMethod::PUT => {
                let s = "PUT";
                proof {
                    reveal_strlit("PUT");
                    assert(s@ =~= method_chars(HttpMethod::PUT));
                }
                s
            },
            HttpMethod::DELETE => {
                let s = "DELETE";
                proof {
                    reveal_strlit("DELETE");
                    assert(s@ =~= method_chars(HttpMethod::DELETE));
                }
                s
            },
            HttpMethod::PATCH => {
                let s = "PATCH";
                proof {
                    reveal_strlit("PATCH");
                    assert(s@ =~= method_chars(HttpMethod::PATCH));
                }
                s
            },
            HttpMethod::HEAD => {
                let s = "HEAD";
                proof {
                    reveal_strlit("HEAD");
                    assert(s@ =~= method_chars(HttpMethod::HEAD));
                }
                s
            },
            HttpMethod::OPTIONS => {
                let s = "OPTIONS";
                proof {
                    reveal_strlit("OPTIONS");
                    assert(s@ =~= method_chars(HttpMethod::OPTIONS));
                }
                s
            },
            HttpMethod::CONNECT => {
                let s = "CONNECT";
                proof {
                    reveal_strlit("CONNECT");
                    assert(s@ =~= method_chars(HttpMethod::CONNECT));
                }
                s
            },
            HttpMethod::TRACE => {
                let s = "TRACE";
                proof {
                    reveal_strlit("TRACE");
                    assert(s@ =~= method_chars(HttpMethod::TRACE));
                }
                s
            },
        }
    }
}

/// Rendering agrees with the byte model: the canonical character sequence of
/// a method, taken byte by byte, is its canonical byte sequence.
pub proof fn lemma_method_chars_bytes_agree(m: HttpMethod)
    ensures
        method_chars(m).map_values(|c: char| c as u8) == method_bytes(m),
{
    match m {
        HttpMethod::GET => {
            assert(method_chars(m).map_values(|c: char| c as u8) =~= method_bytes(m));
        },
        HttpMethod::POST => {
            assert(method_chars(m).map_values(|c: char| c as u8) =~= method_bytes(m));
        },
        HttpMethod::PUT => {
            assert(method_chars(m).map_values(|c: char| c as u8) =~= method_bytes(m));
        },
        HttpMethod::DELETE => {
            assert(method_chars(m).map_values(|c: char| c as u8) =~= method_bytes(m));
        },
        HttpMethod::PATCH => {
            assert(method_chars(m).map_values(|c: char| c as u8) =~= method_bytes(m));
        },
        HttpMethod::HEAD => {
            assert(method_chars(m).map_values(|c: char| c as u8) =~= method_bytes(m));
        },
        HttpMethod::OPTIONS => {
            assert(method_chars(m).map_values(|c: char| c as u8) =~= method_bytes(m));
        },
        HttpMethod::CONNECT => {
            assert(method_chars(m).map_values(|c: char| c as u8) =~= method_bytes(m));
        },
        HttpMethod::TRACE => {
            assert(method_chars(m).map_values(|c: char| c as u8) =~= method_bytes(m));
        },
    }
}

/// Round-trip law: rendering any method and parsing the rendered bytes
/// yields that method again.
pub proof fn lemma_method_round_trip(m: HttpMethod)
    ensures
        parse_method(method_bytes(m)) == Some(m),
        parse_method(method_chars(m).map_values(|c: char| c as u8)) == Some(m),
{
    lemma_method_chars_bytes_agree(m);
}

/// Exactness law: parsing yields a method only on its exact canonical byte
/// sequence, and yields nothing on a byte sequence that is no method's
/// canonical token.
pub proof fn lemma_method_parse_exact(b: Seq<u8>)
    ensures
        parse_method(b) matches Some(m) ==> b == method_bytes(m),
        (forall|m: HttpMethod| b != method_bytes(m)) ==> parse_method(b) is None,
{
}

/// Stability law: the small-integer encoding of the methods is fixed in
/// declaration order, `GET` numbered 0 through `TRACE` numbered 8.
pub proof fn lemma_method_codes_stable()
    ensures
        HttpMethod::GET as int == 0,
        HttpMethod::POST as int == 1,
        HttpMethod::PUT as int == 2,
        HttpMethod::DELETE as int == 3,
        HttpMethod::PATCH as int == 4,
        HttpMethod::HEAD as int == 5,
        HttpMethod::OPTIONS as int == 6,
        HttpMethod::CONNECT as int == 7,
        HttpMethod::TRACE as int == 8,
{
}

} // verus!
