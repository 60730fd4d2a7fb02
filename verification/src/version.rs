//! The HTTP protocol version: a closed tag with exactly three values, a
//! parser that accepts only the canonical ASCII token of each tag, and a
//! renderer that returns that token.

use vstd::prelude::*;

verus! {

/// One of the three HTTP protocol versions, in their fixed declaration order.
#[derive(Debug, PartialEq, Eq, Structural, Copy, Clone)]
pub enum HttpVersion {
    Http10,
    Http11,
    Http20,
}

/// The canonical token of a version, as a byte sequence.
pub open spec fn version_bytes(v: HttpVersion) -> Seq<u8> {
    match v {
        HttpVersion::Http10 => seq![
            'H' as u8, 'T' as u8, 'T' as u8, 'P' as u8, '/' as u8, '1' as u8, '.' as u8, '0' as u8,
        ],
        HttpVersion::Http11 => seq![
            'H' as u8, 'T' as u8, 'T' as u8, 'P' as u8, '/' as u8, '1' as u8, '.' as u8, '1' as u8,
        ],
        HttpVersion::Http20 => seq![
            'H' as u8, 'T' as u8, 'T' as u8, 'P' as u8, '/' as u8, '2' as u8, '.' as u8, '0' as u8,
        ],
    }
}

/// The canonical token of a version, as a character sequence.
pub open spec fn version_chars(v: HttpVersion) -> Seq<char> {
    match v {
        HttpVersion::Http10 => seq!['H', 'T', 'T', 'P', '/', '1', '.', '0'],
        HttpVersion::Http11 => seq!['H', 'T', 'T', 'P', '/', '1', '.', '1'],
        HttpVersion::Http20 => seq!['H', 'T', 'T', 'P', '/', '2', '.', '0'],
    }
}

/// What parsing a byte sequence yields: the tag whose canonical token the
/// input equals byte for byte, and nothing on any other input.
pub open spec fn parse_version(b: Seq<u8>) -> Option<HttpVersion> {
    if b == version_bytes(HttpVersion::Http10) {
        Some(HttpVersion::Http10)
    } else if b == version_bytes(HttpVersion::Http11) {
        Some(HttpVersion::Http11)
    } else if b == version_bytes(HttpVersion::Http20) {
        Some(HttpVersion::Http20)
    } else {
        None
    }
}

impl HttpVersion {
    /// Parses a byte sequence: returns the tag whose canonical token the
    /// input matches exactly, and `None` on every other input.
    pub fn from_bytes(b: &[u8]) -> (r: Option<Self>)
        ensures
            r == parse_version(b@),
    {
        let n = b.len();
        if n == 8 && b[0] == 'H' as u8 && b[1] == 'T' as u8 && b[2] == 'T' as u8 && b[3] == 'P' as u8
            && b[4] == '/' as u8 && b[6] == '.' as u8 {
            if b[5] == '1' as u8 && b[7] == '0' as u8 {
                proof {
                    assert(b@ =~= version_bytes(HttpVersion::Http10));
                }
                Some(HttpVersion::Http10)
            } else if b[5] == '1' as u8 && b[7] == '1' as u8 {
                proof {
                    assert(b@ =~= version_bytes(HttpVersion::Http11));
                }
                Some(HttpVersion::Http11)
            } else if b[5] == '2' as u8 && b[7] == '0' as u8 {
                proof {
                    assert(b@ =~= version_bytes(HttpVersion::Http20));
                }
                Some(HttpVersion::Http20)
            } else {
                proof {
                    assert(b@ != version_bytes(HttpVersion::Http10));
                    assert(b@ != version_bytes(HttpVersion::Http11));
                    assert(b@ != version_bytes(HttpVersion::Http20));
                }
                None
            }
        } else {
            proof {
                assert(b@ != version_bytes(HttpVersion::Http10));
                assert(b@ != version_bytes(HttpVersion::Http11));
                assert(b@ != version_bytes(HttpVersion::Http20));
            }
            None
        }
    }

    /// Renders a version as its canonical token: the one fixed string per
    /// tag that, parsed again, yields the same tag.
    pub fn as_str(&self) -> (r: &'static str)
        ensures
            r@ == version_chars(*self),
    {
        match self {
            HttpVersion::Http10 => {
                let s = "HTTP/1.0";
                proof {
                    reveal_strlit("HTTP/1.0");
                    assert(s@ =~= version_chars(HttpVersion::Http10));
                }
                s
            },
            HttpVersion::Http11 => {
                let s = "HTTP/1.1";
                proof {
                    reveal_strlit("HTTP/1.1");
                    assert(s@ =~= version_chars(HttpVersion::Http11));
                }
                s
            },
            HttpVersion::Http20 => {
                let s = "HTTP/2.0";
                proof {
                    reveal_strlit("HTTP/2.0");
                    assert(s@ =~= version_chars(HttpVersion::Http20));
                }
                s
            },
        }
    }
}

/// Rendering agrees with the byte model: the canonical character sequence of
/// a version, taken byte by byte, is its canonical byte sequence.
pub proof fn lemma_version_chars_bytes_agree(v: HttpVersion)
    ensures
        version_chars(v).map_values(|c: char| c as u8) == version_bytes(v),
{
    match v {
        HttpVersion::Http10 => {
            assert(version_chars(v).map_values(|c: char| c as u8) =~= version_bytes(v));
        },
        HttpVersion::Http11 => {
            assert(version_chars(v).map_values(|c: char| c as u8) =~= version_bytes(v));
        },
        HttpVersion::Http20 => {
            assert(version_chars(v).map_values(|c: char| c as u8) =~= version_bytes(v));
        },
    }
}

/// Round-trip law: rendering any version and parsing the rendered bytes
/// yields that version again.
pub proof fn lemma_version_round_trip(v: HttpVersion)
    ensures
        parse_version(version_bytes(v)) == Some(v),
        parse_version(version_chars(v).map_values(|c: char| c as u8)) == Some(v),
{
    lemma_version_chars_bytes_agree(v);
}

/// Exactness law: parsing yields a version only on its exact canonical byte
/// sequence, and yields nothing on a byte sequence that is no version's
/// canonical token.
pub proof fn lemma_version_parse_exact(b: Seq<u8>)
    ensures
        parse_version(b) matches Some(v) ==> b == version_bytes(v),
        (forall|v: HttpVersion| b != version_bytes(v)) ==> parse_version(b) is None,
{
}

/// Stability law: the small-integer encoding of the versions is fixed in
/// declaration order, `Http10` numbered 0 through `Http20` numbered 2.
pub proof fn lemma_version_codes_stable()
    ensures
        HttpVersion::Http10 as int == 0,
        HttpVersion::Http11 as int == 1,
        HttpVersion::Http20 as int == 2,
{
}

} // verus!
