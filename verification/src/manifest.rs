//! The release manifest: plain text, one entry per line, each line
//! `<hex-hash>  <filename>` with a two-space separator. Lookup finds the line
//! whose filename field equals the resolved asset filename exactly and
//! decodes its hash token.

use crate::chars::all_hex_digits;
use crate::chars::chars_eq_at;
use crate::chars::hex_byte;
use crate::chars::hex_decode;
use crate::chars::hex_digit_value;
use crate::chars::hex_val;
use crate::chars::is_hex_digit;
use crate::chars::str_chars;
use crate::errors::AcquisitionError;
use vstd::prelude::*;

verus! {

/// Index of the first newline in `s`, or `s.len()` when there is none.
pub open spec fn line_end(s: Seq<char>) -> int
    decreases s.len(),
{
    if s.len() == 0 {
        0
    } else if s[0] == '\n' {
        0
    } else {
        1 + line_end(s.skip(1))
    }
}

pub proof fn lemma_line_end_le(s: Seq<char>)
    ensures
        0 <= line_end(s) <= s.len(),
    decreases s.len(),
{
    if s.len() == 0 {
    } else if s[0] == '\n' {
    } else {
        lemma_line_end_le(s.skip(1));
    }
}

/// `line_end` agrees with a left-to-right scan: if no newline stands before
/// `k` and a newline (or the end) stands at `k`, then `line_end` is `k`.
pub proof fn lemma_line_end_scan(s: Seq<char>, k: int)
    requires
        0 <= k <= s.len(),
        forall|j: int| 0 <= j < k ==> s[j] != '\n',
        k == s.len() || s[k] == '\n',
    ensures
        line_end(s) == k,
    decreases k,
{
    if s.len() == 0 {
    } else if s[0] == '\n' {
        assert(k == 0);
    } else {
        assert(k >= 1) by {
            if k == 0 {
                assert(s[0] == '\n');
            }
        }
        let t = s.skip(1);
        assert forall|j: int| 0 <= j < k - 1 implies t[j] != '\n' by {
            assert(t[j] == s[j + 1]);
        }
        if k < s.len() {
            assert(t[k - 1] == s[k]);
        }
        lemma_line_end_scan(t, k - 1);
    }
}

/// A manifest line holding `filename`: long enough for the two-space
/// separator, the separator in place, and the filename field equal to
/// `filename` exactly.
pub open spec fn line_matches(line: Seq<char>, filename: Seq<char>) -> bool {
    let sep = line.len() - filename.len() - 2;
    &&& line.len() >= filename.len() + 2
    &&& line[sep] == ' '
    &&& line[sep + 1] == ' '
    &&& line.skip(sep + 2) == filename
}

/// The hash token of a matching line: everything before the separator.
pub open spec fn line_hash_token(line: Seq<char>, filename: Seq<char>) -> Seq<char> {
    line.take(line.len() - filename.len() - 2)
}

/// A usable hash token: exactly 64 hexadecimal digits.
pub open spec fn valid_hash_token(tok: Seq<char>) -> bool {
    tok.len() == 64 && all_hex_digits(tok)
}

/// Manifest lookup: the digest decoded from the first line whose filename
/// field equals `filename` exactly; `None` when no line matches, or when the
/// first matching line carries a malformed hash token.
pub open spec fn manifest_lookup_spec(s: Seq<char>, filename: Seq<char>) -> Option<Seq<u8>>
    decreases s.len(),
{
    let e = line_end(s);
    let line = s.take(e);
    if line_matches(line, filename) {
        if valid_hash_token(line_hash_token(line, filename)) {
            Some(hex_decode(line_hash_token(line, filename)))
        } else {
            None
        }
    } else if e >= s.len() {
        None
    } else {
        proof {
            lemma_line_end_le(s);
        }
        manifest_lookup_spec(s.skip(e + 1), filename)
    }
}

/// Reads the expected content hash for `filename` out of manifest text.
/// Returns the 32-byte digest of the first matching entry; any failure —
/// no matching line, or a malformed hash on the matching line — is
/// `ManifestLookupFailed`.
pub fn lookup_expected_hash(manifest: &str, filename: &str) -> (r: Result<
    Vec<u8>,
    AcquisitionError,
>)
    ensures
        match r {
            Ok(d) => manifest_lookup_spec(manifest@, filename@) == Some(d@),
            Err(e) => e == AcquisitionError::ManifestLookupFailed && manifest_lookup_spec(
                manifest@,
                filename@,
            ) is None,
        },
{
    let m = str_chars(manifest);
    let f = str_chars(filename);
    let mlen = m.len();
    let flen = f.len();
    let mut pos: usize = 0;
    proof {
        assert(m@.skip(0) =~= m@);
    }
    loop
        invariant
            pos <= mlen,
            mlen == m@.len(),
            flen == f@.len(),
            m@ == manifest@,
            f@ == filename@,
            manifest_lookup_spec(manifest@, filename@) == manifest_lookup_spec(
                m@.skip(pos as int),
                f@,
            ),
        decreases mlen - pos,
    {
        let ghost suffix = m@.skip(pos as int);
        let mut e: usize = pos;
        while e < mlen && m[e] != '\n'
            invariant
                pos <= e <= mlen,
                mlen == m@.len(),
                forall|j: int| pos <= j < e ==> m@[j] != '\n',
            decreases mlen - e,
        {
            e += 1;
        }
        proof {
            assert forall|j: int| 0 <= j < e - pos implies suffix[j] != '\n' by {
                assert(suffix[j] == m@[pos + j]);
            }
            if e < mlen {
                assert(suffix[e - pos] == m@[e as int]);
            }
            lemma_line_end_scan(suffix, e - pos);
        }
        let line_len = e - pos;
        let ghost line = suffix.take(line_len as int);
        proof {
            assert forall|j: int| 0 <= j < line_len implies line[j] == m@[pos + j] by {
                assert(suffix[j] == m@[pos + j]);
            }
        }
        let matched = if line_len >= 2 && line_len - 2 >= flen {
            let sep = pos + line_len - flen - 2;
            if m[sep] == ' ' && m[sep + 1] == ' ' && chars_eq_at(&m, sep + 2, &f) {
                proof {
                    let ghost lsep = line_len - flen - 2;
                    assert(line[lsep] == m@[sep as int]);
                    assert(line[lsep + 1] == m@[sep as int + 1]);
                    assert(line.skip(lsep + 2) =~= m@.subrange(
                        sep as int + 2,
                        sep as int + 2 + flen as int,
                    ));
                    assert(line_matches(line, f@));
                }
                true
            } else {
                proof {
                    let ghost lsep = line_len - flen - 2;
                    assert(line[lsep] == m@[sep as int]);
                    assert(line[lsep + 1] == m@[sep as int + 1]);
                    if m@[sep as int] == ' ' && m@[sep as int + 1] == ' ' {
                        assert(line.skip(lsep + 2) =~= m@.subrange(
                            sep as int + 2,
                            sep as int + 2 + flen as int,
                        ));
                    }
                    assert(!line_matches(line, f@));
                }
                false
            }
        } else {
            proof {
                assert(!line_matches(line, f@));
            }
            false
        };
        if matched {
            let ghost tok = line_hash_token(line, f@);
            let tok_len = line_len - flen - 2;
            proof {
                assert(tok.len() == tok_len);
                assert forall|j: int| 0 <= j < tok_len implies tok[j] == m@[pos + j] by {
                    assert(tok[j] == line[j]);
                }
            }
            if tok_len != 64 {
                proof {
                    assert(!valid_hash_token(tok));
                    assert(manifest_lookup_spec(suffix, f@) is None);
                }
                return Err(AcquisitionError::ManifestLookupFailed);
            }
            let mut d: Vec<u8> = Vec::new();
            let mut i: usize = 0;
            while i < 32
                invariant
                    i <= 32,
                    pos + 64 <= mlen,
                    mlen == m@.len(),
                    f@ == filename@,
                    suffix == m@.skip(pos as int),
                    line == suffix.take(line_end(suffix)),
                    line_matches(line, f@),
                    tok == line_hash_token(line, f@),
                    manifest_lookup_spec(manifest@, filename@) == manifest_lookup_spec(suffix, f@),
                    tok.len() == 64,
                    forall|j: int| 0 <= j < 64 ==> tok[j] == m@[pos + j],
                    d@.len() == i,
                    forall|k: int|
                        0 <= k < i ==> #[trigger] d@[k] == hex_byte(tok[2 * k], tok[2 * k + 1]),
                    forall|k: int|
                        0 <= k < i ==> is_hex_digit(#[trigger] tok[2 * k]) && is_hex_digit(
                            tok[2 * k + 1],
                        ),
                decreases 32 - i,
            {
                let hi = hex_digit_value(m[pos + 2 * i]);
                let lo = hex_digit_value(m[pos + 2 * i + 1]);
                match (hi, lo) {
                    (Some(h), Some(l)) => {
                        proof {
                            assert(is_hex_digit(tok[2 * (i as int)]));
                            assert(h == hex_val(tok[2 * (i as int)]));
                            assert(l == hex_val(tok[2 * (i as int) + 1]));
                            assert(h <= 15 && l <= 15);
                        }
                        d.push(h * 16 + l);
                    },
                    _ => {
                        proof {
                            let ghost bad: int = if hi is None {
                                2 * (i as int)
                            } else {
                                2 * (i as int) + 1
                            };
                            assert(!is_hex_digit(tok[bad]));
                            assert(!all_hex_digits(tok));
                            assert(!valid_hash_token(tok));
                            assert(manifest_lookup_spec(suffix, f@) is None);
                        }
                        return Err(AcquisitionError::ManifestLookupFailed);
                    },
                }
                i += 1;
            }
            proof {
                assert forall|j: int| 0 <= j < 64 implies is_hex_digit(#[trigger] tok[j]) by {
                    let k = j / 2;
                    assert(j == 2 * k || j == 2 * k + 1);
                    assert(is_hex_digit(tok[2 * k]) && is_hex_digit(tok[2 * k + 1]));
                }
                assert(valid_hash_token(tok));
                assert(d@ =~= hex_decode(tok));
                assert(manifest_lookup_spec(suffix, f@) == Some(hex_decode(tok)));
            }
            return Ok(d);
        } else if e == mlen {
            proof {
                assert(manifest_lookup_spec(suffix, f@) is None);
            }
            return Err(AcquisitionError::ManifestLookupFailed);
        } else {
            proof {
                lemma_line_end_le(suffix);
                assert(suffix.skip(line_len as int + 1) =~= m@.skip(e as int + 1));
            }
            pos = e + 1;
        }
    }
}

} // verus!
