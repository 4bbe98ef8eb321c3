//! Content-hash verification and extraction of the daemon binary from a
//! downloaded release archive (a gzip-compressed tar stream). Decompression,
//! tar reading and the digest come from outside crates behind trusted
//! wrappers; the scan for the binary entry and the hash comparison are
//! verified.

use crate::chars::bytes_eq;
use crate::chars::chars_eq_at;
use crate::chars::str_chars;
use crate::errors::AcquisitionError;
use std::io::Read;
use vstd::prelude::*;

verus! {

/// SHA-256 digest of a byte sequence, as the digest crate computes it.
pub uninterp spec fn sha256_of(b: Seq<u8>) -> Seq<u8>;

/// What gzip decompression yields on a byte sequence: the decompressed bytes,
/// or `None` where the input is not a well-formed gzip stream.
pub uninterp spec fn gunzip_of(b: Seq<u8>) -> Option<Seq<u8>>;

/// The entries of a tar stream: for each, its path, its mode bits and its
/// contents, in archive order; `None` where the bytes are not a readable tar
/// stream.
pub uninterp spec fn tar_entries_of(b: Seq<u8>) -> Option<Seq<(Seq<char>, u32, Seq<u8>)>>;

/// Relies on bitcoin_hashes::sha256::Hash::hash: the 32-byte SHA-256 digest,
/// a function of the input bytes alone.
#[verifier::external_body]
pub(crate) fn sha256_digest(bytes: &Vec<u8>) -> (r: Vec<u8>)
    ensures
        r@ == sha256_of(bytes@),
        r@.len() == 32,
{
    bitcoin_hashes::sha256::Hash::hash(bytes.as_slice()).to_byte_array().to_vec()
}

/// Relies on flate2::read::GzDecoder: gzip decompression, a function of the
/// input bytes alone, failing exactly on malformed input.
#[verifier::external_body]
pub(crate) fn gunzip(bytes: &Vec<u8>) -> (r: Option<Vec<u8>>)
    ensures
        r is Some <==> gunzip_of(bytes@) is Some,
        r is Some ==> r->0@ == gunzip_of(bytes@)->0,
{
    let mut decoder = flate2::read::GzDecoder::new(bytes.as_slice());
    let mut out = Vec::new();
    match decoder.read_to_end(&mut out) {
        Ok(_) => Some(out),
        Err(_) => None,
    }
}

/// Relies on tar::Archive (entries, path, header mode, contents): the entry
/// list of an in-memory tar stream, a function of the input bytes alone.
/// Fails on a malformed archive, an unreadable entry path, or malformed mode
/// bits.
#[verifier::external_body]
pub(crate) fn tar_entries(bytes: &Vec<u8>) -> (r: Option<Vec<(String, u32, Vec<u8>)>>)
    ensures
        r is Some <==> tar_entries_of(bytes@) is Some,
        r is Some ==> r->0.deep_view() == tar_entries_of(bytes@)->0,
{
    let mut archive = tar::Archive::new(bytes.as_slice());
    let mut out = Vec::new();
    for entry in archive.entries().ok()? {
        let mut entry = entry.ok()?;
        let path = entry.path().ok()?.to_string_lossy().into_owned();
        let mode = entry.header().mode().ok()?;
        let mut data = Vec::new();
        entry.read_to_end(&mut data).ok()?;
        out.push((path, mode, data));
    }
    Some(out)
}

/// The daemon binary's filename inside a release archive.
pub open spec fn binary_name_spec() -> Seq<char> {
    "elementsd"@
}

/// An entry path whose final `/`-separated component is `name`.
pub open spec fn entry_is_binary(path: Seq<char>, name: Seq<char>) -> bool {
    path == name || (path.len() > name.len() && path[path.len() - name.len() - 1] == '/'
        && path.skip(path.len() - name.len()) == name)
}

/// The first archive entry whose path ends with the binary's name.
pub open spec fn first_binary_entry(
    entries: Seq<(Seq<char>, u32, Seq<u8>)>,
    name: Seq<char>,
) -> Option<(Seq<char>, u32, Seq<u8>)>
    decreases entries.len(),
{
    if entries.len() == 0 {
        None
    } else if entry_is_binary(entries[0].0, name) {
        Some(entries[0])
    } else {
        first_binary_entry(entries.skip(1), name)
    }
}

/// What extraction yields on an archive: decompress, read the tar entries,
/// take the first entry whose path ends with the daemon binary's name.
pub open spec fn extract_spec(archive: Seq<u8>) -> Option<(Seq<char>, u32, Seq<u8>)> {
    match gunzip_of(archive) {
        None => None,
        Some(t) => match tar_entries_of(t) {
            None => None,
            Some(es) => first_binary_entry(es, binary_name_spec()),
        },
    }
}

fn path_ends_with_name(path: &String, name: &Vec<char>) -> (r: bool)
    ensures
        r == entry_is_binary(path@, name@),
{
    let p = str_chars(path.as_str());
    let plen = p.len();
    let nlen = name.len();
    if plen == nlen {
        let r = chars_eq_at(&p, 0, name);
        proof {
            assert(p@.subrange(0, nlen as int) =~= p@);
        }
        r
    } else if plen > nlen {
        if p[plen - nlen - 1] == '/' && chars_eq_at(&p, plen - nlen, name) {
            proof {
                assert(p@.skip(plen - nlen) =~= p@.subrange(plen - nlen, plen as int));
            }
            true
        } else {
            proof {
                if p@[plen - nlen - 1] == '/' {
                    assert(p@.skip(plen - nlen) =~= p@.subrange(plen - nlen, plen as int));
                }
            }
            false
        }
    } else {
        false
    }
}

/// Compares a downloaded asset's digest with the manifest value. Equality of
/// the SHA-256 digest of `bytes` with `expected`, byte for byte.
pub fn hash_matches(bytes: &Vec<u8>, expected: &Vec<u8>) -> (r: bool)
    ensures
        r == (sha256_of(bytes@) == expected@),
{
    let digest = sha256_digest(bytes);
    bytes_eq(&digest, expected)
}

/// Decompresses a release archive and extracts the daemon binary entry,
/// returning its mode bits and contents. Fails with
/// `BinaryNotFoundInArchive` exactly when no entry path ends with the
/// binary's name or the archive cannot be decoded.
pub fn extract_binary(archive: &Vec<u8>) -> (r: Result<(u32, Vec<u8>), AcquisitionError>)
    ensures
        match r {
            Ok(md) => extract_spec(archive@) matches Some(ent) && md.0 == ent.1 && md.1@ == ent.2,
            Err(e) => e == AcquisitionError::BinaryNotFoundInArchive && extract_spec(
                archive@,
            ) is None,
        },
{
    let tarball = match gunzip(archive) {
        Some(t) => t,
        None => {
            return Err(AcquisitionError::BinaryNotFoundInArchive);
        },
    };
    let mut entries = match tar_entries(&tarball) {
        Some(es) => es,
        None => {
            return Err(AcquisitionError::BinaryNotFoundInArchive);
        },
    };
    let ghost all_entries = entries.deep_view();
    let name = str_chars("elementsd");
    proof {
        reveal_strlit("elementsd");
    }
    loop
        invariant
            name@ == binary_name_spec(),
            extract_spec(archive@) == first_binary_entry(entries.deep_view(), binary_name_spec()),
        decreases entries.len(),
    {
        if entries.len() == 0 {
            proof {
                assert(first_binary_entry(entries.deep_view(), binary_name_spec()) is None);
            }
            return Err(AcquisitionError::BinaryNotFoundInArchive);
        }
        let ghost before = entries.deep_view();
        let (path, mode, data) = entries.remove(0);
        proof {
            assert(entries.deep_view() =~= before.skip(1));
            assert((path@, mode, data@) == before[0]);
        }
        if path_ends_with_name(&path, &name) {
            proof {
                assert(first_binary_entry(before, binary_name_spec()) == Some(before[0]));
            }
            return Ok((mode, data));
        }
    }
}

} // verus!
