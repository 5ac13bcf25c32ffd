//! Trusted boundary around the gzip and tar codecs.
//!
//! The archive format itself is delegated to the `flate2` and `tar` crates.
//! What each call computes is captured by uninterpreted names over plain byte
//! sequences; the verified bundling logic in `bundle` is proved against these
//! contracts alone.

use vstd::prelude::*;

use crate::bundle::datas_of;
use crate::bundle::names_of;
use crate::bundle::FontFile;

verus! {

/// The byte stream that gzip decompression yields for `s` (the contents of
/// the first gzip member of `s`), where decompression succeeds.
pub uninterp spec fn gunzip_of(s: Seq<u8>) -> Seq<u8>;

/// Whether gzip decompression of `s` succeeds.
pub uninterp spec fn gzip_wf(s: Seq<u8>) -> bool;

/// The contents of each entry of the tar archive `s`, in entry order, where
/// extraction succeeds.
pub uninterp spec fn tar_entries_of(s: Seq<u8>) -> Seq<Seq<u8>>;

/// Whether tar extraction of `s` succeeds.
pub uninterp spec fn tar_wf(s: Seq<u8>) -> bool;

/// Whether the tar builder accepts every one of the given entry names. A
/// name is rejected exactly when it cannot stand in an archive (it is
/// absolute, holds a `..` component or a nul byte, or is empty), which
/// depends on the names alone.
pub uninterp spec fn tar_pack_ok(names: Seq<Seq<char>>) -> bool;

/// Relies on `flate2::read::GzEncoder` at maximum compression: its output is
/// a gzip stream that decompresses back to exactly the input bytes. Reading
/// the encoder drains an in-memory slice, which cannot fail, so compression
/// always succeeds.
#[verifier::external_body]
pub(crate) fn gzip_compress(data: &Vec<u8>) -> (r: Option<Vec<u8>>)
    ensures
        r is Some,
        r matches Some(v) ==> gzip_wf(v@) && gunzip_of(v@) == data@,
{
    let mut enc = flate2::read::GzEncoder::new(data.as_slice(), flate2::Compression::best());
    let mut out: Vec<u8> = Vec::new();
    match std::io::Read::read_to_end(&mut enc, &mut out) {
        Ok(_) => Some(out),
        Err(_) => None,
    }
}

/// Relies on `flate2::read::GzDecoder`: reading it to the end yields the
/// decompressed contents of the input's first gzip member, and fails exactly
/// when the input is not a well-formed gzip stream; both outcomes depend on
/// the input bytes alone.
#[verifier::external_body]
pub(crate) fn gzip_decompress(data: &Vec<u8>) -> (r: Option<Vec<u8>>)
    ensures
        r is Some <==> gzip_wf(data@),
        r matches Some(v) ==> v@ == gunzip_of(data@),
{
    let mut dec = flate2::read::GzDecoder::new(data.as_slice());
    let mut out: Vec<u8> = Vec::new();
    match std::io::Read::read_to_end(&mut dec, &mut out) {
        Ok(_) => Some(out),
        Err(_) => None,
    }
}

/// Relies on `tar::Builder::append_data` and `tar::Builder::into_inner`: the
/// produced archive holds one entry per appended file, in order, and
/// extracting it yields each entry's contents byte for byte. The builder
/// writes into an in-memory `Vec` and reads each file from an in-memory
/// slice, neither of which can fail, so the one failure source left is the
/// builder's validation of the entry names.
#[verifier::external_body]
pub(crate) fn tar_pack(files: &Vec<FontFile>) -> (r: Option<Vec<u8>>)
    ensures
        r is Some <==> tar_pack_ok(names_of(files@)),
        r matches Some(v) ==> tar_wf(v@) && tar_entries_of(v@) == datas_of(files@),
{
    let mut builder = tar::Builder::new(Vec::new());
    for f in files.iter() {
        let mut header = tar::Header::new_gnu();
        header.set_size(f.data.len() as u64);
        header.set_cksum();
        builder.append_data(&mut header, &f.name, f.data.as_slice()).ok()?;
    }
    builder.into_inner().ok()
}

/// Relies on `tar::Archive::entries` and `std::io::Read::read_to_end` on each
/// entry: iteration yields the archive's entries in order, fully read, and
/// fails exactly when the archive is malformed; both outcomes depend on the
/// input bytes alone.
#[verifier::external_body]
pub(crate) fn tar_unpack(data: &Vec<u8>) -> (r: Option<Vec<Vec<u8>>>)
    ensures
        r is Some <==> tar_wf(data@),
        r matches Some(v) ==> v.deep_view() == tar_entries_of(data@),
{
    let mut archive = tar::Archive::new(data.as_slice());
    let mut out: Vec<Vec<u8>> = Vec::new();
    for entry in archive.entries().ok()? {
        let mut buf: Vec<u8> = Vec::new();
        std::io::Read::read_to_end(&mut entry.ok()?, &mut buf).ok()?;
        out.push(buf);
    }
    Some(out)
}

} // verus!
