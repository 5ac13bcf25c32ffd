//! The font bundle: packing font files into a compressed archive at build
//! time, and unpacking the embedded archive into byte buffers at run time.

use vstd::prelude::*;

use crate::archive::gunzip_of;
use crate::archive::gzip_compress;
use crate::archive::gzip_decompress;
use crate::archive::gzip_wf;
use crate::archive::tar_entries_of;
use crate::archive::tar_pack;
use crate::archive::tar_pack_ok;
use crate::archive::tar_unpack;
use crate::archive::tar_wf;

verus! {

/// A font file to bundle: a file name and its raw contents.
pub struct FontFile {
    pub name: String,
    pub data: Vec<u8>,
}

/// The contents of each file, in order, with the names dropped.
pub open spec fn datas_of(files: Seq<FontFile>) -> Seq<Seq<u8>> {
    files.map_values(|f: FontFile| f.data@)
}

/// The name of each file, in order, with the contents dropped.
pub open spec fn names_of(files: Seq<FontFile>) -> Seq<Seq<char>> {
    files.map_values(|f: FontFile| f.name@)
}

/// The build-time font configuration: either font bundling is disabled, or
/// the build embedded a gzip-compressed tar archive of font files.
pub enum FontSource {
    Disabled,
    Bundled(Vec<u8>),
}

/// Corruption of the embedded archive. The archive is produced by the same
/// build that embeds it, so either error reports a packaging fault, not a
/// runtime input fault.
#[derive(Clone, Copy, Debug, PartialEq, Eq, Structural)]
pub enum ArchiveError {
    /// The embedded bytes are not a well-formed gzip stream.
    CorruptCompression,
    /// The decompressed bytes are not a well-formed tar archive.
    CorruptArchive,
}

/// What unpacking an embedded archive yields: the entry contents in entry
/// order, or the error that pins down which stage of decoding fails.
pub open spec fn spec_unpacked(archive: Seq<u8>) -> Result<Seq<Seq<u8>>, ArchiveError> {
    if !gzip_wf(archive) {
        Err(ArchiveError::CorruptCompression)
    } else if !tar_wf(gunzip_of(archive)) {
        Err(ArchiveError::CorruptArchive)
    } else {
        Ok(tar_entries_of(gunzip_of(archive)))
    }
}

/// What the font accessor yields for a given source: no buffers at all when
/// bundling is disabled, otherwise the unpacked archive entries.
pub open spec fn spec_fonts(src: FontSource) -> Result<Seq<Seq<u8>>, ArchiveError> {
    match src {
        FontSource::Disabled => Ok(Seq::empty()),
        FontSource::Bundled(archive) => spec_unpacked(archive@),
    }
}

/// The bundled fonts, one owned buffer per bundled font file, in the
/// archive's entry order; an empty sequence when bundling is disabled.
pub fn fonts(src: &FontSource) -> (r: Result<Vec<Vec<u8>>, ArchiveError>)
    ensures
        r matches Ok(v) ==> spec_fonts(*src) == Ok::<Seq<Seq<u8>>, ArchiveError>(v.deep_view()),
        r matches Err(e) ==> spec_fonts(*src) == Err::<Seq<Seq<u8>>, ArchiveError>(e),
{
    match src {
        FontSource::Disabled => {
            let empty: Vec<Vec<u8>> = Vec::new();
            assert(empty.deep_view() =~= Seq::<Seq<u8>>::empty());
            Ok(empty)
        },
        FontSource::Bundled(archive) => {
            match gzip_decompress(archive) {
                None => Err(ArchiveError::CorruptCompression),
                Some(tar_bytes) => match tar_unpack(&tar_bytes) {
                    None => Err(ArchiveError::CorruptArchive),
                    Some(v) => Ok(v),
                },
            }
        },
    }
}

/// What the packer guarantees of an archive it produced from `datas`:
/// decoding inverts it exactly.
pub open spec fn packs_to(archive: Seq<u8>, datas: Seq<Seq<u8>>) -> bool {
    &&& gzip_wf(archive)
    &&& tar_wf(gunzip_of(archive))
    &&& tar_entries_of(gunzip_of(archive)) == datas
}

/// The build-time packer: bundle the given font files into a single
/// gzip-compressed tar archive whose entries, in order, are exactly the
/// files' contents. Packing works on in-memory values only, so it fails in
/// exactly one case — `None` reports that the tar builder rejected one of
/// the entry names.
pub fn pack_fonts(files: &Vec<FontFile>) -> (r: Option<Vec<u8>>)
    ensures
        r is Some <==> tar_pack_ok(names_of(files@)),
        r matches Some(v) ==> packs_to(v@, datas_of(files@)),
{
    match tar_pack(files) {
        None => None,
        Some(tar_bytes) => gzip_compress(&tar_bytes),
    }
}

/// The total number of bytes across a sequence of buffers.
pub open spec fn total_len(datas: Seq<Seq<u8>>) -> int
    decreases datas.len(),
{
    if datas.len() == 0 {
        0
    } else {
        total_len(datas.drop_last()) + datas.last().len()
    }
}

/// A prefix of a sequence of buffers holds at most as many bytes as the
/// whole sequence.
proof fn lemma_total_len_take_le(datas: Seq<Seq<u8>>, i: int)
    requires
        0 <= i <= datas.len(),
    ensures
        total_len(datas.take(i)) <= total_len(datas),
    decreases datas.len() - i,
{
    if i < datas.len() {
        assert(datas.take(i + 1).drop_last() =~= datas.take(i));
        assert(datas.take(i + 1).last() == datas[i]);
        lemma_total_len_take_le(datas, i + 1);
    } else {
        assert(datas.take(i) =~= datas);
    }
}

/// The total byte size of a sequence of buffers, or `None` when the sum does
/// not fit in `usize`.
pub fn total_size(bufs: &Vec<Vec<u8>>) -> (r: Option<usize>)
    ensures
        r matches Some(n) ==> n == total_len(bufs.deep_view()),
        r is None ==> total_len(bufs.deep_view()) > usize::MAX,
{
    let ghost d = bufs.deep_view();
    let mut sum: usize = 0;
    let mut i: usize = 0;
    while i < bufs.len()
        invariant
            i <= bufs.len(),
            d == bufs.deep_view(),
            sum == total_len(d.take(i as int)),
        decreases bufs.len() - i,
    {
        let len_i = bufs[i].len();
        proof {
            assert(d.take(i as int + 1).drop_last() =~= d.take(i as int));
            assert(d.take(i as int + 1).last() == d[i as int]);
            assert(d[i as int].len() == bufs@[i as int]@.len());
        }
        match sum.checked_add(len_i) {
            Some(s) => {
                sum = s;
            },
            None => {
                proof {
                    lemma_total_len_take_le(d, i as int + 1);
                }
                return None;
            },
        }
        i = i + 1;
    }
    proof {
        assert(d.take(i as int) =~= d);
    }
    Some(sum)
}

/// Law: unpacking any archive that the packer produced from `datas` recovers
/// `datas` exactly — the number of buffers, their total byte size, their
/// order, and every byte.
pub proof fn lemma_pack_then_unpack(archive: Seq<u8>, datas: Seq<Seq<u8>>)
    requires
        packs_to(archive, datas),
    ensures
        spec_unpacked(archive) == Ok::<Seq<Seq<u8>>, ArchiveError>(datas),
        spec_unpacked(archive)->Ok_0.len() == datas.len(),
        total_len(spec_unpacked(archive)->Ok_0) == total_len(datas),
{
}

/// Law: the accessor is idempotent — what it yields is a function of the
/// source alone, so two results drawn from the same source agree in length
/// and byte content.
pub proof fn lemma_fonts_idempotent(
    src: FontSource,
    r1: Result<Seq<Seq<u8>>, ArchiveError>,
    r2: Result<Seq<Seq<u8>>, ArchiveError>,
)
    requires
        r1 == spec_fonts(src),
        r2 == spec_fonts(src),
    ensures
        r1 == r2,
        r1 is Ok ==> r1->Ok_0.len() == r2->Ok_0.len(),
{
}

/// Law: with font bundling disabled the accessor yields exactly zero
/// buffers, whatever was in any source directory.
pub proof fn lemma_disabled_empty()
    ensures
        spec_fonts(FontSource::Disabled) == Ok::<Seq<Seq<u8>>, ArchiveError>(Seq::<Seq<u8>>::empty()),
        spec_fonts(FontSource::Disabled)->Ok_0.len() == 0,
{
}

} // verus!
