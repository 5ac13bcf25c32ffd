use typst_assets::fonts;
use typst_assets::pack_fonts;
use typst_assets::total_size;
use typst_assets::ArchiveError;
use typst_assets::FontFile;
use typst_assets::FontSource;

fn sample_file(name: &str, data: &[u8]) -> FontFile {
    FontFile { name: name.to_string(), data: data.to_vec() }
}

#[test]
fn round_trip_three_files() {
    let files = vec![
        sample_file("fonts/a.ttf", b"alpha font bytes"),
        sample_file("fonts/b.otf", &[0u8, 1, 2, 3, 255, 254]),
        sample_file("fonts/c.ttf", b"gamma"),
    ];
    let archive = pack_fonts(&files).expect("packing must succeed");
    let src = FontSource::Bundled(archive);
    let bufs = fonts(&src).expect("unpacking a packed archive must succeed");
    assert_eq!(bufs.len(), 3);
    assert_eq!(bufs[0], b"alpha font bytes".to_vec());
    assert_eq!(bufs[1], vec![0u8, 1, 2, 3, 255, 254]);
    assert_eq!(bufs[2], b"gamma".to_vec());
}

#[test]
fn fourteen_fonts_scenario() {
    let mut files = Vec::new();
    let mut expected: Vec<Vec<u8>> = Vec::new();
    let mut n: usize = 0;
    for i in 0..14u8 {
        let mut data = Vec::new();
        for j in 0..(10 + 7 * i as usize) {
            data.push((i as usize * 31 + j) as u8);
        }
        n += data.len();
        expected.push(data.clone());
        files.push(FontFile { name: format!("fonts/font-{}.ttf", i), data });
    }
    let archive = pack_fonts(&files).expect("packing must succeed");
    let src = FontSource::Bundled(archive);
    let bufs = fonts(&src).expect("unpacking a packed archive must succeed");
    assert_eq!(bufs.len(), 14);
    assert_eq!(total_size(&bufs), Some(n));
    for i in 0..14 {
        assert_eq!(bufs[i], expected[i]);
    }
}

#[test]
fn accessor_idempotent() {
    let files = vec![
        sample_file("one.ttf", b"first"),
        sample_file("two.ttf", b"second"),
    ];
    let archive = pack_fonts(&files).expect("packing must succeed");
    let src = FontSource::Bundled(archive);
    let first = fonts(&src).expect("first call must succeed");
    let second = fonts(&src).expect("second call must succeed");
    assert_eq!(first.len(), second.len());
    assert_eq!(first, second);

    let disabled = FontSource::Disabled;
    assert_eq!(fonts(&disabled), fonts(&disabled));
}

#[test]
fn disabled_yields_nothing() {
    let src = FontSource::Disabled;
    let bufs = fonts(&src).expect("the disabled accessor must succeed");
    assert_eq!(bufs.len(), 0);
    let mut iterations = 0;
    for _buf in bufs.iter() {
        iterations += 1;
    }
    assert_eq!(iterations, 0);
}

#[test]
fn empty_bundle_round_trips() {
    let files: Vec<FontFile> = Vec::new();
    let archive = pack_fonts(&files).expect("packing no files must succeed");
    let src = FontSource::Bundled(archive);
    let bufs = fonts(&src).expect("unpacking an empty archive must succeed");
    assert_eq!(bufs.len(), 0);
}

#[test]
fn corrupt_gzip_detected() {
    let src = FontSource::Bundled(b"definitely not a gzip stream".to_vec());
    assert_eq!(fonts(&src), Err(ArchiveError::CorruptCompression));
}

#[test]
fn corrupt_tar_detected() {
    // A well-formed gzip stream whose contents are not a tar archive.
    let garbage: &[u8] = b"well compressed, but no tar archive inside";
    let mut enc = flate2::read::GzEncoder::new(garbage, flate2::Compression::best());
    let mut gzipped = Vec::new();
    std::io::Read::read_to_end(&mut enc, &mut gzipped).expect("compression must succeed");
    let src = FontSource::Bundled(gzipped);
    assert_eq!(fonts(&src), Err(ArchiveError::CorruptArchive));
}

#[test]
fn packing_rejects_bad_entry_names() {
    let escaping = vec![sample_file("../escape.ttf", b"bytes")];
    assert!(pack_fonts(&escaping).is_none());
    let absolute = vec![sample_file("/abs/font.ttf", b"bytes")];
    assert!(pack_fonts(&absolute).is_none());
    let fine = vec![sample_file("fonts/fine.ttf", b"bytes")];
    assert!(pack_fonts(&fine).is_some());
}

#[test]
fn total_size_adds_up() {
    let bufs = vec![vec![1u8, 2, 3], Vec::new(), vec![4u8, 5]];
    assert_eq!(total_size(&bufs), Some(5));
    let empty: Vec<Vec<u8>> = Vec::new();
    assert_eq!(total_size(&empty), Some(0));
}
