use std::io::{Cursor, Write};

use smooth_octopus::archive::{entry_plan, plan_unzip, ExtractStep};
use zip::write::SimpleFileOptions;
use zip::CompressionMethod;
use zip::ZipWriter;

fn archive() -> Vec<u8> {
    let mut w = ZipWriter::new(Cursor::new(Vec::new()));
    let opts = SimpleFileOptions::default();
    w.add_directory("docs/", opts).unwrap();
    w.start_file("docs/a.txt", opts).unwrap();
    w.write_all(b"hello").unwrap();
    w.start_file("top.bin", opts).unwrap();
    w.write_all(&[1, 2, 3]).unwrap();
    w.finish().unwrap().into_inner()
}

fn describe(steps: &[ExtractStep]) -> Vec<String> {
    steps
        .iter()
        .map(|s| match s {
            ExtractStep::CreateDir(p) => format!("dir {}", p),
            ExtractStep::WriteFile(p, d) => format!("file {} {:?}", p, d),
        })
        .collect()
}

#[test]
fn unzip_plan_creates_directories_and_writes_files() {
    let bytes = archive();
    let (steps, failure) = plan_unzip(&bytes, "/out");
    assert!(failure.is_none());
    assert_eq!(
        describe(&steps),
        vec![
            "dir /out/docs/",
            "dir /out/docs",
            "file /out/docs/a.txt [104, 101, 108, 108, 111]",
            "dir /out",
            "file /out/top.bin [1, 2, 3]",
        ]
    );
}

#[test]
fn unzip_plan_reports_unreadable_archive() {
    let (steps, failure) = plan_unzip(b"not a zip archive", "/out");
    assert!(steps.is_empty());
    assert!(failure.is_some());
}

#[test]
fn unzip_plan_of_empty_archive() {
    let w = ZipWriter::new(Cursor::new(Vec::new()));
    let bytes = w.finish().unwrap().into_inner();
    let (steps, failure) = plan_unzip(&bytes, "d");
    assert!(steps.is_empty());
    assert!(failure.is_none());
}

#[test]
fn entry_plan_for_directories_and_files() {
    assert_eq!(describe(&entry_plan("sub/", Vec::new(), "d")), vec!["dir d/sub/"]);
    assert_eq!(describe(&entry_plan("sub\\", Vec::new(), "d")), vec!["dir d/sub\\"]);
    assert_eq!(describe(&entry_plan("a/b.txt", vec![7], "d")), vec!["dir d/a", "file d/a/b.txt [7]"]);
    assert_eq!(describe(&entry_plan("b.txt", vec![], "")), vec!["dir ", "file b.txt []"]);
}

#[test]
fn unzip_plan_writes_a_damaged_file_then_stops() {
    let mut w = ZipWriter::new(Cursor::new(Vec::new()));
    let opts = SimpleFileOptions::default().compression_method(CompressionMethod::Stored);
    w.start_file("first.txt", opts).unwrap();
    w.write_all(b"AAAA").unwrap();
    w.start_file("second.txt", opts).unwrap();
    w.write_all(b"QQQQ").unwrap();
    w.start_file("third.txt", opts).unwrap();
    w.write_all(b"ZZZZ").unwrap();
    let mut bytes = w.finish().unwrap().into_inner();
    let at = bytes.windows(4).position(|b| b == b"QQQQ").unwrap();
    bytes[at] = b'R';
    let (steps, failure) = plan_unzip(&bytes, "o");
    assert_eq!(
        describe(&steps),
        vec!["dir o", "file o/first.txt [65, 65, 65, 65]", "dir o", "file o/second.txt [82, 81, 81, 81]"]
    );
    assert!(failure.is_some());
}

#[test]
fn unzip_plan_stops_before_an_entry_that_cannot_be_opened() {
    let mut w = ZipWriter::new(Cursor::new(Vec::new()));
    let opts = SimpleFileOptions::default().compression_method(CompressionMethod::Stored);
    w.start_file("first.txt", opts).unwrap();
    w.write_all(b"AAAA").unwrap();
    w.start_file("second.txt", opts).unwrap();
    w.write_all(b"QQQQ").unwrap();
    let mut bytes = w.finish().unwrap().into_inner();
    let headers: Vec<usize> = bytes
        .windows(4)
        .enumerate()
        .filter(|(_, b)| *b == b"PK\x03\x04")
        .map(|(i, _)| i)
        .collect();
    bytes[headers[1]] = b'X';
    let (steps, failure) = plan_unzip(&bytes, "o");
    assert_eq!(describe(&steps), vec!["dir o", "file o/first.txt [65, 65, 65, 65]"]);
    assert!(failure.is_some());
}
