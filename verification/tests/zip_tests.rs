//! Tests of the archive traversal over archives built in memory.

use std::io::Cursor;
use std::io::Write;

use mojxml::zip::{ZipError, ZipPackage, ZipPackageIter};
use zip::write::SimpleFileOptions;
use zip::ZipWriter;

fn build_archive(entries: &[(&str, &[u8])]) -> Vec<u8> {
    let mut w = ZipWriter::new(Cursor::new(Vec::new()));
    for (name, data) in entries {
        w.start_file(*name, SimpleFileOptions::default()).unwrap();
        w.write_all(data).unwrap();
    }
    w.finish().unwrap().into_inner()
}

fn collect(data: Vec<u8>) -> Vec<Result<(String, Vec<u8>), ZipError>> {
    let mut it = ZipPackageIter::new(data).expect("a valid archive");
    let mut out = Vec::new();
    while let Some(item) = it.next() {
        out.push(item);
    }
    out
}

#[test]
fn plain_documents_come_out_as_stored() {
    let data = build_archive(&[("a.xml", b"<a/>"), ("notes.txt", b"x"), ("b.xml", b"<b/>")]);
    let items = collect(data);
    assert_eq!(items.len(), 2);
    let a = items[0].as_ref().expect("a.xml reads");
    assert_eq!(a.0, "a.xml");
    assert_eq!(a.1, b"<a/>");
    let b = items[1].as_ref().expect("b.xml reads");
    assert_eq!(b.0, "b.xml");
    assert_eq!(b.1, b"<b/>");
}

#[test]
fn nested_archive_yields_its_single_document() {
    let inner = build_archive(&[("inner.xml", b"<inner/>")]);
    let data = build_archive(&[("pack.zip", &inner)]);
    let items = collect(data);
    assert_eq!(items.len(), 1);
    let d = items[0].as_ref().expect("the nested document reads");
    assert_eq!(d.0, "inner.xml");
    assert_eq!(d.1, b"<inner/>");
}

#[test]
fn nested_archive_with_two_entries_is_an_error() {
    let inner = build_archive(&[("a.xml", b"<a/>"), ("b.xml", b"<b/>")]);
    let data = build_archive(&[("pack.zip", &inner)]);
    let items = collect(data);
    assert_eq!(items.len(), 1);
    assert!(matches!(items[0], Err(ZipError::NestedCount)));
}

#[test]
fn nested_archive_without_document_is_an_error() {
    let inner = build_archive(&[("readme.txt", b"x")]);
    let data = build_archive(&[("pack.zip", &inner)]);
    let items = collect(data);
    assert_eq!(items.len(), 1);
    assert!(matches!(items[0], Err(ZipError::NestedNotDocument)));
}

#[test]
fn garbage_nested_archive_is_a_per_entry_error() {
    let data = build_archive(&[("pack.zip", b"not an archive"), ("a.xml", b"<a/>")]);
    let items = collect(data);
    assert_eq!(items.len(), 2);
    assert!(matches!(items[0], Err(ZipError::Nested(_))));
    assert!(items[1].is_ok());
}

#[test]
fn garbage_top_level_archive_is_fatal() {
    assert!(ZipPackageIter::new(b"not an archive".to_vec()).is_err());
    assert!(ZipPackage::new(b"not an archive".to_vec()).is_err());
}

#[test]
fn traversing_twice_yields_the_same_content() {
    let inner = build_archive(&[("inner.xml", b"<inner/>")]);
    let data = build_archive(&[
        ("a.xml", b"<a/>"),
        ("skip.dat", b"zzz"),
        ("pack.zip", &inner),
        ("b.xml", b"<b/>"),
    ]);
    let once: Vec<(String, Vec<u8>)> =
        collect(data.clone()).into_iter().map(|r| r.expect("all entries read")).collect();
    let twice: Vec<(String, Vec<u8>)> =
        collect(data).into_iter().map(|r| r.expect("all entries read")).collect();
    assert_eq!(once.len(), 3);
    assert_eq!(once, twice);
    let mut names: Vec<&str> = once.iter().map(|p| p.0.as_str()).collect();
    names.sort();
    assert_eq!(names, vec!["a.xml", "b.xml", "inner.xml"]);
}

#[test]
fn package_walk_matches_iterator_walk() {
    let data = build_archive(&[("a.xml", b"<a/>"), ("b.xml", b"<b/>")]);
    let mut pkg = ZipPackage::new(data.clone()).expect("a valid archive");
    let mut from_pkg = Vec::new();
    while let Some(item) = pkg.next() {
        from_pkg.push(item.expect("all entries read"));
    }
    let from_iter: Vec<(String, Vec<u8>)> =
        collect(data).into_iter().map(|r| r.expect("all entries read")).collect();
    assert_eq!(from_pkg, from_iter);
}

#[test]
fn traversal_feeds_the_parser() {
    let doc = "<地図><空間属性><GM_Point id=\"p1\"><GM_Point.position><DirectPosition><X>1.0</X><Y>2.0</Y></DirectPosition></GM_Point.position></GM_Point></空間属性></地図>";
    let inner = build_archive(&[("doc.xml", doc.as_bytes())]);
    let data = build_archive(&[("pack.zip", &inner)]);
    let items = collect(data);
    let (name, payload) = items[0].as_ref().expect("the document reads").clone();
    assert_eq!(name, "doc.xml");
    let parsed = mojxml::parser::MojxmlParser::new(payload).parse().expect("parses");
    assert!(parsed.points.get("p1").is_some());
}
