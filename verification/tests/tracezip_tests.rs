use std::io::{Cursor, Write};

use oneclick_brm::tracezip::{find_callstack, read_callstack_from_zip, ZipEntry};
use zip::write::FileOptions;
use zip::ZipWriter;

fn zip_of(files: &[(&str, &[u8])]) -> Vec<u8> {
    let mut w = ZipWriter::new(Cursor::new(Vec::new()));
    for (name, data) in files {
        if name.ends_with('/') {
            w.add_directory(*name, FileOptions::default()).unwrap();
        } else {
            w.start_file(*name, FileOptions::default()).unwrap();
            w.write_all(data).unwrap();
        }
    }
    w.finish().unwrap().into_inner()
}

fn entry(name: &str, text: &str) -> ZipEntry {
    ZipEntry::Entry { name: name.to_string(), text: Ok(text.to_string()) }
}

#[test]
fn trace_file_is_found_by_name_and_content() {
    let trace = "1.0 Enter A (0)\n2.0 Exit A (0)\n";
    let data = zip_of(&[("readme.md", b"hello"), ("run.log", trace.as_bytes())]);
    assert_eq!(read_callstack_from_zip(&data), Ok(trace.to_string()));
}

#[test]
fn first_text_file_when_no_trace_is_named() {
    let data = zip_of(&[("notes.txt", b"just notes"), ("data.bin", b"x")]);
    assert_eq!(read_callstack_from_zip(&data), Ok("just notes".to_string()));
}

#[test]
fn directories_and_blank_files_are_passed_over() {
    let data = zip_of(&[("dir/", b""), ("empty.dat", b"  \n"), ("x.dat", b"content")]);
    assert_eq!(read_callstack_from_zip(&data), Ok("content".to_string()));
}

#[test]
fn no_suitable_file() {
    let data = zip_of(&[("a.dat", b"   ")]);
    assert_eq!(
        read_callstack_from_zip(&data),
        Err("No suitable callstack data found in zip file".to_string())
    );
    let empty = zip_of(&[]);
    assert_eq!(
        read_callstack_from_zip(&empty),
        Err("No suitable callstack data found in zip file".to_string())
    );
}

#[test]
fn bytes_that_are_not_a_zip() {
    let r = read_callstack_from_zip(b"not a zip archive");
    assert!(r.unwrap_err().starts_with("Failed to open ZIP archive: "));
}

#[test]
fn unreadable_trace_named_file() {
    let data = zip_of(&[("trace.log", &[0xff, 0xfe, 0x41])]);
    let err = read_callstack_from_zip(&data).unwrap_err();
    assert!(err.starts_with("Failed to read file 'trace.log': "), "{}", err);
}

#[test]
fn listing_with_unreachable_entry() {
    let entries = vec![entry("a.dat", "x"), ZipEntry::Unreachable("boom".to_string())];
    assert_eq!(find_callstack(&entries), Err("Failed to access file at index 1: boom".to_string()));
}

#[test]
fn listing_second_pass_ignores_read_errors() {
    let entries = vec![
        ZipEntry::Entry { name: "a.dat".to_string(), text: Err("bad".to_string()) },
        entry("b.dat", "text"),
    ];
    assert_eq!(find_callstack(&entries), Ok("text".to_string()));
}

#[test]
fn listing_trace_needs_enter_and_exit() {
    let entries = vec![entry("callstack.dat", "only Enter here"), entry("x.trace", "Enter Exit")];
    assert_eq!(find_callstack(&entries), Ok("Enter Exit".to_string()));
    let entries = vec![entry("callstack.dat", "only Enter here")];
    assert_eq!(find_callstack(&entries), Ok("only Enter here".to_string()));
}

// An extra field shaped as the AES one (7 bytes: AE-2, vendor "AE", AES-256,
// stored) under header ID 0x9903, which the writer accepts; `with_aes_id`
// then turns its ID into the AES one, 0x9901, where it occurs.
const AES_LIKE_FIELD: &[u8] = &[0x03, 0x99, 0x07, 0x00, 0x02, 0x00, 0x41, 0x45, 0x03, 0x00, 0x00];

fn with_aes_id(mut bytes: Vec<u8>) -> Vec<u8> {
    let mut i = 0;
    while i + AES_LIKE_FIELD.len() <= bytes.len() {
        if &bytes[i..i + AES_LIKE_FIELD.len()] == AES_LIKE_FIELD {
            bytes[i] = 0x01;
        }
        i += 1;
    }
    bytes
}

fn zip_with_aes_field_unencrypted(name: &str, data: &[u8]) -> Vec<u8> {
    let mut w = ZipWriter::new(Cursor::new(Vec::new()));
    w.start_file_with_extra_data(name, FileOptions::default().compression_method(zip::CompressionMethod::Stored))
        .unwrap();
    // The entry's encryption flag stays clear.
    w.write_all(AES_LIKE_FIELD).unwrap();
    w.end_extra_data().unwrap();
    w.write_all(data).unwrap();
    with_aes_id(w.finish().unwrap().into_inner())
}

#[test]
fn aes_field_without_encryption_flag_is_unreachable() {
    let data = zip_with_aes_field_unencrypted("trace.log", b"1.0 Enter A (0)\n2.0 Exit A (0)\n");
    assert_eq!(
        read_callstack_from_zip(&data),
        Err("Failed to access file at index 0: invalid password for file in archive".to_string())
    );
}

#[test]
fn good_trace_first_stops_before_bad_entry() {
    let trace = "1.0 Enter A (0)\n2.0 Exit A (0)\n";
    let mut w = ZipWriter::new(Cursor::new(Vec::new()));
    w.start_file("run.log", FileOptions::default()).unwrap();
    w.write_all(trace.as_bytes()).unwrap();
    w.start_file_with_extra_data("later.dat", FileOptions::default().compression_method(zip::CompressionMethod::Stored))
        .unwrap();
    w.write_all(AES_LIKE_FIELD).unwrap();
    w.end_extra_data().unwrap();
    w.write_all(b"x").unwrap();
    let data = with_aes_id(w.finish().unwrap().into_inner());
    assert_eq!(read_callstack_from_zip(&data), Ok(trace.to_string()));
}
