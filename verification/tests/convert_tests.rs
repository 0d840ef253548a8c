use polyzip::convert::{convert_archive, list_archive, NameOutcome};
use polyzip::errors::ConvertError;
use std::io::Cursor;
use std::io::Read;

fn crc32(data: &[u8]) -> u32 {
    let mut c: u32 = 0xFFFF_FFFF;
    for &b in data {
        c ^= b as u32;
        for _ in 0..8 {
            c = if c & 1 != 0 { (c >> 1) ^ 0xEDB8_8320 } else { c >> 1 };
        }
    }
    !c
}

fn push_u16(out: &mut Vec<u8>, v: u16) {
    out.extend_from_slice(&v.to_le_bytes());
}

fn push_u32(out: &mut Vec<u8>, v: u32) {
    out.extend_from_slice(&v.to_le_bytes());
}

/// Build a stored (uncompressed) zip archive whose entries carry the given
/// raw name bytes and payloads.
fn build_zip(entries: &[(&[u8], &[u8])]) -> Vec<u8> {
    let mut out: Vec<u8> = Vec::new();
    let mut offsets: Vec<u32> = Vec::new();
    for (name, data) in entries {
        offsets.push(out.len() as u32);
        out.extend_from_slice(&[0x50, 0x4B, 0x03, 0x04]);
        push_u16(&mut out, 20);
        push_u16(&mut out, 0);
        push_u16(&mut out, 0);
        push_u16(&mut out, 0);
        push_u16(&mut out, 0);
        push_u32(&mut out, crc32(data));
        push_u32(&mut out, data.len() as u32);
        push_u32(&mut out, data.len() as u32);
        push_u16(&mut out, name.len() as u16);
        push_u16(&mut out, 0);
        out.extend_from_slice(name);
        out.extend_from_slice(data);
    }
    let cd_start = out.len() as u32;
    for (i, (name, data)) in entries.iter().enumerate() {
        out.extend_from_slice(&[0x50, 0x4B, 0x01, 0x02]);
        push_u16(&mut out, 20);
        push_u16(&mut out, 20);
        push_u16(&mut out, 0);
        push_u16(&mut out, 0);
        push_u16(&mut out, 0);
        push_u16(&mut out, 0);
        push_u32(&mut out, crc32(data));
        push_u32(&mut out, data.len() as u32);
        push_u32(&mut out, data.len() as u32);
        push_u16(&mut out, name.len() as u16);
        push_u16(&mut out, 0);
        push_u16(&mut out, 0);
        push_u16(&mut out, 0);
        push_u16(&mut out, 0);
        push_u32(&mut out, 0);
        push_u32(&mut out, offsets[i]);
        out.extend_from_slice(name);
    }
    let cd_size = out.len() as u32 - cd_start;
    out.extend_from_slice(&[0x50, 0x4B, 0x05, 0x06]);
    push_u16(&mut out, 0);
    push_u16(&mut out, 0);
    push_u16(&mut out, entries.len() as u16);
    push_u16(&mut out, entries.len() as u16);
    push_u32(&mut out, cd_size);
    push_u32(&mut out, cd_start);
    push_u16(&mut out, 0);
    out
}

fn read_entry(bytes: &[u8], i: usize) -> (Vec<u8>, String, Vec<u8>, u32) {
    let mut ar = zip::ZipArchive::new(Cursor::new(bytes.to_vec())).unwrap();
    let mut f = ar.by_index(i).unwrap();
    let raw = f.name_raw().to_vec();
    let name = f.name().to_string();
    let crc = f.crc32();
    let mut data = Vec::new();
    f.read_to_end(&mut data).unwrap();
    (raw, name, data, crc)
}

// A name spelled in a single-byte Western European encoding: "café.txt"
// with the accented letter stored as the byte 0xE9.
const CAFE_LATIN1: &[u8] = &[b'c', b'a', b'f', 0xE9, b'.', b't', b'x', b't'];

#[test]
fn convert_latin1_name() {
    let input = build_zip(&[(CAFE_LATIN1, b"hello world")]);
    let out = convert_archive(input, "ISO-8859-1").unwrap();
    let mut ar = zip::ZipArchive::new(Cursor::new(out)).unwrap();
    assert_eq!(ar.len(), 1);
    let mut f = ar.by_index(0).unwrap();
    assert_eq!(f.name(), "caf\u{e9}.txt");
    let mut data = Vec::new();
    f.read_to_end(&mut data).unwrap();
    assert_eq!(data, b"hello world");
}

#[test]
fn convert_keeps_count_payload_and_metadata() {
    let input = build_zip(&[
        (CAFE_LATIN1, b"first payload"),
        (b"plain.txt", b"second payload"),
    ]);
    let in_crc0 = crc32(b"first payload");
    let in_crc1 = crc32(b"second payload");
    let out = convert_archive(input, "ISO-8859-1").unwrap();
    {
        let ar = zip::ZipArchive::new(Cursor::new(out.clone())).unwrap();
        assert_eq!(ar.len(), 2);
    }
    let (_, name0, data0, crc0) = read_entry(&out, 0);
    let (_, name1, data1, crc1) = read_entry(&out, 1);
    assert_eq!(name0, "caf\u{e9}.txt");
    assert_eq!(data0, b"first payload");
    assert_eq!(crc0, in_crc0);
    assert_eq!(name1, "plain.txt");
    assert_eq!(data1, b"second payload");
    assert_eq!(crc1, in_crc1);
}

#[test]
fn convert_is_deterministic() {
    let input = build_zip(&[(CAFE_LATIN1, b"same bytes"), (b"other", b"more")]);
    let out1 = convert_archive(input.clone(), "ISO-8859-1").unwrap();
    let out2 = convert_archive(input, "ISO-8859-1").unwrap();
    assert_eq!(out1, out2);
}

#[test]
fn convert_rejects_undecodable_name() {
    // 0x80 alone is not a valid UTF-8 sequence, so decoding from UTF-8 fails.
    let input = build_zip(&[(b"fine.txt", b"ok"), (&[0x80, b'x'], b"bad")]);
    let r = convert_archive(input, "UTF-8");
    match r {
        Err(ConvertError::Decode { index, raw, .. }) => {
            assert_eq!(index, 1);
            assert_eq!(raw, vec![0x80, b'x']);
        }
        other => panic!("expected a decode failure, got {:?}", other),
    }
}

#[test]
fn convert_reports_first_undecodable_name() {
    let input = build_zip(&[(&[0xFF], b"a"), (&[0x80], b"b")]);
    let r = convert_archive(input, "UTF-8");
    match r {
        Err(ConvertError::Decode { index, raw, .. }) => {
            assert_eq!(index, 0);
            assert_eq!(raw, vec![0xFF]);
        }
        other => panic!("expected a decode failure, got {:?}", other),
    }
}

#[test]
fn convert_rejects_bad_archive() {
    let r = convert_archive(b"this is not a zip archive".to_vec(), "ISO-8859-1");
    assert!(matches!(r, Err(ConvertError::Archive { .. })));
}

#[test]
fn convert_empty_archive() {
    let input = build_zip(&[]);
    let out = convert_archive(input, "ISO-8859-1").unwrap();
    let ar = zip::ZipArchive::new(Cursor::new(out)).unwrap();
    assert_eq!(ar.len(), 0);
}

#[test]
fn list_reports_every_entry_in_order() {
    let input = build_zip(&[
        (CAFE_LATIN1, b"a"),
        (&[0x80], b"b"),
        (b"plain.txt", b"c"),
    ]);
    // Under UTF-8 the middle name fails; the listing still covers all three.
    let lines = list_archive(input, "UTF-8").unwrap();
    assert_eq!(lines.len(), 3);
    match &lines[0] {
        NameOutcome::Failed { raw, .. } => assert_eq!(raw.as_slice(), CAFE_LATIN1),
        other => panic!("expected a failure for a Latin-1 name under UTF-8, got {:?}", other),
    }
    match &lines[1] {
        NameOutcome::Failed { raw, .. } => assert_eq!(raw.as_slice(), &[0x80]),
        other => panic!("expected a failure, got {:?}", other),
    }
    match &lines[2] {
        NameOutcome::Converted { raw, name } => {
            assert_eq!(raw.as_slice(), b"plain.txt");
            assert_eq!(name, "plain.txt");
        }
        other => panic!("expected a conversion, got {:?}", other),
    }
}

#[test]
fn list_converts_latin1_name() {
    let input = build_zip(&[(CAFE_LATIN1, b"a")]);
    let lines = list_archive(input, "ISO-8859-1").unwrap();
    assert_eq!(lines.len(), 1);
    match &lines[0] {
        NameOutcome::Converted { raw, name } => {
            assert_eq!(raw.as_slice(), CAFE_LATIN1);
            assert_eq!(name, "caf\u{e9}.txt");
        }
        other => panic!("expected a conversion, got {:?}", other),
    }
}

#[test]
fn list_does_not_change_the_bytes() {
    let input = build_zip(&[(CAFE_LATIN1, b"payload")]);
    let before = input.clone();
    let _ = list_archive(input.clone(), "ISO-8859-1").unwrap();
    assert_eq!(input, before);
}

#[test]
fn list_rejects_bad_archive() {
    let r = list_archive(vec![1, 2, 3], "ISO-8859-1");
    assert!(matches!(r, Err(ConvertError::Archive { .. })));
}
