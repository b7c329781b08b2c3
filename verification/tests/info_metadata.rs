use sf2_riff::{Sf2Error, Sf2SoundFont};

fn meta_normal(id: &[u8; 4], payload: &[u8]) -> Vec<u8> {
    let mut out = Vec::new();
    out.extend_from_slice(id);
    out.extend_from_slice(&(payload.len() as u32).to_le_bytes());
    out.extend_from_slice(payload);
    if payload.len() % 2 == 1 {
        out.push(0);
    }
    out
}

fn meta_container(marker: &[u8; 4], type_id: &[u8; 4], children: &[u8]) -> Vec<u8> {
    let mut out = Vec::new();
    out.extend_from_slice(marker);
    out.extend_from_slice(&((children.len() + 4) as u32).to_le_bytes());
    out.extend_from_slice(type_id);
    out.extend_from_slice(children);
    out
}

fn bank_with_info(info_children: &[u8]) -> Vec<u8> {
    let root_children = meta_container(b"LIST", b"INFO", info_children);
    meta_container(b"RIFF", b"sfbk", &root_children)
}

#[test]
fn all_metadata_fields_decode() {
    let mut info = Vec::new();
    info.extend_from_slice(&meta_normal(b"ifil", &[2, 0, 4, 0]));
    info.extend_from_slice(&meta_normal(b"isng", b"EMU8000\0"));
    info.extend_from_slice(&meta_normal(b"INAM", b"General Bank\0\0"));
    info.extend_from_slice(&meta_normal(b"irom", b"ROM1\0\0"));
    info.extend_from_slice(&meta_normal(b"iver", &[1, 0, 8, 0]));
    info.extend_from_slice(&meta_normal(b"ICRD", b"May 1, 1996\0"));
    info.extend_from_slice(&meta_normal(b"IENG", b"A. Composer\0"));
    info.extend_from_slice(&meta_normal(b"IPRD", b"SBAWE32\0"));
    info.extend_from_slice(&meta_normal(b"ICOP", b"(c) 1996\0\0"));
    info.extend_from_slice(&meta_normal(b"ICMT", b"No comment\0\0"));
    info.extend_from_slice(&meta_normal(b"ISFT", b"tool one:tool two\0"));
    let buf = bank_with_info(&info);

    let bank = Sf2SoundFont::new(&buf).unwrap();
    let meta = bank.info().unwrap();
    assert_eq!(meta.format_version().unwrap(), (2, 4));
    assert_eq!(meta.sound_engine().unwrap(), "EMU8000");
    assert_eq!(meta.soundfont_name().unwrap(), "General Bank");
    assert_eq!(meta.rom_name().unwrap(), Some("ROM1"));
    assert_eq!(meta.rom_version().unwrap(), Some((1, 8)));
    assert_eq!(meta.date().unwrap(), Some("May 1, 1996"));
    assert_eq!(meta.author().unwrap(), Some("A. Composer"));
    assert_eq!(meta.product().unwrap(), Some("SBAWE32"));
    assert_eq!(meta.copyright().unwrap(), Some("(c) 1996"));
    assert_eq!(meta.comment().unwrap(), Some("No comment"));
    assert_eq!(
        meta.soundfont_tools().unwrap(),
        Some(vec!["tool one", "tool two"])
    );
}

#[test]
fn optional_fields_absent_yield_none() {
    let mut info = Vec::new();
    info.extend_from_slice(&meta_normal(b"ifil", &[2, 0, 1, 0]));
    let buf = bank_with_info(&info);
    let bank = Sf2SoundFont::new(&buf).unwrap();
    let meta = bank.info().unwrap();

    assert_eq!(meta.rom_name().unwrap(), None);
    assert_eq!(meta.rom_version().unwrap(), None);
    assert_eq!(meta.date().unwrap(), None);
    assert_eq!(meta.author().unwrap(), None);
    assert_eq!(meta.product().unwrap(), None);
    assert_eq!(meta.copyright().unwrap(), None);
    assert_eq!(meta.comment().unwrap(), None);
    assert_eq!(meta.soundfont_tools().unwrap(), None);
}

#[test]
fn required_fields_absent_are_missing_chunks() {
    let buf = bank_with_info(&meta_normal(b"ICMT", b"only a comment\0\0"));
    let bank = Sf2SoundFont::new(&buf).unwrap();
    let meta = bank.info().unwrap();

    match meta.format_version() {
        Err(Sf2Error::MissingChunk { chunk_id }) => assert_eq!(&chunk_id, b"ifil"),
        _ => panic!("ifil is required"),
    }
    match meta.sound_engine() {
        Err(Sf2Error::MissingChunk { chunk_id }) => assert_eq!(&chunk_id, b"isng"),
        _ => panic!("isng is required"),
    }
    match meta.soundfont_name() {
        Err(Sf2Error::MissingChunk { chunk_id }) => assert_eq!(&chunk_id, b"INAM"),
        _ => panic!("INAM is required"),
    }
}

#[test]
fn version_chunk_of_wrong_size_is_malformed() {
    let buf = bank_with_info(&meta_normal(b"ifil", &[2, 0, 1, 0, 0, 0]));
    let bank = Sf2SoundFont::new(&buf).unwrap();
    let meta = bank.info().unwrap();
    match meta.format_version() {
        Err(e) => assert_eq!(e, Sf2Error::MalformedVersionChunk),
        Ok(_) => panic!("six bytes are not a version pair"),
    }
}

#[test]
fn string_without_terminator_is_malformed_zstr() {
    let buf = bank_with_info(&meta_normal(b"INAM", b"No terminator"));
    let bank = Sf2SoundFont::new(&buf).unwrap();
    let meta = bank.info().unwrap();
    match meta.soundfont_name() {
        Err(e) => assert_eq!(e, Sf2Error::MalformedZstr),
        Ok(_) => panic!("a zstr needs its NUL"),
    }
}

#[test]
fn string_with_invalid_utf8_is_malformed_zstr() {
    let buf = bank_with_info(&meta_normal(b"INAM", b"bad\xFF\x00"));
    let bank = Sf2SoundFont::new(&buf).unwrap();
    let meta = bank.info().unwrap();
    match meta.soundfont_name() {
        Err(e) => assert_eq!(e, Sf2Error::MalformedZstr),
        Ok(_) => panic!("0xFF is not UTF-8"),
    }
}

#[test]
fn tools_split_discards_empty_segments_and_keeps_duplicates() {
    let buf = bank_with_info(&meta_normal(b"ISFT", b":a::b:a:\0"));
    let bank = Sf2SoundFont::new(&buf).unwrap();
    let meta = bank.info().unwrap();
    assert_eq!(meta.soundfont_tools().unwrap(), Some(vec!["a", "b", "a"]));
}

#[test]
fn tools_of_empty_string_are_empty() {
    let buf = bank_with_info(&meta_normal(b"ISFT", b"\0\0"));
    let bank = Sf2SoundFont::new(&buf).unwrap();
    let meta = bank.info().unwrap();
    assert_eq!(meta.soundfont_tools().unwrap(), Some(vec![]));
}
