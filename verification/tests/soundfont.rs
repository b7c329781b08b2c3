use sf2_riff::{Sf2Error, Sf2SoundFont};

fn sf_normal(id: &[u8; 4], payload: &[u8]) -> Vec<u8> {
    let mut out = Vec::new();
    out.extend_from_slice(id);
    out.extend_from_slice(&(payload.len() as u32).to_le_bytes());
    out.extend_from_slice(payload);
    if payload.len() % 2 == 1 {
        out.push(0);
    }
    out
}

fn sf_container(marker: &[u8; 4], type_id: &[u8; 4], children: &[u8]) -> Vec<u8> {
    let mut out = Vec::new();
    out.extend_from_slice(marker);
    out.extend_from_slice(&((children.len() + 4) as u32).to_le_bytes());
    out.extend_from_slice(type_id);
    out.extend_from_slice(children);
    out
}

fn sf_preset_record(name: &str, preset: u16, bank: u16) -> Vec<u8> {
    let mut out = vec![0u8; 20];
    out[..name.len()].copy_from_slice(name.as_bytes());
    out.extend_from_slice(&preset.to_le_bytes());
    out.extend_from_slice(&bank.to_le_bytes());
    out.extend_from_slice(&[0u8; 14]);
    out
}

/// Root `sfbk` with an `INFO` list (`ifil` 2.1, `INAM` "Test Bank") and a
/// `pdta` list whose `phdr` holds two presets plus the terminator.
fn sf_scenario_buffer() -> Vec<u8> {
    let mut info_children = Vec::new();
    info_children.extend_from_slice(&sf_normal(b"ifil", &[2, 0, 1, 0]));
    info_children.extend_from_slice(&sf_normal(b"INAM", b"Test Bank\0"));

    let mut phdr = Vec::new();
    phdr.extend_from_slice(&sf_preset_record("First", 0, 0));
    phdr.extend_from_slice(&sf_preset_record("Second", 1, 0));
    phdr.extend_from_slice(&sf_preset_record("EOP", 0, 0));

    let mut pdta_children = Vec::new();
    pdta_children.extend_from_slice(&sf_normal(b"phdr", &phdr));

    let mut root_children = Vec::new();
    root_children.extend_from_slice(&sf_container(b"LIST", b"INFO", &info_children));
    root_children.extend_from_slice(&sf_container(b"LIST", b"pdta", &pdta_children));
    sf_container(b"RIFF", b"sfbk", &root_children)
}

#[test]
fn scenario_full_bank_parses() {
    let buf = sf_scenario_buffer();
    let bank = Sf2SoundFont::new(&buf).unwrap();

    let info = bank.info().unwrap();
    assert_eq!(info.format_version().unwrap(), (2, 1));
    assert_eq!(info.soundfont_name().unwrap(), "Test Bank");

    let headers = bank.preset_headers().unwrap();
    assert_eq!(headers.len(), 2);
    assert_eq!(headers[0].preset_name().unwrap(), "First");
    assert_eq!(headers[1].preset_name().unwrap(), "Second");
}

#[test]
fn scenario_empty_phdr_is_missing_terminator() {
    let mut pdta_children = Vec::new();
    pdta_children.extend_from_slice(&sf_normal(b"phdr", b""));
    let root_children = sf_container(b"LIST", b"pdta", &pdta_children);
    let buf = sf_container(b"RIFF", b"sfbk", &root_children);

    let bank = Sf2SoundFont::new(&buf).unwrap();
    match bank.preset_headers() {
        Err(Sf2Error::MissingTerminatorRecord { chunk_id }) => {
            assert_eq!(&chunk_id, b"phdr");
        }
        _ => panic!("zero-byte phdr has no terminator"),
    }
}

#[test]
fn scenario_wrong_root_id_is_invalid_root() {
    let buf = sf_container(b"RIFF", b"XXXX", b"");
    match Sf2SoundFont::new(&buf) {
        Err(e) => assert_eq!(e, Sf2Error::InvalidRootChunk),
        Ok(_) => panic!("only sfbk roots are sound fonts"),
    }
}

#[test]
fn scenario_missing_info_leaves_presets_readable() {
    let mut phdr = Vec::new();
    phdr.extend_from_slice(&sf_preset_record("Solo", 3, 1));
    phdr.extend_from_slice(&sf_preset_record("EOP", 0, 0));
    let mut pdta_children = Vec::new();
    pdta_children.extend_from_slice(&sf_normal(b"phdr", &phdr));
    let root_children = sf_container(b"LIST", b"pdta", &pdta_children);
    let buf = sf_container(b"RIFF", b"sfbk", &root_children);

    let bank = Sf2SoundFont::new(&buf).unwrap();
    match bank.info() {
        Err(Sf2Error::MissingChunk { chunk_id }) => assert_eq!(&chunk_id, b"INFO"),
        _ => panic!("the INFO list is absent"),
    }
    let headers = bank.preset_headers().unwrap();
    assert_eq!(headers.len(), 1);
    assert_eq!(headers[0].preset_name().unwrap(), "Solo");
    assert_eq!(headers[0].bank_preset(), (1, 3));
}

#[test]
fn missing_pdta_leaf_is_reported_by_id() {
    let root_children = sf_container(b"LIST", b"pdta", b"");
    let buf = sf_container(b"RIFF", b"sfbk", &root_children);
    let bank = Sf2SoundFont::new(&buf).unwrap();
    match bank.sample_headers() {
        Err(Sf2Error::MissingChunk { chunk_id }) => assert_eq!(&chunk_id, b"shdr"),
        _ => panic!("shdr is absent"),
    }
    match bank.instrument_headers() {
        Err(Sf2Error::MissingChunk { chunk_id }) => assert_eq!(&chunk_id, b"inst"),
        _ => panic!("inst is absent"),
    }
}

#[test]
fn missing_pdta_list_is_reported() {
    let buf = sf_container(b"RIFF", b"sfbk", b"");
    let bank = Sf2SoundFont::new(&buf).unwrap();
    match bank.preset_zones() {
        Err(Sf2Error::MissingChunk { chunk_id }) => assert_eq!(&chunk_id, b"pdta"),
        _ => panic!("pdta is absent"),
    }
}

#[test]
fn zone_generator_modulator_arrays_parse() {
    let mut pdta_children = Vec::new();
    // Two pbag zones plus terminator.
    let mut pbag = Vec::new();
    for (g, m) in [(0u16, 0u16), (2, 1), (0, 0)] {
        pbag.extend_from_slice(&g.to_le_bytes());
        pbag.extend_from_slice(&m.to_le_bytes());
    }
    pdta_children.extend_from_slice(&sf_normal(b"pbag", &pbag));
    // One pgen generator plus terminator.
    let mut pgen = Vec::new();
    pgen.extend_from_slice(&41u16.to_le_bytes());
    pgen.extend_from_slice(&7u16.to_le_bytes());
    pgen.extend_from_slice(&[0u8; 4]);
    pdta_children.extend_from_slice(&sf_normal(b"pgen", &pgen));
    // One pmod modulator plus terminator.
    let mut pmod = Vec::new();
    pmod.extend_from_slice(&1u16.to_le_bytes());
    pmod.extend_from_slice(&2u16.to_le_bytes());
    pmod.extend_from_slice(&(-3i16).to_le_bytes());
    pmod.extend_from_slice(&4u16.to_le_bytes());
    pmod.extend_from_slice(&5u16.to_le_bytes());
    pmod.extend_from_slice(&[0u8; 10]);
    pdta_children.extend_from_slice(&sf_normal(b"pmod", &pmod));

    let root_children = sf_container(b"LIST", b"pdta", &pdta_children);
    let buf = sf_container(b"RIFF", b"sfbk", &root_children);
    let bank = Sf2SoundFont::new(&buf).unwrap();

    let zones = bank.preset_zones().unwrap();
    assert_eq!(zones.len(), 2);
    assert_eq!(zones[1].generator_index, 2);
    assert_eq!(zones[1].modulator_index, 1);

    let gens = bank.preset_generators().unwrap();
    assert_eq!(gens.len(), 1);
    assert_eq!(gens[0].gen_oper, 41);
    assert_eq!(gens[0].gen_amount, 7);

    let mods = bank.preset_modulators().unwrap();
    assert_eq!(mods.len(), 1);
    assert_eq!(mods[0].mod_src_oper, 1);
    assert_eq!(mods[0].mod_dest_oper, 2);
    assert_eq!(mods[0].mod_amount, -3);
    assert_eq!(mods[0].mod_amt_src_oper, 4);
    assert_eq!(mods[0].mod_trans_oper, 5);
}

#[test]
fn instrument_and_sample_arrays_parse() {
    let mut inst = vec![0u8; 20];
    inst[..5].copy_from_slice(b"Flute");
    inst.extend_from_slice(&4u16.to_le_bytes());
    inst.extend_from_slice(&[0u8; 22]);

    let mut shdr = vec![0u8; 20];
    shdr[..4].copy_from_slice(b"Loop");
    shdr.extend_from_slice(&10u32.to_le_bytes());
    shdr.extend_from_slice(&90u32.to_le_bytes());
    shdr.extend_from_slice(&20u32.to_le_bytes());
    shdr.extend_from_slice(&80u32.to_le_bytes());
    shdr.extend_from_slice(&44100u32.to_le_bytes());
    shdr.push(60);
    shdr.push((-5i8) as u8);
    shdr.extend_from_slice(&1u16.to_le_bytes());
    shdr.extend_from_slice(&2u16.to_le_bytes());
    shdr.extend_from_slice(&[0u8; 46]);

    let mut ibag = Vec::new();
    ibag.extend_from_slice(&9u16.to_le_bytes());
    ibag.extend_from_slice(&8u16.to_le_bytes());
    ibag.extend_from_slice(&[0u8; 4]);

    let mut pdta_children = Vec::new();
    pdta_children.extend_from_slice(&sf_normal(b"inst", &inst));
    pdta_children.extend_from_slice(&sf_normal(b"shdr", &shdr));
    pdta_children.extend_from_slice(&sf_normal(b"ibag", &ibag));
    let root_children = sf_container(b"LIST", b"pdta", &pdta_children);
    let buf = sf_container(b"RIFF", b"sfbk", &root_children);
    let bank = Sf2SoundFont::new(&buf).unwrap();

    let instruments = bank.instrument_headers().unwrap();
    assert_eq!(instruments.len(), 1);
    assert_eq!(instruments[0].instrument_name().unwrap(), "Flute");
    assert_eq!(instruments[0].instrument_bag_index, 4);

    let samples = bank.sample_headers().unwrap();
    assert_eq!(samples.len(), 1);
    assert_eq!(samples[0].sample_name().unwrap(), "Loop");
    assert_eq!(samples[0].start, 10);
    assert_eq!(samples[0].end, 90);
    assert_eq!(samples[0].start_loop, 20);
    assert_eq!(samples[0].end_loop, 80);
    assert_eq!(samples[0].sample_rate, 44100);
    assert_eq!(samples[0].original_pitch, 60);
    assert_eq!(samples[0].pitch_correction, -5);
    assert_eq!(samples[0].sample_link, 1);
    assert_eq!(samples[0].sample_type, 2);

    let zones = bank.instrument_zones().unwrap();
    assert_eq!(zones.len(), 1);
    assert_eq!(zones[0].generator_index, 9);
    assert_eq!(zones[0].modulator_index, 8);

    match bank.instrument_generators() {
        Err(Sf2Error::MissingChunk { chunk_id }) => assert_eq!(&chunk_id, b"igen"),
        _ => panic!("igen is absent"),
    }
    match bank.instrument_modulators() {
        Err(Sf2Error::MissingChunk { chunk_id }) => assert_eq!(&chunk_id, b"imod"),
        _ => panic!("imod is absent"),
    }
}

#[test]
fn non_sfbk_buffer_errors_are_forwarded() {
    match Sf2SoundFont::new(b"") {
        Err(Sf2Error::RiffError(e)) => assert_eq!(e, sf2_riff::RiffError::MissingChunk),
        _ => panic!("nothing to parse"),
    }
}
