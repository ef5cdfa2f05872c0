use gbhwdb_backend::calendar::Year;
use gbhwdb_backend::error::ParseError;
use gbhwdb_backend::mask_rom::{
    at_t, fujitsu, glop_top, macronix, macronix2, map_sharp_mask_rom, nec, nec_like,
    oki_mr531614g, oki_msm538011e, parse_mask_rom, samsung, samsung2, sharp, sharp2, sharp3,
    smsc, toshiba, MaskRom,
};
use gbhwdb_backend::tables::Manufacturer;

fn rom(
    rom_code: &str,
    manufacturer: Option<Manufacturer>,
    chip_type: Option<&str>,
    year: Option<Year>,
    week: Option<u8>,
) -> MaskRom {
    MaskRom {
        rom_code: rom_code.to_string(),
        manufacturer,
        chip_type: chip_type.map(|c| c.to_string()),
        year,
        week,
    }
}

#[test]
fn sharp_examples() {
    assert_eq!(
        parse_mask_rom("DMG-WJA-0 S LH534M05 JAPAN E1 9606 D"),
        Some(Ok(rom(
            "DMG-WJA-0",
            Some(Manufacturer::Sharp),
            Some("LH534M"),
            Some(Year::Full(1996)),
            Some(6),
        )))
    );
    assert_eq!(
        parse_mask_rom("DMG-AP2J-0 S LH534MVD JAPAN E1 9639 D"),
        Some(Ok(rom(
            "DMG-AP2J-0",
            Some(Manufacturer::Sharp),
            Some("LH534M"),
            Some(Year::Full(1996)),
            Some(39),
        )))
    );
    assert_eq!(
        parse_mask_rom("DMG-HFAJ-0 S LHMN4MTI JAPAN E 9838 E"),
        Some(Ok(rom(
            "DMG-HFAJ-0",
            Some(Manufacturer::Sharp),
            Some("LHMN4M"),
            Some(Year::Full(1998)),
            Some(38),
        )))
    );
}

#[test]
fn sharp2_example() {
    assert_eq!(
        parse_mask_rom("DMG-TRA-1 SHARP JAPAN A0 9019 D"),
        Some(Ok(rom("DMG-TRA-1", Some(Manufacturer::Sharp), None, Some(Year::Full(1990)), Some(19))))
    );
}

#[test]
fn sharp3_example() {
    assert_eq!(
        parse_mask_rom("DMG-AWA-0 SHARP JAPAN 8909 D A"),
        Some(Ok(rom("DMG-AWA-0", Some(Manufacturer::Sharp), None, Some(Year::Full(1989)), Some(9))))
    );
}

#[test]
fn macronix_examples() {
    assert_eq!(
        parse_mask_rom("M003119-M MX23C1603-12A DMG-VPHP-0 G2 2C882503"),
        Some(Ok(rom(
            "DMG-VPHP-0",
            Some(Manufacturer::Macronix),
            Some("MX23C1603-12A"),
            Some(Year::Full(2000)),
            Some(31),
        )))
    );
    assert_eq!(
        parse_mask_rom("E013104-M MX23C1603-12A CGB-BFPU-0 G2 1D2907A1B1"),
        Some(Ok(rom(
            "CGB-BFPU-0",
            Some(Manufacturer::Macronix),
            Some("MX23C1603-12A"),
            Some(Year::Full(2001)),
            Some(31),
        )))
    );
    assert_eq!(
        parse_mask_rom("T991349-M MX23C8006-12 DMG-VPHJ-0 F 1A4891A2"),
        Some(Ok(rom(
            "DMG-VPHJ-0",
            Some(Manufacturer::Macronix),
            Some("MX23C8006-12"),
            Some(Year::Full(1999)),
            Some(13),
        )))
    );
    assert_eq!(
        parse_mask_rom("M004523-M MX23C3203-11A2 CGB-B82J-0 02 H2 2D224301"),
        Some(Ok(rom(
            "CGB-B82J-0",
            Some(Manufacturer::Macronix),
            Some("MX23C3203-11A2"),
            Some(Year::Full(2000)),
            Some(45),
        )))
    );
}

#[test]
fn macronix2_example() {
    assert_eq!(
        parse_mask_rom("C9745-M MX23C4002-20 DMG-APOJ-0 E1 43824C"),
        Some(Ok(rom(
            "DMG-APOJ-0",
            Some(Manufacturer::Macronix),
            Some("MX23C4002-20"),
            Some(Year::Full(1997)),
            Some(45),
        )))
    );
}

#[test]
fn oki_msm538011e_example() {
    assert_eq!(
        parse_mask_rom("DMG-AM6J-0 F1 M538011E-36 9085401"),
        Some(Ok(rom(
            "DMG-AM6J-0",
            Some(Manufacturer::Oki),
            Some("MSM538011E"),
            Some(Year::Partial(9)),
            Some(8),
        )))
    );
}

#[test]
fn oki_mr531614g_example() {
    assert_eq!(
        parse_mask_rom("CGB-BPTE-0 G2 R531614G-44 044232E"),
        Some(Ok(rom(
            "CGB-BPTE-0",
            Some(Manufacturer::Oki),
            Some("MR531614G"),
            Some(Year::Partial(0)),
            Some(44),
        )))
    );
}

#[test]
fn nec_example() {
    assert_eq!(
        parse_mask_rom("NEC JAPAN DMG-SAJ-0 C1 UPD23C1001EGW-J01 9010E9702"),
        Some(Ok(rom(
            "DMG-SAJ-0",
            Some(Manufacturer::Nec),
            Some("UPD23C1001EGW"),
            Some(Year::Full(1990)),
            Some(10),
        )))
    );
}

#[test]
fn nec_like_example() {
    assert_eq!(
        parse_mask_rom("DMG-ZLE-0 E1 N-4001EAGW-J14 9329X7007"),
        Some(Ok(rom("DMG-ZLE-0", None, Some("N-4001EAGW"), Some(Year::Full(1993)), Some(29))))
    );
}

#[test]
fn at_t_example() {
    assert_eq!(
        parse_mask_rom("Ⓜ AT&T JAPAN DMG-Q6E-0 C1 23C1001EAGW-K37 9351E9005"),
        Some(Ok(rom(
            "DMG-Q6E-0",
            Some(Manufacturer::AtT),
            Some("23C1001EAGW"),
            Some(Year::Full(1993)),
            Some(51),
        )))
    );
}

#[test]
fn smsc_example() {
    assert_eq!(
        parse_mask_rom("STANDARD MICRO DMG-BIA-0 C1 23C1001EGW-J61 9140E9017"),
        Some(Ok(rom(
            "DMG-BIA-0",
            Some(Manufacturer::Smsc),
            Some("23C1001EGW"),
            Some(Year::Full(1991)),
            Some(40),
        )))
    );
}

#[test]
fn glop_top_example() {
    assert_eq!(
        parse_mask_rom("LR0G150 DMG-TRA-1 97141"),
        Some(Ok(rom("DMG-TRA-1", None, Some("LR0G150"), Some(Year::Full(1997)), Some(14))))
    );
}

#[test]
fn toshiba_example() {
    assert_eq!(
        parse_mask_rom("TOSHIBA 9136EAI TC531001CF DMG-NCE-0 C1 J541 JAPAN"),
        Some(Ok(rom(
            "DMG-NCE-0",
            Some(Manufacturer::Toshiba),
            Some("TC531001CF"),
            Some(Year::Full(1991)),
            Some(36),
        )))
    );
}

#[test]
fn samsung_example() {
    assert_eq!(
        parse_mask_rom("SEC KM23C16120DT CGB-BHMJ-0 G2 K3N5C317GD"),
        Some(Ok(rom("CGB-BHMJ-0", Some(Manufacturer::Samsung), Some("KM23C16120DT"), None, None)))
    );
}

#[test]
fn samsung2_example() {
    assert_eq!(
        parse_mask_rom("SEC KM23C8000DG DMG-AAUJ-1 F1 KFX331U"),
        Some(Ok(rom("DMG-AAUJ-1", Some(Manufacturer::Samsung), Some("KM23C8000DG"), None, None)))
    );
}

#[test]
fn fujitsu_examples() {
    assert_eq!(
        parse_mask_rom("JAPAN DMG-GKX-0 D1 1P0 AK 9328 R09"),
        Some(Ok(rom("DMG-GKX-0", Some(Manufacturer::Fujitsu), None, Some(Year::Full(1993)), Some(28))))
    );
    assert_eq!(
        parse_mask_rom("JAPAN DMG-WJA-0 E1 3NH AK 9401 R17"),
        Some(Ok(rom("DMG-WJA-0", Some(Manufacturer::Fujitsu), None, Some(Year::Full(1994)), Some(1))))
    );
}

#[test]
fn alias_table_known_code_yields_canonical_type() {
    assert_eq!(map_sharp_mask_rom("LH5359"), Some("LH53259"));
    assert_eq!(map_sharp_mask_rom("LH5317"), Some("LH53517"));
    assert_eq!(map_sharp_mask_rom("LH531H"), Some("LH530800A"));
    assert_eq!(map_sharp_mask_rom("LH5308"), Some("LH530800"));
    assert_eq!(map_sharp_mask_rom("LH5314"), Some("LH53514"));
    assert_eq!(map_sharp_mask_rom("LH5321"), Some("LH532100"));
}

#[test]
fn alias_table_unresolved_codes_miss() {
    assert_eq!(map_sharp_mask_rom("LH534M"), None);
    assert_eq!(map_sharp_mask_rom("LHMN4M"), None);
    assert_eq!(map_sharp_mask_rom("LH537M"), None);
    assert_eq!(map_sharp_mask_rom("ZZZZZZ"), None);
    assert_eq!(map_sharp_mask_rom(""), None);
}

#[test]
fn alias_resolution_inside_decode() {
    // a printed code the table knows comes back canonical
    assert_eq!(
        parse_mask_rom("DMG-ABC-0 S LH5359XX JAPAN A 9012 A"),
        Some(Ok(rom(
            "DMG-ABC-0",
            Some(Manufacturer::Sharp),
            Some("LH53259"),
            Some(Year::Full(1990)),
            Some(12),
        )))
    );
    // a printed code the table misses passes through verbatim, never a failure
    assert_eq!(
        parse_mask_rom("DMG-ABC-0 S LH9999XX JAPAN A 9012 A"),
        Some(Ok(rom(
            "DMG-ABC-0",
            Some(Manufacturer::Sharp),
            Some("LH9999"),
            Some(Year::Full(1990)),
            Some(12),
        )))
    );
}

#[test]
fn rom_week_out_of_range_is_an_error() {
    assert_eq!(
        parse_mask_rom("DMG-TRA-1 SHARP JAPAN A0 9000 D"),
        Some(Err(ParseError::Week("00".to_string())))
    );
    assert_eq!(
        parse_mask_rom("DMG-AM6J-0 F1 M538011E-36 9995401"),
        Some(Err(ParseError::Week("99".to_string())))
    );
}

#[test]
fn rom_year_out_of_window_is_an_error() {
    assert_eq!(
        parse_mask_rom("DMG-AWA-0 SHARP JAPAN 4509 D A"),
        Some(Err(ParseError::Year("45".to_string())))
    );
}

#[test]
fn rom_anchoring_rejects_extended_labels() {
    assert_eq!(parse_mask_rom(" DMG-WJA-0 S LH534M05 JAPAN E1 9606 D"), None);
    assert_eq!(parse_mask_rom("DMG-AWA-0 SHARP JAPAN 8909 D A "), None);
    assert_eq!(parse_mask_rom("XLR0G150 DMG-TRA-1 97141"), None);
    assert_eq!(parse_mask_rom("LR0G150 DMG-TRA-1 971411"), None);
}

#[test]
fn rom_unknown_formats_yield_none() {
    assert_eq!(parse_mask_rom(""), None);
    assert_eq!(parse_mask_rom("DMG-WJA-0"), None);
    assert_eq!(parse_mask_rom("SEC KM23C16120DT"), None);
}

#[test]
fn rom_matchers_own_their_grammars() {
    // each grammar matches its own example and no other matcher's
    let sharp_label = "DMG-WJA-0 S LH534M05 JAPAN E1 9606 D";
    assert!(matches!(sharp(sharp_label), Some(Ok(_))));
    assert_eq!(sharp2(sharp_label), None);
    assert_eq!(sharp3(sharp_label), None);
    assert_eq!(parse_mask_rom(sharp_label), sharp(sharp_label));

    let sharp2_label = "DMG-TRA-1 SHARP JAPAN A0 9019 D";
    assert_eq!(sharp(sharp2_label), None);
    assert!(matches!(sharp2(sharp2_label), Some(Ok(_))));
    assert_eq!(sharp3(sharp2_label), None);

    let sharp3_label = "DMG-AWA-0 SHARP JAPAN 8909 D A";
    assert_eq!(sharp2(sharp3_label), None);
    assert!(matches!(sharp3(sharp3_label), Some(Ok(_))));

    assert!(matches!(macronix("M003119-M MX23C1603-12A DMG-VPHP-0 G2 2C882503"), Some(Ok(_))));
    assert!(matches!(macronix2("C9745-M MX23C4002-20 DMG-APOJ-0 E1 43824C"), Some(Ok(_))));
    assert!(matches!(oki_msm538011e("DMG-AM6J-0 F1 M538011E-36 9085401"), Some(Ok(_))));
    assert!(matches!(oki_mr531614g("CGB-BPTE-0 G2 R531614G-44 044232E"), Some(Ok(_))));
    assert!(matches!(nec("NEC JAPAN DMG-SAJ-0 C1 UPD23C1001EGW-J01 9010E9702"), Some(Ok(_))));
    assert!(matches!(nec_like("DMG-ZLE-0 E1 N-4001EAGW-J14 9329X7007"), Some(Ok(_))));
    assert!(matches!(at_t("Ⓜ AT&T JAPAN DMG-Q6E-0 C1 23C1001EAGW-K37 9351E9005"), Some(Ok(_))));
    assert!(matches!(smsc("STANDARD MICRO DMG-BIA-0 C1 23C1001EGW-J61 9140E9017"), Some(Ok(_))));
    assert!(matches!(glop_top("LR0G150 DMG-TRA-1 97141"), Some(Ok(_))));
    assert!(matches!(toshiba("TOSHIBA 9136EAI TC531001CF DMG-NCE-0 C1 J541 JAPAN"), Some(Ok(_))));
    assert!(matches!(samsung("SEC KM23C16120DT CGB-BHMJ-0 G2 K3N5C317GD"), Some(Ok(_))));
    assert!(matches!(samsung2("SEC KM23C8000DG DMG-AAUJ-1 F1 KFX331U"), Some(Ok(_))));
    assert!(matches!(fujitsu("JAPAN DMG-GKX-0 D1 1P0 AK 9328 R09"), Some(Ok(_))));
}

#[test]
fn rom_decode_is_deterministic_across_calls() {
    let inputs = [
        "DMG-WJA-0 S LH534M05 JAPAN E1 9606 D",
        "DMG-TRA-1 SHARP JAPAN A0 9000 D",
        "SEC KM23C16120DT CGB-BHMJ-0 G2 K3N5C317GD",
        "not a label",
    ];
    for text in inputs {
        let first = parse_mask_rom(text);
        let second = parse_mask_rom(text);
        assert_eq!(first, second);
    }
}
