use gbhwdb_backend::error::ParseError;
use gbhwdb_backend::gen1_cpu::{
    dmg_cpu, dmg_cpu_blob, dmg_cpu_deprecated, dmg_cpu_lr35902, parse_gen1_cpu, sgb_cpu, Gen1Cpu,
    Gen1CpuKind,
};

fn cpu(kind: Gen1CpuKind, year: u16, week: u8) -> Gen1Cpu {
    Gen1Cpu { kind, year: Some(year), week: Some(week) }
}

#[test]
fn lr35902_example() {
    assert_eq!(
        parse_gen1_cpu("DMG-CPU LR35902 8907 D"),
        Some(Ok(cpu(Gen1CpuKind::Dmg0, 1989, 7)))
    );
}

#[test]
fn dmg_cpu_plain_example() {
    assert_eq!(
        parse_gen1_cpu("DMG-CPU © 1989 Nintendo JAPAN 8913 D"),
        Some(Ok(cpu(Gen1CpuKind::Dmg0, 1989, 13)))
    );
}

#[test]
fn dmg_cpu_a_example() {
    assert_eq!(
        parse_gen1_cpu("DMG-CPU A © 1989 Nintendo JAPAN 8937 D"),
        Some(Ok(cpu(Gen1CpuKind::DmgA, 1989, 37)))
    );
}

#[test]
fn dmg_cpu_b_example() {
    assert_eq!(
        parse_gen1_cpu("DMG-CPU B © 1989 Nintendo JAPAN 9207 D"),
        Some(Ok(cpu(Gen1CpuKind::DmgB, 1992, 7)))
    );
}

#[test]
fn dmg_cpu_c_example() {
    assert_eq!(
        parse_gen1_cpu("DMG-CPU C © 1989 Nintendo JAPAN 9835 D"),
        Some(Ok(cpu(Gen1CpuKind::DmgC, 1998, 35)))
    );
}

#[test]
fn dmg_cpu_two_letter_suffix() {
    assert_eq!(
        parse_gen1_cpu("DMG-CPU B © 1989 Nintendo JAPAN 9945 BA"),
        Some(Ok(cpu(Gen1CpuKind::DmgB, 1999, 45)))
    );
}

#[test]
fn blob_b_example() {
    assert_eq!(
        parse_gen1_cpu("B"),
        Some(Ok(Gen1Cpu { kind: Gen1CpuKind::DmgBlobB, year: None, week: None }))
    );
}

#[test]
fn blob_c_example() {
    assert_eq!(
        parse_gen1_cpu("C"),
        Some(Ok(Gen1Cpu { kind: Gen1CpuKind::DmgBlobC, year: None, week: None }))
    );
}

#[test]
fn deprecated_marking() {
    assert_eq!(parse_gen1_cpu("DMG-CPU 8907 D"), Some(Ok(cpu(Gen1CpuKind::Dmg0, 1989, 7))));
    assert_eq!(parse_gen1_cpu("DMG-CPU A 9025 BA"), Some(Ok(cpu(Gen1CpuKind::DmgA, 1990, 25))));
}

#[test]
fn sgb_example() {
    assert_eq!(
        parse_gen1_cpu("SGB-CPU 01 © 1994 Nintendo Ⓜ 1989 Nintendo JAPAN 9434 7 D"),
        Some(Ok(cpu(Gen1CpuKind::Sgb, 1994, 34)))
    );
}

#[test]
fn week_out_of_range_is_an_error_not_a_fall_through() {
    assert_eq!(
        parse_gen1_cpu("DMG-CPU © 1989 Nintendo JAPAN 8900 D"),
        Some(Err(ParseError::Week("00".to_string())))
    );
    assert_eq!(
        parse_gen1_cpu("DMG-CPU © 1989 Nintendo JAPAN 8954 D"),
        Some(Err(ParseError::Week("54".to_string())))
    );
}

#[test]
fn year_out_of_window_is_an_error() {
    assert_eq!(
        parse_gen1_cpu("DMG-CPU © 1989 Nintendo JAPAN 4513 D"),
        Some(Err(ParseError::Year("45".to_string())))
    );
}

#[test]
fn anchoring_rejects_extended_labels() {
    // a leading or trailing character on a valid label yields no match
    assert_eq!(parse_gen1_cpu(" DMG-CPU LR35902 8907 D"), None);
    assert_eq!(parse_gen1_cpu("DMG-CPU LR35902 8907 DX"), None);
    assert_eq!(parse_gen1_cpu("XB"), None);
    assert_eq!(parse_gen1_cpu("BC"), None);
    assert_eq!(parse_gen1_cpu(" SGB-CPU 01 © 1994 Nintendo Ⓜ 1989 Nintendo JAPAN 9434 7 D"), None);
}

#[test]
fn unknown_formats_yield_none() {
    assert_eq!(parse_gen1_cpu(""), None);
    assert_eq!(parse_gen1_cpu("CPU-DMG 8907 D"), None);
    assert_eq!(parse_gen1_cpu("DMG-CPU D © 1989 Nintendo JAPAN 8913 D"), None);
}

#[test]
fn matcher_order_first_structural_match_decides() {
    // the full grammar owns copyrighted markings; the deprecated one owns the
    // short form; each input is decided by the earliest matching grammar
    let copyrighted = "DMG-CPU © 1989 Nintendo JAPAN 8913 D";
    assert!(matches!(dmg_cpu(copyrighted), Some(Ok(_))));
    assert_eq!(dmg_cpu_deprecated(copyrighted), None);
    assert_eq!(parse_gen1_cpu(copyrighted), dmg_cpu(copyrighted));

    let short = "DMG-CPU 8907 D";
    assert_eq!(dmg_cpu(short), None);
    assert_eq!(dmg_cpu_lr35902(short), None);
    assert!(matches!(dmg_cpu_deprecated(short), Some(Ok(_))));
    assert_eq!(parse_gen1_cpu(short), dmg_cpu_deprecated(short));

    let blob = "B";
    assert!(matches!(dmg_cpu_blob(blob), Some(Ok(_))));
    assert_eq!(parse_gen1_cpu(blob), dmg_cpu_blob(blob));

    let sgb = "SGB-CPU 01 © 1994 Nintendo Ⓜ 1989 Nintendo JAPAN 9434 7 D";
    assert!(matches!(sgb_cpu(sgb), Some(Ok(_))));
    assert_eq!(parse_gen1_cpu(sgb), sgb_cpu(sgb));
}

#[test]
fn decode_is_deterministic_across_calls() {
    let inputs = [
        "DMG-CPU LR35902 8907 D",
        "DMG-CPU © 1989 Nintendo JAPAN 8900 D",
        "B",
        "not a label",
    ];
    for text in inputs {
        let first = parse_gen1_cpu(text);
        let second = parse_gen1_cpu(text);
        assert_eq!(first, second);
    }
}
