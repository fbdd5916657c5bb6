use nes_cpu_oracle::decoder::{decode_status, UNKNOWN_FAILURE};
use nes_cpu_oracle::outcome::RunOutcome;
use nes_cpu_oracle::table::{diagnostic_entries, BytePattern};

fn diagnosed(text: &str) -> RunOutcome {
    RunOutcome::Diagnosed(text.to_string())
}

#[test]
fn zero_byte_pairs_pass() {
    assert_eq!(decode_status(0, 0), RunOutcome::Passed);
    assert_eq!(decode_status(0, 7), RunOutcome::Passed);
    assert_eq!(decode_status(5, 0), RunOutcome::Passed);
    assert_eq!(decode_status(0xFF, 0), RunOutcome::Passed);
    assert_eq!(decode_status(0, 0xFF), RunOutcome::Passed);
}

#[test]
fn first_byte_codes_name_their_defect() {
    assert_eq!(decode_status(0x01, 0x07), diagnosed("BCS failed to branch"));
    assert_eq!(decode_status(0x01, 0xFF), diagnosed("BCS failed to branch"));
    assert_eq!(decode_status(0x05, 0x01), diagnosed("BEQ failed to branch"));
    assert_eq!(decode_status(0x18, 0x33), diagnosed("ORA # failure"));
    assert_eq!(decode_status(0x4A, 0x10), diagnosed("LSR A  failed"));
    assert_eq!(decode_status(0x71, 0x02), diagnosed("SBC # failure"));
    assert_eq!(decode_status(0xFE, 0x80), diagnosed("CMP failure"));
}

#[test]
fn second_byte_codes_name_their_defect() {
    assert_eq!(
        decode_status(0xFF, 0x07),
        diagnosed("JMP () data reading didn't wrap properly (this fails on a 65C02)")
    );
    assert_eq!(decode_status(0xFF, 0x37), diagnosed("LDA failure to wrap properly from ffffh to 0000h"));
    assert_eq!(decode_status(0xFF, 0x7C), diagnosed("LAX (indr,x) failure"));
    assert_eq!(decode_status(0xFF, 0xFD), diagnosed("SRE abs,x failure"));
}

#[test]
fn isb_codes_carry_dcp_texts() {
    assert_eq!(decode_status(0xFF, 0xAA), diagnosed("DCP (indr,x) failure"));
    assert_eq!(decode_status(0xFF, 0xBE), diagnosed("DCP abs,x failure"));
}

#[test]
fn earlier_entry_wins_over_later_nop_entry() {
    // The second-byte entry for 0x05 comes before the NOP entry for 0x4E.
    assert_eq!(decode_status(0x4E, 0x05), diagnosed("SBC failure"));
    assert_eq!(decode_status(0x57, 0x7B), diagnosed("LDX,Y failure"));
    // From 0x7C on, the NOP entry comes first.
    assert_eq!(decode_status(0x4E, 0x7C), diagnosed("absolute,X NOPs less than 3 bytes long"));
    assert_eq!(decode_status(0x57, 0xFF), diagnosed("ZP NOPs less than 2 bytes long"));
}

#[test]
fn first_byte_entries_win_over_second_byte_entries() {
    assert_eq!(decode_status(0x01, 0x01), diagnosed("BCS failed to branch"));
    assert_eq!(decode_status(0xEA, 0x07), diagnosed("LDA didn't load what it was supposed to"));
}

#[test]
fn unmatched_pairs_are_unknown_failures() {
    assert_eq!(UNKNOWN_FAILURE, "unknown failure");
    assert_eq!(decode_status(0xFF, 0xFF), diagnosed("unknown failure"));
    assert_eq!(decode_status(0xFF, 0xFE), diagnosed("unknown failure"));
}

#[test]
fn table_has_every_enabled_entry_in_order() {
    let t = diagnostic_entries();
    assert_eq!(t.len(), 507);
    assert_eq!(t[0].first, BytePattern::Is(0x01));
    assert_eq!(t[0].second, BytePattern::Any);
    assert_eq!(t[0].text, "BCS failed to branch");
    let first_codes = t.iter().filter(|e| e.second == BytePattern::Any).count();
    let second_codes = t.iter().filter(|e| e.first == BytePattern::Any).count();
    assert_eq!(first_codes, 254);
    assert_eq!(second_codes, 253);
    assert_eq!(t[506].second, BytePattern::Is(0xFD));
}

#[test]
fn every_non_zero_pair_decodes_to_a_diagnosis() {
    for b1 in 1..=255u8 {
        for b2 in 1..=255u8 {
            assert!(matches!(decode_status(b1, b2), RunOutcome::Diagnosed(_)));
        }
    }
}
