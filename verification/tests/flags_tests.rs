use zx_core::flags::{
    add_flags, and_flags, cp_flags, dec_flags, inc_flags, or_xor_flags, parity, parity_flag, sign,
    sub_flags, sz53_flags, undoc, zero,
};

#[test]
fn test_parity_matches_popcount() {
    // parity(r) holds exactly when the number of one bits is even
    for r in 0..=255u8 {
        assert_eq!(parity(r), r.count_ones() % 2 == 0);
    }
}

#[test]
fn test_parity_examples() {
    assert!(parity(0x00));
    assert!(!parity(0x01));
    assert!(parity(0x03));
    assert!(parity(0xFF));
    assert!(!parity(0xFE));
}

#[test]
fn test_basic_predicates() {
    assert!(sign(0x80));
    assert!(!sign(0x7F));
    assert!(zero(0));
    assert!(!zero(1));
    assert_eq!(undoc(0xFF), 0x28);
    assert_eq!(undoc(0x08), 0x08);
    assert_eq!(sz53_flags(0x00), 0x40);
    assert_eq!(sz53_flags(0x80), 0x80);
    assert_eq!(sz53_flags(0x28), 0x28);
    assert_eq!(parity_flag(0x03), 0x04);
    assert_eq!(parity_flag(0x01), 0x00);
}

#[test]
fn test_add_flags_carry_rule() {
    // carry exactly when the unsigned sum exceeds 0xFF
    for &(a, b) in &[(0xFFu8, 0x01u8), (0x80, 0x80), (0x7F, 0x01), (0x00, 0x00)] {
        let r = a.wrapping_add(b);
        let f = add_flags(a, b, r, false);
        assert_eq!(f & 0x01 != 0, (a as u16) + (b as u16) > 0xFF, "a={a} b={b}");
        assert_eq!(
            f & 0x10 != 0,
            (a & 0x0F) + (b & 0x0F) > 0x0F,
            "half carry a={a} b={b}"
        );
    }
    // 0x7F + 1 overflows the signed range
    assert_ne!(add_flags(0x7F, 0x01, 0x80, false) & 0x04, 0);
}

#[test]
fn test_sub_flags_borrow_rule() {
    for &(a, b) in &[(0x00u8, 0x01u8), (0x10, 0x20), (0x20, 0x10), (0x42, 0x42)] {
        let r = a.wrapping_sub(b);
        let f = sub_flags(a, b, r, false);
        assert_eq!(f & 0x01 != 0, a < b, "a={a} b={b}");
        assert_eq!(f & 0x10 != 0, (a & 0x0F) < (b & 0x0F), "a={a} b={b}");
        assert_ne!(f & 0x02, 0); // N always set
    }
    assert_eq!(sub_flags(0x00, 0x01, 0xFF, false), 0xBB);
}

#[test]
fn test_add_sub_carry_all_pairs() {
    // the carry and half-carry rules hold for every operand pair
    for a in 0..=255u8 {
        for b in 0..=255u8 {
            let fa = add_flags(a, b, a.wrapping_add(b), false);
            assert_eq!(fa & 0x01 != 0, (a as u16) + (b as u16) > 0xFF);
            assert_eq!(fa & 0x10 != 0, (a & 0x0F) + (b & 0x0F) > 0x0F);
            let fs = sub_flags(a, b, a.wrapping_sub(b), false);
            assert_eq!(fs & 0x01 != 0, a < b);
            assert_eq!(fs & 0x10 != 0, (a & 0x0F) < (b & 0x0F));
        }
    }
}

#[test]
fn test_inc_dec_flags() {
    // INC 0x7F overflows; INC 0x0F half-carries
    assert_ne!(inc_flags(0x7F, 0x80) & 0x04, 0);
    assert_ne!(inc_flags(0x0F, 0x10) & 0x10, 0);
    assert_eq!(inc_flags(0x01, 0x02) & 0x14, 0);
    // DEC 0x80 overflows; DEC 0x10 half-borrows; N always set
    assert_ne!(dec_flags(0x80, 0x7F) & 0x04, 0);
    assert_ne!(dec_flags(0x10, 0x0F) & 0x10, 0);
    assert_ne!(dec_flags(0x05, 0x04) & 0x02, 0);
}

#[test]
fn test_and_or_xor_flags() {
    // AND always sets H; OR/XOR never do; parity lands in PV for both
    assert_eq!(and_flags(0x00), 0x54); // Z | H | PV
    assert_eq!(or_xor_flags(0x00), 0x44); // Z | PV
    assert_eq!(and_flags(0x01) & 0x04, 0); // odd parity
    assert_eq!(or_xor_flags(0x03) & 0x04, 0x04); // even parity
}

#[test]
fn test_cp_flags_undocumented_from_operand() {
    // F3/F5 come from the operand, not the result
    let f = cp_flags(0x10, 0x28);
    assert_eq!(f & 0x28, 0x28);
    assert_ne!(f & 0x01, 0); // 0x10 < 0x28: borrow
    let g = cp_flags(0x80, 0x00);
    assert_eq!(g & 0x28, 0x00);
    assert_eq!(g & 0x01, 0);
}
