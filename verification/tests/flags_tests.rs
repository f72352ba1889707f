use invaders8080::flags::AluOp;
use invaders8080::flags::Flags;

#[test]
fn parity_counts_all_eight_bits() {
    let f = Flags::default();
    assert!(f.calc_parity(0x00));
    assert!(!f.calc_parity(0x01));
    assert!(f.calc_parity(0x03));
    assert!(f.calc_parity(0xff));
    // bit 7 must participate: a single high bit is odd parity
    assert!(!f.calc_parity(0x80));
    assert!(f.calc_parity(0x81));
    // 0x10 has one set bit: odd parity
    assert!(!f.calc_parity(0x10));
}

#[test]
fn add_carry_is_overflow_out_of_eight_bits() {
    let f = Flags::default();
    assert!(!f.calc_add_cy(0x00ff));
    assert!(f.calc_add_cy(0x0100));
    assert!(f.calc_add_cy(0x01fe));
    // exhaustively: for all byte pairs, carry iff the sum exceeds 255
    for a in 0..=255u16 {
        for b in 0..=255u16 {
            assert_eq!(f.calc_add_cy(a + b), a + b > 255);
        }
    }
}

#[test]
fn sub_carry_is_unsigned_borrow() {
    let f = Flags::default();
    assert!(f.calc_sub_cy(0x00, 0x01));
    assert!(!f.calc_sub_cy(0x05, 0x03));
    assert!(!f.calc_sub_cy(0x05, 0x05));
}

#[test]
fn sign_and_zero_follow_the_result_byte() {
    let f = Flags::default();
    assert!(f.calc_sign(0x80));
    assert!(!f.calc_sign(0x7f));
    assert!(f.calc_zero(0x00));
    assert!(!f.calc_zero(0x01));
}

#[test]
fn aux_carry_is_the_nibble_test() {
    let f = Flags::default();
    assert!(f.calc_aux(0x0f, 0x01, AluOp::Add));
    assert!(!f.calc_aux(0x0e, 0x01, AluOp::Add));
    assert!(f.calc_aux(0x10, 0x01, AluOp::Sub));
    assert!(!f.calc_aux(0x1f, 0x01, AluOp::Sub));
}

#[test]
fn psw_round_trips_for_every_flag_combination() {
    for bits in 0..32u8 {
        let f = Flags {
            sign: bits & 1 != 0,
            zero: bits & 2 != 0,
            parity: bits & 4 != 0,
            carry: bits & 8 != 0,
            aux_carry: bits & 16 != 0,
        };
        let packed = f.pack_psw();
        // bit 1 is architecturally fixed at 1, bits 3 and 5 at 0
        assert_eq!(packed & 0x02, 0x02);
        assert_eq!(packed & 0x28, 0x00);
        assert_eq!(Flags::unpack_psw(packed), f);
    }
}

#[test]
fn set_all_flags_sets_sign_and_zero() {
    let mut f = Flags::default();
    f.carry = true;
    f.set_all_flags(0x80);
    assert!(f.sign);
    assert!(!f.zero);
    assert!(f.carry);
    f.set_all_flags(0x00);
    assert!(!f.sign);
    assert!(f.zero);
}
