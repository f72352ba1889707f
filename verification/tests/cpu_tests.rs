use invaders8080::cpu::Cpu;
use invaders8080::machine::ExecutionFault;
use invaders8080::machine::LoadError;

#[test]
fn lxi_bc() {
    let prog = [0x01, 0x34, 0x12];
    // LXI B, 0x1234
    let mut cpu = Cpu::init(0x0, &prog);
    let _ = cpu.cycle();

    assert_eq!(cpu.regs.b, 0x12);
    assert_eq!(cpu.regs.c, 0x34);
}

#[test]
fn lxi_de() {
    let prog = [0x11, 0x34, 0x12];
    // LXI D, 0x1234
    let mut cpu = Cpu::init(0x0, &prog);
    let _ = cpu.cycle();

    assert_eq!(cpu.regs.d, 0x12);
    assert_eq!(cpu.regs.e, 0x34);
}

#[test]
fn lxi_hl() {
    let prog = [0x21, 0x34, 0x12];
    // LXI H, 0x1234
    let mut cpu = Cpu::init(0x0, &prog);
    let _ = cpu.cycle();

    assert_eq!(cpu.regs.h, 0x12);
    assert_eq!(cpu.regs.l, 0x34);
}

#[test]
fn set_and_read_m() {
    let prog = [0x21, 0x00, 0x80, 0x36, 0xff];
    // lxi h, 0x8000
    // mvi m, 0xff
    let mut cpu = Cpu::init(0x0, &prog);
    for _i in 0..2 {
        let _ = cpu.cycle();
    }

    assert_eq!(cpu.memory[0x8000], 0xff);
}

#[test]
fn lxi_advances_pc_by_three() {
    let prog = [0x01, 0x34, 0x12];
    let mut cpu = Cpu::init(0x0, &prog);
    let r = cpu.cycle();
    assert_eq!(r, Ok(10));
    assert_eq!(cpu.regs.b, 0x12);
    assert_eq!(cpu.regs.c, 0x34);
    assert_eq!(cpu.regs.pc, 3);
}

#[test]
fn add_sets_aux_carry_and_result() {
    let prog = [0x00];
    let mut cpu = Cpu::init(0x0, &prog);
    cpu.regs.a = 0x0f;
    cpu.add(0x01);
    assert_eq!(cpu.regs.a, 0x10);
    assert!(cpu.flags.aux_carry);
    assert!(!cpu.flags.carry);
    assert!(!cpu.flags.zero);
    assert!(!cpu.flags.sign);
    assert!(!cpu.flags.parity);
}

#[test]
fn sub_borrow_wraps_and_sets_carry() {
    let prog = [0x00];
    let mut cpu = Cpu::init(0x0, &prog);
    cpu.regs.a = 0x00;
    cpu.sub(0x01);
    assert_eq!(cpu.regs.a, 0xff);
    assert!(cpu.flags.carry);
    assert!(!cpu.flags.zero);
    assert!(cpu.flags.sign);
    // 0xff has eight set bits: even parity
    assert!(cpu.flags.parity);
}

#[test]
fn unimplemented_opcode_leaves_state_unchanged() {
    let prog = [0xff];
    let mut cpu = Cpu::init(0x0, &prog);
    let before_regs = cpu.regs;
    let before_flags = cpu.flags;
    let r = cpu.cycle();
    assert_eq!(r, Err(ExecutionFault::UnimplementedOpcode(0xff, 0)));
    assert_eq!(cpu.regs, before_regs);
    assert_eq!(cpu.flags, before_flags);
    assert_eq!(cpu.instructions, 0);
    assert!(!cpu.hlted);
}

#[test]
fn push_pop_restores_pair_and_sp() {
    // LXI SP, 0x2000; PUSH B; POP B
    let prog = [0x31, 0x00, 0x20, 0xc5, 0xc1];
    let mut cpu = Cpu::init(0x0, &prog);
    cpu.regs.b = 0x12;
    cpu.regs.c = 0x34;
    for _i in 0..3 {
        cpu.cycle().unwrap();
    }
    assert_eq!(cpu.regs.b, 0x12);
    assert_eq!(cpu.regs.c, 0x34);
    assert_eq!(cpu.regs.sp, 0x2000);
    assert_eq!(cpu.regs.pc, 5);
}

#[test]
fn call_then_ret_resumes_after_call() {
    // 0x0000: LXI SP, 0x2000; 0x0003: CALL 0x0010; ...; 0x0010: RET
    let mut prog = [0u8; 0x11];
    prog[0] = 0x31;
    prog[1] = 0x00;
    prog[2] = 0x20;
    prog[3] = 0xcd;
    prog[4] = 0x10;
    prog[5] = 0x00;
    prog[0x10] = 0xc9;
    let mut cpu = Cpu::init(0x0, &prog);
    cpu.cycle().unwrap();
    cpu.cycle().unwrap();
    assert_eq!(cpu.regs.pc, 0x10);
    assert_eq!(cpu.regs.sp, 0x1ffe);
    cpu.cycle().unwrap();
    // PC resumes at the instruction after the 3-byte CALL
    assert_eq!(cpu.regs.pc, 6);
    assert_eq!(cpu.regs.sp, 0x2000);
}

#[test]
fn hlt_then_cycle_reports_halted() {
    let prog = [0x76, 0x00];
    let mut cpu = Cpu::init(0x0, &prog);
    assert_eq!(cpu.cycle(), Ok(7));
    assert!(cpu.hlted);
    assert_eq!(cpu.cycle(), Err(ExecutionFault::Halted));
    cpu.reset();
    assert!(!cpu.hlted);
    assert_eq!(cpu.regs.pc, 0);
    assert_eq!(cpu.cycle(), Ok(7));
}

#[test]
fn memory_access_out_of_range_faults() {
    // LXI H, 0xFA00; MOV A,M reaches past the end of the address space
    let prog = [0x21, 0x00, 0xfa, 0x7e];
    let mut cpu = Cpu::init(0x0, &prog);
    cpu.cycle().unwrap();
    assert_eq!(cpu.cycle(), Err(ExecutionFault::AddressOutOfRange));
    assert_eq!(cpu.regs.pc, 3);
}

#[test]
fn stack_underflow_faults() {
    // PUSH B with SP = 0 would wrap below the address space
    let prog = [0xc5];
    let mut cpu = Cpu::init(0x0, &prog);
    assert_eq!(cpu.cycle(), Err(ExecutionFault::AddressOutOfRange));
}

#[test]
fn load_empty_image_is_rejected() {
    let prog = [0x00];
    let mut cpu = Cpu::init(0x0, &prog);
    let empty: [u8; 0] = [];
    assert_eq!(cpu.load_into_memory(&empty, 0), Err(LoadError::EmptyProgram));
}

#[test]
fn load_past_end_is_rejected() {
    let prog = [0x00];
    let mut cpu = Cpu::init(0x0, &prog);
    let image = [1, 2];
    assert_eq!(
        cpu.load_into_memory(&image, 0xf9ff),
        Err(LoadError::ProgramOutOfRange)
    );
    assert_eq!(cpu.load_into_memory(&image, 0xf9fe), Ok(()));
    assert_eq!(cpu.memory[0xf9fe], 1);
    assert_eq!(cpu.memory[0xf9ff], 2);
}

#[test]
fn init_loads_at_origin_and_pc_starts_at_zero() {
    let prog = [0xaa, 0xbb];
    let cpu = Cpu::init(0x100, &prog);
    assert_eq!(cpu.regs.pc, 0);
    assert_eq!(cpu.memory[0x100], 0xaa);
    assert_eq!(cpu.memory[0x101], 0xbb);
    assert_eq!(cpu.memory[0x0], 0x00);
}

#[test]
fn stc_and_cmc_toggle_carry() {
    let prog = [0x37, 0x3f, 0x3f];
    let mut cpu = Cpu::init(0x0, &prog);
    cpu.cycle().unwrap();
    assert!(cpu.flags.carry);
    cpu.cycle().unwrap();
    assert!(!cpu.flags.carry);
    cpu.cycle().unwrap();
    assert!(cpu.flags.carry);
}

#[test]
fn rrc_rotates_low_bit_into_carry_and_high_bit() {
    let prog = [0x0f];
    let mut cpu = Cpu::init(0x0, &prog);
    cpu.regs.a = 0x01;
    cpu.cycle().unwrap();
    assert_eq!(cpu.regs.a, 0x80);
    assert!(cpu.flags.carry);
}

#[test]
fn dad_sets_only_carry() {
    // DAD B with HL = 0xFFFF and BC = 0x0001 overflows to 0x0000
    let prog = [0x09];
    let mut cpu = Cpu::init(0x0, &prog);
    cpu.regs.h = 0xff;
    cpu.regs.l = 0xff;
    cpu.regs.b = 0x00;
    cpu.regs.c = 0x01;
    cpu.flags.zero = true;
    cpu.cycle().unwrap();
    assert_eq!(cpu.regs.h, 0x00);
    assert_eq!(cpu.regs.l, 0x00);
    assert!(cpu.flags.carry);
    // no other flag is affected by DAD
    assert!(cpu.flags.zero);
}

#[test]
fn inr_never_touches_carry() {
    let prog = [0x3c];
    let mut cpu = Cpu::init(0x0, &prog);
    cpu.regs.a = 0xff;
    cpu.flags.carry = true;
    cpu.cycle().unwrap();
    assert_eq!(cpu.regs.a, 0x00);
    assert!(cpu.flags.zero);
    assert!(cpu.flags.carry);
}

#[test]
fn ana_clears_carry_and_aux_carry() {
    let prog = [0xa7];
    let mut cpu = Cpu::init(0x0, &prog);
    cpu.regs.a = 0x0f;
    cpu.flags.carry = true;
    cpu.flags.aux_carry = true;
    cpu.cycle().unwrap();
    assert_eq!(cpu.regs.a, 0x0f);
    assert!(!cpu.flags.carry);
    assert!(!cpu.flags.aux_carry);
}

#[test]
fn xchg_swaps_hl_and_de() {
    let prog = [0xeb];
    let mut cpu = Cpu::init(0x0, &prog);
    cpu.regs.h = 0x11;
    cpu.regs.l = 0x22;
    cpu.regs.d = 0x33;
    cpu.regs.e = 0x44;
    cpu.cycle().unwrap();
    assert_eq!(cpu.regs.h, 0x33);
    assert_eq!(cpu.regs.l, 0x44);
    assert_eq!(cpu.regs.d, 0x11);
    assert_eq!(cpu.regs.e, 0x22);
}

#[test]
fn mov_between_registers() {
    // MOV B,C
    let prog = [0x41];
    let mut cpu = Cpu::init(0x0, &prog);
    cpu.regs.c = 0x5a;
    cpu.cycle().unwrap();
    assert_eq!(cpu.regs.b, 0x5a);
    assert_eq!(cpu.regs.pc, 1);
}

#[test]
fn out_feeds_shift_register_through_port_4() {
    let prog = [0xd3, 0x04];
    let mut cpu = Cpu::init(0x0, &prog);
    cpu.regs.a = 0xab;
    cpu.cycle().unwrap();
    assert_eq!(cpu.io.shift_reg, 0xab00);
    assert_eq!(cpu.regs.pc, 2);
}

#[test]
fn in_reads_port_1_into_accumulator() {
    let prog = [0xdb, 0x01];
    let mut cpu = Cpu::init(0x0, &prog);
    cpu.io.insert_coin();
    cpu.cycle().unwrap();
    assert_eq!(cpu.regs.a, 0x01);
    assert_eq!(cpu.regs.pc, 2);
}

#[test]
fn out_to_unknown_port_is_unimplemented() {
    let prog = [0xd3, 0x07];
    let mut cpu = Cpu::init(0x0, &prog);
    assert_eq!(
        cpu.cycle(),
        Err(ExecutionFault::UnimplementedOpcode(0xd3, 0))
    );
    assert_eq!(cpu.regs.pc, 0);
}

#[test]
fn cmb_le_and_cmb_be_assemble_words() {
    let prog = [0x00];
    let cpu = Cpu::init(0x0, &prog);
    assert_eq!(cpu.cmb_le(0x34, 0x12), 0x1234);
    assert_eq!(cpu.cmb_be(0x12, 0x34), 0x1234);
}

#[test]
fn get_regs_snapshots_every_register() {
    let prog = [0x00];
    let mut cpu = Cpu::init(0x0, &prog);
    cpu.regs.a = 1;
    cpu.regs.b = 2;
    cpu.regs.c = 3;
    cpu.regs.d = 4;
    cpu.regs.e = 5;
    cpu.regs.h = 6;
    cpu.regs.l = 7;
    cpu.regs.pc = 0x1234;
    cpu.regs.sp = 0x2345;
    let (names, regs8, regs16) = cpu.get_regs();
    assert_eq!(names, ["A", "B", "C", "D", "E", "H", "L", "PC", "SP"]);
    assert_eq!(regs8, [1, 2, 3, 4, 5, 6, 7]);
    assert_eq!(regs16, [0x1234, 0x2345]);
}

#[test]
fn sta_and_lda_round_trip_through_memory() {
    // STA 0x4000; MVI A,0x00; LDA 0x4000
    let prog = [0x32, 0x00, 0x40, 0x3e, 0x00, 0x3a, 0x00, 0x40];
    let mut cpu = Cpu::init(0x0, &prog);
    cpu.regs.a = 0x77;
    cpu.cycle().unwrap();
    assert_eq!(cpu.memory[0x4000], 0x77);
    cpu.cycle().unwrap();
    assert_eq!(cpu.regs.a, 0x00);
    cpu.cycle().unwrap();
    assert_eq!(cpu.regs.a, 0x77);
}

#[test]
fn adc_includes_incoming_carry() {
    // ACI 0x00 with carry set behaves as A + 0 + 1
    let prog = [0xce, 0x00];
    let mut cpu = Cpu::init(0x0, &prog);
    cpu.regs.a = 0xff;
    cpu.flags.carry = true;
    cpu.cycle().unwrap();
    assert_eq!(cpu.regs.a, 0x00);
    assert!(cpu.flags.carry);
    assert!(cpu.flags.zero);
    assert!(cpu.flags.aux_carry);
}

#[test]
fn cmp_sets_flags_without_storing() {
    // CPI 0x10
    let prog = [0xfe, 0x10];
    let mut cpu = Cpu::init(0x0, &prog);
    cpu.regs.a = 0x0f;
    cpu.cycle().unwrap();
    assert_eq!(cpu.regs.a, 0x0f);
    assert!(cpu.flags.carry);
    assert!(!cpu.flags.zero);
}

#[test]
fn conditional_jump_taken_and_not_taken() {
    // JZ 0x0010 with zero clear falls through; then JNZ 0x0010 transfers
    let prog = [0xca, 0x10, 0x00, 0xc2, 0x10, 0x00];
    let mut cpu = Cpu::init(0x0, &prog);
    cpu.cycle().unwrap();
    assert_eq!(cpu.regs.pc, 3);
    cpu.cycle().unwrap();
    assert_eq!(cpu.regs.pc, 0x10);
}

#[test]
fn pair_accessors_round_trip() {
    let prog = [0x00];
    let mut cpu = Cpu::init(0x0, &prog);
    cpu.regs.set_bc(0x1234);
    assert_eq!(cpu.cmb_be(cpu.regs.b, cpu.regs.c), 0x1234);
    cpu.regs.set_de(0xfe01);
    assert_eq!(cpu.cmb_be(cpu.regs.d, cpu.regs.e), 0xfe01);
    cpu.regs.set_hl(0x00ff);
    assert_eq!(cpu.cmb_be(cpu.regs.h, cpu.regs.l), 0x00ff);
}

#[test]
fn shld_and_lhld_move_hl_through_memory() {
    // SHLD 0x4000; LXI H,0x0000; LHLD 0x4000
    let prog = [0x22, 0x00, 0x40, 0x21, 0x00, 0x00, 0x2a, 0x00, 0x40];
    let mut cpu = Cpu::init(0x0, &prog);
    cpu.regs.h = 0x12;
    cpu.regs.l = 0x34;
    cpu.cycle().unwrap();
    assert_eq!(cpu.memory[0x4000], 0x34);
    assert_eq!(cpu.memory[0x4001], 0x12);
    cpu.cycle().unwrap();
    cpu.cycle().unwrap();
    assert_eq!(cpu.regs.h, 0x12);
    assert_eq!(cpu.regs.l, 0x34);
}

#[test]
fn stax_and_ldax_use_the_pair_address() {
    // STAX B; MVI A,0x00; LDAX B
    let prog = [0x02, 0x3e, 0x00, 0x0a];
    let mut cpu = Cpu::init(0x0, &prog);
    cpu.regs.a = 0x42;
    cpu.regs.b = 0x50;
    cpu.regs.c = 0x01;
    cpu.cycle().unwrap();
    assert_eq!(cpu.memory[0x5001], 0x42);
    cpu.cycle().unwrap();
    assert_eq!(cpu.regs.a, 0x00);
    cpu.cycle().unwrap();
    assert_eq!(cpu.regs.a, 0x42);
}

#[test]
fn mov_through_memory_via_hl() {
    // LXI H,0x6000; MOV M,A; MOV B,M
    let prog = [0x21, 0x00, 0x60, 0x77, 0x46];
    let mut cpu = Cpu::init(0x0, &prog);
    cpu.regs.a = 0x99;
    cpu.cycle().unwrap();
    cpu.cycle().unwrap();
    assert_eq!(cpu.memory[0x6000], 0x99);
    cpu.cycle().unwrap();
    assert_eq!(cpu.regs.b, 0x99);
}

#[test]
fn sbb_includes_incoming_borrow() {
    // SBI 0x01 with carry set behaves as A - 1 - 1
    let prog = [0xde, 0x01];
    let mut cpu = Cpu::init(0x0, &prog);
    cpu.regs.a = 0x02;
    cpu.flags.carry = true;
    cpu.cycle().unwrap();
    assert_eq!(cpu.regs.a, 0x00);
    assert!(cpu.flags.zero);
    assert!(!cpu.flags.carry);
}

#[test]
fn ori_and_xri_store_and_clear_carry() {
    // ORI 0xF0; XRI 0xFF
    let prog = [0xf6, 0xf0, 0xee, 0xff];
    let mut cpu = Cpu::init(0x0, &prog);
    cpu.regs.a = 0x0f;
    cpu.flags.carry = true;
    cpu.cycle().unwrap();
    assert_eq!(cpu.regs.a, 0xff);
    assert!(!cpu.flags.carry);
    cpu.cycle().unwrap();
    assert_eq!(cpu.regs.a, 0x00);
    assert!(cpu.flags.zero);
}

#[test]
fn conditional_ret_falls_through_when_not_taken() {
    // RC with carry clear falls through to the next instruction
    let prog = [0xd8, 0x00];
    let mut cpu = Cpu::init(0x0, &prog);
    cpu.cycle().unwrap();
    assert_eq!(cpu.regs.pc, 1);
}

#[test]
fn conditional_call_falls_through_when_not_taken() {
    // CZ 0x0010 with zero clear falls through, length accounted for
    let prog = [0xcc, 0x10, 0x00];
    let mut cpu = Cpu::init(0x0, &prog);
    cpu.cycle().unwrap();
    assert_eq!(cpu.regs.pc, 3);
    assert_eq!(cpu.regs.sp, 0);
}

#[test]
fn inr_and_dcr_on_memory_via_hl() {
    // LXI H,0x7000; INR M; DCR M
    let prog = [0x21, 0x00, 0x70, 0x34, 0x35];
    let mut cpu = Cpu::init(0x0, &prog);
    cpu.cycle().unwrap();
    cpu.cycle().unwrap();
    assert_eq!(cpu.memory[0x7000], 1);
    cpu.cycle().unwrap();
    assert_eq!(cpu.memory[0x7000], 0);
    assert!(cpu.flags.zero);
}

fn set_cond_flag(cpu: &mut Cpu, which: char, value: bool) {
    match which {
        'z' => cpu.flags.zero = value,
        'c' => cpu.flags.carry = value,
        'p' => cpu.flags.parity = value,
        's' => cpu.flags.sign = value,
        _ => panic!("unknown flag"),
    }
}

#[test]
fn every_conditional_jump_follows_its_flag() {
    // (opcode, tested flag, flag value on which the jump fires)
    let cases: [(u8, char, bool); 8] = [
        (0xc2, 'z', false),
        (0xca, 'z', true),
        (0xd2, 'c', false),
        (0xda, 'c', true),
        (0xe2, 'p', false),
        (0xea, 'p', true),
        (0xf2, 's', false),
        (0xfa, 's', true),
    ];
    for (op, which, fires_on) in cases {
        for taken in [false, true] {
            let prog = [op, 0x10, 0x00];
            let mut cpu = Cpu::init(0x0, &prog);
            set_cond_flag(&mut cpu, which, if taken { fires_on } else { !fires_on });
            cpu.cycle().unwrap();
            let expected = if taken { 0x10 } else { 3 };
            assert_eq!(cpu.regs.pc, expected, "opcode {op:#x} taken={taken}");
        }
    }
}

#[test]
fn every_conditional_call_follows_its_flag() {
    let cases: [(u8, char, bool); 8] = [
        (0xc4, 'z', false),
        (0xcc, 'z', true),
        (0xd4, 'c', false),
        (0xdc, 'c', true),
        (0xe4, 'p', false),
        (0xec, 'p', true),
        (0xf4, 's', false),
        (0xfc, 's', true),
    ];
    for (op, which, fires_on) in cases {
        for taken in [false, true] {
            let prog = [op, 0x10, 0x00];
            let mut cpu = Cpu::init(0x0, &prog);
            cpu.regs.sp = 0x2000;
            set_cond_flag(&mut cpu, which, if taken { fires_on } else { !fires_on });
            cpu.cycle().unwrap();
            if taken {
                assert_eq!(cpu.regs.pc, 0x10, "opcode {op:#x}");
                assert_eq!(cpu.regs.sp, 0x1ffe);
                // the pushed return address is the byte after the 3-byte call
                assert_eq!(cpu.memory[0x1ffe], 0x03);
                assert_eq!(cpu.memory[0x1fff], 0x00);
            } else {
                assert_eq!(cpu.regs.pc, 3, "opcode {op:#x}");
                assert_eq!(cpu.regs.sp, 0x2000);
            }
        }
    }
}

#[test]
fn every_conditional_ret_follows_its_flag() {
    let cases: [(u8, char, bool); 8] = [
        (0xc0, 'z', false),
        (0xc8, 'z', true),
        (0xd0, 'c', false),
        (0xd8, 'c', true),
        (0xe0, 'p', false),
        (0xe8, 'p', true),
        (0xf0, 's', false),
        (0xf8, 's', true),
    ];
    for (op, which, fires_on) in cases {
        for taken in [false, true] {
            let prog = [op];
            let mut cpu = Cpu::init(0x0, &prog);
            cpu.regs.sp = 0x2000;
            cpu.memory[0x2000] = 0x34;
            cpu.memory[0x2001] = 0x12;
            set_cond_flag(&mut cpu, which, if taken { fires_on } else { !fires_on });
            cpu.cycle().unwrap();
            if taken {
                assert_eq!(cpu.regs.pc, 0x1234, "opcode {op:#x}");
                assert_eq!(cpu.regs.sp, 0x2002);
            } else {
                assert_eq!(cpu.regs.pc, 1, "opcode {op:#x}");
                assert_eq!(cpu.regs.sp, 0x2000);
            }
        }
    }
}

fn reg_by_code(cpu: &Cpu, code: u8) -> u8 {
    match code {
        0 => cpu.regs.b,
        1 => cpu.regs.c,
        2 => cpu.regs.d,
        3 => cpu.regs.e,
        4 => cpu.regs.h,
        5 => cpu.regs.l,
        7 => cpu.regs.a,
        _ => panic!("not a register code"),
    }
}

fn set_reg_by_code(cpu: &mut Cpu, code: u8, v: u8) {
    match code {
        0 => cpu.regs.b = v,
        1 => cpu.regs.c = v,
        2 => cpu.regs.d = v,
        3 => cpu.regs.e = v,
        4 => cpu.regs.h = v,
        5 => cpu.regs.l = v,
        7 => cpu.regs.a = v,
        _ => panic!("not a register code"),
    }
}

#[test]
fn every_register_to_register_mov_copies_its_source() {
    for dst in [0u8, 1, 2, 3, 4, 5, 7] {
        for src in [0u8, 1, 2, 3, 4, 5, 7] {
            let op = 0x40 | (dst << 3) | src;
            let prog = [op];
            let mut cpu = Cpu::init(0x0, &prog);
            set_reg_by_code(&mut cpu, src, 0xa5);
            cpu.cycle().unwrap();
            assert_eq!(reg_by_code(&cpu, dst), 0xa5, "opcode {op:#x}");
            assert_eq!(cpu.regs.pc, 1);
        }
    }
}

#[test]
fn dcx_sp_steps_down_by_two() {
    // INX SP; DCX SP
    let prog = [0x33, 0x3b];
    let mut cpu = Cpu::init(0x0, &prog);
    cpu.regs.sp = 0x2000;
    cpu.cycle().unwrap();
    assert_eq!(cpu.regs.sp, 0x2001);
    cpu.cycle().unwrap();
    assert_eq!(cpu.regs.sp, 0x1fff);
}
