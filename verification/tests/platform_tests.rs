use invaders8080::platform::InvadersCabinet;

#[test]
fn framebuffer_test() {
    let mut invaders = InvadersCabinet::init(None);
    let new_vram = [69; 0x3fff - 0x2400];
    invaders.cpu.memory[0x2400..0x3fff].copy_from_slice(&new_vram);
    assert_eq!(invaders.cpu.memory[0x2400..0x3fff], new_vram);
}

#[test]
fn get_frame_copies_the_whole_video_window() {
    let mut invaders = InvadersCabinet::init(None);
    invaders.cpu.memory[0x2400] = 7;
    invaders.cpu.memory[0x3fff] = 9;
    let frame = invaders.cpu.memory[0x2400..0x4000].to_vec();
    let from_cabinet = invaders.get_frame();
    assert_eq!(from_cabinet, frame);
    assert_eq!(from_cabinet[0], 7);
    // the window is 0x2400-0x3FFF inclusive: its last byte is included
    assert_eq!(from_cabinet[0x3fff - 0x2400], 9);
    assert_eq!(from_cabinet.len(), 0x4000 - 0x2400);
}

#[test]
fn cabinet_loads_a_program_at_address_zero() {
    let prog = vec![0x01u8, 0x34, 0x12];
    let mut invaders = InvadersCabinet::init(Some(prog.as_slice()));
    assert_eq!(invaders.cpu.memory[0], 0x01);
    // the pacing loop executes the instruction once the count passes its
    // cycle cost (10 for LXI)
    for _i in 0..12 {
        let _ = invaders.emulate_cycle();
    }
    assert_eq!(invaders.cpu.instructions, 1);
    assert_eq!(invaders.cpu.regs.b, 0x12);
    assert_eq!(invaders.cpu.regs.c, 0x34);
}

#[test]
fn emulate_cycle_paces_by_cycle_cost() {
    // a NOP costs 4 cycles: the first five calls only count, the sixth
    // executes
    let prog = vec![0x00u8];
    let mut invaders = InvadersCabinet::init(Some(prog.as_slice()));
    for _i in 0..5 {
        invaders.emulate_cycle().unwrap();
        assert_eq!(invaders.cpu.instructions, 0);
    }
    invaders.emulate_cycle().unwrap();
    assert_eq!(invaders.cpu.instructions, 1);
    assert_eq!(invaders.cpu.regs.pc, 1);
}
