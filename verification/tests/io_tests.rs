use invaders8080::io::IO;

#[test]
fn cpu_write_port_4() {
    let mut io = IO::default();
    io.cpu_write(4, 0xAB);
    assert_eq!(io.shift_reg, 0xAB00);

    io.cpu_write(4, 0xCD);
    assert_eq!(io.shift_reg, 0xCDAB);
}

#[test]
fn cpu_read_port_1() {
    let mut io = IO::default();
    io.insert_coin();

    assert_eq!(io.read_1, 0b000001);
}

#[test]
fn cpu_write_port_2_keeps_low_three_bits() {
    let mut io = IO::default();
    io.cpu_write(2, 0xff);
    assert_eq!(io.shift_offset, 0x07);
    io.cpu_write(2, 0x05);
    assert_eq!(io.shift_offset, 0x05);
}

#[test]
fn cpu_write_port_6_is_ignored() {
    let mut io = IO::default();
    io.cpu_write(6, 0x99);
    assert_eq!(io.shift_reg, 0);
    assert_eq!(io.shift_offset, 0);
    assert_eq!(io.read_1, 0);
}

#[test]
fn set_port_1_raises_single_bits() {
    let mut io = IO::default();
    io.set_port_1(2);
    assert_eq!(io.read_1, 0b100);
    io.set_port_1(0);
    assert_eq!(io.read_1, 0b101);
    assert_eq!(io.cpu_read(1), 0b101);
}
