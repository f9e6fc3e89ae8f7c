use tinycpu::mem::Memory;
use tinycpu::ram::RAM;

#[test]
fn new_ram_is_zeroed() {
    let ram = RAM::new();
    assert_eq!(ram.fetch_byte(0), 0);
    assert_eq!(ram.fetch_byte(16), 0);
    assert_eq!(ram.fetch_byte(255), 0);
}

#[test]
fn write_then_fetch_byte() {
    let mut ram = RAM::new();
    ram.write_byte(3, 0xab);
    assert_eq!(ram.fetch_byte(3), 0xab);
    assert_eq!(ram.fetch_byte(2), 0);
    assert_eq!(ram.fetch_byte(4), 0);
}

#[test]
fn word_is_big_endian() {
    let mut ram = RAM::new();
    ram.write_word(10, 0xabcd);
    assert_eq!(ram.fetch_byte(10), 0xab);
    assert_eq!(ram.fetch_byte(11), 0xcd);
    assert_eq!(ram.fetch_word(10), 0xabcd);
}

#[test]
fn word_round_trip_at_top() {
    let mut ram = RAM::new();
    ram.write_word(254, 65535);
    assert_eq!(ram.fetch_word(254), 65535);
    ram.write_word(254, 1);
    assert_eq!(ram.fetch_word(254), 1);
    assert_eq!(ram.fetch_byte(254), 0);
    assert_eq!(ram.fetch_byte(255), 1);
}

#[test]
fn fetch_word_composes_bytes() {
    let mut ram = RAM::new();
    ram.write_byte(7, 2);
    ram.write_byte(8, 5);
    assert_eq!(ram.fetch_word(7), 2 * 256 + 5);
}

#[test]
fn load_places_image() {
    let mut ram = RAM::new();
    ram.load(0x10, &[1, 2, 3]);
    assert_eq!(ram.fetch_byte(0x0f), 0);
    assert_eq!(ram.fetch_byte(0x10), 1);
    assert_eq!(ram.fetch_byte(0x11), 2);
    assert_eq!(ram.fetch_byte(0x12), 3);
    assert_eq!(ram.fetch_byte(0x13), 0);
}

#[test]
fn load_reaches_last_address() {
    let mut ram = RAM::new();
    ram.load(254, &[9, 7]);
    assert_eq!(ram.fetch_byte(254), 9);
    assert_eq!(ram.fetch_byte(255), 7);
}

#[test]
fn reset_zeroes_everything() {
    let mut ram = RAM::new();
    ram.load(0, &[5; 64]);
    ram.write_byte(200, 17);
    ram.reset();
    assert_eq!(ram.fetch_byte(0), 0);
    assert_eq!(ram.fetch_byte(63), 0);
    assert_eq!(ram.fetch_byte(200), 0);
}
