use lib_chip::keyboard::{get_unmapped_key, map_key, parse_key};
use lib_chip::memory::Memory;
use lib_chip::rom::Rom;
use lib_chip::screen::ScreenParams;

#[test]
fn memory_starts_with_the_font() {
    let memory = Memory::new();
    assert_eq!(0xF0, memory.read(0x000));
    assert_eq!(0x20, memory.read(0x005));
    assert_eq!(0x80, memory.read(0x04F));
    assert_eq!(0x00, memory.read(0x050));
    assert_eq!(0x00, memory.read(0xFFF));
}

#[test]
fn memory_reset_restores_the_font() {
    let mut memory = Memory::default();
    memory.set(0x000, 0x12);
    memory.set(0x200, 0xF4);
    assert_eq!(0xF4, memory.read(0x200));
    memory.reset();
    assert_eq!(0x00, memory.read(0x200));
    assert_eq!(0xF0, memory.read(0x000));
}

#[test]
fn memory_set_range_copies_in_order() {
    let mut memory = Memory::new();
    memory.set_range(0x200, &[0x01, 0x02, 0x03, 0x04, 0x05]);
    assert_eq!(0x01, memory.read(0x200));
    assert_eq!(0x05, memory.read(0x204));
    assert_eq!(0x00, memory.read(0x205));
    memory.set_range(0xFFE, &[0xAA, 0xBB]);
    assert_eq!(0xBB, memory.read(0xFFF));
}

#[test]
fn rom_hands_back_its_bytes() {
    let rom = Rom::from_memory(vec![0x01, 0x02, 0x03, 0x04, 0x05]);
    assert_eq!([0x01, 0x02, 0x03, 0x04, 0x05], rom.read_all());
    assert_eq!(5, rom.len());
}

#[test]
fn unmapped_keys_name_their_physical_key() {
    assert_eq!(None, get_unmapped_key(None));
    assert_eq!(Some(String::from("3")), get_unmapped_key(Some(0x3)));
    assert_eq!(Some(String::from("X")), get_unmapped_key(Some(0x0)));
    assert_eq!(Some(String::from("V")), get_unmapped_key(Some(0xF)));
    assert_eq!(None, get_unmapped_key(Some(0xFF)));
}

#[test]
fn physical_keys_map_to_logical_keys() {
    assert_eq!(Some(0x7), map_key('A'));
    assert_eq!(Some(0xC), map_key('4'));
    assert_eq!(None, map_key('9'));
    for k in 0u8..16 {
        let name = get_unmapped_key(Some(k)).unwrap();
        assert_eq!(Some(k), map_key(name.chars().next().unwrap()));
    }
}

#[test]
fn typed_keys_are_hex_digits() {
    assert_eq!(Some(0x0), parse_key('0'));
    assert_eq!(Some(0x9), parse_key('9'));
    assert_eq!(Some(0xA), parse_key('A'));
    assert_eq!(Some(0xF), parse_key('f'));
    assert_eq!(None, parse_key('g'));
}

#[test]
fn screen_params_build_up() {
    let params = ScreenParams::new();
    assert_eq!(None, params.width());
    assert_eq!(None, params.height());
    let params = params.with_width(10).with_height(20).with_clear_color(0xFF);
    assert_eq!(Some(10), params.width());
    assert_eq!(Some(20), params.height());
    assert_eq!(0xFF, params.clear_color());
    let square = params.with_dimensions(7);
    assert_eq!((Some(7), Some(7), 0xFF), (square.width(), square.height(), square.clear_color()));
    assert_eq!(square, square.for_console().params());
}
