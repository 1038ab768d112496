use ch32_bringup::boot::{Hart, MemoryImage, Stage};
use ch32_bringup::console::{push_char, Shell};
use ch32_bringup::text::{push_crlf, push_dec, push_hex, push_str};

fn image(bss_start: usize, bss_end: usize) -> MemoryImage {
    MemoryImage {
        ram_base: 0x2000_0000,
        ram_len: 64,
        bss_start,
        bss_end,
        stack_base: 0x2000_0020,
        stack_size: 32,
    }
}

#[test]
fn zero_fill_clears_exactly_the_region() {
    let img = image(0x2000_0008, 0x2000_0018);
    let mut h = Hart::reset(img, vec![0xaa; 64], 0xffff, 0x80);
    h.cold_start();
    for a in 0x2000_0000usize..0x2000_0040 {
        let expected = if (0x2000_0008..0x2000_0018).contains(&a) { 0 } else { 0xaa };
        assert_eq!(h.byte(a), expected, "address {:#x}", a);
    }
}

#[test]
fn empty_region_writes_nothing() {
    let img = image(0x2000_0010, 0x2000_0010);
    let mut h = Hart::reset(img, vec![0x55; 64], 1, 1);
    h.mask_interrupts();
    h.zero_bss();
    for a in 0x2000_0000usize..0x2000_0040 {
        assert_eq!(h.byte(a), 0x55);
    }
}

#[test]
fn cold_start_masks_and_sets_stack() {
    let img = image(0x2000_0000, 0x2000_0004);
    let mut h = Hart::reset(img, vec![1; 64], 0xffff_ffff, 0x888);
    assert_eq!(h.stage(), Stage::Reset);
    h.cold_start();
    assert_eq!(h.interrupts(), (0, 0));
    assert_eq!(h.sp(), 0x2000_0040);
    assert_eq!(h.stage(), Stage::StackReady);
    h.enter();
    assert_eq!(h.stage(), Stage::Running);
    assert_eq!(h.sp(), 0x2000_0040);
}

#[test]
fn steps_one_by_one() {
    let img = image(0x2000_0004, 0x2000_0008);
    let mut h = Hart::reset(img, vec![9; 64], 3, 3);
    h.mask_interrupts();
    assert_eq!(h.stage(), Stage::Masked);
    h.zero_bss();
    assert_eq!(h.stage(), Stage::Zeroed);
    assert_eq!(h.byte(0x2000_0004), 0);
    assert_eq!(h.byte(0x2000_0008), 9);
    h.set_stack();
    assert_eq!(h.sp(), 0x2000_0040);
}

#[test]
fn decimal_and_hex_digits() {
    let mut out = Vec::new();
    push_dec(&mut out, 0);
    push_str(&mut out, " ");
    push_dec(&mut out, 4_294_967_295);
    push_str(&mut out, " ");
    push_hex(&mut out, 0);
    push_str(&mut out, " ");
    push_hex(&mut out, 0xdead_beef);
    push_crlf(&mut out);
    assert_eq!(out, b"0 4294967295 0 deadbeef\r\n".to_vec());
}

#[test]
fn latin1_bytes_become_utf8() {
    let mut out = Vec::new();
    push_char(&mut out, b'A');
    push_char(&mut out, 0xe9);
    assert_eq!(out, "Aé".as_bytes().to_vec());
}

#[test]
fn shell_responses() {
    let mut sh = Shell::new();
    assert_eq!(sh.on_byte(0), vec![0u8]);
    assert_eq!(sh.prev, 0);
    assert_eq!(sh.on_byte(b'a'), b"a".to_vec());
    assert_eq!(sh.on_byte(b'\r'), " 🐢\r\n".as_bytes().to_vec());
    assert_eq!(sh.on_byte(b'r'), b"r".to_vec());
    assert_eq!(sh.on_byte(b'\r'), " 🦀\r\n".as_bytes().to_vec());
    assert_eq!(sh.on_byte(b'w'), "🧇".as_bytes().to_vec());
    assert_eq!(sh.on_byte(0x08), "\u{8}\u{8}🩹".as_bytes().to_vec());
    assert_eq!(sh.prev, 0x08);
}
