use gbcore::memory::Memory;

#[test]
fn test_read_reachable() {
    let memory = Memory::create_memory();
    for loc in 0u16..=0xFFFFu16 {
        memory.get_mem(loc);
    }
}

#[test]
fn test_write_reachable() {
    let mut memory = Memory::create_memory();
    for loc in 0u16..=0xFFFFu16 {
        memory.set_mem(loc, 0x12);
    }
}

#[test]
fn test_norm_ram() {
    let mut memory = Memory::create_memory();
    memory.set_mem(0xC000, 0xF1);
    assert_eq!(memory.get_mem(0xC000), 0xF1);
    memory.set_mem(0xCF43, 0x47);
    assert_eq!(memory.get_mem(0xCF43), 0x47);
    memory.set_mem(0xDFFF, 0xAA);
    assert_eq!(memory.get_mem(0xDFFF), 0xAA);
}

#[test]
fn test_upper_ram() {
    let mut memory = Memory::create_memory();
    memory.set_mem(0xFF80, 0x53);
    assert_eq!(memory.get_mem(0xFF80), 0x53);
    memory.set_mem(0xFFAB, 0x12);
    assert_eq!(memory.get_mem(0xFFAB), 0x12);
    memory.set_mem(0xFFFE, 0xEF);
    assert_eq!(memory.get_mem(0xFFFE), 0xEF);
}

#[test]
fn test_echo_ram() {
    let mut memory = Memory::create_memory();
    memory.set_mem(0xE055, 0x2F);
    assert_eq!(memory.get_mem(0xC055), 0x2F);
    assert_eq!(memory.get_mem(0xE055), 0x2F);
    memory.set_mem(0xCBBF, 0xC3);
    assert_eq!(memory.get_mem(0xCBBF), 0xC3);
    assert_eq!(memory.get_mem(0xEBBF), 0xC3);
}

#[test]
fn test_echo_ram_byte() {
    // Writing through the echo region lands in work RAM and reads back
    // through both windows.
    let mut memory = Memory::create_memory();
    memory.set_mem(0xE055, 0x5A);
    assert_eq!(memory.get_mem(0xC055), 0x5A);
    assert_eq!(memory.get_mem(0xE055), 0x5A);
}

#[test]
fn test_unmapped_regions_read_zero() {
    let mut memory = Memory::create_memory();
    // VRAM, cartridge RAM, OAM, I/O and the interrupt-enable byte read as
    // zero, and writes there are dropped.
    for loc in [0x8000u16, 0x9FFF, 0xA000, 0xBFFF, 0xFE00, 0xFE9F, 0xFEA0, 0xFF00, 0xFF4C, 0xFFFF] {
        memory.set_mem(loc, 0x99);
        assert_eq!(memory.get_mem(loc), 0);
    }
}

#[test]
fn test_rom_reads_and_is_readonly() {
    let mut memory = Memory::create_memory();
    let mut img: Vec<u8> = vec![0u8; 0x8000];
    img[0x0000] = 0xAB;
    img[0x7FFF] = 0xCD;
    memory.rom.load(&img);
    assert_eq!(memory.get_mem(0x0000), 0xAB);
    assert_eq!(memory.get_mem(0x7FFF), 0xCD);
    memory.set_mem(0x0000, 0x11);
    assert_eq!(memory.get_mem(0x0000), 0xAB);
}

#[test]
fn test_rom_load_pads_and_truncates() {
    let mut memory = Memory::create_memory();
    let img: Vec<u8> = vec![0x77u8; 3];
    memory.rom.load(&img);
    assert_eq!(memory.get_mem(0x0002), 0x77);
    assert_eq!(memory.get_mem(0x0003), 0x00);
    let big: Vec<u8> = vec![0x66u8; 0x9000];
    memory.rom.load(&big);
    assert_eq!(memory.get_mem(0x7FFF), 0x66);
}

#[test]
fn test_display_ly_register() {
    let mut memory = Memory::create_memory();
    assert_eq!(memory.get_mem(0xFF44), 0);
    // One full scanline moves LY to 1, and 0xFF44 exposes it.
    memory.update(456);
    assert_eq!(memory.get_mem(0xFF44), 1);
    // Other display registers read as zero.
    assert_eq!(memory.get_mem(0xFF40), 0);
    assert_eq!(memory.get_mem(0xFF4B), 0);
}
