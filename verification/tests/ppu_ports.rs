use nes_core::cartridge::Mirroring;
use nes_core::ppu::ppu;

#[test]
fn test_ppu_vram_writes() {
    let mut ppu = ppu::new_empty_rom();
    ppu.write_ppu_address(0x23);
    ppu.write_ppu_address(0x05);
    ppu.write_data(0x66);

    assert_eq!(ppu.vram[0x0305], 0x66);
}

#[test]
fn test_ppu_vram_reads() {
    let mut ppu = ppu::new_empty_rom();
    ppu.write_control_register(0);
    ppu.vram[0x0305] = 0x66;

    ppu.write_ppu_address(0x23);
    ppu.write_ppu_address(0x05);

    ppu.read_data(); //load_into_buffer
    assert_eq!(ppu.address.get(), 0x2306);
    assert_eq!(ppu.read_data(), 0x66);
}

#[test]
fn test_ppu_vram_reads_cross_page() {
    let mut ppu = ppu::new_empty_rom();
    ppu.write_control_register(0);
    ppu.vram[0x01ff] = 0x66;
    ppu.vram[0x0200] = 0x77;

    ppu.write_ppu_address(0x21);
    ppu.write_ppu_address(0xff);

    ppu.read_data(); //load_into_buffer
    assert_eq!(ppu.read_data(), 0x66);
    assert_eq!(ppu.read_data(), 0x77);
}

#[test]
fn test_ppu_vram_reads_step_32() {
    let mut ppu = ppu::new_empty_rom();
    ppu.write_control_register(0b100);
    ppu.vram[0x01ff] = 0x66;
    ppu.vram[0x01ff + 32] = 0x77;
    ppu.vram[0x01ff + 64] = 0x88;

    ppu.write_ppu_address(0x21);
    ppu.write_ppu_address(0xff);

    ppu.read_data(); //load_into_buffer
    assert_eq!(ppu.read_data(), 0x66);
    assert_eq!(ppu.read_data(), 0x77);
    assert_eq!(ppu.read_data(), 0x88);
}

// Horizontal: https://wiki.nesdev.com/w/index.php/Mirroring
//   [0x2000 A ] [0x2400 a ]
//   [0x2800 B ] [0x2C00 b ]
#[test]
fn test_vram_horizontal_mirror() {
    let mut ppu = ppu::new_empty_rom();
    ppu.write_ppu_address(0x24);
    ppu.write_ppu_address(0x05);

    ppu.write_data(0x66); //write to a

    ppu.write_ppu_address(0x28);
    ppu.write_ppu_address(0x05);

    ppu.write_data(0x77); //write to B

    ppu.write_ppu_address(0x20);
    ppu.write_ppu_address(0x05);

    ppu.read_data(); //load into buffer
    assert_eq!(ppu.read_data(), 0x66); //read from A

    ppu.write_ppu_address(0x2C);
    ppu.write_ppu_address(0x05);

    ppu.read_data(); //load into buffer
    assert_eq!(ppu.read_data(), 0x77); //read from b
}

// Vertical: https://wiki.nesdev.com/w/index.php/Mirroring
//   [0x2000 A ] [0x2400 B ]
//   [0x2800 a ] [0x2C00 b ]
#[test]
fn test_vram_vertical_mirror() {
    let mut ppu = ppu::new(vec![0; 2048], Mirroring::VERTICAL);

    ppu.write_ppu_address(0x20);
    ppu.write_ppu_address(0x05);

    ppu.write_data(0x66); //write to A

    ppu.write_ppu_address(0x2C);
    ppu.write_ppu_address(0x05);

    ppu.write_data(0x77); //write to b

    ppu.write_ppu_address(0x28);
    ppu.write_ppu_address(0x05);

    ppu.read_data(); //load into buffer
    assert_eq!(ppu.read_data(), 0x66); //read from a

    ppu.write_ppu_address(0x24);
    ppu.write_ppu_address(0x05);

    ppu.read_data(); //load into buffer
    assert_eq!(ppu.read_data(), 0x77); //read from B
}

#[test]
fn test_read_status_resets_latch() {
    let mut ppu = ppu::new_empty_rom();
    ppu.vram[0x0305] = 0x66;

    ppu.write_ppu_address(0x21);
    ppu.write_ppu_address(0x23);
    ppu.write_ppu_address(0x05);

    ppu.read_data(); //load_into_buffer
    assert_ne!(ppu.read_data(), 0x66);

    ppu.read_status_register();

    ppu.write_ppu_address(0x23);
    ppu.write_ppu_address(0x05);

    ppu.read_data(); //load_into_buffer
    assert_eq!(ppu.read_data(), 0x66);
}

#[test]
fn test_ppu_vram_mirroring() {
    let mut ppu = ppu::new_empty_rom();
    ppu.write_control_register(0);
    ppu.vram[0x0305] = 0x66;

    ppu.write_ppu_address(0x63); //0x6305 -> 0x2305
    ppu.write_ppu_address(0x05);

    ppu.read_data(); //load into_buffer
    assert_eq!(ppu.read_data(), 0x66);
    // assert_eq!(ppu.addr.read(), 0x0306)
}

#[test]
fn test_read_status_resets_vblank() {
    let mut ppu = ppu::new_empty_rom();
    ppu.status_register.set_vblank(true);

    let status = ppu.read_status_register();

    assert_eq!(status >> 7, 1);
    assert_eq!(ppu.status_register.get() >> 7, 0);
}

#[test]
fn test_oam_read_write() {
    let mut ppu = ppu::new_empty_rom();
    ppu.write_oam_address(0x10);
    ppu.write_oam_data(0x66);
    ppu.write_oam_data(0x77);

    ppu.write_oam_address(0x10);
    assert_eq!(ppu.read_oam_data(), 0x66);

    ppu.write_oam_address(0x11);
    assert_eq!(ppu.read_oam_data(), 0x77);
}

#[test]
fn test_oam_dma() {
    let mut ppu = ppu::new_empty_rom();

    let mut data = [0x66; 256];
    data[0] = 0x77;
    data[255] = 0x88;

    ppu.write_oam_address(0x10);
    ppu.write_oam_dma(&data);

    ppu.write_oam_address(0xf); //wrap around
    assert_eq!(ppu.read_oam_data(), 0x88);

    ppu.write_oam_address(0x10);
    ppu.write_oam_address(0x77);
    ppu.write_oam_address(0x11);
    ppu.write_oam_address(0x66);
}
