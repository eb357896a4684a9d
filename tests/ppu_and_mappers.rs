use rustynes::mirroring;
use rustynes::mmu::Mmu;
use rustynes::ppu::Ppu;

fn write_vram(ppu: &mut Ppu, addr: u16, data: u8) {
    ppu.vram_addr_reg_2_write((addr >> 8) as u8);
    ppu.vram_addr_reg_2_write((addr & 0xff) as u8);
    ppu.vram_io_reg_write(data);
}

#[test]
fn mirroring_table_all_modes_and_quadrants() {
    let quadrants = [0x2005u16, 0x2405, 0x2805, 0x2c05];
    let cases: [(u8, usize, [usize; 4]); 4] = [
        (mirroring::HORIZONTAL, 0, [0x005, 0x005, 0x405, 0x405]),
        (mirroring::VERTICAL, 0, [0x005, 0x405, 0x005, 0x405]),
        (mirroring::ONE_SCREEN, 0x2000, [0x005, 0x005, 0x005, 0x005]),
        (mirroring::FOUR_SCREEN, 0, [0x005, 0x405, 0x805, 0xc05]),
    ];
    for (mode, base, expected) in cases.iter() {
        for (q, addr) in quadrants.iter().enumerate() {
            let mut ppu = Ppu::new();
            ppu.mirroring = *mode;
            ppu.mirroring_base = *base;
            write_vram(&mut ppu, *addr, 0xab);
            assert_eq!(ppu.name_tables[expected[q]], 0xab, "mode {} quadrant {}", mode, q);
            let written = ppu.name_tables.iter().filter(|b| **b == 0xab).count();
            assert_eq!(written, 1);
        }
    }
}

#[test]
fn palette_zero_entries_mirror() {
    let mut ppu = Ppu::new();
    write_vram(&mut ppu, 0x3f10, 0x21);
    assert_eq!(ppu.name_tables[0x1f10], 0x21);
    assert_eq!(ppu.name_tables[0x1f00], 0x21);
    write_vram(&mut ppu, 0x3f01, 0x05);
    assert_eq!(ppu.name_tables[0x1f01], 0x05);
    assert_eq!(ppu.name_tables[0x1f11], 0x00);
}

#[test]
fn vram_reads_are_buffered_below_palettes() {
    let mut ppu = Ppu::new();
    write_vram(&mut ppu, 0x2001, 0x11);
    write_vram(&mut ppu, 0x2002, 0x22);
    ppu.vram_addr_reg_2_write(0x20);
    ppu.vram_addr_reg_2_write(0x01);
    assert_eq!(ppu.vram_io_reg_read(), 0x00);
    assert_eq!(ppu.vram_io_reg_read(), 0x11);
    assert_eq!(ppu.vram_io_reg_read(), 0x22);
    write_vram(&mut ppu, 0x3f02, 0x30);
    ppu.vram_addr_reg_2_write(0x3f);
    ppu.vram_addr_reg_2_write(0x02);
    assert_eq!(ppu.vram_io_reg_read(), 0x30);
}

#[test]
fn address_increment_of_32() {
    let mut ppu = Ppu::new();
    ppu.control_reg_1_write(0x04);
    ppu.vram_addr_reg_2_write(0x20);
    ppu.vram_addr_reg_2_write(0x00);
    ppu.vram_io_reg_write(1);
    ppu.vram_io_reg_write(2);
    assert_eq!(ppu.name_tables[0x00], 1);
    assert_eq!(ppu.name_tables[0x20], 2);
}

#[test]
fn status_read_resets_write_toggle() {
    let mut ppu = Ppu::new();
    ppu.vram_addr_reg_1_write(0x10);
    assert_eq!(ppu.vram_hi_lo_toggle, 0);
    let _ = ppu.status_reg_read();
    assert_eq!(ppu.vram_hi_lo_toggle, 1);
    ppu.vram_addr_reg_1_write(0x20);
    assert_eq!(ppu.scroll_v, 0x20);
    ppu.vram_addr_reg_1_write(0xf5);
    assert_eq!(ppu.scroll_h, 0);
}

#[test]
fn status_reports_vblank() {
    let mut ppu = Ppu::new();
    ppu.current_scanline = 241;
    assert_eq!(ppu.status_reg_read() & 0x80, 0x80);
    ppu.current_scanline = 10;
    assert_eq!(ppu.status_reg_read() & 0x80, 0x00);
}

#[test]
fn sprite_ram_port_advances() {
    let mut ppu = Ppu::new();
    ppu.sprite_ram_addr_reg_write(0xff);
    ppu.sprite_ram_io_reg_write(7);
    ppu.sprite_ram_io_reg_write(8);
    assert_eq!(ppu.sprite_ram[0xff], 7);
    assert_eq!(ppu.sprite_ram[0x00], 8);
    assert_eq!(ppu.sprite_ram_io_reg_read(), 0);
}

fn scene(background: bool, sprite_x: u8) -> Ppu {
    let mut ppu = Ppu::new();
    for _ in 0..8 {
        ppu.chr_rom.push(vec![0u8; 1024]);
    }
    for b in 0..16 {
        ppu.chr_rom[0][b] = 0xff;
    }
    ppu.name_tables[0x1f00] = 0x0f;
    ppu.sprite_ram[0] = 9;
    ppu.sprite_ram[1] = 0;
    ppu.sprite_ram[2] = 0;
    ppu.sprite_ram[3] = sprite_x;
    ppu.control_reg_2_write(if background { 0x18 } else { 0x10 } | 0x02);
    ppu.current_scanline = 10;
    ppu
}

#[test]
fn sprite_zero_hit_over_background() {
    let mut ppu = scene(true, 20);
    assert!(!ppu.render_scanline());
    assert_eq!(ppu.status_reg_read() & 0x40, 0x40);
    assert_eq!(ppu.sprite_0_buffer[20], 5);
}

#[test]
fn no_sprite_zero_hit_without_background() {
    let mut ppu = scene(false, 20);
    ppu.render_scanline();
    assert_eq!(ppu.status_reg_read() & 0x40, 0x00);
}

#[test]
fn sprite_zero_hit_clears_at_frame_wrap() {
    let mut ppu = scene(true, 20);
    ppu.render_scanline();
    assert!(ppu.sprite_0_hit);
    ppu.current_scanline = 262;
    ppu.render_scanline();
    assert_eq!(ppu.current_scanline, 0);
    assert!(!ppu.sprite_0_hit);
}

#[test]
fn blank_line_is_backdrop_with_clipping() {
    let mut ppu = Ppu::new();
    ppu.name_tables[0x1f00] = 0x01;
    ppu.current_scanline = 3;
    ppu.render_scanline();
    assert_eq!(ppu.offscreen_buffer[3 * 256 + 7], 0);
    assert_eq!(ppu.offscreen_buffer[3 * 256 + 8], 0x0000bb);
    assert_eq!(ppu.offscreen_buffer[2 * 256 + 8], 0);
}

#[test]
fn vblank_interrupt_at_line_240() {
    let mut ppu = Ppu::new();
    ppu.control_reg_1_write(0x80);
    ppu.current_scanline = 239;
    assert!(ppu.render_scanline());
    assert!(!ppu.render_scanline());
}

fn mapper_bus(mapper: u8, prg_pages: usize, chr_pages: usize) -> Mmu {
    let mut mmu = Mmu::new();
    for _ in 0..prg_pages * 4 {
        mmu.prg_rom.push(vec![0u8; 4096]);
    }
    mmu.num_prg_pages = prg_pages;
    mmu.ppu.num_chr_pages = chr_pages;
    for _ in 0..std::cmp::max(chr_pages * 8, 8) {
        mmu.ppu.chr_rom.push(vec![0u8; 1024]);
    }
    mmu.ppu.mapper = mapper;
    mmu.setup_defaults();
    mmu
}

fn serial_write(mmu: &mut Mmu, addr: u16, value: u8) {
    for i in 0..5 {
        mmu.write_u8(addr, (value >> i) & 1);
    }
}

#[test]
fn mapper1_high_bit_resets_shift_register() {
    let mut mmu = mapper_bus(1, 8, 2);
    mmu.write_u8(0x8000, 1);
    mmu.write_u8(0x8000, 1);
    assert_eq!(mmu.map1.reg_8000_bit, 2);
    mmu.write_u8(0x8000, 0x80);
    assert_eq!(mmu.map1.reg_8000_bit, 0);
    assert_eq!(mmu.map1.reg_8000_val, 0);
    assert_eq!(mmu.map1.prg_switch_size, 1);
    assert_eq!(mmu.map1.one_page_mirroring, 1);
}

#[test]
fn mapper1_control_value_one() {
    let mut mmu = mapper_bus(1, 8, 2);
    serial_write(&mut mmu, 0x8000, 0b00001);
    assert_eq!(mmu.ppu.mirroring, mirroring::VERTICAL);
    assert_eq!(mmu.map1.mirroring_flag, 1);
    assert_eq!(mmu.map1.one_page_mirroring, 0);
    assert_eq!(mmu.map1.prg_switch_area, 0);
    assert_eq!(mmu.map1.prg_switch_size, 0);
    assert_eq!(mmu.map1.vrom_switch_size, 0);
    assert_eq!(mmu.map1.reg_8000_bit, 0);
}

#[test]
fn mapper1_control_selects_horizontal_and_one_screen() {
    let mut mmu = mapper_bus(1, 8, 2);
    serial_write(&mut mmu, 0x8000, 0b01100);
    assert_eq!(mmu.ppu.mirroring, mirroring::HORIZONTAL);
    assert_eq!(mmu.map1.prg_switch_area, 1);
    assert_eq!(mmu.map1.prg_switch_size, 1);
    serial_write(&mut mmu, 0x8000, 0b10010);
    assert_eq!(mmu.ppu.mirroring, mirroring::ONE_SCREEN);
    assert_eq!(mmu.ppu.mirroring_base, 0x2000);
    assert_eq!(mmu.map1.vrom_switch_size, 1);
    assert_eq!(mmu.map1.prg_switch_size, 0);
}

#[test]
fn mapper1_program_select_twice_same_as_once() {
    let mut mmu = mapper_bus(1, 8, 2);
    serial_write(&mut mmu, 0xe000, 3);
    let once = mmu.active_prg_page.clone();
    assert_eq!(once, vec![12, 13, 14, 15, 28, 29, 30, 31]);
    serial_write(&mut mmu, 0xe000, 3);
    assert_eq!(mmu.active_prg_page, once);
}

#[test]
fn mapper1_32k_program_switch() {
    let mut mmu = mapper_bus(1, 8, 2);
    serial_write(&mut mmu, 0x8000, 0b00010);
    serial_write(&mut mmu, 0xe000, 5);
    assert_eq!(mmu.active_prg_page, vec![16, 17, 18, 19, 20, 21, 22, 23]);
}

#[test]
fn mapper1_4k_pattern_switch() {
    let mut mmu = mapper_bus(1, 8, 4);
    serial_write(&mut mmu, 0x8000, 0b11110);
    serial_write(&mut mmu, 0xa000, 3);
    serial_write(&mut mmu, 0xc000, 5);
    assert_eq!(mmu.ppu.active_chr_page, vec![12, 13, 14, 15, 20, 21, 22, 23]);
}

#[test]
fn mapper2_select_twice_same_as_once() {
    let mut mmu = mapper_bus(2, 8, 0);
    mmu.write_u8(0x8000, 3);
    let once = mmu.active_prg_page.clone();
    assert_eq!(once, vec![12, 13, 14, 15, 28, 29, 30, 31]);
    mmu.write_u8(0xc123, 3);
    assert_eq!(mmu.active_prg_page, once);
}

#[test]
fn mapper3_switches_8k_pattern() {
    let mut mmu = mapper_bus(3, 2, 4);
    mmu.write_u8(0x8000, 2);
    assert_eq!(mmu.ppu.active_chr_page, vec![16, 17, 18, 19, 20, 21, 22, 23]);
}

#[test]
fn mapper4_program_and_pattern_banks() {
    let mut mmu = mapper_bus(4, 8, 8);
    mmu.write_u8(0x8000, 6);
    mmu.write_u8(0x8001, 3);
    assert_eq!(mmu.active_prg_page, vec![6, 7, 2, 3, 28, 29, 30, 31]);
    mmu.write_u8(0x8001, 3);
    assert_eq!(mmu.active_prg_page, vec![6, 7, 2, 3, 28, 29, 30, 31]);
    mmu.write_u8(0x8000, 0x46);
    mmu.write_u8(0x8001, 3);
    assert_eq!(mmu.active_prg_page, vec![28, 29, 2, 3, 6, 7, 30, 31]);
    mmu.write_u8(0x8000, 0x80);
    mmu.write_u8(0x8001, 9);
    assert_eq!(mmu.ppu.active_chr_page[4..6], [8, 9]);
    mmu.write_u8(0xa000, 1);
    assert_eq!(mmu.ppu.mirroring, mirroring::HORIZONTAL);
}
