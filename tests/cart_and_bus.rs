use rustynes::cart::{load_rom, parse_header, save_file_name, CartHeader, LoadError};
use rustynes::cpu::Cpu;
use rustynes::joypad::{JoyButton, Joypad};
use rustynes::mirroring;
use rustynes::mmu::Mmu;
use rustynes::nes::{run_scanline, tick_timer};

fn image(prg: u8, chr: u8, info: u8, mapper_part: u8) -> Vec<u8> {
    let mut v = vec![0x4e, 0x45, 0x53, 0x1a, prg, chr, info, mapper_part];
    v.extend_from_slice(&[0; 8]);
    v.extend(std::iter::repeat(0u8).take(prg as usize * 0x4000 + chr as usize * 0x2000));
    v
}

#[test]
fn reset_loads_vector_from_last_bank() {
    let mut img = image(2, 0, 0, 0);
    let last = 16 + 2 * 0x4000;
    img[last - 4] = 0x34;
    img[last - 3] = 0x92;
    let mut mmu = Mmu::new();
    let h = load_rom(&img, &mut mmu).unwrap();
    assert_eq!(h.mapper, 0);
    assert!(mmu.ppu.is_vram);
    assert_eq!(mmu.ppu.chr_rom.len(), 8);
    assert_eq!(mmu.prg_rom.len(), 8);
    let mut cpu = Cpu::new();
    cpu.reset(&mut mmu);
    assert_eq!(cpu.pc, 0x9234);
}

#[test]
fn header_fields_decoded() {
    let img = image(1, 1, 0x13, 0x00);
    let h = parse_header(&img).unwrap();
    assert_eq!(
        h,
        CartHeader {
            num_prg_pages: 1,
            num_chr_pages: 1,
            mirroring: mirroring::VERTICAL,
            save_ram_present: true,
            mapper: 1,
        }
    );
    let h4 = parse_header(&image(1, 0, 0x48, 0x00)).unwrap();
    assert_eq!(h4.mirroring, mirroring::FOUR_SCREEN);
    assert_eq!(h4.mapper, 4);
    let repaired = parse_header(&image(1, 0, 0x23, 0x64)).unwrap();
    assert_eq!(repaired.mapper, 2);
    let garbage = parse_header(&image(1, 0, 0x10, 0x44)).unwrap();
    assert_eq!(garbage.mapper, 1);
}

#[test]
fn bad_magic_is_refused() {
    let mut img = image(1, 0, 0, 0);
    img[0] = b'X';
    assert_eq!(parse_header(&img), Err(LoadError::BadMagic));
    let mut mmu = Mmu::new();
    assert_eq!(load_rom(&img, &mut mmu), Err(LoadError::BadMagic));
    assert_eq!(mmu.prg_rom.len(), 0);
    assert_eq!(parse_header(&vec![0x4e, 0x45]), Err(LoadError::BadMagic));
}

#[test]
fn unsupported_mapper_is_refused() {
    let img = image(1, 0, 0x50, 0x00);
    assert_eq!(parse_header(&img), Err(LoadError::UnsupportedMapper(5)));
}

#[test]
fn chr_pages_follow_program_pages() {
    let mut img = image(1, 1, 0, 0);
    img[16 + 0x4000] = 0xaa;
    img[16 + 0x4000 + 0x400] = 0xbb;
    let mut mmu = Mmu::new();
    load_rom(&img, &mut mmu).unwrap();
    assert!(!mmu.ppu.is_vram);
    assert_eq!(mmu.ppu.read_chr_rom(0), 0xaa);
    assert_eq!(mmu.ppu.read_chr_rom(0x400), 0xbb);
}

#[test]
fn mapper_two_starts_with_last_bank_high() {
    let mut img = image(8, 0, 0x20, 0);
    img[16 + 7 * 0x4000] = 0x77;
    let mut mmu = Mmu::new();
    load_rom(&img, &mut mmu).unwrap();
    assert_eq!(mmu.active_prg_page[4..8], [28, 29, 30, 31]);
    assert_eq!(mmu.read_u8(0xc000), 0x77);
}

#[test]
fn title_quirk_is_detected() {
    let mut img = image(2, 0, 0, 0);
    let base = 16 + 1 * 0x1000;
    img[base + 0xfeb..base + 0xff0].copy_from_slice(b"ZELDA");
    let mut mmu = Mmu::new();
    load_rom(&img, &mut mmu).unwrap();
    assert!(mmu.ppu.fix_bg_change);
    assert!(!mmu.ppu.fix_scroll_reset);
}

#[test]
fn save_file_names() {
    assert_eq!(save_file_name(&b"game.nes".to_vec()), b"game.sav".to_vec());
    assert_eq!(save_file_name(&b"game".to_vec()), b"game.sav".to_vec());
    assert_eq!(save_file_name(&b"a.b".to_vec()), b"a.b.sav".to_vec());
    assert_eq!(save_file_name(&b"nes".to_vec()), b"sav".to_vec());
    assert_eq!(save_file_name(&b"xnes".to_vec()), b"xnes.sav".to_vec());
}

#[test]
fn ram_is_mirrored_every_2k() {
    let mut mmu = Mmu::new();
    mmu.write_u8(0x1805, 0x99);
    assert_eq!(mmu.read_u8(0x0005), 0x99);
    assert_eq!(mmu.read_u8(0x0805), 0x99);
    assert_eq!(mmu.read_u16(0x0005), 0x0099);
}

#[test]
fn save_ram_respects_read_only() {
    let mut mmu = Mmu::new();
    mmu.write_u8(0x6001, 0x12);
    assert_eq!(mmu.read_u8(0x6001), 0x12);
    mmu.is_save_ram_readonly = true;
    mmu.write_u8(0x6001, 0x34);
    assert_eq!(mmu.read_u8(0x6001), 0x12);
}

#[test]
fn unmapped_reads_are_zero() {
    let mut mmu = Mmu::new();
    assert_eq!(mmu.read_u8(0x5000), 0);
    assert_eq!(mmu.read_u8(0x4015), 0);
    assert_eq!(mmu.read_u8(0x8000), 0);
}

#[test]
fn sprite_dma_copies_a_page() {
    let mut mmu = Mmu::new();
    for i in 0..256u16 {
        mmu.write_u8(0x0200 + i, i as u8 ^ 0x5a);
    }
    mmu.write_u8(0x4014, 0x02);
    for i in 0..256usize {
        assert_eq!(mmu.ppu.sprite_ram[i], i as u8 ^ 0x5a);
    }
}

#[test]
fn joypad_serial_reads_after_strobe() {
    let mut pad = Joypad::new();
    pad.update_keys(vec![JoyButton::A, JoyButton::Up, JoyButton::Down]);
    pad.joypad_1_write(1);
    pad.joypad_1_write(0);
    let bits: Vec<u8> = (0..9).map(|_| pad.joypad_1_read()).collect();
    assert_eq!(bits, vec![1, 0, 0, 0, 1, 0, 0, 0, 0]);
    assert_eq!(pad.joypad_2_read(), 0);
    assert_eq!(JoyButton::from_usize(5), JoyButton::B);
    assert_eq!(JoyButton::from_usize(42), JoyButton::Start);
}

#[test]
fn joypad_through_the_bus() {
    let mut mmu = Mmu::new();
    mmu.joypad.update_keys(vec![JoyButton::Start]);
    mmu.write_u8(0x4016, 1);
    mmu.write_u8(0x4016, 0);
    let bits: Vec<u8> = (0..4).map(|_| mmu.read_u8(0x4016)).collect();
    assert_eq!(bits, vec![0, 0, 0, 1]);
}

#[test]
fn scanline_timer_fires_interrupt() {
    let mut img = image(2, 1, 0x40, 0);
    let end = 16 + 2 * 0x4000;
    img[end - 2] = 0x00;
    img[end - 1] = 0xe0;
    let mut mmu = Mmu::new();
    load_rom(&img, &mut mmu).unwrap();
    let mut cpu = Cpu::new();
    cpu.pc = 0x1234;
    mmu.write_u8(0xc000, 2);
    mmu.write_u8(0xe001, 0);
    mmu.ppu.control_reg_2_write(0x08);
    tick_timer(&mut cpu, &mut mmu);
    assert_eq!(mmu.timer_irq_count, 2);
    tick_timer(&mut cpu, &mut mmu);
    tick_timer(&mut cpu, &mut mmu);
    assert_eq!(mmu.timer_irq_count, 0);
    assert_eq!(cpu.pc, 0x1234);
    tick_timer(&mut cpu, &mut mmu);
    assert_eq!(cpu.pc, 0xe000);
    assert!(cpu.interrupt);
    assert!(!mmu.timer_irq_enabled);
    assert_eq!(mmu.read_u8(0x01ff), 0x12);
    assert_eq!(mmu.read_u8(0x01fe), 0x34);
}

#[test]
fn run_scanline_advances_the_ppu() {
    let mut img = image(2, 0, 0, 0);
    let end = 16 + 2 * 0x4000;
    // reset vector 0x8000; program: JMP $8000
    img[end - 4] = 0x00;
    img[end - 3] = 0x80;
    img[16] = 0x4c;
    img[17] = 0x00;
    img[18] = 0x80;
    let mut mmu = Mmu::new();
    load_rom(&img, &mut mmu).unwrap();
    let mut cpu = Cpu::new();
    cpu.reset(&mut mmu);
    let mut frames = 0;
    for _ in 0..262 {
        if run_scanline(&mut cpu, &mut mmu).unwrap() {
            frames += 1;
        }
    }
    assert_eq!(frames, 1);
    assert_eq!(mmu.ppu.current_scanline, 262);
    assert!(cpu.tick_count <= 113);
}
