use vstd::prelude::*;

use crate::mirroring;

verus! {

/// An RGB colour packed as 0xRRGGBB.
pub type BitsPerPixel = u32;

/// The picture processing unit: video memory, sprite memory, the register file
/// that the bus writes and reads, and the framebuffer it renders into.
pub struct Ppu {
    pub execute_nmi_on_vblank: bool,
    pub ppu_master: u8,
    pub sprite_size: usize,
    pub background_address: usize,
    pub sprite_address: usize,
    pub ppu_address_increment: usize,
    pub name_table_address: usize,
    pub monochrome_display: bool,
    pub no_background_clipping: bool,
    pub no_sprite_clipping: bool,
    pub background_visible: bool,
    pub sprites_visible: bool,
    pub ppu_color: i32,
    pub sprite_0_hit: bool,
    pub sprite_0_buffer: Vec<u8>,
    pub vram_rw_addr: usize,
    pub prev_vram_rw_addr: usize,
    pub vram_hi_lo_toggle: u8,
    pub vram_read_buffer: u8,
    pub scroll_v: u8,
    pub scroll_h: u8,
    pub current_scanline: usize,
    pub name_tables: Vec<u8>,
    pub sprite_ram: Vec<u8>,
    pub sprite_ram_address: usize,
    pub sprites_crossed: i32,
    pub offscreen_buffer: Vec<BitsPerPixel>,
    pub chr_rom: Vec<Vec<u8>>,
    pub mirroring: u8,
    pub mirroring_base: usize,
    pub is_vram: bool,
    pub mapper: u8,
    pub num_chr_pages: usize,
    pub active_chr_page: Vec<usize>,
    pub fix_scroll_offset_1: bool,
    pub fix_scroll_offset_2: bool,
    pub fix_scroll_offset_3: bool,
    pub fix_bg_change: bool,
    pub fix_scroll_reset: bool,
}

impl Ppu {
    /// The shape every PPU keeps: buffer sizes, register values within their ranges,
    /// and the scanline counter within one frame.
    pub open spec fn wf(&self) -> bool {
        &&& self.name_tables@.len() == 0x2000
        &&& self.sprite_ram@.len() == 0x100
        &&& self.offscreen_buffer@.len() == 256 * 240
        &&& self.sprite_0_buffer@.len() == 256
        &&& self.active_chr_page@.len() == 8
        &&& self.current_scanline <= 262
        &&& (self.sprite_size == 8 || self.sprite_size == 16)
        &&& (self.background_address == 0 || self.background_address == 0x1000)
        &&& (self.sprite_address == 0 || self.sprite_address == 0x1000)
        &&& (self.ppu_address_increment == 1 || self.ppu_address_increment == 32)
        &&& name_table_base_ok(self.name_table_address)
        &&& self.vram_rw_addr <= 0xffff
        &&& self.prev_vram_rw_addr <= 0xffff
        &&& self.sprite_ram_address <= 0xff
    }

    /// Writing the first control register: NMI enable, sprite size, pattern-table
    /// bases, address increment and the name-table base.
    pub open spec fn after_control_reg_1(&self, data: u8) -> Ppu {
        Ppu {
            execute_nmi_on_vblank: data & 0x80 == 0x80,
            sprite_size: if data & 0x20 == 0x20 { 16 } else { 8 },
            background_address: if data & 0x10 == 0x10 { 0x1000 } else { 0 },
            sprite_address: if data & 0x08 == 0x08 { 0x1000 } else { 0 },
            ppu_address_increment: if data & 0x04 == 0x04 { 32 } else { 1 },
            name_table_address: if self.fix_bg_change && self.current_scanline == 241 {
                0x2000
            } else {
                name_table_select(data & 0x3)
            },
            ppu_master: if self.ppu_master == 0xff {
                if data & 0x40 == 0x40 { 0 } else { 1 }
            } else {
                self.ppu_master
            },
            ..*self
        }
    }
}

/// The name-table base that the two low bits of the first control register select.
pub open spec fn name_table_select(sel: u8) -> usize {
    if sel == 0 {
        0x2000
    } else if sel == 1 {
        0x2400
    } else if sel == 2 {
        0x2800
    } else {
        0x2c00
    }
}

/// The four name-table base addresses.
pub open spec fn name_table_base_ok(a: usize) -> bool {
    a == 0x2000 || a == 0x2400 || a == 0x2800 || a == 0x2c00
}

impl Ppu {
    /// Writes the first control register.
    pub fn control_reg_1_write(&mut self, data: u8)
        requires
            old(self).wf(),
        ensures
            *final(self) == old(self).after_control_reg_1(data),
            final(self).wf(),
    {
        let sel = data & 0x3;
        let base: usize = if sel == 0 {
            0x2000
        } else if sel == 1 {
            0x2400
        } else if sel == 2 {
            0x2800
        } else {
            0x2c00
        };
        let name_table_address: usize = if self.fix_bg_change && self.current_scanline == 241 {
            0x2000
        } else {
            base
        };
        let ppu_master: u8 = if self.ppu_master == 0xff {
            if (data & 0x40) == 0x40 { 0 } else { 1 }
        } else {
            self.ppu_master
        };
        self.execute_nmi_on_vblank = (data & 0x80) == 0x80;
        self.sprite_size = if (data & 0x20) == 0x20 { 16 } else { 8 };
        self.background_address = if (data & 0x10) == 0x10 { 0x1000 } else { 0 };
        self.sprite_address = if (data & 0x8) == 0x8 { 0x1000 } else { 0 };
        self.ppu_address_increment = if (data & 0x4) == 0x4 { 32 } else { 1 };
        self.name_table_address = name_table_address;
        self.ppu_master = ppu_master;
    }
}


/// Where in name-table storage a video-memory address in 0x2000..0x3f00 lands
/// under a mirroring mode; `None` where the mode maps the quadrant nowhere.
pub open spec fn mirrored_offset(mode: u8, base: usize, addr: int) -> Option<int> {
    let q = ((addr - 0x2000) / 0x400) % 4;
    let rel = addr - 0x2000;
    if mode == mirroring::HORIZONTAL {
        Some(rel - (if q == 0 { 0 } else if q == 3 { 0x800int } else { 0x400int }))
    } else if mode == mirroring::VERTICAL {
        Some(rel - (if q < 2 { 0 } else { 0x800int }))
    } else if mode == mirroring::ONE_SCREEN {
        if base == 0x2000 {
            Some(rel - 0x400 * q)
        } else if base == 0x2400 {
            Some(rel - 0x400 * q + 0x400)
        } else {
            None
        }
    } else {
        Some(rel)
    }
}

/// Where in name-table storage a name-table address lands under a mirroring mode.
pub fn mirrored_index(mode: u8, base: usize, addr: usize) -> (r: Option<usize>)
    requires
        0x2000 <= addr < 0x3f00,
    ensures
        r matches Some(o) ==> o < 0x2000,
        r == (match mirrored_offset(mode, base, addr as int) {
            Some(o) => Some(o as usize),
            None => None::<usize>,
        }),
{
    let q = ((addr - 0x2000) / 0x400) % 4;
    let rel = addr - 0x2000;
    if mode == mirroring::HORIZONTAL {
        Some(if q == 0 { rel } else if q == 3 { rel - 0x800 } else { rel - 0x400 })
    } else if mode == mirroring::VERTICAL {
        Some(if q < 2 { rel } else { rel - 0x800 })
    } else if mode == mirroring::ONE_SCREEN {
        if base == 0x2000 {
            Some(rel - 0x400 * q)
        } else if base == 0x2400 {
            Some(rel + 0x400 - 0x400 * q)
        } else {
            None
        }
    } else {
        Some(rel)
    }
}

/// The pattern-table slot (a 1K window) that a pattern address falls in.
pub open spec fn chr_slot(addr: int) -> int {
    if addr < 0x2000 { addr / 0x400 } else { 7 }
}

impl Ppu {
    /// Pattern memory as a sequence of pages.
    pub open spec fn chr_view(&self) -> Seq<Seq<u8>> {
        self.chr_rom@.map_values(|p: Vec<u8>| p@)
    }

    /// The byte a pattern-memory read at `addr` returns: the active page of the
    /// address's slot, at the offset within the slot; zero where that page or
    /// offset does not exist.
    pub open spec fn chr_byte(&self, addr: int) -> u8 {
        let slot = chr_slot(addr);
        let page = self.active_chr_page@[slot] as int;
        let off = addr - slot * 0x400;
        if 0 <= page < self.chr_rom@.len() && 0 <= off < self.chr_rom@[page]@.len() {
            self.chr_rom@[page]@[off]
        } else {
            0
        }
    }

    /// Pattern memory after a write of `data` at `addr`: only writable pattern
    /// memory changes, and only where the target page and offset exist.
    pub open spec fn chr_after_write(&self, addr: int, data: u8) -> Seq<Seq<u8>> {
        let slot = addr / 0x400;
        let page = self.active_chr_page@[slot] as int;
        let off = addr - slot * 0x400;
        if self.is_vram && 0 <= addr < 0x2000 && 0 <= page < self.chr_rom@.len() && off
            < self.chr_rom@[page]@.len() {
            self.chr_view().update(page, self.chr_view()[page].update(off, data))
        } else {
            self.chr_view()
        }
    }

    /// Writing the second control register: display flags and colour emphasis.
    pub open spec fn after_control_reg_2(&self, data: u8) -> Ppu {
        Ppu {
            monochrome_display: data & 0x1 == 0x1,
            no_background_clipping: data & 0x2 == 0x2,
            no_sprite_clipping: data & 0x4 == 0x4,
            background_visible: data & 0x8 == 0x8,
            sprites_visible: data & 0x10 == 0x10,
            ppu_color: ((data >> 5) & 0x1f) as i32,
            ..*self
        }
    }

    /// The value of the status register: vertical blank, sprite-zero hit and
    /// sprite overflow.
    pub open spec fn status_value(&self) -> u8 {
        ((if self.current_scanline >= 240 { 0x80int } else { 0 }) + (if self.sprite_0_hit {
            0x40int
        } else {
            0
        }) + (if self.sprites_crossed > 8 { 0x20int } else { 0 })) as u8
    }

    /// Reading the status register resets the write toggle.
    pub open spec fn after_status_read(&self) -> Ppu {
        Ppu { vram_hi_lo_toggle: 1, ..*self }
    }

    /// Writing the scroll register: the first write sets the horizontal scroll, the
    /// second the vertical one, with the per-title corrections.
    pub open spec fn after_vram_addr_reg_1(&self, data: u8) -> Ppu {
        let first = self.vram_hi_lo_toggle == 1;
        Ppu {
            scroll_v: if first { data } else { self.scroll_v },
            scroll_h: if first { self.scroll_h } else { self.corrected_scroll_h(data) },
            vram_hi_lo_toggle: if first { 0 } else { 1 },
            ..*self
        }
    }

    /// The vertical scroll that a second scroll-register write of `data` sets.
    pub open spec fn corrected_scroll_h(&self, data: u8) -> u8 {
        let h0: int = if data > 239 { 0 } else { data as int };
        let sl = self.current_scanline as int;
        let visible = self.current_scanline < 240;
        let h1: int = if self.fix_scroll_offset_1 && visible { (h0 - sl) % 256 } else { h0 };
        let h2: int = if self.fix_scroll_offset_2 && visible { (h1 - sl + 8) % 256 } else { h1 };
        let h3: int = if self.fix_scroll_offset_3 && visible { 238 } else { h2 };
        h3 as u8
    }

    /// Writing the video-memory address register: high byte first, then low
    /// byte, with the scrolling trick of an address write from zero mid-frame.
    pub open spec fn after_vram_addr_reg_2(&self, data: u8) -> Ppu {
        if self.vram_hi_lo_toggle == 1 {
            Ppu {
                prev_vram_rw_addr: self.vram_rw_addr,
                vram_rw_addr: (data as int * 256) as usize,
                vram_hi_lo_toggle: 0,
                ..*self
            }
        } else {
            let addr = (self.vram_rw_addr + data) % 0x10000;
            let trick = self.prev_vram_rw_addr == 0 && self.current_scanline < 240 && 0x2000
                <= addr <= 0x2400;
            Ppu {
                vram_rw_addr: addr as usize,
                scroll_h: if trick {
                    ((((addr - 0x2000) / 0x20) * 8 - self.current_scanline) % 256) as u8
                } else {
                    self.scroll_h
                },
                vram_hi_lo_toggle: 1,
                ..*self
            }
        }
    }

    /// The video-memory address after an access through the data port.
    pub open spec fn next_vram_addr(&self) -> usize {
        ((self.vram_rw_addr + self.ppu_address_increment) % 0x10000) as usize
    }

    /// The value a read of the data port returns: the buffered byte below the
    /// palettes, the palette entry itself above.
    pub open spec fn vram_read_value(&self) -> u8 {
        let a = self.vram_rw_addr as int;
        if a < 0x3f00 {
            self.vram_read_buffer
        } else if a >= 0x4000 {
            0
        } else {
            self.name_tables@[a - 0x2000]
        }
    }

    /// A read of the data port refills the read buffer (below the palettes) and
    /// advances the address.
    pub open spec fn after_vram_read(&self) -> Ppu {
        let a = self.vram_rw_addr as int;
        Ppu {
            vram_read_buffer: if a < 0x2000 {
                self.chr_byte(a)
            } else if a < 0x3f00 {
                self.name_tables@[a - 0x2000]
            } else {
                self.vram_read_buffer
            },
            vram_rw_addr: self.next_vram_addr(),
            ..*self
        }
    }

    /// Name-table storage after a write of `data` through the data port at the
    /// current address.
    pub open spec fn name_tables_after_write(&self, data: u8) -> Seq<u8> {
        let a = self.vram_rw_addr as int;
        let nt = self.name_tables@;
        if 0x2000 <= a < 0x3f00 {
            match mirrored_offset(self.mirroring, self.mirroring_base, a) {
                Some(o) => nt.update(o, data),
                None => nt,
            }
        } else if 0x3f00 <= a < 0x3f20 {
            let n1 = nt.update(a - 0x2000, data);
            if a % 8 == 0 {
                n1.update(palette_mirror(a - 0x2000), data)
            } else {
                n1
            }
        } else {
            nt
        }
    }
}

/// The palette entry that shares storage with the entry at `i` (0x1f00 <= i < 0x1f20,
/// a multiple of 8): background and sprite colour zero mirror each other.
pub open spec fn palette_mirror(i: int) -> int {
    if (i / 16) % 2 == 0 { i + 16 } else { i - 16 }
}


impl Ppu {
    /// A PPU at power-on: rendering off, scanline zero, all memory cleared, the
    /// eight pattern slots on the first eight pages.
    pub fn new() -> (r: Ppu)
        ensures
            r.wf(),
            r.current_scanline == 0,
            r.vram_hi_lo_toggle == 1,
            r.vram_rw_addr == 0,
            r.vram_read_buffer == 0,
            r.scroll_h == 0 && r.scroll_v == 0,
            r.sprite_size == 8,
            r.name_table_address == 0x2000,
            r.ppu_address_increment == 1,
            r.background_address == 0 && r.sprite_address == 0,
            r.ppu_master == 0xff,
            !r.execute_nmi_on_vblank && !r.sprite_0_hit,
            !r.background_visible && !r.sprites_visible,
            !r.no_background_clipping && !r.no_sprite_clipping && !r.monochrome_display,
            r.sprites_crossed == 0 && r.sprite_ram_address == 0,
            r.mirroring == mirroring::HORIZONTAL && r.mirroring_base == 0,
            !r.is_vram && r.mapper == 0 && r.num_chr_pages == 0,
            r.chr_rom@.len() == 0,
            forall|i: int| 0 <= i < 8 ==> r.active_chr_page@[i] == i,
            forall|i: int| 0 <= i < 0x2000 ==> r.name_tables@[i] == 0,
            forall|i: int| 0 <= i < 0x100 ==> r.sprite_ram@[i] == 0,
            forall|i: int| 0 <= i < 256 * 240 ==> r.offscreen_buffer@[i] == 0,
            forall|i: int| 0 <= i < 256 ==> r.sprite_0_buffer@[i] == 0,
            !r.fix_scroll_offset_1 && !r.fix_scroll_offset_2 && !r.fix_scroll_offset_3,
            !r.fix_bg_change && !r.fix_scroll_reset,
    {
        let mut active_chr_page: Vec<usize> = Vec::new();
        let mut x: usize = 0;
        while x < 8
            invariant
                x <= 8,
                active_chr_page@.len() == x,
                forall|i: int| 0 <= i < x ==> active_chr_page@[i] == i,
            decreases 8 - x,
        {
            active_chr_page.push(x);
            x = x + 1;
        }
        Ppu {
            execute_nmi_on_vblank: false,
            ppu_master: 0xff,
            sprite_size: 8,
            background_address: 0x0000,
            sprite_address: 0x0000,
            ppu_address_increment: 1,
            name_table_address: 0x2000,
            current_scanline: 0,
            vram_hi_lo_toggle: 1,
            vram_read_buffer: 0,
            prev_vram_rw_addr: 0,
            vram_rw_addr: 0,
            sprite_ram_address: 0,
            scroll_v: 0,
            scroll_h: 0,
            ppu_color: 0,
            sprites_crossed: 0,
            sprite_0_hit: false,
            monochrome_display: false,
            no_background_clipping: false,
            no_sprite_clipping: false,
            background_visible: false,
            sprites_visible: false,
            fix_scroll_offset_1: false,
            fix_scroll_offset_2: false,
            fix_scroll_offset_3: false,
            fix_bg_change: false,
            fix_scroll_reset: false,
            name_tables: vec![0u8; 0x2000],
            sprite_ram: vec![0u8; 0x100],
            offscreen_buffer: vec![0u32; 256 * 240],
            sprite_0_buffer: vec![0u8; 256],
            chr_rom: Vec::new(),
            mirroring: mirroring::HORIZONTAL,
            mirroring_base: 0,
            is_vram: false,
            mapper: 0,
            num_chr_pages: 0,
            active_chr_page: active_chr_page,
        }
    }

    /// Writes the second control register.
    pub fn control_reg_2_write(&mut self, data: u8)
        requires
            old(self).wf(),
        ensures
            *final(self) == old(self).after_control_reg_2(data),
            final(self).wf(),
    {
        let color = ((data >> 5) & 0x1f) as i32;
        self.monochrome_display = (data & 0x1) == 0x1;
        self.no_background_clipping = (data & 0x2) == 0x2;
        self.no_sprite_clipping = (data & 0x4) == 0x4;
        self.background_visible = (data & 0x8) == 0x8;
        self.sprites_visible = (data & 0x10) == 0x10;
        self.ppu_color = color;
    }

    /// Reads the status register, which also resets the write toggle.
    pub fn status_reg_read(&mut self) -> (r: u8)
        requires
            old(self).wf(),
        ensures
            r == old(self).status_value(),
            *final(self) == old(self).after_status_read(),
            final(self).wf(),
    {
        let mut result: u8 = 0;
        if self.current_scanline >= 240 {
            result = result + 0x80;
        }
        if self.sprite_0_hit {
            result = result + 0x40;
        }
        if self.sprites_crossed > 8 {
            result = result + 0x20;
        }
        self.vram_hi_lo_toggle = 1;
        result
    }

    /// Writes the scroll register.
    pub fn vram_addr_reg_1_write(&mut self, data: u8)
        requires
            old(self).wf(),
        ensures
            *final(self) == old(self).after_vram_addr_reg_1(data),
            final(self).wf(),
    {
        let first = self.vram_hi_lo_toggle == 1;
        let new_v = if first { data } else { self.scroll_v };
        let new_h = if first { self.scroll_h } else { self.scroll_h_for(data) };
        self.scroll_v = new_v;
        self.scroll_h = new_h;
        self.vram_hi_lo_toggle = if first { 0 } else { 1 };
    }

    #[verifier::spinoff_prover]
    #[verifier::rlimit(60)]
    fn scroll_h_for(&self, data: u8) -> (r: u8)
        ensures
            r == self.corrected_scroll_h(data),
    {
        let mut h: u8 = if data > 239 { 0 } else { data };
        let visible = self.current_scanline < 240;
        if self.fix_scroll_offset_1 && visible {
            h = h.wrapping_sub(self.current_scanline as u8);
        }
        if self.fix_scroll_offset_2 && visible {
            h = h.wrapping_sub(self.current_scanline as u8).wrapping_add(8);
        }
        if self.fix_scroll_offset_3 && visible {
            h = 238;
        }
        h
    }

    /// Writes the video-memory address register.
    #[verifier::spinoff_prover]
    #[verifier::rlimit(60)]
    pub fn vram_addr_reg_2_write(&mut self, data: u8)
        requires
            old(self).wf(),
        ensures
            *final(self) == old(self).after_vram_addr_reg_2(data),
            final(self).wf(),
    {
        if self.vram_hi_lo_toggle == 1 {
            self.prev_vram_rw_addr = self.vram_rw_addr;
            self.vram_rw_addr = (data as usize) * 256;
            self.vram_hi_lo_toggle = 0;
        } else {
            let addr = (self.vram_rw_addr + data as usize) % 0x10000;
            if self.prev_vram_rw_addr == 0 && self.current_scanline < 240 && addr >= 0x2000
                && addr <= 0x2400 {
                self.scroll_h = ((((addr - 0x2000) / 0x20) * 8 + 256 - self.current_scanline)
                    % 256) as u8;
            }
            self.vram_rw_addr = addr;
            self.vram_hi_lo_toggle = 1;
        }
    }

    /// Writes a byte through the data port at the current video-memory address:
    /// pattern memory below 0x2000, name tables (through the mirroring mode) up to
    /// 0x3f00, palettes up to 0x3f20; then advances the address.
    #[verifier::rlimit(60)]
    pub fn vram_io_reg_write(&mut self, data: u8)
        requires
            old(self).wf(),
        ensures
            final(self).wf(),
            *final(self) == (Ppu {
                name_tables: final(self).name_tables,
                chr_rom: final(self).chr_rom,
                vram_rw_addr: old(self).next_vram_addr(),
                ..*old(self)
            }),
            final(self).name_tables@ == old(self).name_tables_after_write(data),
            final(self).chr_view() == (if old(self).vram_rw_addr < 0x2000 {
                old(self).chr_after_write(old(self).vram_rw_addr as int, data)
            } else {
                old(self).chr_view()
            }),
    {
        let a = self.vram_rw_addr;
        if a < 0x2000 {
            self.write_chr_rom(a, data);
        } else if a < 0x3f00 {
            match mirrored_index(self.mirroring, self.mirroring_base, a) {
                Some(o) => self.name_tables.set(o, data),
                None => {},
            }
        } else if a < 0x3f20 {
            self.name_tables.set(a - 0x2000, data);
            if a % 8 == 0 {
                let i = a - 0x2000;
                let j = if (i / 16) % 2 == 0 { i + 16 } else { i - 16 };
                self.name_tables.set(j, data);
            }
        }
        self.vram_rw_addr = (a + self.ppu_address_increment) % 0x10000;
    }

    /// Reads a byte through the data port: below the palettes the previous
    /// buffered byte is returned and the buffer refilled; then the address advances.
    #[verifier::rlimit(60)]
    pub fn vram_io_reg_read(&mut self) -> (r: u8)
        requires
            old(self).wf(),
        ensures
            r == old(self).vram_read_value(),
            *final(self) == old(self).after_vram_read(),
            final(self).wf(),
    {
        let a = self.vram_rw_addr;
        let result: u8 = if a < 0x3f00 {
            self.vram_read_buffer
        } else if a < 0x4000 {
            self.name_tables[a - 0x2000]
        } else {
            0
        };
        let buffer: u8 = if a < 0x2000 {
            self.read_chr_rom(a)
        } else if a < 0x3f00 {
            self.name_tables[a - 0x2000]
        } else {
            self.vram_read_buffer
        };
        self.vram_read_buffer = buffer;
        self.vram_rw_addr = (a + self.ppu_address_increment) % 0x10000;
        result
    }

    /// Sets the sprite-memory address.
    pub fn sprite_ram_addr_reg_write(&mut self, data: u8)
        requires
            old(self).wf(),
        ensures
            *final(self) == (Ppu { sprite_ram_address: data as usize, ..*old(self) }),
            final(self).wf(),
    {
        self.sprite_ram_address = data as usize;
    }

    /// Writes sprite memory at the sprite-memory address, which then advances
    /// (modulo 256).
    pub fn sprite_ram_io_reg_write(&mut self, data: u8)
        requires
            old(self).wf(),
        ensures
            *final(self) == (Ppu {
                sprite_ram: final(self).sprite_ram,
                sprite_ram_address: ((old(self).sprite_ram_address + 1) % 256) as usize,
                ..*old(self)
            }),
            final(self).sprite_ram@ == old(self).sprite_ram@.update(
                old(self).sprite_ram_address as int,
                data,
            ),
            final(self).wf(),
    {
        let a = self.sprite_ram_address;
        self.sprite_ram.set(a, data);
        self.sprite_ram_address = (a + 1) % 256;
    }

    /// Reads sprite memory at the sprite-memory address.
    pub fn sprite_ram_io_reg_read(&self) -> (r: u8)
        requires
            self.wf(),
        ensures
            r == self.sprite_ram@[self.sprite_ram_address as int],
    {
        self.sprite_ram[self.sprite_ram_address]
    }

    /// Writes pattern memory, where it is writable (cartridges without pattern ROM).
    pub fn write_chr_rom(&mut self, addr: usize, data: u8)
        requires
            old(self).wf(),
        ensures
            final(self).wf(),
            *final(self) == (Ppu { chr_rom: final(self).chr_rom, ..*old(self) }),
            final(self).chr_view() == old(self).chr_after_write(addr as int, data),
    {
        if self.is_vram && addr < 0x2000 {
            let slot = addr / 0x400;
            let page = self.active_chr_page[slot];
            let off = addr - slot * 0x400;
            if page < self.chr_rom.len() && off < self.chr_rom[page].len() {
                self.chr_rom[page][off] = data;
            }
        }
    }

    /// Reads pattern memory through the active page of the address's slot.
    pub fn read_chr_rom(&self, addr: usize) -> (r: u8)
        requires
            self.wf(),
        ensures
            r == self.chr_byte(addr as int),
    {
        let slot = if addr < 0x2000 { addr / 0x400 } else { 7 };
        let page = self.active_chr_page[slot];
        let off = addr - slot * 0x400;
        if page < self.chr_rom.len() && off < self.chr_rom[page].len() {
            self.chr_rom[page][off]
        } else {
            0
        }
    }
}


impl Ppu {
    /// Replaces sprite memory.
    pub fn set_sprite_ram(&mut self, v: Vec<u8>)
        ensures
            *final(self) == (Ppu { sprite_ram: v, ..*old(self) }),
    {
        self.sprite_ram = v;
    }

    /// Takes a cartridge's pattern memory and layout: its pages, mirroring mode,
    /// whether pattern memory is writable, mapper number and 8K page count.
    pub fn load_cart_info(
        &mut self,
        chr_rom: Vec<Vec<u8>>,
        mirroring: u8,
        is_vram: bool,
        mapper: u8,
        num_chr_pages: usize,
    )
        ensures
            *final(self) == (Ppu {
                chr_rom: chr_rom,
                mirroring: mirroring,
                mirroring_base: 0,
                is_vram: is_vram,
                mapper: mapper,
                num_chr_pages: num_chr_pages,
                ..*old(self)
            }),
    {
        self.chr_rom = chr_rom;
        self.mirroring = mirroring;
        self.mirroring_base = 0;
        self.is_vram = is_vram;
        self.mapper = mapper;
        self.num_chr_pages = num_chr_pages;
    }

    /// Sets the per-title rendering corrections.
    pub fn set_quirks(&mut self, bg: bool, s1: bool, s2: bool, s3: bool, sr: bool)
        ensures
            *final(self) == (Ppu {
                fix_bg_change: bg,
                fix_scroll_offset_1: s1,
                fix_scroll_offset_2: s2,
                fix_scroll_offset_3: s3,
                fix_scroll_reset: sr,
                ..*old(self)
            }),
    {
        self.fix_bg_change = bg;
        self.fix_scroll_offset_1 = s1;
        self.fix_scroll_offset_2 = s2;
        self.fix_scroll_offset_3 = s3;
        self.fix_scroll_reset = sr;
    }

    /// Sets the mirroring mode and the one-screen base address.
    pub fn set_mirroring(&mut self, mode: u8, base: usize)
        ensures
            *final(self) == (Ppu { mirroring: mode, mirroring_base: base, ..*old(self) }),
    {
        self.mirroring = mode;
        self.mirroring_base = base;
    }
}

} // verus!
