use vstd::prelude::*;

use crate::joypad::Joypad;
use crate::ppu::Ppu;

verus! {

/// The memory bus: work RAM, save RAM, program ROM behind its active-page table,
/// the mapper registers, and the PPU and controller ports.
pub struct Mmu {
    pub active_prg_page: Vec<usize>,
    pub scratch_ram: Vec<u8>,
    pub save_ram: Vec<u8>,
    pub is_save_ram_readonly: bool,
    pub map1: Map1Regs,
    pub map4_command_number: u8,
    pub map4_prg_addr_select: u8,
    pub map4_chr_addr_select: u8,
    pub timer_irq_enabled: bool,
    pub timer_reload_next: bool,
    pub timer_irq_count: u8,
    pub timer_irq_reload: u8,
    pub timer_zero_pulse: bool,
    pub prg_rom: Vec<Vec<u8>>,
    pub save_ram_present: bool,
    pub num_prg_pages: usize,
    pub save_ram_file_name: String,
    pub joypad: Joypad,
    pub ppu: Ppu,
}

/// The registers of the shift-register mapper: for each of its four serial
/// registers the bits taken so far and their value, and the decoded control fields.
#[derive(Clone, Copy)]
pub struct Map1Regs {
    pub reg_8000_bit: usize,
    pub reg_a000_bit: usize,
    pub reg_c000_bit: usize,
    pub reg_e000_bit: usize,
    pub reg_8000_val: usize,
    pub reg_a000_val: usize,
    pub reg_c000_val: usize,
    pub reg_e000_val: usize,
    pub mirroring_flag: u8,
    pub one_page_mirroring: u8,
    pub prg_switch_area: u8,
    pub prg_switch_size: u8,
    pub vrom_switch_size: u8,
}

impl Map1Regs {
    /// Every serial register holds fewer bits than it takes.
    pub open spec fn wf(&self) -> bool {
        &&& shift_ok(self.reg_8000_bit, self.reg_8000_val)
        &&& shift_ok(self.reg_a000_bit, self.reg_a000_val)
        &&& shift_ok(self.reg_c000_bit, self.reg_c000_val)
        &&& shift_ok(self.reg_e000_bit, self.reg_e000_val)
    }
}

/// 2 to the power `b`, for the five bit positions of a serial mapper register.
pub open spec fn shift_cap(b: usize) -> usize {
    if b == 0 {
        1
    } else if b == 1 {
        2
    } else if b == 2 {
        4
    } else if b == 3 {
        8
    } else {
        16
    }
}

/// A serial register that has taken `bit` bits holds less than 2 to the `bit`.
pub open spec fn shift_ok(bit: usize, val: usize) -> bool {
    bit < 5 && val < shift_cap(bit)
}

impl Mmu {
    /// The shape every bus keeps.
    pub open spec fn wf(&self) -> bool {
        &&& self.ppu.wf()
        &&& self.scratch_ram@.len() == 0x800
        &&& self.save_ram@.len() == 0x2000
        &&& self.active_prg_page@.len() == 8
        &&& self.num_prg_pages <= 0xff
        &&& self.ppu.num_chr_pages <= 0xff
        &&& self.map1.wf()
    }

    /// The byte of program ROM at `off` in 4K page `page`; zero where there is none.
    pub open spec fn prg_byte(&self, page: int, off: int) -> u8 {
        if 0 <= page < self.prg_rom@.len() && 0 <= off < self.prg_rom@[page]@.len() {
            self.prg_rom@[page]@[off]
        } else {
            0
        }
    }

    /// The value a bus read of `addr` returns.
    pub open spec fn peek(&self, addr: u16) -> u8 {
        let a = addr as int;
        if a < 0x2000 {
            self.scratch_ram@[a % 0x800]
        } else if a == 0x2002 {
            self.ppu.status_value()
        } else if a == 0x2004 {
            self.ppu.sprite_ram@[self.ppu.sprite_ram_address as int]
        } else if a == 0x2007 {
            self.ppu.vram_read_value()
        } else if a == 0x4016 {
            self.joypad.read_value()
        } else if 0x6000 <= a < 0x8000 {
            self.save_ram@[a - 0x6000]
        } else if a >= 0x8000 {
            self.prg_byte(self.active_prg_page@[(a - 0x8000) / 0x1000] as int, a % 0x1000)
        } else {
            0
        }
    }

    /// The bus after a read of `addr`: only the PPU status and data ports and the
    /// controller port change anything.
    pub open spec fn after_read(&self, addr: u16) -> Mmu {
        if addr == 0x2002 {
            Mmu { ppu: self.ppu.after_status_read(), ..*self }
        } else if addr == 0x2007 {
            Mmu { ppu: self.ppu.after_vram_read(), ..*self }
        } else if addr == 0x4016 {
            Mmu { joypad: self.joypad.after_read(), ..*self }
        } else {
            *self
        }
    }

    /// Reads a byte without any side effect.
    pub fn peek_u8(&self, address: u16) -> (r: u8)
        requires
            self.wf(),
        ensures
            r == self.peek(address),
    {
        if address < 0x2000 {
            self.scratch_ram[(address as usize) % 0x800]
        } else if address == 0x2002 {
            let mut result: u8 = 0;
            if self.ppu.current_scanline >= 240 {
                result = result + 0x80;
            }
            if self.ppu.sprite_0_hit {
                result = result + 0x40;
            }
            if self.ppu.sprites_crossed > 8 {
                result = result + 0x20;
            }
            result
        } else if address == 0x2004 {
            self.ppu.sprite_ram_io_reg_read()
        } else if address == 0x2007 {
            let a = self.ppu.vram_rw_addr;
            if a < 0x3f00 {
                self.ppu.vram_read_buffer
            } else if a < 0x4000 {
                self.ppu.name_tables[a - 0x2000]
            } else {
                0
            }
        } else if address == 0x4016 {
            self.joypad.joypad_1_peek()
        } else if address >= 0x6000 && address < 0x8000 {
            self.save_ram[(address as usize) - 0x6000]
        } else if address >= 0x8000 {
            let page = self.active_prg_page[((address as usize) - 0x8000) / 0x1000];
            let off = (address as usize) % 0x1000;
            if page < self.prg_rom.len() && off < self.prg_rom[page].len() {
                self.prg_rom[page][off]
            } else {
                0
            }
        } else {
            0
        }
    }
}


impl Mmu {
    /// The bus after a sprite DMA from page `page`: sprite memory holds the 256
    /// bytes that the bus shows at `page * 0x100` and on.
    pub open spec fn dma_rel(&self, new: &Mmu, page: u8) -> bool {
        &&& *new == Mmu { ppu: Ppu { sprite_ram: new.ppu.sprite_ram, ..self.ppu }, ..*self }
        &&& new.ppu.sprite_ram@ == Seq::new(
            256,
            |i: int| self.peek((page as int * 256 + i) as u16),
        )
    }

    /// A write of `data` to the PPU register at `addr` (0x2000 to 0x2007).
    #[verifier::opaque]
    pub open spec fn ppu_port_rel(&self, new: &Mmu, addr: u16, data: u8) -> bool {
        let a = addr as int;
        let p = self.ppu;
        if a == 0x2000 {
            *new == Mmu { ppu: p.after_control_reg_1(data), ..*self }
        } else if a == 0x2001 {
            *new == Mmu { ppu: p.after_control_reg_2(data), ..*self }
        } else if a == 0x2003 {
            *new == Mmu { ppu: Ppu { sprite_ram_address: data as usize, ..p }, ..*self }
        } else if a == 0x2004 {
            &&& *new == Mmu { ppu: new.ppu, ..*self }
            &&& new.ppu == Ppu {
                sprite_ram: new.ppu.sprite_ram,
                sprite_ram_address: ((p.sprite_ram_address + 1) % 256) as usize,
                ..p
            }
            &&& new.ppu.sprite_ram@ == p.sprite_ram@.update(p.sprite_ram_address as int, data)
        } else if a == 0x2005 {
            *new == Mmu { ppu: p.after_vram_addr_reg_1(data), ..*self }
        } else if a == 0x2006 {
            *new == Mmu { ppu: p.after_vram_addr_reg_2(data), ..*self }
        } else if a == 0x2007 {
            &&& *new == Mmu { ppu: new.ppu, ..*self }
            &&& new.ppu == Ppu {
                name_tables: new.ppu.name_tables,
                chr_rom: new.ppu.chr_rom,
                vram_rw_addr: p.next_vram_addr(),
                ..p
            }
            &&& new.ppu.name_tables@ == p.name_tables_after_write(data)
            &&& new.ppu.chr_view() == (if p.vram_rw_addr < 0x2000 {
                p.chr_after_write(p.vram_rw_addr as int, data)
            } else {
                p.chr_view()
            })
        } else {
            *new == *self
        }
    }

    /// A write of `data` to `addr` on the bus.
    pub open spec fn write_rel(&self, new: &Mmu, addr: u16, data: u8) -> bool {
        let a = addr as int;
        let p = self.ppu;
        if a < 0x2000 {
            &&& *new == Mmu { scratch_ram: new.scratch_ram, ..*self }
            &&& new.scratch_ram@ == self.scratch_ram@.update(a % 0x800, data)
        } else if 0x2000 <= a <= 0x2007 {
            self.ppu_port_rel(new, addr, data)
        } else if a == 0x4014 {
            self.dma_rel(new, data)
        } else if a == 0x4016 {
            *new == Mmu { joypad: self.joypad.after_write(data), ..*self }
        } else if 0x6000 <= a < 0x8000 {
            if self.is_save_ram_readonly {
                *new == *self
            } else {
                &&& *new == Mmu { save_ram: new.save_ram, ..*self }
                &&& new.save_ram@ == self.save_ram@.update(a - 0x6000, data)
            }
        } else if a >= 0x8000 {
            self.mapper_rel(new, addr, data)
        } else {
            *new == *self
        }
    }

    /// A bus with no cartridge: cleared work and save RAM, the program windows on
    /// pages 0 to 7, a power-on PPU and an idle controller.
    pub fn new() -> (r: Mmu)
        ensures
            r.wf(),
            forall|i: int| 0 <= i < 8 ==> r.active_prg_page@[i] == i,
            forall|i: int| 0 <= i < 0x800 ==> r.scratch_ram@[i] == 0,
            forall|i: int| 0 <= i < 0x2000 ==> r.save_ram@[i] == 0,
            !r.is_save_ram_readonly && !r.save_ram_present,
            r.prg_rom@.len() == 0 && r.num_prg_pages == 0,
            r.map1 == (Map1Regs {
                reg_8000_bit: 0,
                reg_a000_bit: 0,
                reg_c000_bit: 0,
                reg_e000_bit: 0,
                reg_8000_val: 0,
                reg_a000_val: 0,
                reg_c000_val: 0,
                reg_e000_val: 0,
                mirroring_flag: 0,
                one_page_mirroring: 0,
                prg_switch_area: 0,
                prg_switch_size: 0,
                vrom_switch_size: 0,
            }),
            r.map4_command_number == 0 && r.map4_prg_addr_select == 0
                && r.map4_chr_addr_select == 0,
            !r.timer_irq_enabled && !r.timer_reload_next && !r.timer_zero_pulse,
            r.timer_irq_count == 0 && r.timer_irq_reload == 0,
            r.save_ram_file_name@.len() == 0,
            r.joypad.keys@.len() == 0 && r.joypad.joypad_1_read_ptr == 0
                && r.joypad.joypad_1_last_write == 0,
            r.ppu.current_scanline == 0 && r.ppu.mapper == 0 && r.ppu.chr_rom@.len() == 0,
    {
        let mut active_prg_page: Vec<usize> = Vec::new();
        let mut x: usize = 0;
        while x < 8
            invariant
                x <= 8,
                active_prg_page@.len() == x,
                forall|i: int| 0 <= i < x ==> active_prg_page@[i] == i,
            decreases 8 - x,
        {
            active_prg_page.push(x);
            x = x + 1;
        }
        Mmu {
            active_prg_page: active_prg_page,
            scratch_ram: vec![0u8; 0x800],
            save_ram: vec![0u8; 0x2000],
            is_save_ram_readonly: false,
            map1: Map1Regs {
                reg_8000_bit: 0,
                reg_a000_bit: 0,
                reg_c000_bit: 0,
                reg_e000_bit: 0,
                reg_8000_val: 0,
                reg_a000_val: 0,
                reg_c000_val: 0,
                reg_e000_val: 0,
                mirroring_flag: 0,
                one_page_mirroring: 0,
                prg_switch_area: 0,
                prg_switch_size: 0,
                vrom_switch_size: 0,
            },
            map4_command_number: 0,
            map4_prg_addr_select: 0,
            map4_chr_addr_select: 0,
            timer_irq_enabled: false,
            timer_reload_next: false,
            timer_irq_count: 0,
            timer_irq_reload: 0,
            timer_zero_pulse: false,
            prg_rom: Vec::new(),
            save_ram_present: false,
            num_prg_pages: 0,
            save_ram_file_name: String::new(),
            joypad: Joypad::new(),
            ppu: Ppu::new(),
        }
    }

    /// Reads a byte from the bus, with the side effects of the register it hits.
    #[verifier::spinoff_prover]
    pub fn read_u8(&mut self, address: u16) -> (r: u8)
        requires
            old(self).wf(),
        ensures
            final(self).wf(),
            r == old(self).peek(address),
            *final(self) == old(self).after_read(address),
    {
        let r = self.peek_u8(address);
        if address == 0x2002 {
            self.ppu.status_reg_read();
        } else if address == 0x2007 {
            self.ppu.vram_io_reg_read();
        } else if address == 0x4016 {
            self.joypad.joypad_1_read();
        }
        r
    }

    /// Reads a little-endian 16-bit value: `address`, then the next address
    /// (wrapping at 0xffff).
    pub fn read_u16(&mut self, address: u16) -> (r: u16)
        requires
            old(self).wf(),
        ensures
            final(self).wf(),
            r == old(self).peek16(address),
            *final(self) == old(self).after_read16(address),
    {
        let read_1 = self.read_u8(address);
        let read_2 = self.read_u8(address.wrapping_add(1));
        (read_2 as u16) * 256 + (read_1 as u16)
    }

    /// Copies page `data` of the bus (256 bytes) into sprite memory.
    #[verifier::spinoff_prover]
    pub fn sprite_ram_dma_begin(&mut self, data: u8)
        requires
            old(self).wf(),
        ensures
            final(self).wf(),
            old(self).dma_rel(final(self), data),
    {
        let mut buf: Vec<u8> = Vec::new();
        let mut i: usize = 0;
        while i < 256
            invariant
                self.wf(),
                i <= 256,
                buf@.len() == i,
                forall|j: int| 0 <= j < i ==> buf@[j] == self.peek((data as int * 256 + j) as u16),
            decreases 256 - i,
        {
            let b = self.peek_u8((data as usize * 256 + i) as u16);
            buf.push(b);
            i = i + 1;
        }
        assert(buf@ =~= Seq::new(256, |j: int| self.peek((data as int * 256 + j) as u16)));
        self.ppu.set_sprite_ram(buf);
    }

    /// Writes one of the PPU's registers.
    fn write_ppu_port(&mut self, address: u16, data: u8)
        requires
            old(self).wf(),
            0x2000 <= address <= 0x2007,
        ensures
            final(self).wf(),
            old(self).ppu_port_rel(final(self), address, data),
    {
        if address == 0x2004 {
            self.write_sprite_port(data);
        } else if address == 0x2007 {
            self.write_vram_port(data);
        } else {
            self.write_ppu_register(address, data);
        }
    }

    #[verifier::spinoff_prover]
    #[verifier::rlimit(40)]
    fn write_ppu_register(&mut self, address: u16, data: u8)
        requires
            old(self).wf(),
            0x2000 <= address <= 0x2006,
            address != 0x2004,
        ensures
            final(self).wf(),
            old(self).ppu_port_rel(final(self), address, data),
    {
        reveal(Mmu::ppu_port_rel);
        if address == 0x2000 {
            self.ppu.control_reg_1_write(data);
        } else if address == 0x2001 {
            self.ppu.control_reg_2_write(data);
        } else if address == 0x2003 {
            self.ppu.sprite_ram_addr_reg_write(data);
        } else if address == 0x2005 {
            self.ppu.vram_addr_reg_1_write(data);
        } else if address == 0x2006 {
            self.ppu.vram_addr_reg_2_write(data);
        }
    }

    #[verifier::spinoff_prover]
    #[verifier::rlimit(40)]
    fn write_sprite_port(&mut self, data: u8)
        requires
            old(self).wf(),
        ensures
            final(self).wf(),
            old(self).ppu_port_rel(final(self), 0x2004, data),
    {
        reveal(Mmu::ppu_port_rel);
        self.ppu.sprite_ram_io_reg_write(data);
    }

    #[verifier::spinoff_prover]
    #[verifier::rlimit(40)]
    fn write_vram_port(&mut self, data: u8)
        requires
            old(self).wf(),
        ensures
            final(self).wf(),
            old(self).ppu_port_rel(final(self), 0x2007, data),
    {
        reveal(Mmu::ppu_port_rel);
        self.ppu.vram_io_reg_write(data);
    }

    /// Writes a byte to the bus: RAM, a PPU or controller register, sprite DMA,
    /// save RAM, or the mapper.
    #[verifier::spinoff_prover]
    #[verifier::rlimit(40)]
    pub fn write_u8(&mut self, address: u16, data: u8)
        requires
            old(self).wf(),
        ensures
            final(self).wf(),
            old(self).write_rel(final(self), address, data),
    {
        if address < 0x2000 {
            self.scratch_ram.set((address as usize) % 0x800, data);
        } else if address <= 0x2007 {
            self.write_ppu_port(address, data);
        } else if address == 0x4014 {
            self.sprite_ram_dma_begin(data);
        } else if address == 0x4016 {
            self.joypad.joypad_1_write(data);
        } else if address == 0x4017 {
            self.joypad.joypad_2_write(data);
        } else if address >= 0x6000 && address < 0x8000 {
            if !self.is_save_ram_readonly {
                self.save_ram.set((address as usize) - 0x6000, data);
            }
        } else if address >= 0x8000 {
            self.write_prg_rom(address, data);
        }
    }
}

impl Mmu {
    /// The little-endian 16-bit value that reads of `a` and the next address give.
    pub open spec fn peek16(&self, a: u16) -> u16 {
        (self.peek(a) as int + 256 * self.after_read(a).peek(next_addr(a)) as int) as u16
    }

    /// The bus after reads of `a` and the next address.
    pub open spec fn after_read16(&self, a: u16) -> Mmu {
        self.after_read(a).after_read(next_addr(a))
    }
}

/// The address after `a`, wrapping at 0xffff.
pub open spec fn next_addr(a: u16) -> u16 {
    ((a as int + 1) % 0x10000) as u16
}


/// No bus write moves the PPU's scanline counter.
pub proof fn lemma_write_keeps_scanline(m: Mmu, m1: Mmu, a: u16, d: u8)
    requires
        m.write_rel(&m1, a, d),
    ensures
        m1.ppu.current_scanline == m.ppu.current_scanline,
{
    reveal(Mmu::ppu_port_rel);
}

} // verus!
