use vstd::prelude::*;

use crate::mirroring;
use crate::mmu::{Map1Regs, Mmu, shift_cap, shift_ok};
use crate::ppu::Ppu;

verus! {

/// `s` with the `count` entries from `from` on set to `base`, `base + 1`, ...
pub open spec fn set_run(s: Seq<usize>, from: int, count: int, base: int) -> Seq<usize> {
    Seq::new(
        s.len(),
        |j: int|
            if from <= j < from + count {
                (base + (j - from)) as usize
            } else {
                s[j]
            },
    )
}

/// The first 4K program page of a switch to `start`, masked by the cartridge's
/// count of 16K program pages; zero for a count outside the table.
pub open spec fn prg_start(num_prg_pages: usize, start: usize) -> usize {
    if num_prg_pages == 2 {
        start & 0x7
    } else if num_prg_pages == 4 {
        start & 0xf
    } else if num_prg_pages == 8 {
        start & 0x1f
    } else if num_prg_pages == 16 {
        start & 0x3f
    } else if num_prg_pages == 32 {
        start & 0x7f
    } else {
        0
    }
}

/// The first 1K pattern page of a switch to `start`, masked by the cartridge's
/// count of 8K pattern pages; zero for a count outside the table.
pub open spec fn chr_start(num_chr_pages: usize, start: usize) -> usize {
    if num_chr_pages == 2 {
        start & 0xf
    } else if num_chr_pages == 4 {
        start & 0x1f
    } else if num_chr_pages == 8 {
        start & 0x3f
    } else if num_chr_pages == 16 {
        start & 0x7f
    } else if num_chr_pages == 32 {
        start & 0xff
    } else {
        0
    }
}

/// The first 4K page of the last 16K program page.
pub open spec fn last_bank_start(num_prg_pages: usize) -> usize {
    if num_prg_pages > 0 { ((num_prg_pages - 1) * 4) as usize } else { 0 }
}

fn fill_run(v: &mut Vec<usize>, from: usize, count: usize, base: usize)
    requires
        from + count <= old(v)@.len(),
        base + count <= usize::MAX,
        from + count <= usize::MAX,
    ensures
        final(v)@ == set_run(old(v)@, from as int, count as int, base as int),
{
    let mut i: usize = 0;
    while i < count
        invariant
            i <= count,
            from + count <= v@.len(),
            v@.len() == old(v)@.len(),
            base + count <= usize::MAX,
            from + count <= usize::MAX,
            v@ == set_run(old(v)@, from as int, i as int, base as int),
        decreases count - i,
    {
        v.set(from + i, base + i);
        i = i + 1;
        assert(v@ =~= set_run(old(v)@, from as int, i as int, base as int));
    }
}

fn prg_start_of(num_prg_pages: usize, start: usize) -> (r: usize)
    ensures
        r == prg_start(num_prg_pages, start),
        r <= 0x7f,
{
    if num_prg_pages == 2 {
        proof { assert(start & 0x7 <= 0x7f) by (bit_vector); }
        start & 0x7
    } else if num_prg_pages == 4 {
        proof { assert(start & 0xf <= 0x7f) by (bit_vector); }
        start & 0xf
    } else if num_prg_pages == 8 {
        proof { assert(start & 0x1f <= 0x7f) by (bit_vector); }
        start & 0x1f
    } else if num_prg_pages == 16 {
        proof { assert(start & 0x3f <= 0x7f) by (bit_vector); }
        start & 0x3f
    } else if num_prg_pages == 32 {
        proof { assert(start & 0x7f <= 0x7f) by (bit_vector); }
        start & 0x7f
    } else {
        0
    }
}

fn chr_start_of(num_chr_pages: usize, start: usize) -> (r: usize)
    ensures
        r == chr_start(num_chr_pages, start),
        r <= 0xff,
{
    if num_chr_pages == 2 {
        proof { assert(start & 0xf <= 0xff) by (bit_vector); }
        start & 0xf
    } else if num_chr_pages == 4 {
        proof { assert(start & 0x1f <= 0xff) by (bit_vector); }
        start & 0x1f
    } else if num_chr_pages == 8 {
        proof { assert(start & 0x3f <= 0xff) by (bit_vector); }
        start & 0x3f
    } else if num_chr_pages == 16 {
        proof { assert(start & 0x7f <= 0xff) by (bit_vector); }
        start & 0x7f
    } else if num_chr_pages == 32 {
        proof { assert(start & 0xff <= 0xff) by (bit_vector); }
        start & 0xff
    } else {
        0
    }
}

impl Mmu {
    /// Points the program windows of `area` (`count` 4K windows from
    /// `count * area`) at consecutive pages from the masked `start`.
    pub open spec fn prg_switched(&self, start: usize, count: int, area: int) -> Seq<usize> {
        set_run(
            self.active_prg_page@,
            count * area,
            count,
            prg_start(self.num_prg_pages, start) as int,
        )
    }

    /// Points the pattern slots of `area` (`count` 1K slots from `count * area`)
    /// at consecutive pages from the masked `start`.
    pub open spec fn chr_switched(&self, start: usize, count: int, area: int) -> Seq<usize> {
        set_run(
            self.ppu.active_chr_page@,
            count * area,
            count,
            chr_start(self.ppu.num_chr_pages, start) as int,
        )
    }

    /// The bus with only its program page table replaced.
    pub open spec fn with_prg(&self, new: &Mmu) -> bool {
        *new == Mmu { active_prg_page: new.active_prg_page, ..*self }
    }

    /// The bus with only its pattern slot table replaced.
    pub open spec fn with_chr(&self, new: &Mmu) -> bool {
        *new == Mmu { ppu: Ppu { active_chr_page: new.ppu.active_chr_page, ..self.ppu }, ..*self }
    }

    fn switch_32k_prg_page(&mut self, start: usize)
        requires
            old(self).wf(),
        ensures
            final(self).wf(),
            old(self).with_prg(final(self)),
            final(self).active_prg_page@ == old(self).prg_switched(start, 8, 0),
    {
        let sp = prg_start_of(self.num_prg_pages, start);
        fill_run(&mut self.active_prg_page, 0, 8, sp);
    }

    fn switch_16k_prg_page(&mut self, start: usize, area: usize)
        requires
            old(self).wf(),
            area < 2,
        ensures
            final(self).wf(),
            old(self).with_prg(final(self)),
            final(self).active_prg_page@ == old(self).prg_switched(start, 4, area as int),
    {
        let sp = prg_start_of(self.num_prg_pages, start);
        fill_run(&mut self.active_prg_page, 4 * area, 4, sp);
    }

    fn switch_8k_prg_page(&mut self, start: usize, area: usize)
        requires
            old(self).wf(),
            area < 4,
        ensures
            final(self).wf(),
            old(self).with_prg(final(self)),
            final(self).active_prg_page@ == old(self).prg_switched(start, 2, area as int),
    {
        let sp = prg_start_of(self.num_prg_pages, start);
        fill_run(&mut self.active_prg_page, 2 * area, 2, sp);
    }

    #[verifier::rlimit(40)]
    fn switch_8k_chr_page(&mut self, start: usize)
        requires
            old(self).wf(),
        ensures
            final(self).wf(),
            old(self).with_chr(final(self)),
            final(self).ppu.active_chr_page@ == old(self).chr_switched(start, 8, 0),
    {
        let sp = chr_start_of(self.ppu.num_chr_pages, start);
        fill_run(&mut self.ppu.active_chr_page, 0, 8, sp);
    }

    #[verifier::rlimit(40)]
    fn switch_4k_chr_page(&mut self, start: usize, area: usize)
        requires
            old(self).wf(),
            area < 2,
        ensures
            final(self).wf(),
            old(self).with_chr(final(self)),
            final(self).ppu.active_chr_page@ == old(self).chr_switched(start, 4, area as int),
    {
        let sp = chr_start_of(self.ppu.num_chr_pages, start);
        fill_run(&mut self.ppu.active_chr_page, 4 * area, 4, sp);
    }

    #[verifier::rlimit(40)]
    fn switch_2k_chr_page(&mut self, start: usize, area: usize)
        requires
            old(self).wf(),
            area < 4,
        ensures
            final(self).wf(),
            old(self).with_chr(final(self)),
            final(self).ppu.active_chr_page@ == old(self).chr_switched(start, 2, area as int),
    {
        let sp = chr_start_of(self.ppu.num_chr_pages, start);
        fill_run(&mut self.ppu.active_chr_page, 2 * area, 2, sp);
    }

    #[verifier::rlimit(40)]
    fn switch_1k_chr_page(&mut self, start: usize, area: usize)
        requires
            old(self).wf(),
            area < 8,
        ensures
            final(self).wf(),
            old(self).with_chr(final(self)),
            final(self).ppu.active_chr_page@ == old(self).chr_switched(start, 1, area as int),
    {
        let sp = chr_start_of(self.ppu.num_chr_pages, start);
        fill_run(&mut self.ppu.active_chr_page, area, 1, sp);
    }
}


/// A serial register's value after the low bit of `data` is shifted in at
/// position `bit`.
pub open spec fn shifted(bit: usize, val: usize, data: u8) -> usize {
    (val + (data % 2) as usize * shift_cap(bit)) as usize
}

fn shift_in(bit: usize, val: usize, data: u8) -> (r: usize)
    requires
        shift_ok(bit, val),
    ensures
        r == shifted(bit, val, data),
        bit + 1 < 5 ==> shift_ok((bit + 1) as usize, r),
        r < 32,
{
    let cap: usize = if bit == 0 {
        1
    } else if bit == 1 {
        2
    } else if bit == 2 {
        4
    } else if bit == 3 {
        8
    } else {
        16
    };
    val + ((data % 2) as usize) * cap
}

/// A table of program windows after a switch of `count` windows of `area`.
pub open spec fn prg_run(n: usize, t: Seq<usize>, start: usize, count: int, area: int) -> Seq<
    usize,
> {
    set_run(t, count * area, count, prg_start(n, start) as int)
}

/// The mapper registers after the serial control register fires with value `v`:
/// switch modes decoded, every serial register emptied.
pub open spec fn map1_control_fired(r: Map1Regs, v: usize) -> Map1Regs {
    Map1Regs {
        mirroring_flag: if v % 2 == 1 { 1 } else { 0 },
        one_page_mirroring: if (v / 2) % 2 == 1 { 1 } else { 0 },
        prg_switch_area: if (v / 4) % 2 == 1 { 1 } else { 0 },
        prg_switch_size: if (v / 8) % 2 == 1 { 1 } else { 0 },
        vrom_switch_size: if (v / 16) % 2 == 1 { 1 } else { 0 },
        reg_8000_bit: 0,
        reg_8000_val: 0,
        reg_a000_bit: 0,
        reg_a000_val: 0,
        reg_c000_bit: 0,
        reg_c000_val: 0,
        reg_e000_bit: 0,
        reg_e000_val: 0,
    }
}

/// The mirroring mode that a fired control value selects: bit 1 set selects one
/// screen; otherwise bit 0 selects vertical (1) or horizontal (0) mirroring.
pub open spec fn map1_mirroring(v: usize) -> u8 {
    if (v / 2) % 2 == 1 {
        mirroring::ONE_SCREEN
    } else if v % 2 == 1 {
        mirroring::VERTICAL
    } else {
        mirroring::HORIZONTAL
    }
}

impl Mmu {
    /// The program table after the shift-register mapper's program register
    /// fires with value `v`.
    pub open spec fn map1_prg_table(&self, v: usize) -> Seq<usize> {
        let n = self.num_prg_pages;
        let t = self.active_prg_page@;
        if self.map1.prg_switch_size == 1 {
            if self.map1.prg_switch_area == 1 {
                prg_run(n, prg_run(n, t, (v * 4) as usize, 4, 0), last_bank_start(n), 4, 1)
            } else {
                prg_run(n, prg_run(n, t, (v * 4) as usize, 4, 1), 0, 4, 0)
            }
        } else {
            prg_run(n, t, ((v / 2) * 8) as usize, 8, 0)
        }
    }

    /// The bus with only its mapper-1 registers replaced by `m`.
    pub open spec fn with_map1(&self, m: Map1Regs) -> Mmu {
        Mmu { map1: m, ..*self }
    }

    /// A write of `data` to `addr` (0x8000 and up) under the shift-register mapper:
    /// a byte with the high bit set resets, any other shifts one bit into the
    /// register of the address's 8K range, which fires on its fifth bit.
    pub open spec fn map1_rel(&self, new: &Mmu, addr: u16, data: u8) -> bool {
        let reset = data & 0x80 == 0x80;
        let r = self.map1;
        if addr <= 0x9fff {
            let b = r.reg_8000_bit;
            let v = shifted(b, r.reg_8000_val, data);
            if reset {
                *new == self.with_map1(
                    Map1Regs {
                        reg_8000_bit: 0,
                        reg_8000_val: 0,
                        mirroring_flag: 0,
                        one_page_mirroring: 1,
                        prg_switch_area: 1,
                        prg_switch_size: 1,
                        vrom_switch_size: 0,
                        ..r
                    },
                )
            } else if b + 1 < 5 {
                *new == self.with_map1(
                    Map1Regs { reg_8000_bit: (b + 1) as usize, reg_8000_val: v, ..r },
                )
            } else {
                *new == Mmu {
                    map1: map1_control_fired(r, v),
                    ppu: Ppu {
                        mirroring: map1_mirroring(v),
                        mirroring_base: if (v / 2) % 2 == 1 {
                            0x2000
                        } else {
                            self.ppu.mirroring_base
                        },
                        ..self.ppu
                    },
                    ..*self
                }
            }
        } else if addr <= 0xbfff {
            let b = r.reg_a000_bit;
            let v = shifted(b, r.reg_a000_val, data);
            let cleared = self.with_map1(Map1Regs { reg_a000_bit: 0, reg_a000_val: 0, ..r });
            if reset {
                *new == cleared
            } else if b + 1 < 5 {
                *new == self.with_map1(
                    Map1Regs { reg_a000_bit: (b + 1) as usize, reg_a000_val: v, ..r },
                )
            } else if self.ppu.num_chr_pages > 0 {
                &&& cleared.with_chr(new)
                &&& new.ppu.active_chr_page@ == (if r.vrom_switch_size == 1 {
                    self.chr_switched((v * 4) as usize, 4, 0)
                } else {
                    self.chr_switched(((v / 2) * 8) as usize, 8, 0)
                })
            } else {
                *new == cleared
            }
        } else if addr <= 0xdfff {
            let b = r.reg_c000_bit;
            let v = shifted(b, r.reg_c000_val, data);
            let cleared = self.with_map1(Map1Regs { reg_c000_bit: 0, reg_c000_val: 0, ..r });
            if reset {
                *new == cleared
            } else if b + 1 < 5 {
                *new == self.with_map1(
                    Map1Regs { reg_c000_bit: (b + 1) as usize, reg_c000_val: v, ..r },
                )
            } else if self.ppu.num_chr_pages > 0 && r.vrom_switch_size == 1 {
                cleared.with_chr(new) && new.ppu.active_chr_page@ == self.chr_switched(
                    (v * 4) as usize,
                    4,
                    1,
                )
            } else {
                *new == cleared
            }
        } else {
            let b = r.reg_e000_bit;
            let v = shifted(b, r.reg_e000_val, data);
            if reset {
                *new == self.with_map1(
                    Map1Regs {
                        reg_8000_bit: 0,
                        reg_8000_val: 0,
                        reg_a000_bit: 0,
                        reg_a000_val: 0,
                        reg_c000_bit: 0,
                        reg_c000_val: 0,
                        reg_e000_bit: 0,
                        reg_e000_val: 0,
                        ..r
                    },
                )
            } else if b + 1 < 5 {
                *new == self.with_map1(
                    Map1Regs { reg_e000_bit: (b + 1) as usize, reg_e000_val: v, ..r },
                )
            } else {
                &&& self.with_map1(Map1Regs { reg_e000_bit: 0, reg_e000_val: 0, ..r }).with_prg(new)
                &&& new.active_prg_page@ == self.map1_prg_table(v)
            }
        }
    }
}

impl Mmu {
    #[verifier::spinoff_prover]
    fn map1_control_write(&mut self, data: u8)
        requires
            old(self).wf(),
        ensures
            final(self).wf(),
            old(self).map1_rel(final(self), 0x8000, data),
    {
        let r = self.map1;
        if (data & 0x80) == 0x80 {
            self.map1 = Map1Regs {
                reg_8000_bit: 0,
                reg_8000_val: 0,
                mirroring_flag: 0,
                one_page_mirroring: 1,
                prg_switch_area: 1,
                prg_switch_size: 1,
                vrom_switch_size: 0,
                ..r
            };
        } else {
            let b = r.reg_8000_bit;
            let v = shift_in(b, r.reg_8000_val, data);
            if b + 1 < 5 {
                self.map1 = Map1Regs { reg_8000_bit: b + 1, reg_8000_val: v, ..r };
            } else {
                let one_page = (v / 2) % 2;
                let new_mirroring = if one_page == 1 {
                    mirroring::ONE_SCREEN
                } else if v % 2 == 1 {
                    mirroring::VERTICAL
                } else {
                    mirroring::HORIZONTAL
                };
                let new_base = if one_page == 1 { 0x2000 } else { self.ppu.mirroring_base };
                self.map1 = Map1Regs {
                    mirroring_flag: if v % 2 == 1 { 1 } else { 0 },
                    one_page_mirroring: if one_page == 1 { 1 } else { 0 },
                    prg_switch_area: if (v / 4) % 2 == 1 { 1 } else { 0 },
                    prg_switch_size: if (v / 8) % 2 == 1 { 1 } else { 0 },
                    vrom_switch_size: if (v / 16) % 2 == 1 { 1 } else { 0 },
                    reg_8000_bit: 0,
                    reg_8000_val: 0,
                    reg_a000_bit: 0,
                    reg_a000_val: 0,
                    reg_c000_bit: 0,
                    reg_c000_val: 0,
                    reg_e000_bit: 0,
                    reg_e000_val: 0,
                };
                self.ppu.set_mirroring(new_mirroring, new_base);
            }
        }
    }

    fn map1_chr_low_write(&mut self, data: u8)
        requires
            old(self).wf(),
        ensures
            final(self).wf(),
            old(self).map1_rel(final(self), 0xa000, data),
    {
        let r = self.map1;
        if (data & 0x80) == 0x80 {
            self.map1 = Map1Regs { reg_a000_bit: 0, reg_a000_val: 0, ..r };
        } else {
            let b = r.reg_a000_bit;
            let v = shift_in(b, r.reg_a000_val, data);
            if b + 1 < 5 {
                self.map1 = Map1Regs { reg_a000_bit: b + 1, reg_a000_val: v, ..r };
            } else {
                self.map1 = Map1Regs { reg_a000_bit: 0, reg_a000_val: 0, ..r };
                if self.ppu.num_chr_pages > 0 {
                    if r.vrom_switch_size == 1 {
                        self.switch_4k_chr_page(v * 4, 0);
                    } else {
                        self.switch_8k_chr_page((v / 2) * 8);
                    }
                }
            }
        }
    }

    fn map1_chr_high_write(&mut self, data: u8)
        requires
            old(self).wf(),
        ensures
            final(self).wf(),
            old(self).map1_rel(final(self), 0xc000, data),
    {
        let r = self.map1;
        if (data & 0x80) == 0x80 {
            self.map1 = Map1Regs { reg_c000_bit: 0, reg_c000_val: 0, ..r };
        } else {
            let b = r.reg_c000_bit;
            let v = shift_in(b, r.reg_c000_val, data);
            if b + 1 < 5 {
                self.map1 = Map1Regs { reg_c000_bit: b + 1, reg_c000_val: v, ..r };
            } else {
                self.map1 = Map1Regs { reg_c000_bit: 0, reg_c000_val: 0, ..r };
                if self.ppu.num_chr_pages > 0 && r.vrom_switch_size == 1 {
                    self.switch_4k_chr_page(v * 4, 1);
                }
            }
        }
    }

    fn map1_prg_write(&mut self, data: u8)
        requires
            old(self).wf(),
        ensures
            final(self).wf(),
            old(self).map1_rel(final(self), 0xe000, data),
    {
        let r = self.map1;
        if (data & 0x80) == 0x80 {
            self.map1 = Map1Regs {
                reg_8000_bit: 0,
                reg_8000_val: 0,
                reg_a000_bit: 0,
                reg_a000_val: 0,
                reg_c000_bit: 0,
                reg_c000_val: 0,
                reg_e000_bit: 0,
                reg_e000_val: 0,
                ..r
            };
        } else {
            let b = r.reg_e000_bit;
            let v = shift_in(b, r.reg_e000_val, data);
            if b + 1 < 5 {
                self.map1 = Map1Regs { reg_e000_bit: b + 1, reg_e000_val: v, ..r };
            } else {
                self.map1 = Map1Regs { reg_e000_bit: 0, reg_e000_val: 0, ..r };
                let n = self.num_prg_pages;
                let last = if n > 0 { (n - 1) * 4 } else { 0 };
                if r.prg_switch_size == 1 {
                    if r.prg_switch_area == 1 {
                        self.switch_16k_prg_page(v * 4, 0);
                        self.switch_16k_prg_page(last, 1);
                    } else {
                        self.switch_16k_prg_page(v * 4, 1);
                        self.switch_16k_prg_page(0, 0);
                    }
                } else {
                    self.switch_32k_prg_page((v / 2) * 8);
                }
            }
        }
    }
}


/// The address mask that the multi-register mapper applies to a 1K pattern
/// page number: eight times the count of 8K pattern pages, less one, in a byte.
pub open spec fn map4_chr_mask(num_chr_pages: usize) -> u8 {
    ((num_chr_pages * 8 + 255) % 256) as u8
}

impl Mmu {
    /// The pattern table after a bank-data write of `data` under the
    /// multi-register mapper with command `c` (0 to 5).
    pub open spec fn map4_chr_table(&self, c: u8, data: u8) -> Seq<usize> {
        let hi = self.map4_chr_addr_select != 0;
        let even = (data - data % 2) as usize;
        if c == 0 {
            self.chr_switched(even, 2, if hi { 2 } else { 0 })
        } else if c == 1 {
            self.chr_switched(even, 2, if hi { 3 } else { 1 })
        } else if c == 2 {
            self.chr_switched((data & map4_chr_mask(self.ppu.num_chr_pages)) as usize, 1, if hi {
                0
            } else {
                4
            })
        } else if c == 3 {
            self.chr_switched(data as usize, 1, if hi { 1 } else { 5 })
        } else if c == 4 {
            self.chr_switched(data as usize, 1, if hi { 2 } else { 6 })
        } else {
            self.chr_switched(data as usize, 1, if hi { 3 } else { 7 })
        }
    }

    /// The program table after a bank-data write of `data` under the
    /// multi-register mapper with command `c` (6 or 7): the selected 8K window
    /// switches and the second-to-last 8K page goes to the window the mode fixes.
    pub open spec fn map4_prg_table(&self, c: u8, data: u8) -> Seq<usize> {
        let n = self.num_prg_pages;
        let t = self.active_prg_page@;
        let sel = self.map4_prg_addr_select == 0;
        let last = last_bank_start(n);
        let start = (data as int * 2) as usize;
        if c == 6 {
            if sel {
                prg_run(n, prg_run(n, t, start, 2, 0), last, 2, 2)
            } else {
                prg_run(n, prg_run(n, t, start, 2, 2), last, 2, 0)
            }
        } else {
            prg_run(n, prg_run(n, t, start, 2, 1), last, 2, if sel { 2 } else { 0 })
        }
    }

    /// A write of `data` to `addr` under the multi-register mapper: command
    /// select, bank data, mirroring, and the scanline counter's reload, reset,
    /// disable and enable.
    pub open spec fn map4_rel(&self, new: &Mmu, addr: u16, data: u8) -> bool {
        let c = self.map4_command_number;
        if addr == 0x8000 {
            *new == Mmu {
                map4_command_number: data & 0x7,
                map4_prg_addr_select: data & 0x40,
                map4_chr_addr_select: data & 0x80,
                ..*self
            }
        } else if addr == 0x8001 {
            if c <= 5 {
                self.with_chr(new) && new.ppu.active_chr_page@ == self.map4_chr_table(c, data)
            } else if c <= 7 {
                self.with_prg(new) && new.active_prg_page@ == self.map4_prg_table(c, data)
            } else {
                *new == *self
            }
        } else if addr == 0xa000 {
            *new == Mmu {
                ppu: Ppu {
                    mirroring: if data & 1 == 1 {
                        mirroring::HORIZONTAL
                    } else {
                        mirroring::VERTICAL
                    },
                    ..self.ppu
                },
                ..*self
            }
        } else if addr == 0xc000 {
            *new == Mmu {
                timer_irq_reload: data,
                timer_zero_pulse: data == 0 || self.timer_zero_pulse,
                timer_reload_next: true,
                ..*self
            }
        } else if addr == 0xc001 {
            *new == Mmu { timer_irq_count: 0, ..*self }
        } else if addr == 0xe000 {
            *new == Mmu { timer_irq_enabled: false, ..*self }
        } else if addr == 0xe001 {
            *new == Mmu { timer_irq_enabled: true, ..*self }
        } else {
            *new == *self
        }
    }

    /// A write of `data` to the cartridge range (0x8000 and up), as the mapper
    /// interprets it: serial registers (1), a 16K program switch (2), an 8K
    /// pattern switch (3), the multi-register mapper (4); no effect otherwise.
    pub open spec fn mapper_rel(&self, new: &Mmu, addr: u16, data: u8) -> bool {
        let m = self.ppu.mapper;
        if m == 1 {
            self.map1_rel(new, addr, data)
        } else if m == 2 {
            self.with_prg(new) && new.active_prg_page@ == self.prg_switched(
                (data as int * 4) as usize,
                4,
                0,
            )
        } else if m == 3 {
            self.with_chr(new) && new.ppu.active_chr_page@ == self.chr_switched(
                (data as int * 8) as usize,
                8,
                0,
            )
        } else if m == 4 {
            self.map4_rel(new, addr, data)
        } else {
            *new == *self
        }
    }
}

impl Mmu {
    #[verifier::spinoff_prover]
    fn map4_bank_write(&mut self, data: u8)
        requires
            old(self).wf(),
        ensures
            final(self).wf(),
            old(self).map4_rel(final(self), 0x8001, data),
    {
        let c = self.map4_command_number;
        let hi = self.map4_chr_addr_select != 0;
        let even = (data - data % 2) as usize;
        if c == 0 {
            self.switch_2k_chr_page(even, if hi { 2 } else { 0 });
        } else if c == 1 {
            self.switch_2k_chr_page(even, if hi { 3 } else { 1 });
        } else if c == 2 {
            let mask = ((self.ppu.num_chr_pages * 8 + 255) % 256) as u8;
            self.switch_1k_chr_page((data & mask) as usize, if hi { 0 } else { 4 });
        } else if c == 3 {
            self.switch_1k_chr_page(data as usize, if hi { 1 } else { 5 });
        } else if c == 4 {
            self.switch_1k_chr_page(data as usize, if hi { 2 } else { 6 });
        } else if c == 5 {
            self.switch_1k_chr_page(data as usize, if hi { 3 } else { 7 });
        } else if c <= 7 {
            let n = self.num_prg_pages;
            let last = if n > 0 { (n - 1) * 4 } else { 0 };
            let sel = self.map4_prg_addr_select == 0;
            let start = data as usize * 2;
            if c == 6 {
                if sel {
                    self.switch_8k_prg_page(start, 0);
                    self.switch_8k_prg_page(last, 2);
                } else {
                    self.switch_8k_prg_page(start, 2);
                    self.switch_8k_prg_page(last, 0);
                }
            } else {
                self.switch_8k_prg_page(start, 1);
                self.switch_8k_prg_page(last, if sel { 2 } else { 0 });
            }
        }
    }

    #[verifier::spinoff_prover]
    fn map4_write(&mut self, addr: u16, data: u8)
        requires
            old(self).wf(),
        ensures
            final(self).wf(),
            old(self).map4_rel(final(self), addr, data),
    {
        if addr == 0x8000 {
            self.map4_command_number = data & 0x7;
            self.map4_prg_addr_select = data & 0x40;
            self.map4_chr_addr_select = data & 0x80;
        } else if addr == 0x8001 {
            self.map4_bank_write(data);
        } else if addr == 0xa000 {
            let mode = if (data & 1) == 1 { mirroring::HORIZONTAL } else { mirroring::VERTICAL };
            let base = self.ppu.mirroring_base;
            self.ppu.set_mirroring(mode, base);
        } else if addr == 0xc000 {
            self.timer_irq_reload = data;
            if data == 0 {
                self.timer_zero_pulse = true;
            }
            self.timer_reload_next = true;
        } else if addr == 0xc001 {
            self.timer_irq_count = 0;
        } else if addr == 0xe000 {
            self.timer_irq_enabled = false;
        } else if addr == 0xe001 {
            self.timer_irq_enabled = true;
        }
    }

    /// Hands a write to the cartridge range to the mapper's bank-switch logic.
    #[verifier::spinoff_prover]
    pub fn write_prg_rom(&mut self, addr: u16, data: u8)
        requires
            old(self).wf(),
            addr >= 0x8000,
        ensures
            final(self).wf(),
            old(self).mapper_rel(final(self), addr, data),
    {
        let m = self.ppu.mapper;
        if m == 1 {
            if addr <= 0x9fff {
                self.map1_control_write(data);
            } else if addr <= 0xbfff {
                self.map1_chr_low_write(data);
            } else if addr <= 0xdfff {
                self.map1_chr_high_write(data);
            } else {
                self.map1_prg_write(data);
            }
        } else if m == 2 {
            self.switch_16k_prg_page(data as usize * 4, 0);
        } else if m == 3 {
            self.switch_8k_chr_page(data as usize * 8);
        } else if m == 4 {
            self.map4_write(addr, data);
        }
    }

    /// The mapper's power-on bank layout: the serial registers emptied and their
    /// modes reset (1), and the last 16K program page in the upper window (1, 2, 4).
    pub open spec fn defaults_rel(&self, new: &Mmu) -> bool {
        let m = self.ppu.mapper;
        let table = self.prg_switched(last_bank_start(self.num_prg_pages), 4, 1);
        if m == 1 {
            &&& self.with_map1(
                Map1Regs {
                    reg_8000_bit: 0,
                    reg_8000_val: 0,
                    mirroring_flag: 0,
                    one_page_mirroring: 1,
                    prg_switch_area: 1,
                    prg_switch_size: 1,
                    vrom_switch_size: 0,
                    ..self.map1
                },
            ).with_prg(new)
            &&& new.active_prg_page@ == table
        } else if m == 2 {
            self.with_prg(new) && new.active_prg_page@ == table
        } else if m == 4 {
            &&& (Mmu {
                map4_prg_addr_select: 0,
                map4_chr_addr_select: 0,
                timer_zero_pulse: false,
                ..*self
            }).with_prg(new)
            &&& new.active_prg_page@ == table
        } else {
            *new == *self
        }
    }

    /// Sets up the mapper's power-on bank layout after a cartridge is loaded.
    #[verifier::spinoff_prover]
    pub fn setup_defaults(&mut self)
        requires
            old(self).wf(),
        ensures
            final(self).wf(),
            old(self).defaults_rel(final(self)),
    {
        let m = self.ppu.mapper;
        let n = self.num_prg_pages;
        let last = if n > 0 { (n - 1) * 4 } else { 0 };
        if m == 1 {
            let r = self.map1;
            self.map1 = Map1Regs {
                reg_8000_bit: 0,
                reg_8000_val: 0,
                mirroring_flag: 0,
                one_page_mirroring: 1,
                prg_switch_area: 1,
                prg_switch_size: 1,
                vrom_switch_size: 0,
                ..r
            };
            self.switch_16k_prg_page(last, 1);
        } else if m == 2 {
            self.switch_16k_prg_page(last, 1);
        } else if m == 4 {
            self.map4_prg_addr_select = 0;
            self.map4_chr_addr_select = 0;
            self.timer_zero_pulse = false;
            self.switch_16k_prg_page(last, 1);
        }
    }
}

} // verus!
