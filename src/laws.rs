use vstd::prelude::*;

use crate::cpu::{ram_pulled16, ram_pushed16, sp_moved, stack_addr};
use crate::mapper::set_run;
use crate::mmu::Mmu;

verus! {

/// Pulling a 16-bit value right after pushing it gives the value back, and the
/// stack pointer returns to where it was, wrapping modulo 256 at both ends.
pub proof fn lemma_push_pull_u16(ram: Seq<u8>, sp: u8, v: u16)
    requires
        ram.len() == 0x800,
    ensures
        ram_pulled16(ram_pushed16(ram, sp, v), sp_moved(sp, 2)) == v,
        sp_moved(sp_moved(sp, 2), -2) == sp,
{
    let lo_slot = sp_moved(sp, 1);
    assert(sp_moved(sp_moved(sp, 2), -1) == lo_slot);
    assert(sp_moved(sp_moved(sp, 2), -2) == sp);
    assert(stack_addr(lo_slot) != stack_addr(sp));
}

/// Overwriting the same run twice is overwriting it once.
pub proof fn lemma_set_run_twice(s: Seq<usize>, from: int, count: int, base: int)
    ensures
        set_run(set_run(s, from, count, base), from, count, base) == set_run(s, from, count, base),
{
    assert(set_run(set_run(s, from, count, base), from, count, base) =~= set_run(
        s,
        from,
        count,
        base,
    ));
}

/// Two runs, written twice in the same order, leave what writing them once leaves.
pub proof fn lemma_two_runs_twice(
    s: Seq<usize>,
    f1: int,
    c1: int,
    b1: int,
    f2: int,
    c2: int,
    b2: int,
)
    ensures
        set_run(set_run(set_run(set_run(s, f1, c1, b1), f2, c2, b2), f1, c1, b1), f2, c2, b2)
            == set_run(set_run(s, f1, c1, b1), f2, c2, b2),
{
    assert(set_run(set_run(set_run(set_run(s, f1, c1, b1), f2, c2, b2), f1, c1, b1), f2, c2, b2)
        =~= set_run(set_run(s, f1, c1, b1), f2, c2, b2));
}

/// A bank-select write repeated leaves the same page tables as writing it once,
/// for the mappers whose every write is a whole bank selection (the 16K program
/// switcher, the 8K pattern switcher, and the multi-register mapper).
pub proof fn lemma_bank_select_idempotent(m0: Mmu, m1: Mmu, m2: Mmu, addr: u16, data: u8)
    requires
        m0.wf(),
        m0.ppu.mapper == 2 || m0.ppu.mapper == 3 || m0.ppu.mapper == 4,
        m0.mapper_rel(&m1, addr, data),
        m1.mapper_rel(&m2, addr, data),
    ensures
        m2.active_prg_page@ == m1.active_prg_page@,
        m2.ppu.active_chr_page@ == m1.ppu.active_chr_page@,
{
    let n = m0.num_prg_pages;
    let nc = m0.ppu.num_chr_pages;
    let t = m0.active_prg_page@;
    let tc = m0.ppu.active_chr_page@;
    if m0.ppu.mapper == 2 {
        let start = crate::mapper::prg_start(n, (data as int * 4) as usize) as int;
        lemma_set_run_twice(t, 0, 4, start);
    } else if m0.ppu.mapper == 3 {
        let start = crate::mapper::chr_start(nc, (data as int * 8) as usize) as int;
        lemma_set_run_twice(tc, 0, 8, start);
    } else if addr == 0x8001 {
        let c = m0.map4_command_number;
        let hi = m0.map4_chr_addr_select != 0;
        let even = (data - data % 2) as usize;
        if c == 0 || c == 1 {
            let area: int = if c == 0 { if hi { 2 } else { 0 } } else { if hi { 3 } else { 1 } };
            lemma_set_run_twice(tc, 2 * area, 2, crate::mapper::chr_start(nc, even) as int);
        } else if c <= 5 {
            let start: usize = if c == 2 {
                (data & crate::mapper::map4_chr_mask(nc)) as usize
            } else {
                data as usize
            };
            let area: int = if c == 2 {
                if hi { 0 } else { 4 }
            } else if c == 3 {
                if hi { 1 } else { 5 }
            } else if c == 4 {
                if hi { 2 } else { 6 }
            } else {
                if hi { 3 } else { 7 }
            };
            lemma_set_run_twice(tc, area, 1, crate::mapper::chr_start(nc, start) as int);
        } else if c <= 7 {
            let sel = m0.map4_prg_addr_select == 0;
            let last = crate::mapper::prg_start(n, crate::mapper::last_bank_start(n)) as int;
            let first = crate::mapper::prg_start(n, (data as int * 2) as usize) as int;
            if c == 6 {
                if sel {
                    lemma_two_runs_twice(t, 0, 2, first, 4, 2, last);
                } else {
                    lemma_two_runs_twice(t, 4, 2, first, 0, 2, last);
                }
            } else {
                lemma_two_runs_twice(t, 2, 2, first, if sel { 4 } else { 0 }, 2, last);
            }
        }
    }
}

/// Firing the shift-register mapper's program register twice with the same
/// five-bit value, under the same switch modes, leaves the program table that
/// firing it once leaves.
pub proof fn lemma_map1_prg_select_idempotent(m0: Mmu, m1: Mmu, v: usize)
    requires
        m1.active_prg_page@ == m0.map1_prg_table(v),
        m1.num_prg_pages == m0.num_prg_pages,
        m1.map1.prg_switch_size == m0.map1.prg_switch_size,
        m1.map1.prg_switch_area == m0.map1.prg_switch_area,
    ensures
        m1.map1_prg_table(v) == m1.active_prg_page@,
{
    let n = m0.num_prg_pages;
    let t = m0.active_prg_page@;
    let first = crate::mapper::prg_start(n, (v * 4) as usize) as int;
    if m0.map1.prg_switch_size == 1 {
        if m0.map1.prg_switch_area == 1 {
            lemma_two_runs_twice(
                t,
                0,
                4,
                first,
                4,
                4,
                crate::mapper::prg_start(n, crate::mapper::last_bank_start(n)) as int,
            );
        } else {
            lemma_two_runs_twice(t, 4, 4, first, 0, 4, crate::mapper::prg_start(n, 0) as int);
        }
    } else {
        lemma_set_run_twice(t, 0, 8, crate::mapper::prg_start(n, ((v / 2) * 8) as usize) as int);
    }
}

} // verus!
