use vstd::prelude::*;

use crate::cpu::{
    Cpu,
    TICKS_PER_SCANLINE,
    UnknownOpcode,
    ram_now,
    ram_pushed,
    ram_pushed16,
    sp_moved,
    status_byte,
    word,
};
use crate::mmu::Mmu;
use crate::cpu::run_trace;
use crate::opcodes::opcode_table;
use crate::render::{next_scanline, render_rel};

verus! {

/// Whether the multi-register mapper's scanline counter raises an interrupt on
/// this scanline: it is enabled, not waiting to reload, has run down to zero,
/// and either has a reload value or a pending zero pulse.
pub open spec fn timer_fires(m: &Mmu) -> bool {
    &&& m.ppu.current_scanline < 240
    &&& m.timer_irq_enabled
    &&& !m.timer_reload_next
    &&& m.timer_irq_count == 0
    &&& (m.timer_irq_reload > 0 || m.timer_zero_pulse)
}

/// The mapper's counter registers after one visible scanline (see `tick_timer`).
pub open spec fn timer_after(m: &Mmu) -> Mmu {
    if m.ppu.current_scanline >= 240 || !m.timer_irq_enabled {
        *m
    } else if m.timer_reload_next {
        Mmu { timer_irq_count: m.timer_irq_reload, timer_reload_next: false, ..*m }
    } else if m.timer_irq_count == 0 {
        if m.timer_irq_reload > 0 {
            Mmu { timer_irq_enabled: false, timer_reload_next: true, ..*m }
        } else if m.timer_zero_pulse {
            Mmu { timer_zero_pulse: false, timer_reload_next: true, ..*m }
        } else {
            Mmu { timer_reload_next: true, ..*m }
        }
    } else if m.ppu.background_visible || m.ppu.sprites_visible {
        Mmu { timer_irq_count: (m.timer_irq_count - 1) as u8, ..*m }
    } else {
        *m
    }
}

/// Clocks the multi-register mapper's scanline counter once: reload when a reload
/// is pending, count down while rendering is on, and on reaching zero raise an
/// interrupt through the vector at 0xfffe.
pub fn tick_timer(cpu: &mut Cpu, mmu: &mut Mmu)
    requires
        old(mmu).wf(),
    ensures
        final(mmu).wf(),
        timer_fires(old(mmu)) ==> {
            &&& ram_now(
                &timer_after(old(mmu)),
                final(mmu),
                ram_pushed(
                    ram_pushed16(old(mmu).scratch_ram@, old(cpu).sp, old(cpu).pc),
                    sp_moved(old(cpu).sp, 2),
                    status_byte(*old(cpu)),
                ),
            )
            &&& *final(cpu) == (Cpu {
                sp: sp_moved(old(cpu).sp, 3),
                pc: word(old(mmu).peek(0xfffe), old(mmu).peek(0xffff)),
                interrupt: true,
                ..*old(cpu)
            })
        },
        !timer_fires(old(mmu)) ==> *final(mmu) == timer_after(old(mmu)) && *final(cpu) == *old(
            cpu,
        ),
        timer_rel(*old(cpu), old(mmu), *final(cpu), final(mmu)),
{
    reveal(timer_rel);
    if mmu.ppu.current_scanline < 240 && mmu.timer_irq_enabled {
        if mmu.timer_reload_next {
            mmu.timer_irq_count = mmu.timer_irq_reload;
            mmu.timer_reload_next = false;
        } else if mmu.timer_irq_count == 0 {
            if mmu.timer_irq_reload > 0 {
                mmu.timer_irq_enabled = false;
                mmu.timer_reload_next = true;
                cpu.interrupt_to(mmu, 0xfffe);
                cpu.interrupt = true;
            } else if mmu.timer_zero_pulse {
                mmu.timer_zero_pulse = false;
                mmu.timer_reload_next = true;
                cpu.interrupt_to(mmu, 0xfffe);
                cpu.interrupt = true;
            } else {
                mmu.timer_reload_next = true;
            }
        } else if mmu.ppu.background_visible || mmu.ppu.sprites_visible {
            mmu.timer_irq_count = mmu.timer_irq_count - 1;
        }
    }
}

/// Processor and bus after the vertical-blank interrupt, when the PPU (bus `m`,
/// just rendered) has reached line 240 with the interrupt enabled: the program
/// counter and the status byte are pushed and the vector at 0xfffa taken.
#[verifier::opaque]
pub open spec fn nmi_step(c: Cpu, m: &Mmu, c1: Cpu, m1: &Mmu) -> bool {
    if m.ppu.current_scanline == 240 && m.ppu.execute_nmi_on_vblank {
        &&& ram_now(
            m,
            m1,
            ram_pushed(
                ram_pushed16(m.scratch_ram@, c.sp, c.pc),
                sp_moved(c.sp, 2),
                status_byte(c),
            ),
        )
        &&& c1 == Cpu { sp: sp_moved(c.sp, 3), pc: word(m.peek(0xfffa), m.peek(0xfffb)), ..c }
    } else {
        c1 == c && *m1 == *m
    }
}

/// Processor and bus after one clock of the scanline counter (see `tick_timer`).
#[verifier::opaque]
pub open spec fn timer_rel(c: Cpu, m: &Mmu, c1: Cpu, m1: &Mmu) -> bool {
    if timer_fires(m) {
        &&& ram_now(
            &timer_after(m),
            m1,
            ram_pushed(
                ram_pushed16(m.scratch_ram@, c.sp, c.pc),
                sp_moved(c.sp, 2),
                status_byte(c),
            ),
        )
        &&& c1 == Cpu {
            sp: sp_moved(c.sp, 3),
            pc: word(m.peek(0xfffe), m.peek(0xffff)),
            interrupt: true,
            ..c
        }
    } else {
        *m1 == timer_after(m) && c1 == c
    }
}

/// The end of a scanline, from processor `c` and bus `m` (just after the
/// processor's run) to `c1` and `m1`: the scanline's cycles are taken off the
/// count, the PPU renders the line (`m_r`), the vertical-blank interrupt is
/// entered when due (`c_n`, `m_n`), and under the multi-register mapper its
/// scanline counter is clocked. `frame` says whether the PPU reached line 240.
pub open spec fn end_line_rel(c: Cpu, m: &Mmu, c1: Cpu, m1: &Mmu, frame: bool) -> bool {
    exists|m_r: Mmu, c_n: Cpu, m_n: Mmu| #[trigger] end_line_via(c, *m, m_r, c_n, m_n, c1, *m1, frame)
}

/// The end of a scanline through the given intermediate states (see
/// `end_line_rel`).
pub open spec fn end_line_via(
    c: Cpu,
    m: Mmu,
    m_r: Mmu,
    c_n: Cpu,
    m_n: Mmu,
    c1: Cpu,
    m1: Mmu,
    frame: bool,
) -> bool {
    &&& render_rel(&m.ppu, &m_r.ppu)
    &&& m_r == Mmu { ppu: m_r.ppu, ..m }
    &&& nmi_step(
        Cpu { tick_count: (c.tick_count - TICKS_PER_SCANLINE) as u32, ..c },
        &m_r,
        c_n,
        &m_n,
    )
    &&& if m.ppu.mapper == 4 {
        timer_rel(c_n, &m_n, c1, &m1)
    } else {
        c1 == c_n && m1 == m_n
    }
    &&& frame == (m_r.ppu.current_scanline == 240)
}

/// Renders the current scanline on the bus's PPU.
#[verifier::spinoff_prover]
fn render_line(mmu: &mut Mmu) -> (r: bool)
    requires
        old(mmu).wf(),
    ensures
        final(mmu).wf(),
        *final(mmu) == (Mmu { ppu: final(mmu).ppu, ..*old(mmu) }),
        render_rel(&old(mmu).ppu, &final(mmu).ppu),
        final(mmu).ppu.current_scanline == next_scanline(old(mmu).ppu.current_scanline),
        final(mmu).ppu.mapper == old(mmu).ppu.mapper,
        r == (final(mmu).ppu.current_scanline == 240 && final(mmu).ppu.execute_nmi_on_vblank),
{
    mmu.ppu.render_scanline()
}

/// Enters the vertical-blank interrupt when it is due (see `nmi_step`).
#[verifier::spinoff_prover]
fn nmi_line(cpu: &mut Cpu, mmu: &mut Mmu, due: bool)
    requires
        old(mmu).wf(),
        due == (old(mmu).ppu.current_scanline == 240 && old(mmu).ppu.execute_nmi_on_vblank),
    ensures
        final(mmu).wf(),
        final(mmu).ppu == old(mmu).ppu,
        final(cpu).tick_count == old(cpu).tick_count,
        nmi_step(*old(cpu), old(mmu), *final(cpu), final(mmu)),
{
    reveal(nmi_step);
    if due {
        cpu.interrupt_to(mmu, 0xfffa);
    }
}

/// Clocks the multi-register mapper's scanline counter, under that mapper.
#[verifier::spinoff_prover]
fn timer_line(cpu: &mut Cpu, mmu: &mut Mmu)
    requires
        old(mmu).wf(),
    ensures
        final(mmu).wf(),
        final(mmu).ppu == old(mmu).ppu,
        final(cpu).tick_count == old(cpu).tick_count,
        if old(mmu).ppu.mapper == 4 {
            timer_rel(*old(cpu), old(mmu), *final(cpu), final(mmu))
        } else {
            *final(cpu) == *old(cpu) && *final(mmu) == *old(mmu)
        },
{
    if mmu.ppu.mapper == 4 {
        tick_timer(cpu, mmu);
    }
}

/// Ends a scanline after the processor's run (see `end_line_rel`).
#[verifier::spinoff_prover]
fn end_scanline(cpu: &mut Cpu, mmu: &mut Mmu) -> (frame: bool)
    requires
        old(mmu).wf(),
        TICKS_PER_SCANLINE < old(cpu).tick_count <= TICKS_PER_SCANLINE + 7,
    ensures
        final(mmu).wf(),
        final(cpu).tick_count <= TICKS_PER_SCANLINE,
        final(mmu).ppu.current_scanline == next_scanline(old(mmu).ppu.current_scanline),
        end_line_rel(*old(cpu), old(mmu), *final(cpu), final(mmu), frame),
{
    cpu.tick_count = cpu.tick_count - TICKS_PER_SCANLINE;
    let ghost c2 = *cpu;
    let nmi = render_line(mmu);
    let line = mmu.ppu.current_scanline;
    let ghost m_r = *mmu;
    nmi_line(cpu, mmu, nmi);
    let ghost c_n = *cpu;
    let ghost m_n = *mmu;
    timer_line(cpu, mmu);
    assert(end_line_via(*old(cpu), *old(mmu), m_r, c_n, m_n, *cpu, *mmu, line == 240));
    line == 240
}

/// Runs one scanline: the processor for a scanline's cycles (see `run_trace`),
/// then the end of the line (see `end_line_rel`). Returns whether a frame is
/// complete (the PPU reached line 240), or the unsupported opcode met.
pub fn run_scanline(cpu: &mut Cpu, mmu: &mut Mmu) -> (r: Result<bool, UnknownOpcode>)
    requires
        old(mmu).wf(),
        old(cpu).tick_count <= TICKS_PER_SCANLINE,
    ensures
        final(mmu).wf(),
        final(cpu).tick_count <= TICKS_PER_SCANLINE,
        r is Ok ==> final(mmu).ppu.current_scanline == next_scanline(
            old(mmu).ppu.current_scanline,
        ),
        r matches Ok(frame) ==> exists|cs: Seq<Cpu>, ms: Seq<Mmu>|
            #[trigger] run_trace(*old(cpu), *old(mmu), cs, ms, cs.last(), ms.last(), Ok(()))
                && end_line_rel(cs.last(), &ms.last(), *final(cpu), final(mmu), frame),
        r matches Err(e) ==> opcode_table(e.opcode) is None && final(cpu).current_opcode
            == e.opcode && final(cpu).pc == e.pc && final(cpu).tick_count <= TICKS_PER_SCANLINE,
{
    let run = cpu.run_for_scanline(mmu);
    let ghost c_end = *cpu;
    let ghost m_end = *mmu;
    match run {
        Err(e) => {
            assert(run == Err::<(), UnknownOpcode>(e));
            let ghost (cs, ms) = choose|cs: Seq<Cpu>, ms: Seq<Mmu>|
                run_trace(*old(cpu), *old(mmu), cs, ms, *cpu, *mmu, run);
            assert(run_trace(*old(cpu), *old(mmu), cs, ms, *cpu, *mmu, Err::<(), UnknownOpcode>(e)));
            return Err(e);
        },
        Ok(()) => {},
    }
    let ghost c_mid = *cpu;
    let ghost m_mid = *mmu;
    let ghost (cs, ms) = choose|cs: Seq<Cpu>, ms: Seq<Mmu>|
        run_trace(*old(cpu), *old(mmu), cs, ms, c_mid, m_mid, run);
    let frame = end_scanline(cpu, mmu);
    assert(run_trace(*old(cpu), *old(mmu), cs, ms, cs.last(), ms.last(), Ok(())));
    assert(cs.last() == c_mid && ms.last() == m_mid);
    assert(end_line_rel(cs.last(), &ms.last(), *cpu, mmu, frame));
    Ok(frame)
}

} // verus!
