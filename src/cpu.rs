use vstd::prelude::*;

use crate::mmu::{Mmu, lemma_write_keeps_scanline, next_addr};
use crate::opcodes::{Mode, Op, decode, opcode_table, op_name};

verus! {

/// The processor: registers, flags, the cycle count of the current scanline and
/// the opcode being executed.
#[derive(Clone, Copy)]
pub struct Cpu {
    pub a: u8,
    pub x: u8,
    pub y: u8,
    pub sp: u8,
    pub pc: u16,
    pub carry: bool,
    pub zero: bool,
    pub interrupt: bool,
    pub decimal: bool,
    pub brk: bool,
    pub overflow: bool,
    pub sign: bool,
    pub tick_count: u32,
    pub is_debugging: bool,
    pub current_opcode: u8,
}

/// An opcode outside the supported set, and where it was met.
#[derive(Clone, Copy, Debug, PartialEq, Eq, Structural)]
pub struct UnknownOpcode {
    pub opcode: u8,
    pub pc: u16,
}

/// The largest cycle count from which an instruction may start.
pub const TICK_LIMIT: u32 = 0xffff_0000;

/// `pc` advanced by `n`, wrapping at 0xffff.
pub open spec fn pc_plus(pc: u16, n: int) -> u16 {
    ((pc as int + n) % 0x10000) as u16
}

/// The address that a little-endian byte pair forms.
pub open spec fn word(lo: u8, hi: u8) -> u16 {
    (lo as int + 256 * hi as int) as u16
}

/// Builds a 16-bit address from its low and high bytes.
pub fn make_address(c: u8, d: u8) -> (r: u16)
    ensures
        r == word(c, d),
{
    (d as u16) * 256 + (c as u16)
}

/// How many bytes an instruction in a mode takes.
pub open spec fn mode_len(m: Mode) -> int {
    match m {
        Mode::Imp | Mode::Acc => 1,
        Mode::Abs | Mode::Abx | Mode::Aby | Mode::Ind => 3,
        _ => 2,
    }
}

/// Instructions that only read their operand.
pub open spec fn is_read(o: Op) -> bool {
    o == Op::Adc || o == Op::And || o == Op::Eor || o == Op::Ora || o == Op::Sbc || o == Op::Cmp
        || o == Op::Cpx || o == Op::Cpy || o == Op::Lda || o == Op::Ldx || o == Op::Ldy || o
        == Op::Bit
}

/// Instructions that store a register.
pub open spec fn is_store(o: Op) -> bool {
    o == Op::Sta || o == Op::Stx || o == Op::Sty
}

/// Instructions that read, modify and write back their operand.
pub open spec fn is_rmw(o: Op) -> bool {
    o == Op::Asl || o == Op::Lsr || o == Op::Rol || o == Op::Ror || o == Op::Inc || o == Op::Dec
}

/// The conditional branches.
pub open spec fn is_branch(o: Op) -> bool {
    o == Op::Bcc || o == Op::Bcs || o == Op::Beq || o == Op::Bne || o == Op::Bmi || o == Op::Bpl
        || o == Op::Bvc || o == Op::Bvs
}

/// The cycles an instruction costs, before any page-crossing penalty.
pub open spec fn base_cycles(o: Op, m: Mode) -> u32 {
    if is_read(o) {
        match m {
            Mode::Imm => 2,
            Mode::Zp => 3,
            Mode::Izx => 6,
            Mode::Izy => 5,
            _ => 4,
        }
    } else if is_store(o) {
        match m {
            Mode::Zp => 3,
            Mode::Abx | Mode::Aby => 5,
            Mode::Izx | Mode::Izy => 6,
            _ => 4,
        }
    } else if is_rmw(o) {
        match m {
            Mode::Acc => 2,
            Mode::Zp => 5,
            Mode::Abx => 7,
            _ => 6,
        }
    } else if o == Op::Jmp {
        if m == Mode::Ind { 5 } else { 3 }
    } else if o == Op::Jsr || o == Op::Rts || o == Op::Rti {
        6
    } else if o == Op::Brk {
        7
    } else if o == Op::Pha || o == Op::Php {
        3
    } else if o == Op::Pla || o == Op::Plp {
        4
    } else {
        2
    }
}

/// The cycle cost of each instruction in each mode.
pub fn cycles_of(o: Op, m: Mode) -> (r: u32)
    ensures
        r == base_cycles(o, m),
        r <= 7,
{
    let read = matches!(o, Op::Adc | Op::And | Op::Eor | Op::Ora | Op::Sbc | Op::Cmp | Op::Cpx
        | Op::Cpy | Op::Lda | Op::Ldx | Op::Ldy | Op::Bit);
    let store = matches!(o, Op::Sta | Op::Stx | Op::Sty);
    let rmw = matches!(o, Op::Asl | Op::Lsr | Op::Rol | Op::Ror | Op::Inc | Op::Dec);
    if read {
        match m {
            Mode::Imm => 2,
            Mode::Zp => 3,
            Mode::Izx => 6,
            Mode::Izy => 5,
            _ => 4,
        }
    } else if store {
        match m {
            Mode::Zp => 3,
            Mode::Abx | Mode::Aby => 5,
            Mode::Izx | Mode::Izy => 6,
            _ => 4,
        }
    } else if rmw {
        match m {
            Mode::Acc => 2,
            Mode::Zp => 5,
            Mode::Abx => 7,
            _ => 6,
        }
    } else if o == Op::Jmp {
        if m == Mode::Ind { 5 } else { 3 }
    } else if o == Op::Jsr || o == Op::Rts || o == Op::Rti {
        6
    } else if o == Op::Brk {
        7
    } else if o == Op::Pha || o == Op::Php {
        3
    } else if o == Op::Pla || o == Op::Plp {
        4
    } else {
        2
    }
}

impl Cpu {
    /// The operand bytes after the opcode.
    pub open spec fn arg1(&self, m: &Mmu) -> u8 {
        m.peek(next_addr(self.pc))
    }

    pub open spec fn arg2(&self, m: &Mmu) -> u8 {
        m.peek(next_addr(next_addr(self.pc)))
    }

    /// The pointer that an indirect mode reads from the zero page.
    pub open spec fn pointer(&self, m: &Mmu, mode: Mode) -> u16 {
        let p: int = if mode == Mode::Izx {
            (self.arg1(m) as int + self.x as int) % 256
        } else {
            self.arg1(m) as int
        };
        word(m.peek(p as u16), m.peek((p + 1) as u16))
    }

    /// The address an instruction's operand is at, before indexing for the
    /// indexed absolute and indirect-indexed modes.
    pub open spec fn base_address(&self, m: &Mmu, mode: Mode) -> u16 {
        match mode {
            Mode::Izy => self.pointer(m, mode),
            _ => word(self.arg1(m), self.arg2(m)),
        }
    }

    /// The address an instruction's operand is at.
    pub open spec fn ea(&self, m: &Mmu, mode: Mode) -> u16 {
        let lo = self.arg1(m) as int;
        match mode {
            Mode::Zp => lo as u16,
            Mode::Zpx => ((lo + self.x) % 256) as u16,
            Mode::Zpy => ((lo + self.y) % 256) as u16,
            Mode::Abx => ((self.base_address(m, mode) + self.x) % 0x10000) as u16,
            Mode::Aby | Mode::Izy => ((self.base_address(m, mode) + self.y) % 0x10000) as u16,
            Mode::Izx => self.pointer(m, mode),
            _ => self.base_address(m, mode),
        }
    }

    /// Whether indexing moved the operand address onto another 256-byte page.
    pub open spec fn crossed(&self, m: &Mmu, mode: Mode) -> bool {
        (mode == Mode::Abx || mode == Mode::Aby || mode == Mode::Izy) && self.base_address(m, mode)
            / 256 != self.ea(m, mode) / 256
    }

    /// The cycle count after an instruction that costs `n` cycles.
    pub open spec fn ticks_after(&self, n: int) -> u32 {
        (self.tick_count + n) as u32
    }
}

/// Zero and sign flags for a result.
pub open spec fn with_nz(c: Cpu, r: u8) -> Cpu {
    Cpu { zero: r == 0, sign: r >= 128, ..c }
}

/// Registers and flags after a read instruction with operand `v`.
pub open spec fn read_result(o: Op, c: Cpu, v: u8) -> Cpu {
    match o {
        Op::Adc => {
            let total = c.a as int + v as int + (if c.carry { 1int } else { 0 });
            let r = (total % 256) as u8;
            Cpu { carry: total > 255, overflow: (c.a ^ r) & (v ^ r) & 0x80 != 0, a: r, ..with_nz(c, r) }
        },
        Op::Sbc => {
            let total = c.a as int - v as int - (if c.carry { 0int } else { 1 });
            let r = ((total + 256) % 256) as u8;
            Cpu {
                carry: total >= 0,
                overflow: (c.a ^ v) & (c.a ^ r) & 0x80 != 0,
                a: r,
                ..with_nz(c, r)
            }
        },
        Op::And => Cpu { a: c.a & v, ..with_nz(c, c.a & v) },
        Op::Ora => Cpu { a: c.a | v, ..with_nz(c, c.a | v) },
        Op::Eor => Cpu { a: c.a ^ v, ..with_nz(c, c.a ^ v) },
        Op::Cmp => Cpu { carry: c.a >= v, ..with_nz(c, ((c.a + 256 - v) % 256) as u8) },
        Op::Cpx => Cpu { carry: c.x >= v, ..with_nz(c, ((c.x + 256 - v) % 256) as u8) },
        Op::Cpy => Cpu { carry: c.y >= v, ..with_nz(c, ((c.y + 256 - v) % 256) as u8) },
        Op::Lda => Cpu { a: v, ..with_nz(c, v) },
        Op::Ldx => Cpu { x: v, ..with_nz(c, v) },
        Op::Ldy => Cpu { y: v, ..with_nz(c, v) },
        _ => Cpu { zero: c.a & v == 0, sign: v >= 128, overflow: v & 0x40 == 0x40, ..c },
    }
}

/// The value a read-modify-write instruction writes back for operand `v`.
pub open spec fn rmw_value(o: Op, c: Cpu, v: u8) -> u8 {
    match o {
        Op::Asl => ((v as int * 2) % 256) as u8,
        Op::Lsr => v / 2,
        Op::Rol => ((v as int * 2) % 256 + (if c.carry { 1int } else { 0 })) as u8,
        Op::Ror => (v / 2 + (if c.carry { 128int } else { 0 })) as u8,
        Op::Inc => ((v as int + 1) % 256) as u8,
        _ => ((v as int + 255) % 256) as u8,
    }
}

/// Flags after a read-modify-write instruction with operand `v`: the shifts put
/// the bit shifted out in carry.
pub open spec fn rmw_flags(o: Op, c: Cpu, v: u8) -> Cpu {
    let r = rmw_value(o, c, v);
    let c2 = with_nz(c, r);
    match o {
        Op::Asl | Op::Rol => Cpu { carry: v >= 128, ..c2 },
        Op::Lsr | Op::Ror => Cpu { carry: v % 2 == 1, ..c2 },
        _ => c2,
    }
}

/// Whether a branch is taken.
pub open spec fn branch_taken(o: Op, c: Cpu) -> bool {
    match o {
        Op::Bcc => !c.carry,
        Op::Bcs => c.carry,
        Op::Beq => c.zero,
        Op::Bne => !c.zero,
        Op::Bmi => c.sign,
        Op::Bpl => !c.sign,
        Op::Bvc => !c.overflow,
        _ => c.overflow,
    }
}

/// The target of a branch at `pc` with offset byte `off` (two's complement),
/// relative to the next instruction.
pub open spec fn branch_target(pc: u16, off: u8) -> u16 {
    let next = (pc as int + 2) % 0x10000;
    ((next + off as int + 0x10000 - (if off >= 128 { 256int } else { 0 })) % 0x10000) as u16
}

/// Registers and flags after an implied-mode instruction that touches no memory.
pub open spec fn implied_result(o: Op, c: Cpu) -> Cpu {
    match o {
        Op::Clc => Cpu { carry: false, ..c },
        Op::Cld => Cpu { decimal: false, ..c },
        Op::Cli => Cpu { interrupt: false, ..c },
        Op::Clv => Cpu { overflow: false, ..c },
        Op::Sec => Cpu { carry: true, ..c },
        Op::Sed => Cpu { decimal: true, ..c },
        Op::Sei => Cpu { interrupt: true, ..c },
        Op::Dex => Cpu { x: ((c.x + 255) % 256) as u8, ..with_nz(c, ((c.x + 255) % 256) as u8) },
        Op::Dey => Cpu { y: ((c.y + 255) % 256) as u8, ..with_nz(c, ((c.y + 255) % 256) as u8) },
        Op::Inx => Cpu { x: ((c.x + 1) % 256) as u8, ..with_nz(c, ((c.x + 1) % 256) as u8) },
        Op::Iny => Cpu { y: ((c.y + 1) % 256) as u8, ..with_nz(c, ((c.y + 1) % 256) as u8) },
        Op::Tax => Cpu { x: c.a, ..with_nz(c, c.a) },
        Op::Tay => Cpu { y: c.a, ..with_nz(c, c.a) },
        Op::Tsx => Cpu { x: c.sp, ..with_nz(c, c.sp) },
        Op::Txa => Cpu { a: c.x, ..with_nz(c, c.x) },
        Op::Tya => Cpu { a: c.y, ..with_nz(c, c.y) },
        Op::Txs => Cpu { sp: c.x, ..c },
        _ => c,
    }
}

/// The implied-mode instructions that touch no memory.
pub open spec fn is_implied(o: Op) -> bool {
    o == Op::Clc || o == Op::Cld || o == Op::Cli || o == Op::Clv || o == Op::Sec || o == Op::Sed
        || o == Op::Sei || o == Op::Dex || o == Op::Dey || o == Op::Inx || o == Op::Iny || o
        == Op::Tax || o == Op::Tay || o == Op::Tsx || o == Op::Txa || o == Op::Tya || o == Op::Txs
        || o == Op::Nop
}

/// The packed status byte: sign, overflow, break, decimal, interrupt, zero, carry
/// from bit 7 down (bit 5 clear).
pub open spec fn status_byte(c: Cpu) -> u8 {
    ((if c.sign { 0x80int } else { 0 }) + (if c.overflow { 0x40int } else { 0 }) + (if c.brk {
        0x10int
    } else {
        0
    }) + (if c.decimal { 0x08int } else { 0 }) + (if c.interrupt { 0x04int } else { 0 }) + (
    if c.zero {
        0x02int
    } else {
        0
    }) + (if c.carry { 0x01int } else { 0 })) as u8
}

/// The flags a pulled status byte sets.
pub open spec fn with_status(c: Cpu, s: u8) -> Cpu {
    Cpu {
        sign: s & 0x80 == 0x80,
        overflow: s & 0x40 == 0x40,
        brk: s & 0x10 == 0x10,
        decimal: s & 0x08 == 0x08,
        interrupt: s & 0x04 == 0x04,
        zero: s & 0x02 == 0x02,
        carry: s & 0x01 == 0x01,
        ..c
    }
}

/// The stack page address of stack slot `sp`.
pub open spec fn stack_addr(sp: u8) -> int {
    0x100 + sp as int
}

/// The stack pointer after `n` pushes (negative: pulls), modulo 256.
pub open spec fn sp_moved(sp: u8, n: int) -> u8 {
    ((sp as int - n + 512) % 256) as u8
}

/// Work RAM after pushing `d` at stack slot `sp`.
pub open spec fn ram_pushed(ram: Seq<u8>, sp: u8, d: u8) -> Seq<u8> {
    ram.update(stack_addr(sp), d)
}

/// Work RAM after pushing a 16-bit value at stack slot `sp`: high byte first.
pub open spec fn ram_pushed16(ram: Seq<u8>, sp: u8, v: u16) -> Seq<u8> {
    ram_pushed(ram_pushed(ram, sp, (v / 256) as u8), sp_moved(sp, 1), (v % 256) as u8)
}

/// The 16-bit value that pulling from stack slot `sp` (the slot below the top)
/// gives: low byte first.
pub open spec fn ram_pulled16(ram: Seq<u8>, sp: u8) -> u16 {
    word(ram[stack_addr(sp_moved(sp, -1))], ram[stack_addr(sp_moved(sp, -2))])
}

/// The bus with only its work RAM replaced by `ram`.
pub open spec fn ram_now(m: &Mmu, new: &Mmu, ram: Seq<u8>) -> bool {
    *new == Mmu { scratch_ram: new.scratch_ram, ..*m } && new.scratch_ram@ == ram
}


impl Cpu {
    /// After a read instruction: the operand is the byte after the opcode
    /// (immediate) or the byte at the operand address, read through the bus.
    pub open spec fn read_rel(&self, m: &Mmu, o: Op, mode: Mode, c1: Cpu, m1: &Mmu) -> bool {
        let ea = self.ea(m, mode);
        let v = if mode == Mode::Imm { self.arg1(m) } else { m.peek(ea) };
        let n = base_cycles(o, mode) + (if self.crossed(m, mode) { 1int } else { 0 });
        &&& c1 == Cpu {
            pc: pc_plus(self.pc, mode_len(mode)),
            tick_count: self.ticks_after(n),
            ..read_result(o, *self, v)
        }
        &&& *m1 == (if mode == Mode::Imm { *m } else { m.after_read(ea) })
    }

    /// The register a store instruction writes.
    pub open spec fn stored(&self, o: Op) -> u8 {
        if o == Op::Sta {
            self.a
        } else if o == Op::Stx {
            self.x
        } else {
            self.y
        }
    }

    /// After a store instruction: the register is written to the operand address.
    pub open spec fn store_rel(&self, m: &Mmu, o: Op, mode: Mode, c1: Cpu, m1: &Mmu) -> bool {
        &&& c1 == Cpu {
            pc: pc_plus(self.pc, mode_len(mode)),
            tick_count: self.ticks_after(base_cycles(o, mode) as int),
            ..*self
        }
        &&& m.write_rel(m1, self.ea(m, mode), self.stored(o))
    }

    /// After a read-modify-write instruction: on the accumulator, or on the byte
    /// at the operand address, read and then written back through the bus.
    pub open spec fn rmw_rel(&self, m: &Mmu, o: Op, mode: Mode, c1: Cpu, m1: &Mmu) -> bool {
        let ea = self.ea(m, mode);
        let v = if mode == Mode::Acc { self.a } else { m.peek(ea) };
        let f = Cpu {
            pc: pc_plus(self.pc, mode_len(mode)),
            tick_count: self.ticks_after(base_cycles(o, mode) as int),
            ..rmw_flags(o, *self, v)
        };
        if mode == Mode::Acc {
            c1 == Cpu { a: rmw_value(o, *self, v), ..f } && *m1 == *m
        } else {
            c1 == f && m.after_read(ea).write_rel(m1, ea, rmw_value(o, *self, v))
        }
    }

    /// After a branch: taken, it costs one cycle more, and one more again when
    /// the target lies on another page than the next instruction.
    pub open spec fn branch_rel(&self, m: &Mmu, o: Op, c1: Cpu, m1: &Mmu) -> bool {
        let next = pc_plus(self.pc, 2);
        let target = branch_target(self.pc, self.arg1(m));
        let taken = branch_taken(o, *self);
        let n: int = if taken {
            if next / 256 != target / 256 { 4 } else { 3 }
        } else {
            2
        };
        &&& c1 == Cpu {
            pc: if taken { target } else { next },
            tick_count: self.ticks_after(n),
            ..*self
        }
        &&& *m1 == *m
    }

    /// After a push (PHA, PHP): the accumulator or the status byte goes on the stack.
    pub open spec fn push_rel(&self, m: &Mmu, o: Op, c1: Cpu, m1: &Mmu) -> bool {
        let d = if o == Op::Pha { self.a } else { status_byte(*self) };
        &&& ram_now(m, m1, ram_pushed(m.scratch_ram@, self.sp, d))
        &&& c1 == Cpu {
            sp: sp_moved(self.sp, 1),
            pc: pc_plus(self.pc, 1),
            tick_count: self.ticks_after(3),
            ..*self
        }
    }

    /// After a pull (PLA, PLP): the top of the stack goes to the accumulator or
    /// the flags.
    pub open spec fn pull_rel(&self, m: &Mmu, o: Op, c1: Cpu, m1: &Mmu) -> bool {
        let top = m.scratch_ram@[stack_addr(sp_moved(self.sp, -1))];
        let c = if o == Op::Pla {
            Cpu { a: top, ..with_nz(*self, top) }
        } else {
            with_status(*self, top)
        };
        &&& *m1 == *m
        &&& c1 == Cpu {
            sp: sp_moved(self.sp, -1),
            pc: pc_plus(self.pc, 1),
            tick_count: self.ticks_after(4),
            ..c
        }
    }

    /// After JSR: the address of its last byte is pushed and the target taken.
    pub open spec fn jsr_rel(&self, m: &Mmu, c1: Cpu, m1: &Mmu) -> bool {
        &&& ram_now(m, m1, ram_pushed16(m.scratch_ram@, self.sp, pc_plus(self.pc, 2)))
        &&& c1 == Cpu {
            sp: sp_moved(self.sp, 2),
            pc: word(self.arg1(m), self.arg2(m)),
            tick_count: self.ticks_after(6),
            ..*self
        }
    }

    /// After RTS: the pulled address plus one.
    pub open spec fn rts_rel(&self, m: &Mmu, c1: Cpu, m1: &Mmu) -> bool {
        &&& *m1 == *m
        &&& c1 == Cpu {
            sp: sp_moved(self.sp, -2),
            pc: pc_plus(ram_pulled16(m.scratch_ram@, self.sp), 1),
            tick_count: self.ticks_after(6),
            ..*self
        }
    }

    /// After RTI: the flags, then the address, pulled.
    pub open spec fn rti_rel(&self, m: &Mmu, c1: Cpu, m1: &Mmu) -> bool {
        let top = m.scratch_ram@[stack_addr(sp_moved(self.sp, -1))];
        &&& *m1 == *m
        &&& c1 == Cpu {
            sp: sp_moved(self.sp, -3),
            pc: ram_pulled16(m.scratch_ram@, sp_moved(self.sp, -1)),
            tick_count: self.ticks_after(6),
            ..with_status(*self, top)
        }
    }

    /// After BRK: the address two past the opcode and the status byte (with the
    /// break flag) are pushed, interrupts are disabled, and the vector at 0xfffe
    /// is taken.
    pub open spec fn brk_rel(&self, m: &Mmu, c1: Cpu, m1: &Mmu) -> bool {
        let flagged = Cpu { brk: true, ..*self };
        &&& ram_now(
            m,
            m1,
            ram_pushed(
                ram_pushed16(m.scratch_ram@, self.sp, pc_plus(self.pc, 2)),
                sp_moved(self.sp, 2),
                status_byte(flagged),
            ),
        )
        &&& c1 == Cpu {
            sp: sp_moved(self.sp, 3),
            pc: word(m.peek(0xfffe), m.peek(0xffff)),
            interrupt: true,
            tick_count: self.ticks_after(7),
            ..flagged
        }
    }

    /// After JMP: the target, read through the pointer for the indirect form.
    pub open spec fn jmp_rel(&self, m: &Mmu, mode: Mode, c1: Cpu, m1: &Mmu) -> bool {
        let target = word(self.arg1(m), self.arg2(m));
        if mode == Mode::Ind {
            &&& c1 == Cpu { pc: m.peek16(target), tick_count: self.ticks_after(5), ..*self }
            &&& *m1 == m.after_read16(target)
        } else {
            c1 == Cpu { pc: target, tick_count: self.ticks_after(3), ..*self } && *m1 == *m
        }
    }

    /// After a stack or control-flow instruction.
    pub open spec fn control_rel(&self, m: &Mmu, o: Op, mode: Mode, c1: Cpu, m1: &Mmu) -> bool {
        match o {
            Op::Pha | Op::Php => self.push_rel(m, o, c1, m1),
            Op::Pla | Op::Plp => self.pull_rel(m, o, c1, m1),
            Op::Jsr => self.jsr_rel(m, c1, m1),
            Op::Rts => self.rts_rel(m, c1, m1),
            Op::Rti => self.rti_rel(m, c1, m1),
            Op::Brk => self.brk_rel(m, c1, m1),
            _ => self.jmp_rel(m, mode, c1, m1),
        }
    }

    /// One instruction `o` in mode `mode`, from this processor and bus `m` to `c1`
    /// and `m1`.
    pub open spec fn step_rel(&self, m: &Mmu, o: Op, mode: Mode, c1: Cpu, m1: &Mmu) -> bool {
        if is_read(o) {
            self.read_rel(m, o, mode, c1, m1)
        } else if is_store(o) {
            self.store_rel(m, o, mode, c1, m1)
        } else if is_rmw(o) {
            self.rmw_rel(m, o, mode, c1, m1)
        } else if is_branch(o) {
            self.branch_rel(m, o, c1, m1)
        } else if is_implied(o) {
            c1 == Cpu {
                pc: pc_plus(self.pc, 1),
                tick_count: self.ticks_after(2),
                ..implied_result(o, *self)
            } && *m1 == *m
        } else {
            self.control_rel(m, o, mode, c1, m1)
        }
    }
}

impl Cpu {
    /// A processor at power-on: registers clear, the stack pointer at 0xff and the
    /// program counter at the reset vector's address.
    pub fn new() -> (r: Cpu)
        ensures
            r == (Cpu {
                a: 0,
                x: 0,
                y: 0,
                sp: 0xff,
                pc: 0xfffc,
                carry: false,
                zero: false,
                interrupt: false,
                decimal: false,
                brk: false,
                overflow: false,
                sign: false,
                tick_count: 0,
                is_debugging: false,
                current_opcode: 0,
            }),
    {
        Cpu {
            a: 0,
            x: 0,
            y: 0,
            sp: 0xff,
            pc: 0xfffc,
            carry: false,
            zero: false,
            interrupt: false,
            decimal: false,
            brk: false,
            overflow: false,
            sign: false,
            tick_count: 0,
            is_debugging: false,
            current_opcode: 0,
        }
    }

    /// The address of an instruction's operand, and whether indexing crossed a page.
    fn operand_address(&self, mmu: &Mmu, mode: Mode) -> (r: (u16, bool))
        requires
            mmu.wf(),
        ensures
            r.0 == self.ea(mmu, mode),
            r.1 == self.crossed(mmu, mode),
    {
        let lo = mmu.peek_u8(self.pc.wrapping_add(1));
        let hi = mmu.peek_u8(self.pc.wrapping_add(1).wrapping_add(1));
        let abs = make_address(lo, hi);
        match mode {
            Mode::Zp => (lo as u16, false),
            Mode::Zpx => (((lo as u16 + self.x as u16) % 256), false),
            Mode::Zpy => (((lo as u16 + self.y as u16) % 256), false),
            Mode::Abx => {
                let ea = ((abs as u32 + self.x as u32) % 0x10000) as u16;
                (ea, abs / 256 != ea / 256)
            },
            Mode::Aby => {
                let ea = ((abs as u32 + self.y as u32) % 0x10000) as u16;
                (ea, abs / 256 != ea / 256)
            },
            Mode::Izx => {
                let p = (lo as u16 + self.x as u16) % 256;
                (make_address(mmu.peek_u8(p), mmu.peek_u8(p + 1)), false)
            },
            Mode::Izy => {
                let p = lo as u16;
                let ptr = make_address(mmu.peek_u8(p), mmu.peek_u8(p + 1));
                let ea = ((ptr as u32 + self.y as u32) % 0x10000) as u16;
                (ea, ptr / 256 != ea / 256)
            },
            _ => (abs, false),
        }
    }

    /// Executes a read instruction.
    #[verifier::spinoff_prover]
    #[verifier::rlimit(80)]
    fn exec_read(&mut self, mmu: &mut Mmu, o: Op, mode: Mode)
        requires
            old(mmu).wf(),
            is_read(o),
            old(self).tick_count <= TICK_LIMIT,
        ensures
            final(mmu).wf(),
            old(self).read_rel(old(mmu), o, mode, *final(self), final(mmu)),
    {
        let (ea, crossed) = self.operand_address(mmu, mode);
        let v = if mode == Mode::Imm {
            mmu.peek_u8(self.pc.wrapping_add(1))
        } else {
            mmu.read_u8(ea)
        };
        let r = read_result_of(o, *self, v);
        let n = cycles_of(o, mode) + if crossed { 1 } else { 0 };
        let pc1 = self.pc.wrapping_add(len_of(mode));
        let ticks = self.tick_count + n;
        *self = Cpu { pc: pc1, tick_count: ticks, ..r };
    }
}

/// Sets the zero and sign flags for a result.
fn nz(c: Cpu, r: u8) -> (out: Cpu)
    ensures
        out == with_nz(c, r),
{
    Cpu { zero: r == 0, sign: r >= 128, ..c }
}

/// Registers and flags after a read instruction (see `read_result`).
fn read_result_of(o: Op, c: Cpu, v: u8) -> (r: Cpu)
    ensures
        r == read_result(o, c, v),
{
    match o {
        Op::Adc => {
            let total: u16 = c.a as u16 + v as u16 + if c.carry { 1 } else { 0 };
            let res = (total % 256) as u8;
            Cpu {
                carry: total > 255,
                overflow: (c.a ^ res) & (v ^ res) & 0x80 != 0,
                a: res,
                ..nz(c, res)
            }
        },
        Op::Sbc => {
            let total: i16 = c.a as i16 - v as i16 - if c.carry { 0 } else { 1 };
            let res = ((total + 256) % 256) as u8;
            Cpu {
                carry: total >= 0,
                overflow: (c.a ^ v) & (c.a ^ res) & 0x80 != 0,
                a: res,
                ..nz(c, res)
            }
        },
        Op::And => Cpu { a: c.a & v, ..nz(c, c.a & v) },
        Op::Ora => Cpu { a: c.a | v, ..nz(c, c.a | v) },
        Op::Eor => Cpu { a: c.a ^ v, ..nz(c, c.a ^ v) },
        Op::Cmp => Cpu { carry: c.a >= v, ..nz(c, ((c.a as u16 + 256 - v as u16) % 256) as u8) },
        Op::Cpx => Cpu { carry: c.x >= v, ..nz(c, ((c.x as u16 + 256 - v as u16) % 256) as u8) },
        Op::Cpy => Cpu { carry: c.y >= v, ..nz(c, ((c.y as u16 + 256 - v as u16) % 256) as u8) },
        Op::Lda => Cpu { a: v, ..nz(c, v) },
        Op::Ldx => Cpu { x: v, ..nz(c, v) },
        Op::Ldy => Cpu { y: v, ..nz(c, v) },
        _ => Cpu { zero: c.a & v == 0, sign: v >= 128, overflow: v & 0x40 == 0x40, ..c },
    }
}

/// The value a read-modify-write instruction writes back (see `rmw_value`).
fn rmw_value_of(o: Op, c: Cpu, v: u8) -> (r: u8)
    ensures
        r == rmw_value(o, c, v),
{
    match o {
        Op::Asl => ((v as u16 * 2) % 256) as u8,
        Op::Lsr => v / 2,
        Op::Rol => ((v as u16 * 2) % 256 + if c.carry { 1 } else { 0 }) as u8,
        Op::Ror => v / 2 + if c.carry { 128 } else { 0 },
        Op::Inc => ((v as u16 + 1) % 256) as u8,
        _ => ((v as u16 + 255) % 256) as u8,
    }
}

/// Flags after a read-modify-write instruction (see `rmw_flags`).
fn rmw_flags_of(o: Op, c: Cpu, v: u8) -> (r: Cpu)
    ensures
        r == rmw_flags(o, c, v),
{
    let c2 = nz(c, rmw_value_of(o, c, v));
    match o {
        Op::Asl | Op::Rol => Cpu { carry: v >= 128, ..c2 },
        Op::Lsr | Op::Ror => Cpu { carry: v % 2 == 1, ..c2 },
        _ => c2,
    }
}

/// The byte length of an instruction in a mode.
fn len_of(mode: Mode) -> (r: u16)
    ensures
        r == mode_len(mode),
{
    match mode {
        Mode::Imp | Mode::Acc => 1,
        Mode::Abs | Mode::Abx | Mode::Aby | Mode::Ind => 3,
        _ => 2,
    }
}

impl Cpu {
    /// Executes a store instruction.
    #[verifier::spinoff_prover]
    fn exec_store(&mut self, mmu: &mut Mmu, o: Op, mode: Mode)
        requires
            old(mmu).wf(),
            is_store(o),
            old(self).tick_count <= TICK_LIMIT,
        ensures
            final(mmu).wf(),
            old(self).store_rel(old(mmu), o, mode, *final(self), final(mmu)),
    {
        let (ea, _) = self.operand_address(mmu, mode);
        let v = if o == Op::Sta {
            self.a
        } else if o == Op::Stx {
            self.x
        } else {
            self.y
        };
        mmu.write_u8(ea, v);
        self.pc = self.pc.wrapping_add(len_of(mode));
        self.tick_count = self.tick_count + cycles_of(o, mode);
    }

    /// Executes a read-modify-write instruction.
    #[verifier::spinoff_prover]
    #[verifier::rlimit(80)]
    fn exec_rmw(&mut self, mmu: &mut Mmu, o: Op, mode: Mode)
        requires
            old(mmu).wf(),
            is_rmw(o),
            old(self).tick_count <= TICK_LIMIT,
        ensures
            final(mmu).wf(),
            old(self).rmw_rel(old(mmu), o, mode, *final(self), final(mmu)),
    {
        let (ea, _) = self.operand_address(mmu, mode);
        let v = if mode == Mode::Acc { self.a } else { mmu.read_u8(ea) };
        let c = *self;
        let res = rmw_value_of(o, c, v);
        let f = rmw_flags_of(o, c, v);
        let pc1 = c.pc.wrapping_add(len_of(mode));
        let ticks = c.tick_count + cycles_of(o, mode);
        if mode == Mode::Acc {
            *self = Cpu { a: res, pc: pc1, tick_count: ticks, ..f };
        } else {
            mmu.write_u8(ea, res);
            *self = Cpu { pc: pc1, tick_count: ticks, ..f };
        }
    }

    /// Executes a conditional branch.
    fn exec_branch(&mut self, mmu: &Mmu, o: Op)
        requires
            mmu.wf(),
            is_branch(o),
            old(self).tick_count <= TICK_LIMIT,
        ensures
            old(self).branch_rel(mmu, o, *final(self), mmu),
    {
        let off = mmu.peek_u8(self.pc.wrapping_add(1));
        let next = self.pc.wrapping_add(2);
        let taken = match o {
            Op::Bcc => !self.carry,
            Op::Bcs => self.carry,
            Op::Beq => self.zero,
            Op::Bne => !self.zero,
            Op::Bmi => self.sign,
            Op::Bpl => !self.sign,
            Op::Bvc => !self.overflow,
            _ => self.overflow,
        };
        let target = ((next as u32 + off as u32 + 0x10000 - if off >= 128 { 256 } else { 0 })
            % 0x10000) as u16;
        if taken {
            self.tick_count = self.tick_count + if next / 256 != target / 256 { 4 } else { 3 };
            self.pc = target;
        } else {
            self.tick_count = self.tick_count + 2;
            self.pc = next;
        }
    }

    /// Executes an implied-mode instruction that touches no memory.
    fn exec_implied(&mut self, o: Op)
        requires
            is_implied(o),
            old(self).tick_count <= TICK_LIMIT,
        ensures
            *final(self) == (Cpu {
                pc: pc_plus(old(self).pc, 1),
                tick_count: old(self).ticks_after(2),
                ..implied_result(o, *old(self))
            }),
    {
        let c = *self;
        let r = match o {
            Op::Clc => Cpu { carry: false, ..c },
            Op::Cld => Cpu { decimal: false, ..c },
            Op::Cli => Cpu { interrupt: false, ..c },
            Op::Clv => Cpu { overflow: false, ..c },
            Op::Sec => Cpu { carry: true, ..c },
            Op::Sed => Cpu { decimal: true, ..c },
            Op::Sei => Cpu { interrupt: true, ..c },
            Op::Dex => {
                let v = ((c.x as u16 + 255) % 256) as u8;
                Cpu { x: v, ..nz(c, v) }
            },
            Op::Dey => {
                let v = ((c.y as u16 + 255) % 256) as u8;
                Cpu { y: v, ..nz(c, v) }
            },
            Op::Inx => {
                let v = ((c.x as u16 + 1) % 256) as u8;
                Cpu { x: v, ..nz(c, v) }
            },
            Op::Iny => {
                let v = ((c.y as u16 + 1) % 256) as u8;
                Cpu { y: v, ..nz(c, v) }
            },
            Op::Tax => Cpu { x: c.a, ..nz(c, c.a) },
            Op::Tay => Cpu { y: c.a, ..nz(c, c.a) },
            Op::Tsx => Cpu { x: c.sp, ..nz(c, c.sp) },
            Op::Txa => Cpu { a: c.x, ..nz(c, c.x) },
            Op::Tya => Cpu { a: c.y, ..nz(c, c.y) },
            Op::Txs => Cpu { sp: c.x, ..c },
            _ => c,
        };
        *self = Cpu { pc: c.pc.wrapping_add(1), tick_count: c.tick_count + 2, ..r };
    }

    /// Pushes a byte onto the stack page; the stack pointer moves down, modulo 256.
    fn push_u8(&mut self, mmu: &mut Mmu, data: u8)
        requires
            old(mmu).wf(),
        ensures
            final(mmu).wf(),
            ram_now(old(mmu), final(mmu), ram_pushed(old(mmu).scratch_ram@, old(self).sp, data)),
            *final(self) == (Cpu { sp: sp_moved(old(self).sp, 1), ..*old(self) }),
    {
        mmu.scratch_ram.set(0x100 + self.sp as usize, data);
        self.sp = if self.sp == 0 { 0xff } else { self.sp - 1 };
    }

    /// Pushes a 16-bit value, high byte first.
    pub fn push_u16(&mut self, mmu: &mut Mmu, data: u16)
        requires
            old(mmu).wf(),
        ensures
            final(mmu).wf(),
            ram_now(old(mmu), final(mmu), ram_pushed16(old(mmu).scratch_ram@, old(self).sp, data)),
            *final(self) == (Cpu { sp: sp_moved(old(self).sp, 2), ..*old(self) }),
    {
        self.push_u8(mmu, (data / 256) as u8);
        self.push_u8(mmu, (data % 256) as u8);
    }

    /// The packed status byte.
    fn status(&self) -> (r: u8)
        ensures
            r == status_byte(*self),
    {
        let mut status: u8 = 0;
        if self.sign {
            status = status + 0x80;
        }
        if self.overflow {
            status = status + 0x40;
        }
        if self.brk {
            status = status + 0x10;
        }
        if self.decimal {
            status = status + 0x08;
        }
        if self.interrupt {
            status = status + 0x04;
        }
        if self.zero {
            status = status + 0x02;
        }
        if self.carry {
            status = status + 0x01;
        }
        status
    }

    /// Pushes the packed status byte.
    pub fn push_status(&mut self, mmu: &mut Mmu)
        requires
            old(mmu).wf(),
        ensures
            final(mmu).wf(),
            ram_now(
                old(mmu),
                final(mmu),
                ram_pushed(old(mmu).scratch_ram@, old(self).sp, status_byte(*old(self))),
            ),
            *final(self) == (Cpu { sp: sp_moved(old(self).sp, 1), ..*old(self) }),
    {
        let s = self.status();
        self.push_u8(mmu, s);
    }

    /// Pulls a byte from the stack page; the stack pointer moves up, modulo 256.
    fn pull_u8(&mut self, mmu: &Mmu) -> (r: u8)
        requires
            mmu.wf(),
        ensures
            r == mmu.scratch_ram@[stack_addr(sp_moved(old(self).sp, -1))],
            *final(self) == (Cpu { sp: sp_moved(old(self).sp, -1), ..*old(self) }),
    {
        self.sp = if self.sp == 0xff { 0 } else { self.sp + 1 };
        mmu.scratch_ram[0x100 + self.sp as usize]
    }

    /// Pulls a 16-bit value, low byte first.
    fn pull_u16(&mut self, mmu: &Mmu) -> (r: u16)
        requires
            mmu.wf(),
        ensures
            r == ram_pulled16(mmu.scratch_ram@, old(self).sp),
            *final(self) == (Cpu { sp: sp_moved(old(self).sp, -2), ..*old(self) }),
    {
        let lo = self.pull_u8(mmu);
        let hi = self.pull_u8(mmu);
        make_address(lo, hi)
    }

    /// Pulls the packed status byte into the flags.
    fn pull_status(&mut self, mmu: &Mmu)
        requires
            mmu.wf(),
        ensures
            *final(self) == (Cpu {
                sp: sp_moved(old(self).sp, -1),
                ..with_status(*old(self), mmu.scratch_ram@[stack_addr(sp_moved(old(self).sp, -1))])
            }),
    {
        let s = self.pull_u8(mmu);
        self.sign = (s & 0x80) == 0x80;
        self.overflow = (s & 0x40) == 0x40;
        self.brk = (s & 0x10) == 0x10;
        self.decimal = (s & 0x08) == 0x08;
        self.interrupt = (s & 0x04) == 0x04;
        self.zero = (s & 0x02) == 0x02;
        self.carry = (s & 0x01) == 0x01;
    }
}

/// How many cycles a scanline lasts.
pub const TICKS_PER_SCANLINE: u32 = 113;

impl Cpu {
    /// Executes a stack or control-flow instruction.
    fn exec_control(&mut self, mmu: &mut Mmu, o: Op, mode: Mode)
        requires
            old(mmu).wf(),
            !is_read(o) && !is_store(o) && !is_rmw(o) && !is_branch(o) && !is_implied(o),
            old(self).tick_count <= TICK_LIMIT,
        ensures
            final(mmu).wf(),
            old(self).control_rel(old(mmu), o, mode, *final(self), final(mmu)),
    {
        match o {
            Op::Pha | Op::Php => self.exec_push(mmu, o, mode),
            Op::Pla | Op::Plp => self.exec_pull(mmu, o, mode),
            Op::Jsr => self.exec_jsr(mmu, mode),
            Op::Rts | Op::Rti => self.exec_return(mmu, o, mode),
            Op::Brk => self.exec_brk(mmu, mode),
            _ => self.exec_jmp(mmu, o, mode),
        }
    }

    #[verifier::spinoff_prover]
    fn exec_push(&mut self, mmu: &mut Mmu, o: Op, mode: Mode)
        requires
            old(mmu).wf(),
            o == Op::Pha || o == Op::Php,
            old(self).tick_count <= TICK_LIMIT,
        ensures
            final(mmu).wf(),
            old(self).push_rel(old(mmu), o, *final(self), final(mmu)),
    {
        let ticks = self.tick_count + cycles_of(o, mode);
        let next = self.pc.wrapping_add(1);
        if o == Op::Pha {
            let a = self.a;
            self.push_u8(mmu, a);
        } else {
            self.push_status(mmu);
        }
        self.pc = next;
        self.tick_count = ticks;
    }

    #[verifier::spinoff_prover]
    fn exec_pull(&mut self, mmu: &mut Mmu, o: Op, mode: Mode)
        requires
            old(mmu).wf(),
            o == Op::Pla || o == Op::Plp,
            old(self).tick_count <= TICK_LIMIT,
        ensures
            final(mmu).wf(),
            *final(mmu) == *old(mmu),
            old(self).pull_rel(old(mmu), o, *final(self), final(mmu)),
    {
        let ticks = self.tick_count + cycles_of(o, mode);
        let next = self.pc.wrapping_add(1);
        if o == Op::Pla {
            let v = self.pull_u8(mmu);
            *self = Cpu { a: v, pc: next, tick_count: ticks, ..nz(*self, v) };
        } else {
            self.pull_status(mmu);
            self.pc = next;
            self.tick_count = ticks;
        }
    }

    #[verifier::spinoff_prover]
    #[verifier::rlimit(100)]
    fn exec_jsr(&mut self, mmu: &mut Mmu, mode: Mode)
        requires
            old(mmu).wf(),
            old(self).tick_count <= TICK_LIMIT,
        ensures
            final(mmu).wf(),
            old(self).jsr_rel(old(mmu), *final(self), final(mmu)),
    {
        let ticks = self.tick_count + cycles_of(Op::Jsr, mode);
        let next = self.pc.wrapping_add(1);
        let target = make_address(mmu.peek_u8(next), mmu.peek_u8(next.wrapping_add(1)));
        let ret = self.pc.wrapping_add(2);
        self.push_u16(mmu, ret);
        self.pc = target;
        self.tick_count = ticks;
    }

    #[verifier::spinoff_prover]
    #[verifier::rlimit(100)]
    fn exec_return(&mut self, mmu: &mut Mmu, o: Op, mode: Mode)
        requires
            old(mmu).wf(),
            o == Op::Rts || o == Op::Rti,
            old(self).tick_count <= TICK_LIMIT,
        ensures
            final(mmu).wf(),
            *final(mmu) == *old(mmu),
            o == Op::Rts ==> old(self).rts_rel(old(mmu), *final(self), final(mmu)),
            o == Op::Rti ==> old(self).rti_rel(old(mmu), *final(self), final(mmu)),
    {
        let ticks = self.tick_count + cycles_of(o, mode);
        if o == Op::Rts {
            let r = self.pull_u16(mmu);
            self.pc = r.wrapping_add(1);
        } else {
            self.pull_status(mmu);
            let r = self.pull_u16(mmu);
            self.pc = r;
        }
        self.tick_count = ticks;
    }

    #[verifier::spinoff_prover]
    fn exec_brk(&mut self, mmu: &mut Mmu, mode: Mode)
        requires
            old(mmu).wf(),
            old(self).tick_count <= TICK_LIMIT,
        ensures
            final(mmu).wf(),
            old(self).brk_rel(old(mmu), *final(self), final(mmu)),
    {
        let ticks = self.tick_count + cycles_of(Op::Brk, mode);
        let target = make_address(mmu.peek_u8(0xfffe), mmu.peek_u8(0xffff));
        let ret = self.pc.wrapping_add(2);
        self.push_u16(mmu, ret);
        self.brk = true;
        self.push_status(mmu);
        self.interrupt = true;
        self.pc = target;
        self.tick_count = ticks;
    }

    #[verifier::spinoff_prover]
    fn exec_jmp(&mut self, mmu: &mut Mmu, o: Op, mode: Mode)
        requires
            old(mmu).wf(),
            o == Op::Jmp,
            old(self).tick_count <= TICK_LIMIT,
        ensures
            final(mmu).wf(),
            old(self).jmp_rel(old(mmu), mode, *final(self), final(mmu)),
    {
        let ticks = self.tick_count + cycles_of(o, mode);
        let next = self.pc.wrapping_add(1);
        let target = make_address(mmu.peek_u8(next), mmu.peek_u8(next.wrapping_add(1)));
        if mode == Mode::Ind {
            self.pc = mmu.read_u16(target);
        } else {
            self.pc = target;
        }
        self.tick_count = ticks;
    }

    /// Reads the opcode at the program counter.
    pub fn fetch(&mut self, mmu: &mut Mmu)
        requires
            old(mmu).wf(),
        ensures
            final(mmu).wf(),
            *final(self) == (Cpu {
                current_opcode: old(mmu).peek(old(self).pc),
                ..*old(self)
            }),
            *final(mmu) == old(mmu).after_read(old(self).pc),
    {
        self.current_opcode = mmu.read_u8(self.pc);
    }

    /// Executes the fetched opcode: every supported opcode as `step_rel` states
    /// it; an unsupported one changes nothing and is reported with the program
    /// counter.
    pub fn execute(&mut self, mmu: &mut Mmu) -> (r: Result<(), UnknownOpcode>)
        requires
            old(mmu).wf(),
            old(self).tick_count <= TICK_LIMIT,
        ensures
            final(mmu).wf(),
            match opcode_table(old(self).current_opcode) {
                None => r == Err::<(), UnknownOpcode>(
                    UnknownOpcode { opcode: old(self).current_opcode, pc: old(self).pc },
                ) && *final(self) == *old(self) && *final(mmu) == *old(mmu),
                Some((o, mode)) => r is Ok && old(self).step_rel(
                    old(mmu),
                    o,
                    mode,
                    *final(self),
                    final(mmu),
                ),
            },
    {
        match decode(self.current_opcode) {
            None => Err(UnknownOpcode { opcode: self.current_opcode, pc: self.pc }),
            Some((o, mode)) => {
                if matches!(o, Op::Adc | Op::And | Op::Eor | Op::Ora | Op::Sbc | Op::Cmp | Op::Cpx
                    | Op::Cpy | Op::Lda | Op::Ldx | Op::Ldy | Op::Bit) {
                    self.exec_read(mmu, o, mode);
                } else if matches!(o, Op::Sta | Op::Stx | Op::Sty) {
                    self.exec_store(mmu, o, mode);
                } else if matches!(o, Op::Asl | Op::Lsr | Op::Rol | Op::Ror | Op::Inc | Op::Dec) {
                    self.exec_rmw(mmu, o, mode);
                } else if matches!(o, Op::Bcc | Op::Bcs | Op::Beq | Op::Bne | Op::Bmi | Op::Bpl
                    | Op::Bvc | Op::Bvs) {
                    self.exec_branch(mmu, o);
                } else if matches!(o, Op::Clc | Op::Cld | Op::Cli | Op::Clv | Op::Sec | Op::Sed
                    | Op::Sei | Op::Dex | Op::Dey | Op::Inx | Op::Iny | Op::Tax | Op::Tay | Op::Tsx
                    | Op::Txa | Op::Tya | Op::Txs | Op::Nop) {
                    self.exec_implied(o);
                } else {
                    self.exec_control(mmu, o, mode);
                }
                Ok(())
            },
        }
    }

    /// Loads the program counter from the reset vector.
    pub fn reset(&mut self, mmu: &mut Mmu)
        requires
            old(mmu).wf(),
        ensures
            final(mmu).wf(),
            *final(self) == (Cpu {
                pc: word(old(mmu).peek(0xfffc), old(mmu).peek(0xfffd)),
                ..*old(self)
            }),
            *final(mmu) == *old(mmu),
    {
        self.pc = mmu.read_u16(0xfffc);
    }

    /// Enters an interrupt: pushes the program counter and the status byte and
    /// jumps through the vector at `vector` (in cartridge space).
    pub fn interrupt_to(&mut self, mmu: &mut Mmu, vector: u16)
        requires
            old(mmu).wf(),
            0x8000 <= vector < 0xffff,
        ensures
            final(mmu).wf(),
            ram_now(
                old(mmu),
                final(mmu),
                ram_pushed(
                    ram_pushed16(old(mmu).scratch_ram@, old(self).sp, old(self).pc),
                    sp_moved(old(self).sp, 2),
                    status_byte(*old(self)),
                ),
            ),
            *final(self) == (Cpu {
                sp: sp_moved(old(self).sp, 3),
                pc: word(old(mmu).peek(vector), old(mmu).peek((vector + 1) as u16)),
                ..*old(self)
            }),
    {
        let pc = self.pc;
        self.push_u16(mmu, pc);
        self.push_status(mmu);
        self.pc = make_address(mmu.peek_u8(vector), mmu.peek_u8(vector + 1));
    }

    /// Runs instructions until the scanline's cycles are used up; stops early at
    /// an unsupported opcode. The states passed through form a trace (see
    /// `run_trace`).
    pub fn run_for_scanline(&mut self, mmu: &mut Mmu) -> (r: Result<(), UnknownOpcode>)
        requires
            old(mmu).wf(),
            old(self).tick_count <= TICKS_PER_SCANLINE,
        ensures
            final(mmu).wf(),
            final(mmu).ppu.current_scanline == old(mmu).ppu.current_scanline,
            r is Ok ==> TICKS_PER_SCANLINE < final(self).tick_count <= TICKS_PER_SCANLINE + 7,
            r is Err ==> final(self).tick_count <= TICKS_PER_SCANLINE,
            exists|cs: Seq<Cpu>, ms: Seq<Mmu>|
                run_trace(*old(self), *old(mmu), cs, ms, *final(self), *final(mmu), r),
    {
        let ghost mut cs: Seq<Cpu> = seq![*self];
        let ghost mut ms: Seq<Mmu> = seq![*mmu];
        loop
            invariant
                mmu.wf(),
                self.tick_count <= TICKS_PER_SCANLINE,
                mmu.ppu.current_scanline == old(mmu).ppu.current_scanline,
                cs.len() == ms.len(),
                cs.len() >= 1,
                cs[0] == *old(self),
                ms[0] == *old(mmu),
                cs.last() == *self,
                ms.last() == *mmu,
                forall|i: int| 0 <= i < cs.len() - 1 ==> #[trigger] linked(cs, ms, i),
            decreases TICKS_PER_SCANLINE - self.tick_count,
        {
            let ghost c_prev = *self;
            let ghost m_prev = *mmu;
            self.fetch(mmu);
            let ghost c0 = *self;
            let ghost m0 = *mmu;
            let r = self.execute(mmu);
            if r.is_err() {
                assert(opcode_table(c0.current_opcode) is None);
                assert(c0.current_opcode == m_prev.peek(c_prev.pc));
                assert(*self == Cpu { current_opcode: m_prev.peek(c_prev.pc), ..c_prev });
                assert(*mmu == m_prev.after_read(c_prev.pc));
                assert(cs.last() == c_prev && ms.last() == m_prev);
                assert(r == Err::<(), UnknownOpcode>(
                    UnknownOpcode { opcode: m_prev.peek(c_prev.pc), pc: c_prev.pc },
                ));
                assert(run_trace(*old(self), *old(mmu), cs, ms, *self, *mmu, r));
                return r;
            }
            proof {
                let (o, mode) = opcode_table(c0.current_opcode).unwrap();
                lemma_step_ticks(c0, m0, o, mode, *self, *mmu);
                lemma_step_keeps_scanline(c0, m0, o, mode, *self, *mmu);
                assert(fetch_step(c_prev, m_prev, *self, *mmu)) by {
                    reveal(fetch_step);
                }
                let cs_old = cs;
                let ms_old = ms;
                cs = cs.push(*self);
                ms = ms.push(*mmu);
                assert forall|i: int| 0 <= i < cs.len() - 1 implies #[trigger] linked(cs, ms, i) by {
                    if i < cs.len() - 2 {
                        assert(cs[i] == cs_old[i] && cs[i + 1] == cs_old[i + 1]);
                        assert(ms[i] == ms_old[i] && ms[i + 1] == ms_old[i + 1]);
                        assert(linked(cs_old, ms_old, i));
                    } else {
                        assert(cs[i] == c_prev && ms[i] == m_prev);
                        assert(cs[i + 1] == *self && ms[i + 1] == *mmu);
                    }
                }
            }
            if self.tick_count > TICKS_PER_SCANLINE {
                assert(cs.len() == ms.len() && cs.len() >= 1 && cs[0] == *old(self) && ms[0] == *old(mmu));
                assert(forall|i: int| 0 <= i < cs.len() - 1 ==> #[trigger] linked(cs, ms, i));
                assert(cs.last().tick_count > TICKS_PER_SCANLINE);
                assert(*self == cs.last() && *mmu == ms.last());
                assert(run_trace(*old(self), *old(mmu), cs, ms, *self, *mmu, Ok(())));
                return Ok(());
            }
        }
    }

    /// The mnemonic of the fetched opcode; "ERR" where it is unsupported.
    pub fn show_opcode(&self) -> (r: &'static str)
        ensures
            r@ == (match opcode_table(self.current_opcode) {
                Some((o, _)) => op_name(o),
                None => seq!['E', 'R', 'R'],
            }),
    {
        match decode(self.current_opcode) {
            Some((o, _)) => o.name(),
            None => {
                proof {
                    reveal_strlit("ERR");
                }
                "ERR"
            },
        }
    }
}

/// One instruction: the opcode at the program counter is fetched through the bus,
/// is supported, and executes as `step_rel` states.
#[verifier::opaque]
pub open spec fn fetch_step(c: Cpu, m: Mmu, c1: Cpu, m1: Mmu) -> bool {
    let cf = Cpu { current_opcode: m.peek(c.pc), ..c };
    let mf = m.after_read(c.pc);
    match opcode_table(cf.current_opcode) {
        Some((o, mode)) => cf.step_rel(&mf, o, mode, c1, &m1),
        None => false,
    }
}

/// Whether state `i` of a run steps to state `i + 1` with the scanline's cycles not
/// yet used up.
pub open spec fn linked(cs: Seq<Cpu>, ms: Seq<Mmu>, i: int) -> bool {
    cs[i].tick_count <= TICKS_PER_SCANLINE && fetch_step(cs[i], ms[i], cs[i + 1], ms[i + 1])
}

/// A run of instructions from `c0`, `m0` through the states `cs`, `ms` to `c1`,
/// `m1`: each state steps to the next while the cycle count has not passed the
/// scanline's; the run ends at the first count past it (`Ok`), or at an
/// unsupported opcode, which is fetched and reported with its address (`Err`).
pub open spec fn run_trace(
    c0: Cpu,
    m0: Mmu,
    cs: Seq<Cpu>,
    ms: Seq<Mmu>,
    c1: Cpu,
    m1: Mmu,
    r: Result<(), UnknownOpcode>,
) -> bool {
    let last = cs.last();
    let last_m = ms.last();
    &&& cs.len() == ms.len()
    &&& cs.len() >= 1
    &&& cs[0] == c0
    &&& ms[0] == m0
    &&& forall|i: int| 0 <= i < cs.len() - 1 ==> #[trigger] linked(cs, ms, i)
    &&& match r {
        Ok(_) => last.tick_count > TICKS_PER_SCANLINE && c1 == last && m1 == last_m,
        Err(e) => {
            let op = last_m.peek(last.pc);
            &&& last.tick_count <= TICKS_PER_SCANLINE
            &&& opcode_table(op) is None
            &&& e == UnknownOpcode { opcode: op, pc: last.pc }
            &&& c1 == Cpu { current_opcode: op, ..last }
            &&& m1 == last_m.after_read(last.pc)
        },
    }
}

/// No instruction moves the PPU's scanline counter.
pub proof fn lemma_step_keeps_scanline(c: Cpu, m: Mmu, o: Op, mode: Mode, c1: Cpu, m1: Mmu)
    requires
        c.step_rel(&m, o, mode, c1, &m1),
    ensures
        m1.ppu.current_scanline == m.ppu.current_scanline,
{
    let ea = c.ea(&m, mode);
    if is_store(o) {
        lemma_write_keeps_scanline(m, m1, ea, c.stored(o));
    } else if is_rmw(o) && mode != Mode::Acc {
        lemma_write_keeps_scanline(m.after_read(ea), m1, ea, rmw_value(o, c, m.peek(ea)));
    }
}

/// An instruction costs between two and seven cycles.
pub proof fn lemma_step_ticks(c: Cpu, m: Mmu, o: Op, mode: Mode, c1: Cpu, m1: Mmu)
    requires
        c.tick_count <= TICK_LIMIT,
        c.step_rel(&m, o, mode, c1, &m1),
    ensures
        c.tick_count + 2 <= c1.tick_count <= c.tick_count + 7,
{
}

} // verus!
