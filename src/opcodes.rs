use vstd::prelude::*;

verus! {
/// The instruction set's mnemonics.
#[derive(PartialEq, Eq, Structural, Clone, Copy, Debug)]
pub enum Op {
    Adc,
    And,
    Asl,
    Bcc,
    Bcs,
    Beq,
    Bit,
    Bmi,
    Bne,
    Bpl,
    Brk,
    Bvc,
    Bvs,
    Clc,
    Cld,
    Cli,
    Clv,
    Cmp,
    Cpx,
    Cpy,
    Dec,
    Dex,
    Dey,
    Eor,
    Inc,
    Inx,
    Iny,
    Jmp,
    Jsr,
    Lda,
    Ldx,
    Ldy,
    Lsr,
    Nop,
    Ora,
    Pha,
    Php,
    Pla,
    Plp,
    Rol,
    Ror,
    Rti,
    Rts,
    Sbc,
    Sec,
    Sed,
    Sei,
    Sta,
    Stx,
    Sty,
    Tax,
    Tay,
    Tsx,
    Txa,
    Txs,
    Tya,
}
/// The addressing modes: implied, accumulator, immediate, zero page (plain, +X,
/// +Y), absolute (plain, +X, +Y), indexed indirect, indirect indexed, indirect
/// (jumps) and relative (branches).
#[derive(PartialEq, Eq, Structural, Clone, Copy, Debug)]
pub enum Mode {
    Imp,
    Acc,
    Imm,
    Zp,
    Zpx,
    Zpy,
    Abs,
    Abx,
    Aby,
    Izx,
    Izy,
    Ind,
    Rel,
}
/// The instruction that an opcode encodes, with its addressing mode; `None` for
/// an opcode outside the supported set.
pub open spec fn opcode_table(op: u8) -> Option<(Op, Mode)> {
    if op == 0x00 {
        Some((Op::Brk, Mode::Imp))
    } else if op == 0x01 {
        Some((Op::Ora, Mode::Izx))
    } else if op == 0x05 {
        Some((Op::Ora, Mode::Zp))
    } else if op == 0x06 {
        Some((Op::Asl, Mode::Zp))
    } else if op == 0x08 {
        Some((Op::Php, Mode::Imp))
    } else if op == 0x09 {
        Some((Op::Ora, Mode::Imm))
    } else if op == 0x0a {
        Some((Op::Asl, Mode::Acc))
    } else if op == 0x0d {
        Some((Op::Ora, Mode::Abs))
    } else if op == 0x0e {
        Some((Op::Asl, Mode::Abs))
    } else if op == 0x10 {
        Some((Op::Bpl, Mode::Rel))
    } else if op == 0x11 {
        Some((Op::Ora, Mode::Izy))
    } else if op == 0x15 {
        Some((Op::Ora, Mode::Zpx))
    } else if op == 0x16 {
        Some((Op::Asl, Mode::Zpx))
    } else if op == 0x18 {
        Some((Op::Clc, Mode::Imp))
    } else if op == 0x19 {
        Some((Op::Ora, Mode::Aby))
    } else if op == 0x1d {
        Some((Op::Ora, Mode::Abx))
    } else if op == 0x1e {
        Some((Op::Asl, Mode::Abx))
    } else if op == 0x20 {
        Some((Op::Jsr, Mode::Abs))
    } else if op == 0x21 {
        Some((Op::And, Mode::Izx))
    } else if op == 0x24 {
        Some((Op::Bit, Mode::Zp))
    } else if op == 0x25 {
        Some((Op::And, Mode::Zp))
    } else if op == 0x26 {
        Some((Op::Rol, Mode::Zp))
    } else if op == 0x28 {
        Some((Op::Plp, Mode::Imp))
    } else if op == 0x29 {
        Some((Op::And, Mode::Imm))
    } else if op == 0x2a {
        Some((Op::Rol, Mode::Acc))
    } else if op == 0x2c {
        Some((Op::Bit, Mode::Abs))
    } else if op == 0x2d {
        Some((Op::And, Mode::Abs))
    } else if op == 0x2e {
        Some((Op::Rol, Mode::Abs))
    } else if op == 0x30 {
        Some((Op::Bmi, Mode::Rel))
    } else if op == 0x31 {
        Some((Op::And, Mode::Izy))
    } else if op == 0x32 {
        Some((Op::Nop, Mode::Imp))
    } else if op == 0x33 {
        Some((Op::Nop, Mode::Imp))
    } else if op == 0x34 {
        Some((Op::Nop, Mode::Imp))
    } else if op == 0x35 {
        Some((Op::And, Mode::Zpx))
    } else if op == 0x36 {
        Some((Op::Rol, Mode::Zpx))
    } else if op == 0x38 {
        Some((Op::Sec, Mode::Imp))
    } else if op == 0x39 {
        Some((Op::And, Mode::Aby))
    } else if op == 0x3d {
        Some((Op::And, Mode::Abx))
    } else if op == 0x3e {
        Some((Op::Rol, Mode::Abx))
    } else if op == 0x40 {
        Some((Op::Rti, Mode::Imp))
    } else if op == 0x41 {
        Some((Op::Eor, Mode::Izx))
    } else if op == 0x45 {
        Some((Op::Eor, Mode::Zp))
    } else if op == 0x46 {
        Some((Op::Lsr, Mode::Zp))
    } else if op == 0x48 {
        Some((Op::Pha, Mode::Imp))
    } else if op == 0x49 {
        Some((Op::Eor, Mode::Imm))
    } else if op == 0x4a {
        Some((Op::Lsr, Mode::Acc))
    } else if op == 0x4c {
        Some((Op::Jmp, Mode::Abs))
    } else if op == 0x4d {
        Some((Op::Eor, Mode::Abs))
    } else if op == 0x4e {
        Some((Op::Lsr, Mode::Abs))
    } else if op == 0x50 {
        Some((Op::Bvc, Mode::Rel))
    } else if op == 0x51 {
        Some((Op::Eor, Mode::Izy))
    } else if op == 0x55 {
        Some((Op::Eor, Mode::Zpx))
    } else if op == 0x56 {
        Some((Op::Lsr, Mode::Zpx))
    } else if op == 0x58 {
        Some((Op::Cli, Mode::Imp))
    } else if op == 0x59 {
        Some((Op::Eor, Mode::Aby))
    } else if op == 0x5d {
        Some((Op::Eor, Mode::Abx))
    } else if op == 0x5e {
        Some((Op::Lsr, Mode::Abx))
    } else if op == 0x60 {
        Some((Op::Rts, Mode::Imp))
    } else if op == 0x61 {
        Some((Op::Adc, Mode::Izx))
    } else if op == 0x65 {
        Some((Op::Adc, Mode::Zp))
    } else if op == 0x66 {
        Some((Op::Ror, Mode::Zp))
    } else if op == 0x68 {
        Some((Op::Pla, Mode::Imp))
    } else if op == 0x69 {
        Some((Op::Adc, Mode::Imm))
    } else if op == 0x6a {
        Some((Op::Ror, Mode::Acc))
    } else if op == 0x6c {
        Some((Op::Jmp, Mode::Ind))
    } else if op == 0x6d {
        Some((Op::Adc, Mode::Abs))
    } else if op == 0x6e {
        Some((Op::Ror, Mode::Abs))
    } else if op == 0x70 {
        Some((Op::Bvs, Mode::Rel))
    } else if op == 0x71 {
        Some((Op::Adc, Mode::Izy))
    } else if op == 0x75 {
        Some((Op::Adc, Mode::Zpx))
    } else if op == 0x76 {
        Some((Op::Ror, Mode::Zpx))
    } else if op == 0x78 {
        Some((Op::Sei, Mode::Imp))
    } else if op == 0x79 {
        Some((Op::Adc, Mode::Aby))
    } else if op == 0x7d {
        Some((Op::Adc, Mode::Abx))
    } else if op == 0x7e {
        Some((Op::Ror, Mode::Abx))
    } else if op == 0x81 {
        Some((Op::Sta, Mode::Izx))
    } else if op == 0x84 {
        Some((Op::Sty, Mode::Zp))
    } else if op == 0x85 {
        Some((Op::Sta, Mode::Zp))
    } else if op == 0x86 {
        Some((Op::Stx, Mode::Zp))
    } else if op == 0x88 {
        Some((Op::Dey, Mode::Imp))
    } else if op == 0x8a {
        Some((Op::Txa, Mode::Imp))
    } else if op == 0x8c {
        Some((Op::Sty, Mode::Abs))
    } else if op == 0x8d {
        Some((Op::Sta, Mode::Abs))
    } else if op == 0x8e {
        Some((Op::Stx, Mode::Abs))
    } else if op == 0x90 {
        Some((Op::Bcc, Mode::Rel))
    } else if op == 0x91 {
        Some((Op::Sta, Mode::Izy))
    } else if op == 0x94 {
        Some((Op::Sty, Mode::Zpx))
    } else if op == 0x95 {
        Some((Op::Sta, Mode::Zpx))
    } else if op == 0x96 {
        Some((Op::Stx, Mode::Zpy))
    } else if op == 0x98 {
        Some((Op::Tya, Mode::Imp))
    } else if op == 0x99 {
        Some((Op::Sta, Mode::Aby))
    } else if op == 0x9a {
        Some((Op::Txs, Mode::Imp))
    } else if op == 0x9d {
        Some((Op::Sta, Mode::Abx))
    } else if op == 0xa0 {
        Some((Op::Ldy, Mode::Imm))
    } else if op == 0xa1 {
        Some((Op::Lda, Mode::Izx))
    } else if op == 0xa2 {
        Some((Op::Ldx, Mode::Imm))
    } else if op == 0xa4 {
        Some((Op::Ldy, Mode::Zp))
    } else if op == 0xa5 {
        Some((Op::Lda, Mode::Zp))
    } else if op == 0xa6 {
        Some((Op::Ldx, Mode::Zp))
    } else if op == 0xa8 {
        Some((Op::Tay, Mode::Imp))
    } else if op == 0xa9 {
        Some((Op::Lda, Mode::Imm))
    } else if op == 0xaa {
        Some((Op::Tax, Mode::Imp))
    } else if op == 0xac {
        Some((Op::Ldy, Mode::Abs))
    } else if op == 0xad {
        Some((Op::Lda, Mode::Abs))
    } else if op == 0xae {
        Some((Op::Ldx, Mode::Abs))
    } else if op == 0xb0 {
        Some((Op::Bcs, Mode::Rel))
    } else if op == 0xb1 {
        Some((Op::Lda, Mode::Izy))
    } else if op == 0xb4 {
        Some((Op::Ldy, Mode::Zpx))
    } else if op == 0xb5 {
        Some((Op::Lda, Mode::Zpx))
    } else if op == 0xb6 {
        Some((Op::Ldx, Mode::Zpy))
    } else if op == 0xb8 {
        Some((Op::Clv, Mode::Imp))
    } else if op == 0xb9 {
        Some((Op::Lda, Mode::Aby))
    } else if op == 0xba {
        Some((Op::Tsx, Mode::Imp))
    } else if op == 0xbc {
        Some((Op::Ldy, Mode::Abx))
    } else if op == 0xbd {
        Some((Op::Lda, Mode::Abx))
    } else if op == 0xbe {
        Some((Op::Ldx, Mode::Aby))
    } else if op == 0xc0 {
        Some((Op::Cpy, Mode::Imm))
    } else if op == 0xc1 {
        Some((Op::Cmp, Mode::Izx))
    } else if op == 0xc4 {
        Some((Op::Cpy, Mode::Zp))
    } else if op == 0xc5 {
        Some((Op::Cmp, Mode::Zp))
    } else if op == 0xc6 {
        Some((Op::Dec, Mode::Zp))
    } else if op == 0xc8 {
        Some((Op::Iny, Mode::Imp))
    } else if op == 0xc9 {
        Some((Op::Cmp, Mode::Imm))
    } else if op == 0xca {
        Some((Op::Dex, Mode::Imp))
    } else if op == 0xcc {
        Some((Op::Cpy, Mode::Abs))
    } else if op == 0xcd {
        Some((Op::Cmp, Mode::Abs))
    } else if op == 0xce {
        Some((Op::Dec, Mode::Abs))
    } else if op == 0xd0 {
        Some((Op::Bne, Mode::Rel))
    } else if op == 0xd1 {
        Some((Op::Cmp, Mode::Izy))
    } else if op == 0xd5 {
        Some((Op::Cmp, Mode::Zpx))
    } else if op == 0xd6 {
        Some((Op::Dec, Mode::Zpx))
    } else if op == 0xd8 {
        Some((Op::Cld, Mode::Imp))
    } else if op == 0xd9 {
        Some((Op::Cmp, Mode::Aby))
    } else if op == 0xdd {
        Some((Op::Cmp, Mode::Abx))
    } else if op == 0xde {
        Some((Op::Dec, Mode::Abx))
    } else if op == 0xe0 {
        Some((Op::Cpx, Mode::Imm))
    } else if op == 0xe1 {
        Some((Op::Sbc, Mode::Izx))
    } else if op == 0xe4 {
        Some((Op::Cpx, Mode::Zp))
    } else if op == 0xe5 {
        Some((Op::Sbc, Mode::Zp))
    } else if op == 0xe6 {
        Some((Op::Inc, Mode::Zp))
    } else if op == 0xe8 {
        Some((Op::Inx, Mode::Imp))
    } else if op == 0xe9 {
        Some((Op::Sbc, Mode::Imm))
    } else if op == 0xea {
        Some((Op::Nop, Mode::Imp))
    } else if op == 0xec {
        Some((Op::Cpx, Mode::Abs))
    } else if op == 0xed {
        Some((Op::Sbc, Mode::Abs))
    } else if op == 0xee {
        Some((Op::Inc, Mode::Abs))
    } else if op == 0xf0 {
        Some((Op::Beq, Mode::Rel))
    } else if op == 0xf1 {
        Some((Op::Sbc, Mode::Izy))
    } else if op == 0xf5 {
        Some((Op::Sbc, Mode::Zpx))
    } else if op == 0xf6 {
        Some((Op::Inc, Mode::Zpx))
    } else if op == 0xf8 {
        Some((Op::Sed, Mode::Imp))
    } else if op == 0xf9 {
        Some((Op::Sbc, Mode::Aby))
    } else if op == 0xfd {
        Some((Op::Sbc, Mode::Abx))
    } else if op == 0xfe {
        Some((Op::Inc, Mode::Abx))
    } else {
        None
    }
}
/// Decodes an opcode (see `opcode_table`).
pub fn decode(op: u8) -> (r: Option<(Op, Mode)>)
    ensures
        r == opcode_table(op),
{
    match op {
        0x00 => Some((Op::Brk, Mode::Imp)),
        0x01 => Some((Op::Ora, Mode::Izx)),
        0x05 => Some((Op::Ora, Mode::Zp)),
        0x06 => Some((Op::Asl, Mode::Zp)),
        0x08 => Some((Op::Php, Mode::Imp)),
        0x09 => Some((Op::Ora, Mode::Imm)),
        0x0a => Some((Op::Asl, Mode::Acc)),
        0x0d => Some((Op::Ora, Mode::Abs)),
        0x0e => Some((Op::Asl, Mode::Abs)),
        0x10 => Some((Op::Bpl, Mode::Rel)),
        0x11 => Some((Op::Ora, Mode::Izy)),
        0x15 => Some((Op::Ora, Mode::Zpx)),
        0x16 => Some((Op::Asl, Mode::Zpx)),
        0x18 => Some((Op::Clc, Mode::Imp)),
        0x19 => Some((Op::Ora, Mode::Aby)),
        0x1d => Some((Op::Ora, Mode::Abx)),
        0x1e => Some((Op::Asl, Mode::Abx)),
        0x20 => Some((Op::Jsr, Mode::Abs)),
        0x21 => Some((Op::And, Mode::Izx)),
        0x24 => Some((Op::Bit, Mode::Zp)),
        0x25 => Some((Op::And, Mode::Zp)),
        0x26 => Some((Op::Rol, Mode::Zp)),
        0x28 => Some((Op::Plp, Mode::Imp)),
        0x29 => Some((Op::And, Mode::Imm)),
        0x2a => Some((Op::Rol, Mode::Acc)),
        0x2c => Some((Op::Bit, Mode::Abs)),
        0x2d => Some((Op::And, Mode::Abs)),
        0x2e => Some((Op::Rol, Mode::Abs)),
        0x30 => Some((Op::Bmi, Mode::Rel)),
        0x31 => Some((Op::And, Mode::Izy)),
        0x32 => Some((Op::Nop, Mode::Imp)),
        0x33 => Some((Op::Nop, Mode::Imp)),
        0x34 => Some((Op::Nop, Mode::Imp)),
        0x35 => Some((Op::And, Mode::Zpx)),
        0x36 => Some((Op::Rol, Mode::Zpx)),
        0x38 => Some((Op::Sec, Mode::Imp)),
        0x39 => Some((Op::And, Mode::Aby)),
        0x3d => Some((Op::And, Mode::Abx)),
        0x3e => Some((Op::Rol, Mode::Abx)),
        0x40 => Some((Op::Rti, Mode::Imp)),
        0x41 => Some((Op::Eor, Mode::Izx)),
        0x45 => Some((Op::Eor, Mode::Zp)),
        0x46 => Some((Op::Lsr, Mode::Zp)),
        0x48 => Some((Op::Pha, Mode::Imp)),
        0x49 => Some((Op::Eor, Mode::Imm)),
        0x4a => Some((Op::Lsr, Mode::Acc)),
        0x4c => Some((Op::Jmp, Mode::Abs)),
        0x4d => Some((Op::Eor, Mode::Abs)),
        0x4e => Some((Op::Lsr, Mode::Abs)),
        0x50 => Some((Op::Bvc, Mode::Rel)),
        0x51 => Some((Op::Eor, Mode::Izy)),
        0x55 => Some((Op::Eor, Mode::Zpx)),
        0x56 => Some((Op::Lsr, Mode::Zpx)),
        0x58 => Some((Op::Cli, Mode::Imp)),
        0x59 => Some((Op::Eor, Mode::Aby)),
        0x5d => Some((Op::Eor, Mode::Abx)),
        0x5e => Some((Op::Lsr, Mode::Abx)),
        0x60 => Some((Op::Rts, Mode::Imp)),
        0x61 => Some((Op::Adc, Mode::Izx)),
        0x65 => Some((Op::Adc, Mode::Zp)),
        0x66 => Some((Op::Ror, Mode::Zp)),
        0x68 => Some((Op::Pla, Mode::Imp)),
        0x69 => Some((Op::Adc, Mode::Imm)),
        0x6a => Some((Op::Ror, Mode::Acc)),
        0x6c => Some((Op::Jmp, Mode::Ind)),
        0x6d => Some((Op::Adc, Mode::Abs)),
        0x6e => Some((Op::Ror, Mode::Abs)),
        0x70 => Some((Op::Bvs, Mode::Rel)),
        0x71 => Some((Op::Adc, Mode::Izy)),
        0x75 => Some((Op::Adc, Mode::Zpx)),
        0x76 => Some((Op::Ror, Mode::Zpx)),
        0x78 => Some((Op::Sei, Mode::Imp)),
        0x79 => Some((Op::Adc, Mode::Aby)),
        0x7d => Some((Op::Adc, Mode::Abx)),
        0x7e => Some((Op::Ror, Mode::Abx)),
        0x81 => Some((Op::Sta, Mode::Izx)),
        0x84 => Some((Op::Sty, Mode::Zp)),
        0x85 => Some((Op::Sta, Mode::Zp)),
        0x86 => Some((Op::Stx, Mode::Zp)),
        0x88 => Some((Op::Dey, Mode::Imp)),
        0x8a => Some((Op::Txa, Mode::Imp)),
        0x8c => Some((Op::Sty, Mode::Abs)),
        0x8d => Some((Op::Sta, Mode::Abs)),
        0x8e => Some((Op::Stx, Mode::Abs)),
        0x90 => Some((Op::Bcc, Mode::Rel)),
        0x91 => Some((Op::Sta, Mode::Izy)),
        0x94 => Some((Op::Sty, Mode::Zpx)),
        0x95 => Some((Op::Sta, Mode::Zpx)),
        0x96 => Some((Op::Stx, Mode::Zpy)),
        0x98 => Some((Op::Tya, Mode::Imp)),
        0x99 => Some((Op::Sta, Mode::Aby)),
        0x9a => Some((Op::Txs, Mode::Imp)),
        0x9d => Some((Op::Sta, Mode::Abx)),
        0xa0 => Some((Op::Ldy, Mode::Imm)),
        0xa1 => Some((Op::Lda, Mode::Izx)),
        0xa2 => Some((Op::Ldx, Mode::Imm)),
        0xa4 => Some((Op::Ldy, Mode::Zp)),
        0xa5 => Some((Op::Lda, Mode::Zp)),
        0xa6 => Some((Op::Ldx, Mode::Zp)),
        0xa8 => Some((Op::Tay, Mode::Imp)),
        0xa9 => Some((Op::Lda, Mode::Imm)),
        0xaa => Some((Op::Tax, Mode::Imp)),
        0xac => Some((Op::Ldy, Mode::Abs)),
        0xad => Some((Op::Lda, Mode::Abs)),
        0xae => Some((Op::Ldx, Mode::Abs)),
        0xb0 => Some((Op::Bcs, Mode::Rel)),
        0xb1 => Some((Op::Lda, Mode::Izy)),
        0xb4 => Some((Op::Ldy, Mode::Zpx)),
        0xb5 => Some((Op::Lda, Mode::Zpx)),
        0xb6 => Some((Op::Ldx, Mode::Zpy)),
        0xb8 => Some((Op::Clv, Mode::Imp)),
        0xb9 => Some((Op::Lda, Mode::Aby)),
        0xba => Some((Op::Tsx, Mode::Imp)),
        0xbc => Some((Op::Ldy, Mode::Abx)),
        0xbd => Some((Op::Lda, Mode::Abx)),
        0xbe => Some((Op::Ldx, Mode::Aby)),
        0xc0 => Some((Op::Cpy, Mode::Imm)),
        0xc1 => Some((Op::Cmp, Mode::Izx)),
        0xc4 => Some((Op::Cpy, Mode::Zp)),
        0xc5 => Some((Op::Cmp, Mode::Zp)),
        0xc6 => Some((Op::Dec, Mode::Zp)),
        0xc8 => Some((Op::Iny, Mode::Imp)),
        0xc9 => Some((Op::Cmp, Mode::Imm)),
        0xca => Some((Op::Dex, Mode::Imp)),
        0xcc => Some((Op::Cpy, Mode::Abs)),
        0xcd => Some((Op::Cmp, Mode::Abs)),
        0xce => Some((Op::Dec, Mode::Abs)),
        0xd0 => Some((Op::Bne, Mode::Rel)),
        0xd1 => Some((Op::Cmp, Mode::Izy)),
        0xd5 => Some((Op::Cmp, Mode::Zpx)),
        0xd6 => Some((Op::Dec, Mode::Zpx)),
        0xd8 => Some((Op::Cld, Mode::Imp)),
        0xd9 => Some((Op::Cmp, Mode::Aby)),
        0xdd => Some((Op::Cmp, Mode::Abx)),
        0xde => Some((Op::Dec, Mode::Abx)),
        0xe0 => Some((Op::Cpx, Mode::Imm)),
        0xe1 => Some((Op::Sbc, Mode::Izx)),
        0xe4 => Some((Op::Cpx, Mode::Zp)),
        0xe5 => Some((Op::Sbc, Mode::Zp)),
        0xe6 => Some((Op::Inc, Mode::Zp)),
        0xe8 => Some((Op::Inx, Mode::Imp)),
        0xe9 => Some((Op::Sbc, Mode::Imm)),
        0xea => Some((Op::Nop, Mode::Imp)),
        0xec => Some((Op::Cpx, Mode::Abs)),
        0xed => Some((Op::Sbc, Mode::Abs)),
        0xee => Some((Op::Inc, Mode::Abs)),
        0xf0 => Some((Op::Beq, Mode::Rel)),
        0xf1 => Some((Op::Sbc, Mode::Izy)),
        0xf5 => Some((Op::Sbc, Mode::Zpx)),
        0xf6 => Some((Op::Inc, Mode::Zpx)),
        0xf8 => Some((Op::Sed, Mode::Imp)),
        0xf9 => Some((Op::Sbc, Mode::Aby)),
        0xfd => Some((Op::Sbc, Mode::Abx)),
        0xfe => Some((Op::Inc, Mode::Abx)),
        _ => None,
    }
}
/// The three-letter mnemonic of an instruction.
pub open spec fn op_name(o: Op) -> Seq<char> {
    match o {
        Op::Adc => seq!['a', 'd', 'c'],
        Op::And => seq!['a', 'n', 'd'],
        Op::Asl => seq!['a', 's', 'l'],
        Op::Bcc => seq!['b', 'c', 'c'],
        Op::Bcs => seq!['b', 'c', 's'],
        Op::Beq => seq!['b', 'e', 'q'],
        Op::Bit => seq!['b', 'i', 't'],
        Op::Bmi => seq!['b', 'm', 'i'],
        Op::Bne => seq!['b', 'n', 'e'],
        Op::Bpl => seq!['b', 'p', 'l'],
        Op::Brk => seq!['b', 'r', 'k'],
        Op::Bvc => seq!['b', 'v', 'c'],
        Op::Bvs => seq!['b', 'v', 's'],
        Op::Clc => seq!['c', 'l', 'c'],
        Op::Cld => seq!['c', 'l', 'd'],
        Op::Cli => seq!['c', 'l', 'i'],
        Op::Clv => seq!['c', 'l', 'v'],
        Op::Cmp => seq!['c', 'm', 'p'],
        Op::Cpx => seq!['c', 'p', 'x'],
        Op::Cpy => seq!['c', 'p', 'y'],
        Op::Dec => seq!['d', 'e', 'c'],
        Op::Dex => seq!['d', 'e', 'x'],
        Op::Dey => seq!['d', 'e', 'y'],
        Op::Eor => seq!['e', 'o', 'r'],
        Op::Inc => seq!['i', 'n', 'c'],
        Op::Inx => seq!['i', 'n', 'x'],
        Op::Iny => seq!['i', 'n', 'y'],
        Op::Jmp => seq!['j', 'm', 'p'],
        Op::Jsr => seq!['j', 's', 'r'],
        Op::Lda => seq!['l', 'd', 'a'],
        Op::Ldx => seq!['l', 'd', 'x'],
        Op::Ldy => seq!['l', 'd', 'y'],
        Op::Lsr => seq!['l', 's', 'r'],
        Op::Nop => seq!['n', 'o', 'p'],
        Op::Ora => seq!['o', 'r', 'a'],
        Op::Pha => seq!['p', 'h', 'a'],
        Op::Php => seq!['p', 'h', 'p'],
        Op::Pla => seq!['p', 'l', 'a'],
        Op::Plp => seq!['p', 'l', 'p'],
        Op::Rol => seq!['r', 'o', 'l'],
        Op::Ror => seq!['r', 'o', 'r'],
        Op::Rti => seq!['r', 't', 'i'],
        Op::Rts => seq!['r', 't', 's'],
        Op::Sbc => seq!['s', 'b', 'c'],
        Op::Sec => seq!['s', 'e', 'c'],
        Op::Sed => seq!['s', 'e', 'd'],
        Op::Sei => seq!['s', 'e', 'i'],
        Op::Sta => seq!['s', 't', 'a'],
        Op::Stx => seq!['s', 't', 'x'],
        Op::Sty => seq!['s', 't', 'y'],
        Op::Tax => seq!['t', 'a', 'x'],
        Op::Tay => seq!['t', 'a', 'y'],
        Op::Tsx => seq!['t', 's', 'x'],
        Op::Txa => seq!['t', 'x', 'a'],
        Op::Txs => seq!['t', 'x', 's'],
        Op::Tya => seq!['t', 'y', 'a'],
    }
}
impl Op {
    /// The mnemonic, in lower case.
    pub fn name(&self) -> (r: &'static str)
        ensures
            r@ == op_name(*self),
    {
        match self {
            Op::Adc => {
                proof {
                    reveal_strlit("adc");
                }
                "adc"
            },
            Op::And => {
                proof {
                    reveal_strlit("and");
                }
                "and"
            },
            Op::Asl => {
                proof {
                    reveal_strlit("asl");
                }
                "asl"
            },
            Op::Bcc => {
                proof {
                    reveal_strlit("bcc");
                }
                "bcc"
            },
            Op::Bcs => {
                proof {
                    reveal_strlit("bcs");
                }
                "bcs"
            },
            Op::Beq => {
                proof {
                    reveal_strlit("beq");
                }
                "beq"
            },
            Op::Bit => {
                proof {
                    reveal_strlit("bit");
                }
                "bit"
            },
            Op::Bmi => {
                proof {
                    reveal_strlit("bmi");
                }
                "bmi"
            },
            Op::Bne => {
                proof {
                    reveal_strlit("bne");
                }
                "bne"
            },
            Op::Bpl => {
                proof {
                    reveal_strlit("bpl");
                }
                "bpl"
            },
            Op::Brk => {
                proof {
                    reveal_strlit("brk");
                }
                "brk"
            },
            Op::Bvc => {
                proof {
                    reveal_strlit("bvc");
                }
                "bvc"
            },
            Op::Bvs => {
                proof {
                    reveal_strlit("bvs");
                }
                "bvs"
            },
            Op::Clc => {
                proof {
                    reveal_strlit("clc");
                }
                "clc"
            },
            Op::Cld => {
                proof {
                    reveal_strlit("cld");
                }
                "cld"
            },
            Op::Cli => {
                proof {
                    reveal_strlit("cli");
                }
                "cli"
            },
            Op::Clv => {
                proof {
                    reveal_strlit("clv");
                }
                "clv"
            },
            Op::Cmp => {
                proof {
                    reveal_strlit("cmp");
                }
                "cmp"
            },
            Op::Cpx => {
                proof {
                    reveal_strlit("cpx");
                }
                "cpx"
            },
            Op::Cpy => {
                proof {
                    reveal_strlit("cpy");
                }
                "cpy"
            },
            Op::Dec => {
                proof {
                    reveal_strlit("dec");
                }
                "dec"
            },
            Op::Dex => {
                proof {
                    reveal_strlit("dex");
                }
                "dex"
            },
            Op::Dey => {
                proof {
                    reveal_strlit("dey");
                }
                "dey"
            },
            Op::Eor => {
                proof {
                    reveal_strlit("eor");
                }
                "eor"
            },
            Op::Inc => {
                proof {
                    reveal_strlit("inc");
                }
                "inc"
            },
            Op::Inx => {
                proof {
                    reveal_strlit("inx");
                }
                "inx"
            },
            Op::Iny => {
                proof {
                    reveal_strlit("iny");
                }
                "iny"
            },
            Op::Jmp => {
                proof {
                    reveal_strlit("jmp");
                }
                "jmp"
            },
            Op::Jsr => {
                proof {
                    reveal_strlit("jsr");
                }
                "jsr"
            },
            Op::Lda => {
                proof {
                    reveal_strlit("lda");
                }
                "lda"
            },
            Op::Ldx => {
                proof {
                    reveal_strlit("ldx");
                }
                "ldx"
            },
            Op::Ldy => {
                proof {
                    reveal_strlit("ldy");
                }
                "ldy"
            },
            Op::Lsr => {
                proof {
                    reveal_strlit("lsr");
                }
                "lsr"
            },
            Op::Nop => {
                proof {
                    reveal_strlit("nop");
                }
                "nop"
            },
            Op::Ora => {
                proof {
                    reveal_strlit("ora");
                }
                "ora"
            },
            Op::Pha => {
                proof {
                    reveal_strlit("pha");
                }
                "pha"
            },
            Op::Php => {
                proof {
                    reveal_strlit("php");
                }
                "php"
            },
            Op::Pla => {
                proof {
                    reveal_strlit("pla");
                }
                "pla"
            },
            Op::Plp => {
                proof {
                    reveal_strlit("plp");
                }
                "plp"
            },
            Op::Rol => {
                proof {
                    reveal_strlit("rol");
                }
                "rol"
            },
            Op::Ror => {
                proof {
                    reveal_strlit("ror");
                }
                "ror"
            },
            Op::Rti => {
                proof {
                    reveal_strlit("rti");
                }
                "rti"
            },
            Op::Rts => {
                proof {
                    reveal_strlit("rts");
                }
                "rts"
            },
            Op::Sbc => {
                proof {
                    reveal_strlit("sbc");
                }
                "sbc"
            },
            Op::Sec => {
                proof {
                    reveal_strlit("sec");
                }
                "sec"
            },
            Op::Sed => {
                proof {
                    reveal_strlit("sed");
                }
                "sed"
            },
            Op::Sei => {
                proof {
                    reveal_strlit("sei");
                }
                "sei"
            },
            Op::Sta => {
                proof {
                    reveal_strlit("sta");
                }
                "sta"
            },
            Op::Stx => {
                proof {
                    reveal_strlit("stx");
                }
                "stx"
            },
            Op::Sty => {
                proof {
                    reveal_strlit("sty");
                }
                "sty"
            },
            Op::Tax => {
                proof {
                    reveal_strlit("tax");
                }
                "tax"
            },
            Op::Tay => {
                proof {
                    reveal_strlit("tay");
                }
                "tay"
            },
            Op::Tsx => {
                proof {
                    reveal_strlit("tsx");
                }
                "tsx"
            },
            Op::Txa => {
                proof {
                    reveal_strlit("txa");
                }
                "txa"
            },
            Op::Txs => {
                proof {
                    reveal_strlit("txs");
                }
                "txs"
            },
            Op::Tya => {
                proof {
                    reveal_strlit("tya");
                }
                "tya"
            },
        }
    }
}

} // verus!
