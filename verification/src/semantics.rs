//! The mathematical model of the machine: an abstract CPU state, and one
//! transition function per instruction. `CPU::step` and every operation of
//! the executor are specified exactly against these functions; the
//! machine-level laws are proved about them.

use vstd::prelude::*;
use vstd::wrapping::{u16_specs, u8_specs};
use crate::com::AbstractCom;
use crate::cpu::CPUError;
use crate::inst::{Instruction, Value};
use crate::memory::{spec_read_byte, spec_read_word, spec_write_byte, MemoryError, RAM_SIZE};
use crate::video::{AbstractVideo, VideoSignal};

verus! {

/// The abstract CPU state: sixteen 8-bit registers, the 16-bit index
/// register, the program counter, the stack pointer and the fixed-depth
/// return stack, the memory contents, and the halt flag.
#[verifier::ext_equal]
pub ghost struct AbstractCpu {
    pub v: Seq<u8>,
    pub i: u16,
    pub pc: u16,
    pub sp: u8,
    pub stack: Seq<u16>,
    pub mem: Seq<u8>,
    pub running: bool,
}

impl AbstractCpu {
    /// Structural well-formedness: sixteen registers, a sixteen-slot
    /// stack, a stack pointer no deeper than the stack, a full-size store.
    pub open spec fn wf(self) -> bool {
        &&& self.v.len() == 16
        &&& self.stack.len() == 16
        &&& self.sp <= 16
        &&& self.mem.len() == RAM_SIZE
    }

    /// The default advance of the program counter past one instruction.
    pub open spec fn advanced(self) -> AbstractCpu {
        AbstractCpu { pc: (self.pc + 2) as u16, ..self }
    }

    /// The state with general register `r` set to `x`.
    pub open spec fn with_reg(self, r: int, x: u8) -> AbstractCpu {
        AbstractCpu { v: self.v.update(r, x), ..self }
    }
}

/// What reading general register `r` yields: its byte, or a refusal of an
/// index outside the register file.
pub open spec fn sp_get(s: AbstractCpu, r: u8) -> Result<u8, CPUError> {
    if r < 16 {
        Ok(s.v[r as int])
    } else {
        Err(CPUError::InvalidRegister(r))
    }
}

/// What a right-hand operand evaluates to.
pub open spec fn sp_value(s: AbstractCpu, val: Value) -> Result<u8, CPUError> {
    match val {
        Value::Register(r) => sp_get(s, r),
        Value::Byte(b) => Ok(b),
    }
}

/// The system instruction: the designated sentinel address halts the
/// machine in place; any other address is a no-op that advances.
pub open spec fn sp_sys(s: AbstractCpu, addr: u16) -> AbstractCpu {
    if addr == 0x100 {
        AbstractCpu { running: false, ..s }
    } else {
        s.advanced()
    }
}

/// Clear-screen: every pixel off, a `Clear` signal pending, the counter
/// advanced.
pub open spec fn sp_cls(s: AbstractCpu, c: AbstractCom) -> (AbstractCpu, AbstractCom) {
    (
        s.advanced(),
        AbstractCom {
            video: AbstractVideo {
                display: Seq::new(c.video.display.len(), |p: int| false),
                signal: VideoSignal::Clear,
                ..c.video
            },
        },
    )
}

/// Pushing a return address: fails when the stack is full, else stores at
/// the stack pointer and deepens it.
pub open spec fn sp_push(s: AbstractCpu, addr: u16) -> (AbstractCpu, Result<(), CPUError>) {
    if s.sp < 16 {
        (
            AbstractCpu { stack: s.stack.update(s.sp as int, addr), sp: (s.sp + 1) as u8, ..s },
            Ok(()),
        )
    } else {
        (s, Err(CPUError::StackOverflow))
    }
}

/// Popping a return address: fails when the stack is empty, else yields
/// the address under the stack pointer and shallows it.
pub open spec fn sp_pop(s: AbstractCpu) -> (AbstractCpu, Result<u16, CPUError>) {
    if s.sp > 0 {
        (AbstractCpu { sp: (s.sp - 1) as u8, ..s }, Ok(s.stack[s.sp - 1]))
    } else {
        (s, Err(CPUError::StackUnderflow))
    }
}

/// Return: pop into the program counter; the popped value is already the
/// caller's next instruction, so there is no further advance.
pub open spec fn sp_ret(s: AbstractCpu) -> (AbstractCpu, Result<(), CPUError>) {
    let (s1, r) = sp_pop(s);
    match r {
        Ok(a) => (AbstractCpu { pc: a, ..s1 }, Ok(())),
        Err(e) => (s1, Err(e)),
    }
}

/// Jump: the counter is set to the target, with no separate advance.
pub open spec fn sp_jp(s: AbstractCpu, addr: u16) -> AbstractCpu {
    AbstractCpu { pc: addr, ..s }
}

/// Call: push the address of the next instruction, then jump.
pub open spec fn sp_call(s: AbstractCpu, addr: u16) -> (AbstractCpu, Result<(), CPUError>) {
    let (s1, r) = sp_push(s, (s.pc + 2) as u16);
    match r {
        Ok(_) => (AbstractCpu { pc: addr, ..s1 }, Ok(())),
        Err(e) => (s1, Err(e)),
    }
}

/// Skip-equal: advance by two instructions when the operands are equal,
/// else by one.
pub open spec fn sp_se(s: AbstractCpu, reg: u8, val: Value) -> (AbstractCpu, Result<(), CPUError>) {
    match sp_get(s, reg) {
        Err(e) => (s, Err(e)),
        Ok(a) => match sp_value(s, val) {
            Err(e) => (s, Err(e)),
            Ok(b) => (
                AbstractCpu { pc: (s.pc + if a == b { 4int } else { 2int }) as u16, ..s },
                Ok(()),
            ),
        },
    }
}

/// Skip-not-equal: advance by two instructions when the operands differ.
pub open spec fn sp_sne(s: AbstractCpu, reg: u8, val: Value) -> (AbstractCpu, Result<(), CPUError>) {
    match sp_get(s, reg) {
        Err(e) => (s, Err(e)),
        Ok(a) => match sp_value(s, val) {
            Err(e) => (s, Err(e)),
            Ok(b) => (
                AbstractCpu { pc: (s.pc + if a == b { 2int } else { 4int }) as u16, ..s },
                Ok(()),
            ),
        },
    }
}

/// Load: copy the operand into the register.
pub open spec fn sp_ld(s: AbstractCpu, reg: u8, val: Value) -> (AbstractCpu, Result<(), CPUError>) {
    match sp_value(s, val) {
        Err(e) => (s, Err(e)),
        Ok(b) => if reg < 16 {
            (s.with_reg(reg as int, b).advanced(), Ok(()))
        } else {
            (s, Err(CPUError::InvalidRegister(reg)))
        },
    }
}

/// Add: the 8-bit truncated sum; when the right operand is a register, the
/// flag register first records whether the untruncated sum exceeded 255.
pub open spec fn sp_add(s: AbstractCpu, reg: u8, val: Value) -> (AbstractCpu, Result<(), CPUError>) {
    match sp_get(s, reg) {
        Err(e) => (s, Err(e)),
        Ok(a) => match sp_value(s, val) {
            Err(e) => (s, Err(e)),
            Ok(b) => {
                let s1 = if val is Register {
                    s.with_reg(15, if a + b > 255 { 1u8 } else { 0u8 })
                } else {
                    s
                };
                (s1.with_reg(reg as int, ((a + b) % 256) as u8).advanced(), Ok(()))
            },
        },
    }
}

/// Bitwise or, stored into the left register.
pub open spec fn sp_or(s: AbstractCpu, l: u8, r: u8) -> (AbstractCpu, Result<(), CPUError>) {
    match sp_get(s, l) {
        Err(e) => (s, Err(e)),
        Ok(a) => match sp_get(s, r) {
            Err(e) => (s, Err(e)),
            Ok(b) => (s.with_reg(l as int, a | b).advanced(), Ok(())),
        },
    }
}

/// Bitwise and, stored into the left register.
pub open spec fn sp_and(s: AbstractCpu, l: u8, r: u8) -> (AbstractCpu, Result<(), CPUError>) {
    match sp_get(s, l) {
        Err(e) => (s, Err(e)),
        Ok(a) => match sp_get(s, r) {
            Err(e) => (s, Err(e)),
            Ok(b) => (s.with_reg(l as int, a & b).advanced(), Ok(())),
        },
    }
}

/// Bitwise exclusive or, stored into the left register.
pub open spec fn sp_xor(s: AbstractCpu, l: u8, r: u8) -> (AbstractCpu, Result<(), CPUError>) {
    match sp_get(s, l) {
        Err(e) => (s, Err(e)),
        Ok(a) => match sp_get(s, r) {
            Err(e) => (s, Err(e)),
            Ok(b) => (s.with_reg(l as int, a ^ b).advanced(), Ok(())),
        },
    }
}

/// Subtract: the flag register first records whether the left operand was
/// strictly greater, then the left register takes the wrapped difference.
pub open spec fn sp_sub(s: AbstractCpu, l: u8, r: u8) -> (AbstractCpu, Result<(), CPUError>) {
    match sp_get(s, l) {
        Err(e) => (s, Err(e)),
        Ok(a) => match sp_get(s, r) {
            Err(e) => (s, Err(e)),
            Ok(b) => (
                s.with_reg(15, if a > b { 1u8 } else { 0u8 }).with_reg(
                    l as int,
                    u8_specs::wrapping_sub(a, b),
                ).advanced(),
                Ok(()),
            ),
        },
    }
}

/// Subtract-inverse: the left register takes right minus left, the flag
/// register first records whether the right operand was strictly greater.
pub open spec fn sp_subn(s: AbstractCpu, l: u8, r: u8) -> (AbstractCpu, Result<(), CPUError>) {
    match sp_get(s, l) {
        Err(e) => (s, Err(e)),
        Ok(a) => match sp_get(s, r) {
            Err(e) => (s, Err(e)),
            Ok(b) => (
                s.with_reg(15, if b > a { 1u8 } else { 0u8 }).with_reg(
                    l as int,
                    u8_specs::wrapping_sub(b, a),
                ).advanced(),
                Ok(()),
            ),
        },
    }
}

/// Shift-right by one: the flag register first takes the bit shifted out.
pub open spec fn sp_shr(s: AbstractCpu, reg: u8) -> (AbstractCpu, Result<(), CPUError>) {
    match sp_get(s, reg) {
        Err(e) => (s, Err(e)),
        Ok(a) => (
            s.with_reg(15, if a & 1 == 1 { 1u8 } else { 0u8 }).with_reg(reg as int, a >> 1)
                .advanced(),
            Ok(()),
        ),
    }
}

/// Shift-left by one: the flag register first takes the bit shifted out.
pub open spec fn sp_shl(s: AbstractCpu, reg: u8) -> (AbstractCpu, Result<(), CPUError>) {
    match sp_get(s, reg) {
        Err(e) => (s, Err(e)),
        Ok(a) => (
            s.with_reg(15, if a & 0x80 == 0x80 { 1u8 } else { 0u8 }).with_reg(reg as int, a << 1)
                .advanced(),
            Ok(()),
        ),
    }
}

/// Set the index register.
pub open spec fn sp_ldi(s: AbstractCpu, addr: u16) -> AbstractCpu {
    AbstractCpu { i: addr, ..s }.advanced()
}

/// Jump with offset: the counter is set to register zero plus the target.
pub open spec fn sp_jpo(s: AbstractCpu, addr: u16) -> AbstractCpu {
    AbstractCpu { pc: (s.v[0] + addr) as u16, ..s }
}

/// Random: the register takes a fresh byte masked by the immediate.
pub open spec fn sp_rnd(s: AbstractCpu, reg: u8, mask: u8, rnd: u8) -> (
    AbstractCpu,
    Result<(), CPUError>,
) {
    if reg < 16 {
        (s.with_reg(reg as int, rnd & mask).advanced(), Ok(()))
    } else {
        (s, Err(CPUError::InvalidRegister(reg)))
    }
}

/// Add to the index register, wrapping.
pub open spec fn sp_addi(s: AbstractCpu, reg: u8) -> (AbstractCpu, Result<(), CPUError>) {
    match sp_get(s, reg) {
        Err(e) => (s, Err(e)),
        Ok(a) => (
            AbstractCpu { i: u16_specs::wrapping_add(s.i, a as u16), ..s }.advanced(),
            Ok(()),
        ),
    }
}

/// Binary-coded-decimal store: the register's hundreds, tens and units
/// digits are written at the index register and the two bytes after it.
/// Each write is region-checked; a refusal keeps the writes already made.
pub open spec fn sp_ldb(s: AbstractCpu, reg: u8) -> (AbstractCpu, Result<(), CPUError>) {
    match sp_get(s, reg) {
        Err(e) => (s, Err(e)),
        Ok(a) => match spec_write_byte(s.mem, s.i as int, a / 100) {
            Err(e) => (s, Err(CPUError::MemoryError(e))),
            Ok(m1) => match spec_write_byte(m1, s.i + 1, (a % 100) / 10) {
                Err(e) => (AbstractCpu { mem: m1, ..s }, Err(CPUError::MemoryError(e))),
                Ok(m2) => match spec_write_byte(m2, s.i + 2, a % 10) {
                    Err(e) => (AbstractCpu { mem: m2, ..s }, Err(CPUError::MemoryError(e))),
                    Ok(m3) => (AbstractCpu { mem: m3, ..s }.advanced(), Ok(())),
                },
            },
        },
    }
}

/// Stores `v[k]` for `k` in `first ..= last` at `base + k`, stopping at the
/// first refused write and keeping the writes already made.
pub open spec fn sp_store_block(m: Seq<u8>, v: Seq<u8>, base: int, first: int, last: int) -> (
    Seq<u8>,
    Option<MemoryError>,
)
    decreases last + 1 - first,
{
    if first > last {
        (m, None)
    } else {
        match spec_write_byte(m, base + first, v[first]) {
            Err(e) => (m, Some(e)),
            Ok(m2) => sp_store_block(m2, v, base, first + 1, last),
        }
    }
}

/// Loads `v[k]` from `base + k` for `k` in `first ..= last`, stopping at
/// the first refused read and keeping the registers already loaded.
pub open spec fn sp_load_block(m: Seq<u8>, v: Seq<u8>, base: int, first: int, last: int) -> (
    Seq<u8>,
    Option<MemoryError>,
)
    decreases last + 1 - first,
{
    if first > last {
        (v, None)
    } else {
        match spec_read_byte(m, base + first) {
            Err(e) => (v, Some(e)),
            Ok(b) => sp_load_block(m, v.update(first, b), base, first + 1, last),
        }
    }
}

/// Bulk store: registers zero through `reg` inclusive are copied to memory
/// starting at the index register.
pub open spec fn sp_ldsblk(s: AbstractCpu, reg: u8) -> (AbstractCpu, Result<(), CPUError>) {
    let (m2, err) = sp_store_block(s.mem, s.v, s.i as int, 0, reg as int);
    match err {
        Option::None => (AbstractCpu { mem: m2, ..s }.advanced(), Ok(())),
        Option::Some(e) => (AbstractCpu { mem: m2, ..s }, Err(CPUError::MemoryError(e))),
    }
}

/// Bulk load: registers zero through `reg` inclusive are filled from
/// memory starting at the index register.
pub open spec fn sp_ldblk(s: AbstractCpu, reg: u8) -> (AbstractCpu, Result<(), CPUError>) {
    let (v2, err) = sp_load_block(s.mem, s.v, s.i as int, 0, reg as int);
    match err {
        Option::None => (AbstractCpu { v: v2, ..s }.advanced(), Ok(())),
        Option::Some(e) => (AbstractCpu { v: v2, ..s }, Err(CPUError::MemoryError(e))),
    }
}

/// The row-major pixel index a sprite cell lands on: coordinates wrap
/// around both edges of the grid.
pub open spec fn pix_idx(w: int, h: int, x: int, y: int, col: int, row: int) -> int {
    ((y + row) % h) * w + ((x + col) % w)
}

/// Whether column `col` of sprite row byte `b` is set; column zero is the
/// most significant bit.
pub open spec fn sprite_bit(b: u8, col: int) -> bool {
    b & (0x80u8 >> (col as u8)) != 0
}

/// One sprite row blitted cell by cell from column `col` on: each set bit
/// is XORed into its pixel, and the collision flag accumulates every pixel
/// that was lit and is hit again.
pub open spec fn sp_blit_cells(
    d: Seq<bool>,
    w: int,
    h: int,
    x: int,
    y: int,
    b: u8,
    row: int,
    col: int,
    coll: bool,
) -> (Seq<bool>, bool)
    decreases 8 - col,
{
    if col >= 8 {
        (d, coll)
    } else {
        let idx = pix_idx(w, h, x, y, col, row);
        let bit = sprite_bit(b, col);
        sp_blit_cells(
            d.update(idx, d[idx] ^ bit),
            w,
            h,
            x,
            y,
            b,
            row,
            col + 1,
            coll || (d[idx] && bit),
        )
    }
}

/// Sprite rows from `row` on, each read at `base + row` then blitted; a
/// refused read stops the draw, keeping the rows already drawn.
pub open spec fn sp_blit_rows(
    d: Seq<bool>,
    w: int,
    h: int,
    x: int,
    y: int,
    mem: Seq<u8>,
    base: int,
    row: int,
    size: int,
    coll: bool,
) -> (Seq<bool>, bool, Option<MemoryError>)
    decreases size - row,
{
    if row >= size {
        (d, coll, Option::None)
    } else {
        match spec_read_byte(mem, base + row) {
            Err(e) => (d, coll, Option::Some(e)),
            Ok(b) => {
                let (d2, c2) = sp_blit_cells(d, w, h, x, y, b, row, 0, coll);
                sp_blit_rows(d2, w, h, x, y, mem, base, row + 1, size, c2)
            },
        }
    }
}

/// Draw: `size` sprite rows read from the index register, XOR-blitted at
/// the coordinates held in the two registers. On success the flag register
/// records whether any lit pixel was hit, a `Refresh` signal is raised and
/// the counter advances; a refused read keeps the rows already drawn and
/// raises nothing.
pub open spec fn sp_drw(s: AbstractCpu, c: AbstractCom, x_reg: u8, y_reg: u8, size: u8) -> (
    AbstractCpu,
    AbstractCom,
    Result<(), CPUError>,
) {
    let x = s.v[x_reg as int] as int;
    let y = s.v[y_reg as int] as int;
    let (d2, coll, err) = sp_blit_rows(
        c.video.display,
        c.video.width as int,
        c.video.height as int,
        x,
        y,
        s.mem,
        s.i as int,
        0,
        size as int,
        false,
    );
    match err {
        Option::Some(e) => (
            s,
            AbstractCom { video: AbstractVideo { display: d2, ..c.video } },
            Err(CPUError::MemoryError(e)),
        ),
        Option::None => (
            s.with_reg(15, if coll { 1u8 } else { 0u8 }).advanced(),
            AbstractCom {
                video: AbstractVideo { display: d2, signal: VideoSignal::Refresh, ..c.video },
            },
            Ok(()),
        ),
    }
}

/// The dispatch of one decoded instruction against the machine state. The
/// unsupported instructions (keyboard, timers, font pointer) have no
/// semantics here and are mapped to the identity; the executor refuses to
/// run them.
pub open spec fn spec_execute(s: AbstractCpu, c: AbstractCom, inst: Instruction, rnd: u8) -> (
    AbstractCpu,
    AbstractCom,
    Result<(), CPUError>,
) {
    match inst {
        Instruction::SYS(addr) => (sp_sys(s, addr), c, Ok(())),
        Instruction::CLS => {
            let (s2, c2) = sp_cls(s, c);
            (s2, c2, Ok(()))
        },
        Instruction::RET => {
            let (s2, r) = sp_ret(s);
            (s2, c, r)
        },
        Instruction::JP(addr) => (sp_jp(s, addr), c, Ok(())),
        Instruction::CALL(addr) => {
            let (s2, r) = sp_call(s, addr);
            (s2, c, r)
        },
        Instruction::SE(reg, val) => {
            let (s2, r) = sp_se(s, reg, val);
            (s2, c, r)
        },
        Instruction::SNE(reg, val) => {
            let (s2, r) = sp_sne(s, reg, val);
            (s2, c, r)
        },
        Instruction::LD(reg, val) => {
            let (s2, r) = sp_ld(s, reg, val);
            (s2, c, r)
        },
        Instruction::ADD(reg, val) => {
            let (s2, r) = sp_add(s, reg, val);
            (s2, c, r)
        },
        Instruction::OR(l, r) => {
            let (s2, res) = sp_or(s, l, r);
            (s2, c, res)
        },
        Instruction::AND(l, r) => {
            let (s2, res) = sp_and(s, l, r);
            (s2, c, res)
        },
        Instruction::XOR(l, r) => {
            let (s2, res) = sp_xor(s, l, r);
            (s2, c, res)
        },
        Instruction::SUB(l, r) => {
            let (s2, res) = sp_sub(s, l, r);
            (s2, c, res)
        },
        Instruction::SHR(reg, _) => {
            let (s2, res) = sp_shr(s, reg);
            (s2, c, res)
        },
        Instruction::SUBN(l, r) => {
            let (s2, res) = sp_subn(s, l, r);
            (s2, c, res)
        },
        Instruction::SHL(reg, _) => {
            let (s2, res) = sp_shl(s, reg);
            (s2, c, res)
        },
        Instruction::LDI(addr) => (sp_ldi(s, addr), c, Ok(())),
        Instruction::JPO(addr) => (sp_jpo(s, addr), c, Ok(())),
        Instruction::RND(reg, mask) => {
            let (s2, r) = sp_rnd(s, reg, mask, rnd);
            (s2, c, r)
        },
        Instruction::DRW(x_reg, y_reg, size) => sp_drw(s, c, x_reg, y_reg, size),
        Instruction::ADDI(reg) => {
            let (s2, r) = sp_addi(s, reg);
            (s2, c, r)
        },
        Instruction::LDB(reg) => {
            let (s2, r) = sp_ldb(s, reg);
            (s2, c, r)
        },
        Instruction::LDSBLK(reg) => {
            let (s2, r) = sp_ldsblk(s, reg);
            (s2, c, r)
        },
        Instruction::LDBLK(reg) => {
            let (s2, r) = sp_ldblk(s, reg);
            (s2, c, r)
        },
        _ => (s, c, Ok(())),
    }
}

/// One whole step: fetch the word at the program counter, decode it,
/// execute it. The first failure is returned with the state as the failing
/// stage left it.
pub open spec fn spec_step(s: AbstractCpu, c: AbstractCom, rnd: u8) -> (
    AbstractCpu,
    AbstractCom,
    Result<(), CPUError>,
) {
    match spec_read_word(s.mem, s.pc as int) {
        Err(e) => (s, c, Err(CPUError::MemoryError(e))),
        Ok(w) => match crate::inst::spec_decode(w) {
            Err(e) => (s, c, Err(e)),
            Ok(inst) => spec_execute(s, c, inst, rnd),
        },
    }
}

/// Whether the instruction under the program counter, if it fetches and
/// decodes at all, is one the executor implements.
pub open spec fn step_enabled(s: AbstractCpu) -> bool {
    match spec_read_word(s.mem, s.pc as int) {
        Err(_) => true,
        Ok(w) => match crate::inst::spec_decode(w) {
            Err(_) => true,
            Ok(inst) => inst.supported(),
        },
    }
}

} // verus!
