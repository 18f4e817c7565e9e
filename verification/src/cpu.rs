//! The CPU core: registers, call stack and memory, driven one instruction
//! at a time by `CPU::step`, which fetches the word at the program counter,
//! decodes it and executes it against the owned state and a borrowed
//! communicator. Every operation is specified exactly against the
//! transition functions of `crate::semantics`.

use vstd::prelude::*;
use vstd::pervasive::unreached;
use crate::com::Communicator;
use crate::inst::{DWord, Instruction, Nibble, Value};
use crate::memory::{
    spec_read_byte, spec_read_word, spec_write_byte, Memory, MemoryError, ROM_OFFSET,
};
use crate::semantics::{
    sp_blit_cells, sp_blit_rows, sp_load_block, sp_store_block,
    sp_add, sp_addi, sp_and, sp_call, sp_cls, sp_drw, sp_get, sp_jp, sp_jpo, sp_ld, sp_ldb,
    sp_ldblk, sp_ldi, sp_ldsblk, sp_or, sp_pop, sp_push, sp_ret, sp_rnd, sp_se, sp_shl, sp_shr,
    sp_sne, sp_sub, sp_subn, sp_sys, sp_value, sp_xor, spec_execute, spec_step, step_enabled,
    AbstractCpu,
};
use crate::video::VideoCommunicator;

verus! {

/// Number of general-purpose registers.
pub const V_REGISTER_COUNT: usize = 16;

/// Depth of the call stack.
pub const STACK_SIZE: usize = 16;

/// Why a step of execution failed. A failed step is fatal to the run: the
/// machine state may hold the partial effects of the failed instruction.
#[derive(Clone, Copy, Debug, PartialEq, Eq, Structural)]
pub enum CPUError {
    /// A return was executed with an empty call stack.
    StackUnderflow,
    /// A call was executed with the call stack full.
    StackOverflow,
    /// A register index outside the register file was used.
    InvalidRegister(u8),
    /// A memory access was refused.
    MemoryError(MemoryError),
    /// The fetched word matches no defined instruction pattern.
    DecodeError(u16),
}

/// The machine state the executor owns: the register file, the call stack
/// and the memory. Its view is an `AbstractCpu`.
pub struct CPU {
    pub v_registers: Vec<u8>,
    pub i_register: u16,
    pub pc: u16,
    pub sp: u8,
    pub stack: Vec<u16>,
    pub memory: Memory,
    pub running: bool,
}

impl View for CPU {
    type V = AbstractCpu;

    open spec fn view(&self) -> AbstractCpu {
        AbstractCpu {
            v: self.v_registers@,
            i: self.i_register,
            pc: self.pc,
            sp: self.sp,
            stack: self.stack@,
            mem: self.memory@,
            running: self.running,
        }
    }
}

impl CPU {
    /// A fresh machine: registers and stack zeroed, the counter at the
    /// start of the program region, fresh memory, running.
    pub fn new() -> (cpu: CPU)
        ensures
            cpu@.wf(),
            cpu@.v == Seq::new(16, |k: int| 0u8),
            cpu@.stack == Seq::new(16, |k: int| 0u16),
            cpu@.i == 0u16,
            cpu@.pc == 0x200u16,
            cpu@.sp == 0u8,
            cpu@.running,
            forall|a: int|
                crate::memory::FONT_OFFSET <= a < crate::memory::FONT_OFFSET
                    + crate::memory::FONT_SIZE ==> cpu@.mem[a] == crate::memory::font()[a
                    - crate::memory::FONT_OFFSET],
            forall|a: int|
                0 <= a < crate::memory::RAM_SIZE && !(crate::memory::FONT_OFFSET <= a
                    < crate::memory::FONT_OFFSET + crate::memory::FONT_SIZE) ==> cpu@.mem[a]
                    == 0u8,
    {
        let mut v_registers: Vec<u8> = Vec::new();
        let mut stack: Vec<u16> = Vec::new();
        let mut k: usize = 0;
        while k < 16
            invariant
                k <= 16,
                v_registers@.len() == k,
                stack@.len() == k,
                forall|j: int| 0 <= j < k ==> v_registers@[j] == 0u8,
                forall|j: int| 0 <= j < k ==> stack@[j] == 0u16,
            decreases 16 - k,
        {
            v_registers.push(0u8);
            stack.push(0u16);
            k = k + 1;
        }
        let cpu = CPU {
            v_registers,
            i_register: 0u16,
            pc: 0x200u16,
            sp: 0u8,
            stack,
            memory: Memory::new(),
            running: true,
        };
        assert(cpu@.v =~= Seq::new(16, |j: int| 0u8));
        assert(cpu@.stack =~= Seq::new(16, |j: int| 0u16));
        cpu
    }

    /// A copy of the whole memory, for persistence by a caller.
    pub fn dump_memory(&self) -> (r: Vec<u8>)
        ensures
            r@ == self@.mem,
    {
        self.memory.dump()
    }

    /// Loads a program image at the start of the program region; whatever
    /// does not fit is silently dropped.
    pub fn load_rom(&mut self, rom: Vec<u8>)
        requires
            old(self)@.wf(),
        ensures
            final(self)@.wf(),
            final(self)@ == (AbstractCpu {
                mem: Seq::new(
                    crate::memory::RAM_SIZE as nat,
                    |a: int|
                        if ROM_OFFSET <= a < ROM_OFFSET + rom@.len() {
                            rom@[a - ROM_OFFSET]
                        } else {
                            old(self)@.mem[a]
                        },
                ),
                ..old(self)@
            }),
    {
        self.memory.load_in_ram(&rom, ROM_OFFSET);
        assert(self@.mem =~= Seq::new(
            crate::memory::RAM_SIZE as nat,
            |a: int|
                if ROM_OFFSET <= a < ROM_OFFSET + rom@.len() {
                    rom@[a - ROM_OFFSET]
                } else {
                    old(self)@.mem[a]
                },
        ));
        assert(final(self)@ =~= (AbstractCpu {
            mem: Seq::new(
                crate::memory::RAM_SIZE as nat,
                |a: int|
                    if ROM_OFFSET <= a < ROM_OFFSET + rom@.len() {
                        rom@[a - ROM_OFFSET]
                    } else {
                        old(self)@.mem[a]
                    },
            ),
            ..old(self)@
        }));
    }

    /// Whether the machine has not halted itself.
    pub fn is_running(&self) -> (b: bool)
        ensures
            b == self@.running,
    {
        self.running
    }

    /// Reads a general register, refusing an index outside the file.
    pub fn get_register(&self, reg: Nibble) -> (r: Result<u8, CPUError>)
        requires
            self@.wf(),
        ensures
            r == sp_get(self@, reg),
    {
        if (reg as usize) < V_REGISTER_COUNT {
            Ok(self.v_registers[reg as usize])
        } else {
            Err(CPUError::InvalidRegister(reg))
        }
    }

    /// Writes a general register, refusing an index outside the file.
    pub fn set_register(&mut self, reg: Nibble, v: u8) -> (r: Result<(), CPUError>)
        requires
            old(self)@.wf(),
        ensures
            final(self)@.wf(),
            reg < 16 ==> r is Ok && final(self)@ == old(self)@.with_reg(reg as int, v),
            reg >= 16 ==> r == Err::<(), CPUError>(CPUError::InvalidRegister(reg)) && final(self)@
                == old(self)@,
    {
        if (reg as usize) < V_REGISTER_COUNT {
            self.v_registers[reg as usize] = v;
            assert(self@ =~= old(self)@.with_reg(reg as int, v));
            Ok(())
        } else {
            Err(CPUError::InvalidRegister(reg))
        }
    }

    /// Evaluates a right-hand operand: a register's byte or the immediate.
    fn unwrap_value(&self, val: Value) -> (r: Result<u8, CPUError>)
        requires
            self@.wf(),
        ensures
            r == sp_value(self@, val),
    {
        match val {
            Value::Register(reg) => self.get_register(reg),
            Value::Byte(b) => Ok(b),
        }
    }

    /// Reads one memory byte for the executor.
    fn read_word(&self, addr: usize) -> (r: Result<u8, CPUError>)
        requires
            self@.wf(),
        ensures
            r == (match spec_read_byte(self@.mem, addr as int) {
                Ok(b) => Ok::<u8, CPUError>(b),
                Err(e) => Err(CPUError::MemoryError(e)),
            }),
    {
        match self.memory.read_byte(addr) {
            Ok(b) => Ok(b),
            Err(e) => Err(CPUError::MemoryError(e)),
        }
    }

    /// Writes one memory byte for the executor.
    fn write_word(&mut self, addr: usize, b: u8) -> (r: Result<(), CPUError>)
        requires
            old(self)@.wf(),
        ensures
            final(self)@.wf(),
            match spec_write_byte(old(self)@.mem, addr as int, b) {
                Ok(m) => r is Ok && final(self)@ == (AbstractCpu { mem: m, ..old(self)@ }),
                Err(e) => r == Err::<(), CPUError>(CPUError::MemoryError(e)) && final(self)@
                    == old(self)@,
            },
    {
        let r = self.memory.write_byte(addr, b);
        match r {
            Ok(_) => {
                assert(self@ =~= (AbstractCpu {
                    mem: spec_write_byte(old(self)@.mem, addr as int, b)->Ok_0,
                    ..old(self)@
                }));
                Ok(())
            },
            Err(e) => Err(CPUError::MemoryError(e)),
        }
    }

    /// Fetches a big-endian instruction word for the executor.
    fn read_dword(&self, addr: usize) -> (r: Result<u16, CPUError>)
        requires
            self@.wf(),
        ensures
            r == (match spec_read_word(self@.mem, addr as int) {
                Ok(w) => Ok::<u16, CPUError>(w),
                Err(e) => Err(CPUError::MemoryError(e)),
            }),
    {
        match self.memory.read_word(addr) {
            Ok(w) => Ok(w),
            Err(e) => Err(CPUError::MemoryError(e)),
        }
    }

    /// Pushes a return address: fails with `StackOverflow` when all sixteen
    /// slots are in use, else stores at the stack pointer and deepens it.
    pub fn push(&mut self, addr: u16) -> (r: Result<(), CPUError>)
        requires
            old(self)@.wf(),
        ensures
            final(self)@.wf(),
            final(self)@ == sp_push(old(self)@, addr).0,
            r == sp_push(old(self)@, addr).1,
    {
        let sp_usize = self.sp as usize;
        if sp_usize < STACK_SIZE {
            self.stack[sp_usize] = addr;
            self.sp = self.sp + 1;
            assert(self@ =~= sp_push(old(self)@, addr).0);
            Ok(())
        } else {
            Err(CPUError::StackOverflow)
        }
    }

    /// Pops a return address: fails with `StackUnderflow` when the stack is
    /// empty, else yields the slot under the stack pointer and shallows it.
    pub fn pop(&mut self) -> (r: Result<u16, CPUError>)
        requires
            old(self)@.wf(),
        ensures
            final(self)@.wf(),
            final(self)@ == sp_pop(old(self)@).0,
            r == sp_pop(old(self)@).1,
    {
        if self.sp > 0 {
            self.sp = self.sp - 1;
            let addr = self.stack[self.sp as usize];
            assert(self@ =~= sp_pop(old(self)@).0);
            Ok(addr)
        } else {
            Err(CPUError::StackUnderflow)
        }
    }

    /// The system instruction: the sentinel address halts the machine in
    /// place, anything else is a no-op that advances.
    fn op_sys(&mut self, addr: DWord)
        requires
            old(self)@.wf(),
            old(self)@.pc <= 0xFFE,
        ensures
            final(self)@.wf(),
            final(self)@ == sp_sys(old(self)@, addr),
    {
        if addr == 0x100 {
            self.running = false;
        } else {
            self.pc = self.pc + 2;
        }
        assert(self@ =~= sp_sys(old(self)@, addr));
    }

    /// Clear-screen: every pixel off, a `Clear` signal raised, advance.
    fn op_cls(&mut self, com: &mut Communicator)
        requires
            old(self)@.wf(),
            old(self)@.pc <= 0xFFE,
        ensures
            final(self)@.wf(),
            (final(self)@, final(com)@) == sp_cls(old(self)@, old(com)@),
    {
        clear_pixels(&mut com.video.display);
        com.video.signal = crate::video::VideoSignal::Clear;
        self.pc = self.pc + 2;
        assert(self@ =~= sp_cls(old(self)@, old(com)@).0);
        assert(com@ =~= sp_cls(old(self)@, old(com)@).1);
    }

    /// Return: pop the caller's next instruction address into the counter.
    fn op_ret(&mut self) -> (r: Result<(), CPUError>)
        requires
            old(self)@.wf(),
        ensures
            final(self)@.wf(),
            final(self)@ == sp_ret(old(self)@).0,
            r == sp_ret(old(self)@).1,
    {
        let addr = match self.pop() {
            Ok(a) => a,
            Err(e) => {
                return Err(e);
            },
        };
        self.pc = addr;
        assert(self@ =~= sp_ret(old(self)@).0);
        Ok(())
    }

    /// Jump: set the counter to the target.
    fn op_jp(&mut self, addr: DWord)
        requires
            old(self)@.wf(),
        ensures
            final(self)@.wf(),
            final(self)@ == sp_jp(old(self)@, addr),
    {
        self.pc = addr;
        assert(self@ =~= sp_jp(old(self)@, addr));
    }

    /// Call: push the address of the next instruction, then jump.
    fn op_call(&mut self, addr: DWord) -> (r: Result<(), CPUError>)
        requires
            old(self)@.wf(),
            old(self)@.pc <= 0xFFE,
        ensures
            final(self)@.wf(),
            final(self)@ == sp_call(old(self)@, addr).0,
            r == sp_call(old(self)@, addr).1,
    {
        let ret_addr = self.pc + 2;
        match self.push(ret_addr) {
            Ok(_) => {},
            Err(e) => {
                return Err(e);
            },
        }
        self.pc = addr;
        assert(self@ =~= sp_call(old(self)@, addr).0);
        Ok(())
    }

    /// Skip-equal: advance by two instructions when the operands are equal.
    fn op_se(&mut self, reg: Nibble, val: Value) -> (r: Result<(), CPUError>)
        requires
            old(self)@.wf(),
            old(self)@.pc <= 0xFFE,
        ensures
            final(self)@.wf(),
            final(self)@ == sp_se(old(self)@, reg, val).0,
            r == sp_se(old(self)@, reg, val).1,
    {
        let first = match self.get_register(reg) {
            Ok(a) => a,
            Err(e) => {
                return Err(e);
            },
        };
        let second = match self.unwrap_value(val) {
            Ok(b) => b,
            Err(e) => {
                return Err(e);
            },
        };
        self.pc = self.pc + (if first == second { 4 } else { 2 });
        Ok(())
    }

    /// Skip-not-equal: advance by two instructions when they differ.
    fn op_sne(&mut self, reg: Nibble, val: Value) -> (r: Result<(), CPUError>)
        requires
            old(self)@.wf(),
            old(self)@.pc <= 0xFFE,
        ensures
            final(self)@.wf(),
            final(self)@ == sp_sne(old(self)@, reg, val).0,
            r == sp_sne(old(self)@, reg, val).1,
    {
        let first = match self.get_register(reg) {
            Ok(a) => a,
            Err(e) => {
                return Err(e);
            },
        };
        let second = match self.unwrap_value(val) {
            Ok(b) => b,
            Err(e) => {
                return Err(e);
            },
        };
        self.pc = self.pc + (if first == second { 2 } else { 4 });
        Ok(())
    }

    /// Load: copy the operand into the register, advance.
    fn op_ld(&mut self, reg: Nibble, val: Value) -> (r: Result<(), CPUError>)
        requires
            old(self)@.wf(),
            old(self)@.pc <= 0xFFE,
        ensures
            final(self)@.wf(),
            final(self)@ == sp_ld(old(self)@, reg, val).0,
            r == sp_ld(old(self)@, reg, val).1,
    {
        let v = match self.unwrap_value(val) {
            Ok(b) => b,
            Err(e) => {
                return Err(e);
            },
        };
        match self.set_register(reg, v) {
            Ok(_) => {},
            Err(e) => {
                return Err(e);
            },
        }
        self.pc = self.pc + 2;
        assert(self@ =~= sp_ld(old(self)@, reg, val).0);
        Ok(())
    }

    /// Add: 8-bit truncated sum; with a register right operand the flag
    /// register first records the carry out of the untruncated sum.
    fn op_add(&mut self, reg: Nibble, val: Value) -> (r: Result<(), CPUError>)
        requires
            old(self)@.wf(),
            old(self)@.pc <= 0xFFE,
        ensures
            final(self)@.wf(),
            final(self)@ == sp_add(old(self)@, reg, val).0,
            r == sp_add(old(self)@, reg, val).1,
    {
        let dst = match self.get_register(reg) {
            Ok(a) => a,
            Err(e) => {
                return Err(e);
            },
        };
        let add = match self.unwrap_value(val) {
            Ok(b) => b,
            Err(e) => {
                return Err(e);
            },
        };
        let sum: u16 = dst as u16 + add as u16;
        if let Value::Register(_) = val {
            match self.set_register(15, if sum > 255 { 1 } else { 0 }) {
                Ok(_) => {},
                Err(e) => {
                    return Err(e);
                },
            }
        }
        match self.set_register(reg, (sum % 256) as u8) {
            Ok(_) => {},
            Err(e) => {
                return Err(e);
            },
        }
        self.pc = self.pc + 2;
        assert(self@ =~= sp_add(old(self)@, reg, val).0);
        Ok(())
    }

    /// Bitwise or into the left register, advance.
    fn op_or(&mut self, l_reg: Nibble, r_reg: Nibble) -> (r: Result<(), CPUError>)
        requires
            old(self)@.wf(),
            old(self)@.pc <= 0xFFE,
        ensures
            final(self)@.wf(),
            final(self)@ == sp_or(old(self)@, l_reg, r_reg).0,
            r == sp_or(old(self)@, l_reg, r_reg).1,
    {
        let left = match self.get_register(l_reg) {
            Ok(a) => a,
            Err(e) => {
                return Err(e);
            },
        };
        let right = match self.get_register(r_reg) {
            Ok(b) => b,
            Err(e) => {
                return Err(e);
            },
        };
        match self.set_register(l_reg, left | right) {
            Ok(_) => {},
            Err(e) => {
                return Err(e);
            },
        }
        self.pc = self.pc + 2;
        assert(self@ =~= sp_or(old(self)@, l_reg, r_reg).0);
        Ok(())
    }

    /// Bitwise and into the left register, advance.
    fn op_and(&mut self, l_reg: Nibble, r_reg: Nibble) -> (r: Result<(), CPUError>)
        requires
            old(self)@.wf(),
            old(self)@.pc <= 0xFFE,
        ensures
            final(self)@.wf(),
            final(self)@ == sp_and(old(self)@, l_reg, r_reg).0,
            r == sp_and(old(self)@, l_reg, r_reg).1,
    {
        let left = match self.get_register(l_reg) {
            Ok(a) => a,
            Err(e) => {
                return Err(e);
            },
        };
        let right = match self.get_register(r_reg) {
            Ok(b) => b,
            Err(e) => {
                return Err(e);
            },
        };
        match self.set_register(l_reg, left & right) {
            Ok(_) => {},
            Err(e) => {
                return Err(e);
            },
        }
        self.pc = self.pc + 2;
        assert(self@ =~= sp_and(old(self)@, l_reg, r_reg).0);
        Ok(())
    }

    /// Bitwise exclusive or into the left register, advance.
    fn op_xor(&mut self, l_reg: Nibble, r_reg: Nibble) -> (r: Result<(), CPUError>)
        requires
            old(self)@.wf(),
            old(self)@.pc <= 0xFFE,
        ensures
            final(self)@.wf(),
            final(self)@ == sp_xor(old(self)@, l_reg, r_reg).0,
            r == sp_xor(old(self)@, l_reg, r_reg).1,
    {
        let left = match self.get_register(l_reg) {
            Ok(a) => a,
            Err(e) => {
                return Err(e);
            },
        };
        let right = match self.get_register(r_reg) {
            Ok(b) => b,
            Err(e) => {
                return Err(e);
            },
        };
        match self.set_register(l_reg, left ^ right) {
            Ok(_) => {},
            Err(e) => {
                return Err(e);
            },
        }
        self.pc = self.pc + 2;
        assert(self@ =~= sp_xor(old(self)@, l_reg, r_reg).0);
        Ok(())
    }

    /// Subtract: the flag register takes borrow-not first, then the left
    /// register the wrapped difference; advance.
    fn op_sub(&mut self, l_reg: Nibble, r_reg: Nibble) -> (r: Result<(), CPUError>)
        requires
            old(self)@.wf(),
            old(self)@.pc <= 0xFFE,
        ensures
            final(self)@.wf(),
            final(self)@ == sp_sub(old(self)@, l_reg, r_reg).0,
            r == sp_sub(old(self)@, l_reg, r_reg).1,
    {
        let left = match self.get_register(l_reg) {
            Ok(a) => a,
            Err(e) => {
                return Err(e);
            },
        };
        let right = match self.get_register(r_reg) {
            Ok(b) => b,
            Err(e) => {
                return Err(e);
            },
        };
        match self.set_register(15, if left > right { 1 } else { 0 }) {
            Ok(_) => {},
            Err(e) => {
                return Err(e);
            },
        }
        match self.set_register(l_reg, left.wrapping_sub(right)) {
            Ok(_) => {},
            Err(e) => {
                return Err(e);
            },
        }
        self.pc = self.pc + 2;
        assert(self@ =~= sp_sub(old(self)@, l_reg, r_reg).0);
        Ok(())
    }

    /// Shift-right by one: the flag register takes the bit shifted out.
    fn op_shr(&mut self, reg: Nibble) -> (r: Result<(), CPUError>)
        requires
            old(self)@.wf(),
            old(self)@.pc <= 0xFFE,
        ensures
            final(self)@.wf(),
            final(self)@ == sp_shr(old(self)@, reg).0,
            r == sp_shr(old(self)@, reg).1,
    {
        let reg_val = match self.get_register(reg) {
            Ok(a) => a,
            Err(e) => {
                return Err(e);
            },
        };
        match self.set_register(15, if reg_val & 1 == 1 { 1 } else { 0 }) {
            Ok(_) => {},
            Err(e) => {
                return Err(e);
            },
        }
        match self.set_register(reg, reg_val >> 1) {
            Ok(_) => {},
            Err(e) => {
                return Err(e);
            },
        }
        self.pc = self.pc + 2;
        assert(self@ =~= sp_shr(old(self)@, reg).0);
        Ok(())
    }

    /// Subtract-inverse: right minus left into the left register, the flag
    /// register taking borrow-not first; advance.
    fn op_subn(&mut self, l_reg: Nibble, r_reg: Nibble) -> (r: Result<(), CPUError>)
        requires
            old(self)@.wf(),
            old(self)@.pc <= 0xFFE,
        ensures
            final(self)@.wf(),
            final(self)@ == sp_subn(old(self)@, l_reg, r_reg).0,
            r == sp_subn(old(self)@, l_reg, r_reg).1,
    {
        let left = match self.get_register(l_reg) {
            Ok(a) => a,
            Err(e) => {
                return Err(e);
            },
        };
        let right = match self.get_register(r_reg) {
            Ok(b) => b,
            Err(e) => {
                return Err(e);
            },
        };
        match self.set_register(15, if right > left { 1 } else { 0 }) {
            Ok(_) => {},
            Err(e) => {
                return Err(e);
            },
        }
        match self.set_register(l_reg, right.wrapping_sub(left)) {
            Ok(_) => {},
            Err(e) => {
                return Err(e);
            },
        }
        self.pc = self.pc + 2;
        assert(self@ =~= sp_subn(old(self)@, l_reg, r_reg).0);
        Ok(())
    }

    /// Shift-left by one: the flag register takes the bit shifted out.
    fn op_shl(&mut self, reg: Nibble) -> (r: Result<(), CPUError>)
        requires
            old(self)@.wf(),
            old(self)@.pc <= 0xFFE,
        ensures
            final(self)@.wf(),
            final(self)@ == sp_shl(old(self)@, reg).0,
            r == sp_shl(old(self)@, reg).1,
    {
        let reg_val = match self.get_register(reg) {
            Ok(a) => a,
            Err(e) => {
                return Err(e);
            },
        };
        match self.set_register(15, if reg_val & 0x80 == 0x80 { 1 } else { 0 }) {
            Ok(_) => {},
            Err(e) => {
                return Err(e);
            },
        }
        match self.set_register(reg, reg_val << 1u8) {
            Ok(_) => {},
            Err(e) => {
                return Err(e);
            },
        }
        self.pc = self.pc + 2;
        assert(self@ =~= sp_shl(old(self)@, reg).0);
        Ok(())
    }

    /// Set the index register, advance.
    fn op_ldi(&mut self, addr: DWord)
        requires
            old(self)@.wf(),
            old(self)@.pc <= 0xFFE,
        ensures
            final(self)@.wf(),
            final(self)@ == sp_ldi(old(self)@, addr),
    {
        self.i_register = addr;
        self.pc = self.pc + 2;
        assert(self@ =~= sp_ldi(old(self)@, addr));
    }

    /// Jump with offset: register zero plus the target.
    fn op_jpo(&mut self, addr: DWord)
        requires
            old(self)@.wf(),
            addr <= 0xFFF,
        ensures
            final(self)@.wf(),
            final(self)@ == sp_jpo(old(self)@, addr),
    {
        self.pc = self.v_registers[0] as u16 + addr;
        assert(self@ =~= sp_jpo(old(self)@, addr));
    }

    /// Add a register into the index register, wrapping; advance.
    fn op_addi(&mut self, reg: Nibble) -> (r: Result<(), CPUError>)
        requires
            old(self)@.wf(),
            old(self)@.pc <= 0xFFE,
        ensures
            final(self)@.wf(),
            final(self)@ == sp_addi(old(self)@, reg).0,
            r == sp_addi(old(self)@, reg).1,
    {
        let reg_val = match self.get_register(reg) {
            Ok(a) => a,
            Err(e) => {
                return Err(e);
            },
        };
        self.i_register = self.i_register.wrapping_add(reg_val as u16);
        self.pc = self.pc + 2;
        assert(self@ =~= sp_addi(old(self)@, reg).0);
        Ok(())
    }
    /// Random: a fresh byte from the generator, masked, into the register.
    fn op_rnd(&mut self, reg: Nibble, mask: u8) -> (r: Result<(), CPUError>)
        requires
            old(self)@.wf(),
            old(self)@.pc <= 0xFFE,
        ensures
            final(self)@.wf(),
            exists|b: u8|
                final(self)@ == sp_rnd(old(self)@, reg, mask, b).0 && r == sp_rnd(
                    old(self)@,
                    reg,
                    mask,
                    b,
                ).1,
    {
        let byte = random_byte();
        match self.set_register(reg, byte & mask) {
            Ok(_) => {},
            Err(e) => {
                assert(final(self)@ == sp_rnd(old(self)@, reg, mask, byte).0 && Err::<
                    (),
                    CPUError,
                >(e) == sp_rnd(old(self)@, reg, mask, byte).1);
                return Err(e);
            },
        }
        self.pc = self.pc + 2;
        assert(self@ =~= sp_rnd(old(self)@, reg, mask, byte).0);
        Ok(())
    }

    /// Binary-coded-decimal store of a register at the index register and
    /// the two bytes after it; a refused write keeps the writes made.
    fn op_ldb(&mut self, reg: Nibble) -> (r: Result<(), CPUError>)
        requires
            old(self)@.wf(),
            old(self)@.pc <= 0xFFE,
        ensures
            final(self)@.wf(),
            final(self)@ == sp_ldb(old(self)@, reg).0,
            r == sp_ldb(old(self)@, reg).1,
    {
        let reg_val = match self.get_register(reg) {
            Ok(a) => a,
            Err(e) => {
                return Err(e);
            },
        };
        let addr = self.i_register as usize;
        match self.write_word(addr, reg_val / 100) {
            Ok(_) => {},
            Err(e) => {
                return Err(e);
            },
        }
        match self.write_word(addr + 1, reg_val % 100 / 10) {
            Ok(_) => {},
            Err(e) => {
                return Err(e);
            },
        }
        match self.write_word(addr + 2, reg_val % 10) {
            Ok(_) => {},
            Err(e) => {
                return Err(e);
            },
        }
        self.pc = self.pc + 2;
        assert(self@ =~= sp_ldb(old(self)@, reg).0);
        Ok(())
    }

    /// Bulk store: registers zero through `reg` inclusive, copied to
    /// memory at the index register; a refused write keeps the writes made.
    fn op_ldsblk(&mut self, reg: Nibble) -> (r: Result<(), CPUError>)
        requires
            old(self)@.wf(),
            old(self)@.pc <= 0xFFE,
            reg < 16,
        ensures
            final(self)@.wf(),
            final(self)@ == sp_ldsblk(old(self)@, reg).0,
            r == sp_ldsblk(old(self)@, reg).1,
    {
        let addr = self.i_register as usize;
        let last = reg as usize;
        let mut k: usize = 0;
        while k <= last
            invariant
                old(self)@.wf(),
                self@.wf(),
                k <= last + 1,
                last == reg as int,
                reg < 16,
                addr == old(self)@.i,
                self@.v == old(self)@.v,
                self@.stack == old(self)@.stack,
                self@.i == old(self)@.i,
                self@.pc == old(self)@.pc,
                self@.sp == old(self)@.sp,
                self@.running == old(self)@.running,
                sp_store_block(old(self)@.mem, old(self)@.v, addr as int, 0, last as int)
                    == sp_store_block(self@.mem, old(self)@.v, addr as int, k as int, last as int),
            decreases last + 1 - k,
        {
            let reg_val = match self.get_register(k as u8) {
                Ok(a) => a,
                Err(e) => {
                    return Err(e);
                },
            };
            match self.write_word(addr + k, reg_val) {
                Ok(_) => {},
                Err(e) => {
                    assert(self@ =~= sp_ldsblk(old(self)@, reg).0);
                    return Err(e);
                },
            }
            k = k + 1;
        }
        self.pc = self.pc + 2;
        assert(self@ =~= sp_ldsblk(old(self)@, reg).0);
        Ok(())
    }

    /// Bulk load: registers zero through `reg` inclusive, filled from
    /// memory at the index register; a refused read keeps the loads made.
    fn op_ldblk(&mut self, reg: Nibble) -> (r: Result<(), CPUError>)
        requires
            old(self)@.wf(),
            old(self)@.pc <= 0xFFE,
            reg < 16,
        ensures
            final(self)@.wf(),
            final(self)@ == sp_ldblk(old(self)@, reg).0,
            r == sp_ldblk(old(self)@, reg).1,
    {
        let addr = self.i_register as usize;
        let last = reg as usize;
        let mut k: usize = 0;
        while k <= last
            invariant
                old(self)@.wf(),
                self@.wf(),
                k <= last + 1,
                last == reg as int,
                reg < 16,
                addr == old(self)@.i,
                self@.mem == old(self)@.mem,
                self@.stack == old(self)@.stack,
                self@.i == old(self)@.i,
                self@.pc == old(self)@.pc,
                self@.sp == old(self)@.sp,
                self@.running == old(self)@.running,
                sp_load_block(old(self)@.mem, old(self)@.v, addr as int, 0, last as int)
                    == sp_load_block(old(self)@.mem, self@.v, addr as int, k as int, last as int),
            decreases last + 1 - k,
        {
            let mem_val = match self.read_word(addr + k) {
                Ok(b) => b,
                Err(e) => {
                    assert(self@ =~= sp_ldblk(old(self)@, reg).0);
                    return Err(e);
                },
            };
            match self.set_register(k as u8, mem_val) {
                Ok(_) => {},
                Err(e) => {
                    return Err(e);
                },
            }
            k = k + 1;
        }
        self.pc = self.pc + 2;
        assert(self@ =~= sp_ldblk(old(self)@, reg).0);
        Ok(())
    }

    /// XORs one sprite pixel into the display, wrapping both coordinates
    /// around the grid; yields whether a lit pixel was hit.
    fn set_pixel(&mut self, x: usize, y: usize, pixel: bool, video_com: &mut VideoCommunicator) -> (coll:
        bool)
        requires
            old(video_com)@.width > 0,
            old(video_com)@.height > 0,
            old(video_com)@.display.len() == old(video_com)@.width * old(video_com)@.height,
        ensures
            final(self)@ == old(self)@,
            ({
                let idx = crate::semantics::pix_idx(
                    old(video_com)@.width as int,
                    old(video_com)@.height as int,
                    x as int,
                    y as int,
                    0,
                    0,
                );
                &&& final(video_com)@.display == old(video_com)@.display.update(
                    idx,
                    old(video_com)@.display[idx] ^ pixel,
                )
                &&& coll == (old(video_com)@.display[idx] && pixel)
            }),
            final(video_com)@.width == old(video_com)@.width,
            final(video_com)@.height == old(video_com)@.height,
            final(video_com)@.signal == old(video_com)@.signal,
    {
        // Wrap the pixels around the screen
        let x = x % video_com.width;
        let y = y % video_com.height;

        let len = video_com.display.len();
        proof {
            assert((video_com.width as int) * (y as int) + (x as int) < (len as int)) by (nonlinear_arith)
                requires
                    video_com.width > 0,
                    video_com.height > 0,
                    x < video_com.width,
                    y < video_com.height,
                    len == (video_com.width as int) * (video_com.height as int),
            ;
        }
        let idx = video_com.width * y + x;
        let cur = video_com.display[idx];
        let collision = cur && pixel;
        video_com.display[idx] = cur ^ pixel;
        collision
    }

    /// Draw: `size` sprite rows read from the index register, XOR-blitted
    /// at the coordinates in the two registers; the flag register records
    /// whether any lit pixel was hit, a `Refresh` signal is raised and the
    /// counter advances. A refused read keeps the rows already drawn and
    /// raises nothing.
    fn op_drw(&mut self, x_reg: Nibble, y_reg: Nibble, size: Nibble, com: &mut Communicator) -> (r:
        Result<(), CPUError>)
        requires
            old(self)@.wf(),
            old(com)@.wf(),
            old(self)@.pc <= 0xFFE,
            x_reg < 16,
            y_reg < 16,
        ensures
            final(self)@.wf(),
            final(com)@.wf(),
            final(self)@ == sp_drw(old(self)@, old(com)@, x_reg, y_reg, size).0,
            final(com)@ == sp_drw(old(self)@, old(com)@, x_reg, y_reg, size).1,
            r == sp_drw(old(self)@, old(com)@, x_reg, y_reg, size).2,
    {
        let x = match self.get_register(x_reg) {
            Ok(a) => a,
            Err(_) => {
                return unreached();
            },
        } as usize;
        let y = match self.get_register(y_reg) {
            Ok(a) => a,
            Err(_) => {
                return unreached();
            },
        } as usize;
        let size_us = size as usize;
        let mut collision = false;
        let mut line: usize = 0;
        while line < size_us
            invariant
                old(self)@.wf(),
                self@ == old(self)@,
                line <= size_us,
                size_us == size as int,
                x == old(self)@.v[x_reg as int],
                y == old(self)@.v[y_reg as int],
                com@.video.width == old(com)@.video.width,
                com@.video.height == old(com)@.video.height,
                com@.video.signal == old(com)@.video.signal,
                com@.video.display.len() == old(com)@.video.display.len(),
                old(com)@.wf(),
                sp_blit_rows(
                    old(com)@.video.display,
                    old(com)@.video.width as int,
                    old(com)@.video.height as int,
                    x as int,
                    y as int,
                    old(self)@.mem,
                    old(self)@.i as int,
                    0,
                    size as int,
                    false,
                ) == sp_blit_rows(
                    com@.video.display,
                    old(com)@.video.width as int,
                    old(com)@.video.height as int,
                    x as int,
                    y as int,
                    old(self)@.mem,
                    old(self)@.i as int,
                    line as int,
                    size as int,
                    collision,
                ),
            decreases size_us - line,
        {
            let i_register = self.i_register as usize;
            let pixels = match self.read_word(i_register + line) {
                Ok(p) => p,
                Err(e) => {
                    assert(com@ =~= sp_drw(old(self)@, old(com)@, x_reg, y_reg, size).1);
                    return Err(e);
                },
            };
            let ghost d_row = com@.video.display;
            let ghost coll_row = collision;
            let mut column: usize = 0;
            while column < 8
                invariant
                    column <= 8,
                    old(com)@.wf(),
                    com@.video.width == old(com)@.video.width,
                    com@.video.height == old(com)@.video.height,
                    com@.video.signal == old(com)@.video.signal,
                    com@.video.display.len() == old(com)@.video.display.len(),
                    self@ == old(self)@,
                    old(self)@.wf(),
                    x == old(self)@.v[x_reg as int],
                    y == old(self)@.v[y_reg as int],
                    line < size_us,
                    size_us == size as int,
                    sp_blit_cells(
                        d_row,
                        old(com)@.video.width as int,
                        old(com)@.video.height as int,
                        x as int,
                        y as int,
                        pixels,
                        line as int,
                        0,
                        coll_row,
                    ) == sp_blit_cells(
                        com@.video.display,
                        old(com)@.video.width as int,
                        old(com)@.video.height as int,
                        x as int,
                        y as int,
                        pixels,
                        line as int,
                        column as int,
                        collision,
                    ),
                decreases 8 - column,
            {
                let col_u8 = column as u8;
                let pixel = (pixels & (0x80u8 >> col_u8)) != 0;
                let c = self.set_pixel(x + column, y + line, pixel, &mut com.video);
                collision = c || collision;
                column = column + 1;
            }
            line = line + 1;
        }
        com.video.signal = crate::video::VideoSignal::Refresh;
        match self.set_register(15, if collision { 1 } else { 0 }) {
            Ok(_) => {},
            Err(_) => {
                return unreached();
            },
        }
        self.pc = self.pc + 2;
        assert(self@ =~= sp_drw(old(self)@, old(com)@, x_reg, y_reg, size).0);
        assert(com@ =~= sp_drw(old(self)@, old(com)@, x_reg, y_reg, size).1);
        Ok(())
    }

    /// Dispatches one decoded, supported instruction.
    fn execute(&mut self, inst: Instruction, com: &mut Communicator) -> (r: Result<(), CPUError>)
        requires
            old(self)@.wf(),
            old(com)@.wf(),
            inst.wf(),
            inst.supported(),
            old(self)@.pc <= 0xFFE,
        ensures
            final(self)@.wf(),
            final(com)@.wf(),
            exists|b: u8|
                (final(self)@, final(com)@, r) == spec_execute(old(self)@, old(com)@, inst, b),
    {
        let r = match inst {
            Instruction::SYS(addr) => {
                self.op_sys(addr);
                Ok(())
            },
            Instruction::CLS => {
                self.op_cls(com);
                Ok(())
            },
            Instruction::RET => self.op_ret(),
            Instruction::JP(addr) => {
                self.op_jp(addr);
                Ok(())
            },
            Instruction::CALL(addr) => self.op_call(addr),
            Instruction::SE(reg, val) => self.op_se(reg, val),
            Instruction::SNE(reg, val) => self.op_sne(reg, val),
            Instruction::LD(reg, val) => self.op_ld(reg, val),
            Instruction::ADD(reg, val) => self.op_add(reg, val),
            Instruction::OR(l_reg, r_reg) => self.op_or(l_reg, r_reg),
            Instruction::AND(l_reg, r_reg) => self.op_and(l_reg, r_reg),
            Instruction::XOR(l_reg, r_reg) => self.op_xor(l_reg, r_reg),
            Instruction::SUB(l_reg, r_reg) => self.op_sub(l_reg, r_reg),
            Instruction::SHR(reg, _) => self.op_shr(reg),
            Instruction::SUBN(l_reg, r_reg) => self.op_subn(l_reg, r_reg),
            Instruction::SHL(reg, _) => self.op_shl(reg),
            Instruction::LDI(addr) => {
                self.op_ldi(addr);
                Ok(())
            },
            Instruction::JPO(addr) => {
                self.op_jpo(addr);
                Ok(())
            },
            Instruction::RND(reg, mask) => {
                let r = self.op_rnd(reg, mask);
                proof {
                    let b = choose|b: u8|
                        self@ == sp_rnd(old(self)@, reg, mask, b).0 && r == sp_rnd(
                            old(self)@,
                            reg,
                            mask,
                            b,
                        ).1;
                    assert((self@, com@, r) == spec_execute(old(self)@, old(com)@, inst, b));
                }
                return r;
            },
            Instruction::DRW(x_reg, y_reg, size) => self.op_drw(x_reg, y_reg, size, com),
            Instruction::ADDI(reg) => self.op_addi(reg),
            Instruction::LDB(reg) => self.op_ldb(reg),
            Instruction::LDSBLK(reg) => self.op_ldsblk(reg),
            Instruction::LDBLK(reg) => self.op_ldblk(reg),
            _ => unreached(),
        };
        assert((self@, com@, r) == spec_execute(old(self)@, old(com)@, inst, 0u8));
        r
    }

    /// One whole machine step: fetch the word under the program counter,
    /// decode it, execute it. The first failure is returned as is, fatal
    /// to the run; the state keeps the partial effects of a failed
    /// instruction.
    pub fn step(&mut self, com: &mut Communicator) -> (r: Result<(), CPUError>)
        requires
            old(self)@.wf(),
            old(com)@.wf(),
            step_enabled(old(self)@),
        ensures
            final(self)@.wf(),
            final(com)@.wf(),
            exists|b: u8|
                (final(self)@, final(com)@, r) == spec_step(old(self)@, old(com)@, b),
    {
        let addr = self.pc as usize;
        let inst_dword = match self.read_dword(addr) {
            Ok(w) => w,
            Err(e) => {
                assert((self@, com@, Err::<(), CPUError>(e)) == spec_step(
                    old(self)@,
                    old(com)@,
                    0u8,
                ));
                return Err(e);
            },
        };
        let inst = match Instruction::from_binary(inst_dword) {
            Ok(inst) => inst,
            Err(e) => {
                assert((self@, com@, Err::<(), CPUError>(e)) == spec_step(
                    old(self)@,
                    old(com)@,
                    0u8,
                ));
                return Err(e);
            },
        };
        assert(crate::memory::addr_open(old(self)@.pc + 1));
        let r = self.execute(inst, com);
        proof {
            let b = choose|b: u8|
                (self@, com@, r) == spec_execute(old(self)@, old(com)@, inst, b);
            assert((self@, com@, r) == spec_step(old(self)@, old(com)@, b));
        }
        r
    }

    /// Whether the instruction under the program counter, should it fetch
    /// and decode at all, is one the executor implements. A driving loop
    /// tests this before each `step`; a decoded but unimplemented
    /// instruction is outside what this machine runs.
    pub fn next_step_supported(&self) -> (b: bool)
        requires
            self@.wf(),
        ensures
            b == step_enabled(self@),
    {
        match self.read_dword(self.pc as usize) {
            Err(_) => true,
            Ok(w) => match Instruction::from_binary(w) {
                Err(_) => true,
                Ok(inst) => inst.is_supported(),
            },
        }
    }
}

/// One uniformly distributed random byte.
///
/// Relies on `rand::random`: it returns a sample of the standard
/// distribution for `u8`, which may be any byte; nothing is promised of
/// the value.
#[verifier::external_body]
fn random_byte() -> u8 {
    rand::random::<u8>()
}

/// Turns every pixel of a display buffer off.
fn clear_pixels(display: &mut Vec<bool>)
    ensures
        final(display)@ == Seq::new(old(display)@.len(), |p: int| false),
{
    let n = display.len();
    let mut k: usize = 0;
    while k < n
        invariant
            k <= n,
            display@.len() == n,
            n == old(display)@.len(),
            forall|p: int| 0 <= p < k ==> !display@[p],
        decreases n - k,
    {
        display[k] = false;
        k = k + 1;
    }
    assert(display@ =~= Seq::new(old(display)@.len(), |p: int| false));
}

} // verus!
