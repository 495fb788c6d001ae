//! The execution engine: machine state, operand resolution, and the
//! fetch-decode-execute cycle for all 22 instructions.
//!
//! Words are 16-bit; only values in `[0, 32768)` are literals.  Values in
//! `[32768, 32776)` name one of the eight registers, and anything at or above
//! `32776` is invalid in every operand position.  Every fatal condition is
//! surfaced as a distinct [`VmError`]; a failing cycle leaves the machine
//! exactly as it was.

use vstd::prelude::*;

verus! {

/// Number of memory cells; also the arithmetic modulus and the first
/// register alias.
pub const MEM_SIZE: usize = 32768;

/// Number of registers.
pub const REG_SIZE: usize = 8;

/// One past the largest literal word; `MAX_VAL + i` names register `i`.
pub const MAX_VAL: u16 = 32768;

/// Every run-terminating condition, each one distinct.
#[derive(Clone, Copy, Debug, PartialEq, Eq, Structural)]
pub enum VmError {
    /// The word at the program counter is not in `[0, 22)`.
    InvalidOpcode,
    /// A source operand is at or above `32776`.
    InvalidRegister,
    /// A destination operand does not name a register.
    InvalidDestination,
    /// `pop` found the stack empty.
    StackUnderflow,
    /// The divisor of `mod` resolved to zero.
    DivideByZero,
    /// A memory address (from `rmem`/`wmem` or the program counter itself)
    /// is outside `[0, 32768)`.
    AddressOutOfRange,
    /// `out` was asked to emit a surrogate code point.
    InvalidScalar,
}

/// What one successful cycle asks of the driving loop.
#[derive(Clone, Copy, Debug, PartialEq, Eq, Structural)]
pub enum Step {
    /// The instruction is done; keep running.
    Continue,
    /// `out`: emit the character with this code point (never a surrogate).
    Output(u16),
    /// `in` found its buffer exhausted: feed [`Cpu::provide_input`] a fresh
    /// line and run the cycle again.  The machine did not move.
    NeedInput,
    /// `halt`, or `ret` on an empty stack: the halt flag is now clear.
    Halted,
}

/// The mathematical model of the whole machine.
#[verifier::ext_equal]
pub ghost struct State {
    pub mem: Seq<u16>,
    pub regs: Seq<u16>,
    pub stack: Seq<u16>,
    pub pc: nat,
    pub enabled: bool,
    pub input: Seq<u8>,
    pub input_pos: nat,
}

impl State {
    /// Well-formedness: the fixed sizes of memory and register file, and the
    /// input cursor inside its buffer.
    pub open spec fn wf(self) -> bool {
        &&& self.mem.len() == MEM_SIZE
        &&& self.regs.len() == REG_SIZE
        &&& self.input_pos <= self.input.len()
    }
}

/// Source-operand resolution: a literal is itself, a register alias is that
/// register's contents, and anything at or above `32776` is invalid.
pub open spec fn resolve_spec(regs: Seq<u16>, w: u16) -> Result<u16, VmError> {
    if w < MAX_VAL {
        Ok(w)
    } else if w < MAX_VAL + 8 {
        Ok(regs[w - MAX_VAL])
    } else {
        Err(VmError::InvalidRegister)
    }
}

/// Destination-operand resolution: only a register alias is accepted, and it
/// names register `w - 32768`; a literal is never a valid destination.
pub open spec fn target_spec(w: u16) -> Result<usize, VmError> {
    if MAX_VAL <= w < MAX_VAL + 8 {
        Ok((w - MAX_VAL) as usize)
    } else {
        Err(VmError::InvalidDestination)
    }
}

/// The fixed operand count of each opcode in `[0, 22)`.
pub open spec fn op_arity(op: u16) -> nat {
    if op == 0 {
        0
    } else if op == 1 {
        2
    } else if op == 2 {
        1
    } else if op == 3 {
        1
    } else if op == 4 {
        3
    } else if op == 5 {
        3
    } else if op == 6 {
        1
    } else if op == 7 {
        2
    } else if op == 8 {
        2
    } else if 9 <= op <= 13 {
        3
    } else if op == 14 {
        2
    } else if op == 15 {
        2
    } else if op == 16 {
        2
    } else if op == 17 {
        1
    } else if op == 18 {
        0
    } else if op == 19 {
        1
    } else if op == 20 {
        1
    } else {
        0
    }
}

/// Whether an opcode writes a register through the common binary-operation
/// path: `eq`, `gt`, `add`, `mult`, `mod`, `and` or `or`.
pub open spec fn is_bin_op(op: u16) -> bool {
    op == 4 || op == 5 || (9 <= op <= 13)
}

/// The value a binary operation stores, reduced modulo 32768.
pub open spec fn bin_result(op: u16, a: u16, b: u16) -> u16
    recommends
        is_bin_op(op),
        op == 11 ==> b != 0,
{
    let x: int = if op == 4 {
        if a == b {
            1
        } else {
            0
        }
    } else if op == 5 {
        if a > b {
            1
        } else {
            0
        }
    } else if op == 9 {
        (a + b) as int
    } else if op == 10 {
        (a * b) as int
    } else if op == 11 {
        (a % b) as int
    } else if op == 12 {
        (a & b) as int
    } else if op == 13 {
        (a | b) as int
    } else {
        0
    };
    (x % (MAX_VAL as int)) as u16
}

/// `set`: the destination register takes the resolved source value.
pub open spec fn spec_set(s: State, pc2: nat, dst: u16, src: u16) -> Result<(State, Step), VmError> {
    match target_spec(dst) {
        Err(e) => Err(e),
        Ok(t) => match resolve_spec(s.regs, src) {
            Err(e) => Err(e),
            Ok(v) => Ok((State { regs: s.regs.update(t as int, v), pc: pc2, ..s }, Step::Continue)),
        },
    }
}

/// `push`: the resolved source value goes on top of the stack.
pub open spec fn spec_push(s: State, pc2: nat, src: u16) -> Result<(State, Step), VmError> {
    match resolve_spec(s.regs, src) {
        Err(e) => Err(e),
        Ok(v) => Ok((State { stack: s.stack.push(v), pc: pc2, ..s }, Step::Continue)),
    }
}

/// `pop`: the destination register takes the top of the stack; an empty
/// stack is a stack-underflow error.
pub open spec fn spec_pop(s: State, pc2: nat, dst: u16) -> Result<(State, Step), VmError> {
    match target_spec(dst) {
        Err(e) => Err(e),
        Ok(t) => if s.stack.len() == 0 {
            Err(VmError::StackUnderflow)
        } else {
            Ok(
                (
                    State {
                        regs: s.regs.update(t as int, s.stack.last()),
                        stack: s.stack.drop_last(),
                        pc: pc2,
                        ..s
                    },
                    Step::Continue,
                ),
            )
        },
    }
}

/// The common path of `eq`, `gt`, `add`, `mult`, `mod`, `and`, `or`: the
/// destination register takes [`bin_result`] of the two resolved operands,
/// with a zero divisor of `mod` a divide-by-zero error.
pub open spec fn spec_binop(s: State, pc2: nat, op: u16, dst: u16, x: u16, y: u16) -> Result<
    (State, Step),
    VmError,
> {
    match target_spec(dst) {
        Err(e) => Err(e),
        Ok(t) => match resolve_spec(s.regs, x) {
            Err(e) => Err(e),
            Ok(a) => match resolve_spec(s.regs, y) {
                Err(e) => Err(e),
                Ok(b) => if op == 11 && b == 0 {
                    Err(VmError::DivideByZero)
                } else {
                    Ok(
                        (
                            State { regs: s.regs.update(t as int, bin_result(op, a, b)), pc: pc2, ..s },
                            Step::Continue,
                        ),
                    )
                },
            },
        },
    }
}

/// `jmp` (and the tail of `call`/`ret`): the target operand is resolved
/// twice — once as the raw operand and once more on the resolved value —
/// and the program counter takes the result.  `jt`/`jf` resolve once; the
/// asymmetry is kept as the machine defines it.
pub open spec fn spec_jmp(s: State, addr: u16) -> Result<(State, Step), VmError> {
    match resolve_spec(s.regs, addr) {
        Err(e) => Err(e),
        Ok(x) => match resolve_spec(s.regs, x) {
            Err(e) => Err(e),
            Ok(y) => Ok((State { pc: y as nat, ..s }, Step::Continue)),
        },
    }
}

/// `jt`: jump (single resolution) when the condition resolves nonzero.
pub open spec fn spec_jt(s: State, pc2: nat, cond: u16, addr: u16) -> Result<(State, Step), VmError> {
    match resolve_spec(s.regs, cond) {
        Err(e) => Err(e),
        Ok(c) => match resolve_spec(s.regs, addr) {
            Err(e) => Err(e),
            Ok(t) => Ok(
                (
                    State {
                        pc: if c != 0 {
                            t as nat
                        } else {
                            pc2
                        },
                        ..s
                    },
                    Step::Continue,
                ),
            ),
        },
    }
}

/// `jf`: jump (single resolution) when the condition resolves to zero.
pub open spec fn spec_jf(s: State, pc2: nat, cond: u16, addr: u16) -> Result<(State, Step), VmError> {
    match resolve_spec(s.regs, cond) {
        Err(e) => Err(e),
        Ok(c) => match resolve_spec(s.regs, addr) {
            Err(e) => Err(e),
            Ok(t) => Ok(
                (
                    State {
                        pc: if c == 0 {
                            t as nat
                        } else {
                            pc2
                        },
                        ..s
                    },
                    Step::Continue,
                ),
            ),
        },
    }
}

/// `not`: the destination register takes the complement of the resolved
/// operand, masked to 15 bits.
pub open spec fn spec_not(s: State, pc2: nat, dst: u16, src: u16) -> Result<(State, Step), VmError> {
    match target_spec(dst) {
        Err(e) => Err(e),
        Ok(t) => match resolve_spec(s.regs, src) {
            Err(e) => Err(e),
            Ok(a) => Ok(
                (State { regs: s.regs.update(t as int, !a & 0x7fff), pc: pc2, ..s }, Step::Continue),
            ),
        },
    }
}

/// `rmem`: the destination register takes the memory word at the resolved
/// address; an address at or above 32768 is out of range.
pub open spec fn spec_rmem(s: State, pc2: nat, dst: u16, addr: u16) -> Result<(State, Step), VmError> {
    match target_spec(dst) {
        Err(e) => Err(e),
        Ok(t) => match resolve_spec(s.regs, addr) {
            Err(e) => Err(e),
            Ok(a) => if a >= MAX_VAL {
                Err(VmError::AddressOutOfRange)
            } else {
                Ok(
                    (
                        State { regs: s.regs.update(t as int, s.mem[a as int]), pc: pc2, ..s },
                        Step::Continue,
                    ),
                )
            },
        },
    }
}

/// `wmem`: the memory cell at the resolved address takes the resolved
/// value; an address at or above 32768 is out of range.
pub open spec fn spec_wmem(s: State, pc2: nat, addr: u16, val: u16) -> Result<(State, Step), VmError> {
    match resolve_spec(s.regs, addr) {
        Err(e) => Err(e),
        Ok(a) => match resolve_spec(s.regs, val) {
            Err(e) => Err(e),
            Ok(v) => if a >= MAX_VAL {
                Err(VmError::AddressOutOfRange)
            } else {
                Ok((State { mem: s.mem.update(a as int, v), pc: pc2, ..s }, Step::Continue))
            },
        },
    }
}

/// `call`: the address of the next instruction is pushed, then `jmp`
/// semantics (double resolution) on the operand.
pub open spec fn spec_call(s: State, pc2: nat, addr: u16) -> Result<(State, Step), VmError> {
    match spec_jmp(s, addr) {
        Err(e) => Err(e),
        Ok(p) => Ok((State { stack: s.stack.push(pc2 as u16), ..p.0 }, Step::Continue)),
    }
}

/// `ret`: on an empty stack the machine halts cleanly, exactly like `halt`;
/// otherwise the top of the stack is popped and `jmp` semantics run on it.
pub open spec fn spec_ret(s: State, pc2: nat) -> Result<(State, Step), VmError> {
    if s.stack.len() == 0 {
        Ok((State { pc: pc2, enabled: false, ..s }, Step::Halted))
    } else {
        spec_jmp(State { stack: s.stack.drop_last(), ..s }, s.stack.last())
    }
}

/// `out`: the resolved value is emitted as a Unicode code point; a
/// surrogate (the only 16-bit values that are no scalar) is an
/// invalid-scalar error.
pub open spec fn spec_out(s: State, pc2: nat, src: u16) -> Result<(State, Step), VmError> {
    match resolve_spec(s.regs, src) {
        Err(e) => Err(e),
        Ok(v) => if 0xD800 <= v < 0xE000 {
            Err(VmError::InvalidScalar)
        } else {
            Ok((State { pc: pc2, ..s }, Step::Output(v)))
        },
    }
}

/// `in`: the destination register takes the next buffered input byte; an
/// exhausted buffer asks the driving loop for a fresh line and moves
/// nothing.
pub open spec fn spec_in(s: State, pc2: nat, dst: u16) -> Result<(State, Step), VmError> {
    match target_spec(dst) {
        Err(e) => Err(e),
        Ok(t) => if s.input_pos < s.input.len() {
            Ok(
                (
                    State {
                        regs: s.regs.update(t as int, s.input[s.input_pos as int] as u16),
                        input_pos: s.input_pos + 1,
                        pc: pc2,
                        ..s
                    },
                    Step::Continue,
                ),
            )
        } else {
            Ok((s, Step::NeedInput))
        },
    }
}

/// One whole cycle: fetch the opcode at the program counter, decode its
/// fixed operands, advance the counter past the instruction, and run the
/// opcode's semantics.  Every failure leaves the machine exactly as it was;
/// the program counter itself is bounds-checked at fetch time, so an
/// out-of-range jump target fails on the following cycle.
pub open spec fn spec_step(s: State) -> Result<(State, Step), VmError> {
    if s.pc >= MEM_SIZE {
        Err(VmError::AddressOutOfRange)
    } else {
        let op = s.mem[s.pc as int];
        if op > 21 {
            Err(VmError::InvalidOpcode)
        } else {
            let n = op_arity(op);
            if s.pc + n >= MEM_SIZE {
                Err(VmError::AddressOutOfRange)
            } else {
                let pc2 = (s.pc + 1 + n) as nat;
                let a0: u16 = if n >= 1 {
                    s.mem[s.pc + 1 as int]
                } else {
                    0
                };
                let a1: u16 = if n >= 2 {
                    s.mem[s.pc + 2 as int]
                } else {
                    0
                };
                let a2: u16 = if n >= 3 {
                    s.mem[s.pc + 3 as int]
                } else {
                    0
                };
                if op == 0 {
                    Ok((State { pc: pc2, enabled: false, ..s }, Step::Halted))
                } else if op == 1 {
                    spec_set(s, pc2, a0, a1)
                } else if op == 2 {
                    spec_push(s, pc2, a0)
                } else if op == 3 {
                    spec_pop(s, pc2, a0)
                } else if is_bin_op(op) {
                    spec_binop(s, pc2, op, a0, a1, a2)
                } else if op == 6 {
                    spec_jmp(s, a0)
                } else if op == 7 {
                    spec_jt(s, pc2, a0, a1)
                } else if op == 8 {
                    spec_jf(s, pc2, a0, a1)
                } else if op == 14 {
                    spec_not(s, pc2, a0, a1)
                } else if op == 15 {
                    spec_rmem(s, pc2, a0, a1)
                } else if op == 16 {
                    spec_wmem(s, pc2, a0, a1)
                } else if op == 17 {
                    spec_call(s, pc2, a0)
                } else if op == 18 {
                    spec_ret(s, pc2)
                } else if op == 19 {
                    spec_out(s, pc2, a0)
                } else if op == 20 {
                    spec_in(s, pc2, a0)
                } else {
                    Ok((State { pc: pc2, ..s }, Step::Continue))
                }
            }
        }
    }
}

/// The virtual machine.  All mutable state is owned here; independent
/// machines share nothing.
pub struct Cpu {
    memory: Vec<u16>,
    registers: Vec<u16>,
    stack: Vec<u16>,
    pc: usize,
    /// The halt flag: true means "keep running".
    pub enabled: bool,
    input_buffer: Vec<u8>,
    input_index: usize,
}

impl View for Cpu {
    type V = State;

    closed spec fn view(&self) -> State {
        State {
            mem: self.memory@,
            regs: self.registers@,
            stack: self.stack@,
            pc: self.pc as nat,
            enabled: self.enabled,
            input: self.input_buffer@,
            input_pos: self.input_index as nat,
        }
    }
}

impl Cpu {
    pub open spec fn wf(&self) -> bool {
        self@.wf()
    }

    /// A fresh machine: memory and registers all zero, empty stack, program
    /// counter at zero, halt flag set, no buffered input.
    pub fn new() -> (cpu: Cpu)
        ensures
            cpu.wf(),
            cpu@ == (State {
                mem: Seq::new(MEM_SIZE as nat, |i: int| 0u16),
                regs: Seq::new(REG_SIZE as nat, |i: int| 0u16),
                stack: Seq::<u16>::empty(),
                pc: 0,
                enabled: true,
                input: Seq::<u8>::empty(),
                input_pos: 0,
            }),
    {
        let cpu = Cpu {
            memory: vec![0u16; MEM_SIZE],
            registers: vec![0u16; REG_SIZE],
            stack: Vec::new(),
            pc: 0,
            enabled: true,
            input_buffer: Vec::new(),
            input_index: 0,
        };
        proof {
            assert(cpu@ =~= (State {
                mem: Seq::new(MEM_SIZE as nat, |i: int| 0u16),
                regs: Seq::new(REG_SIZE as nat, |i: int| 0u16),
                stack: Seq::<u16>::empty(),
                pc: 0,
                enabled: true,
                input: Seq::<u8>::empty(),
                input_pos: 0,
            }));
        }
        cpu
    }

    /// Loads a program image verbatim from address 0, leaving the rest of
    /// memory as it was.
    pub fn load_memory(&mut self, mem: &Vec<u16>)
        requires
            old(self).wf(),
            mem@.len() <= MEM_SIZE,
        ensures
            final(self).wf(),
            final(self)@ == (State {
                mem: mem@ + old(self)@.mem.skip(mem@.len() as int),
                ..old(self)@
            }),
    {
        let n = mem.len();
        let mut i: usize = 0;
        while i < n
            invariant
                self.wf(),
                n == mem@.len(),
                n <= MEM_SIZE,
                i <= n,
                forall|j: int| 0 <= j < i ==> self@.mem[j] == mem@[j],
                forall|j: int| i <= j < MEM_SIZE ==> self@.mem[j] == old(self)@.mem[j],
                self@.regs == old(self)@.regs,
                self@.stack == old(self)@.stack,
                self@.pc == old(self)@.pc,
                self@.enabled == old(self)@.enabled,
                self@.input == old(self)@.input,
                self@.input_pos == old(self)@.input_pos,
            decreases n - i,
        {
            let v = mem[i];
            self.memory.set(i, v);
            i += 1;
        }
        proof {
            assert(self@.mem =~= mem@ + old(self)@.mem.skip(mem@.len() as int));
            assert(self@ =~= (State {
                mem: mem@ + old(self)@.mem.skip(mem@.len() as int),
                ..old(self)@
            }));
        }
    }

    /// Resolves a source operand, exactly as [`resolve_spec`] states: a
    /// literal in `[0, 32768)` is returned unchanged, a register alias in
    /// `[32768, 32776)` yields that register's contents, and any other word
    /// is an invalid-register error.
    pub fn reg_lit(&self, val: u16) -> (r: Result<u16, VmError>)
        requires
            self.wf(),
        ensures
            r == resolve_spec(self@.regs, val),
    {
        if val < MAX_VAL {
            Ok(val)
        } else if val < MAX_VAL + 8 {
            Ok(self.registers[(val - MAX_VAL) as usize])
        } else {
            Err(VmError::InvalidRegister)
        }
    }

    /// Resolves a destination operand, exactly as [`target_spec`] states:
    /// only a register alias is accepted, and it yields the register index;
    /// everything else is an invalid-destination error.
    pub fn reg_index(&self, mem: u16) -> (r: Result<usize, VmError>)
        ensures
            r == target_spec(mem),
    {
        if MAX_VAL <= mem && mem < MAX_VAL + 8 {
            Ok((mem - MAX_VAL) as usize)
        } else {
            Err(VmError::InvalidDestination)
        }
    }

    /// `halt`: clear the halt flag and stop.
    fn halt(&mut self, next_pc: usize) -> (r: Result<Step, VmError>)
        requires
            old(self).wf(),
        ensures
            final(self).wf(),
            r == Ok::<Step, VmError>(Step::Halted),
            final(self)@ == (State { pc: next_pc as nat, enabled: false, ..old(self)@ }),
    {
        self.pc = next_pc;
        self.enabled = false;
        Ok(Step::Halted)
    }

    /// `set`.
    fn set(&mut self, next_pc: usize, dst: u16, src: u16) -> (r: Result<Step, VmError>)
        requires
            old(self).wf(),
        ensures
            final(self).wf(),
            (match spec_set(old(self)@, next_pc as nat, dst, src) {
                Ok(p) => r == Ok::<Step, VmError>(p.1) && final(self)@ == p.0,
                Err(e) => r == Err::<Step, VmError>(e) && final(self)@ == old(self)@,
            }),
    {
        let t = match self.reg_index(dst) {
            Ok(t) => t,
            Err(e) => {
                return Err(e);
            },
        };
        let v = match self.reg_lit(src) {
            Ok(v) => v,
            Err(e) => {
                return Err(e);
            },
        };
        self.registers.set(t, v);
        self.pc = next_pc;
        Ok(Step::Continue)
    }

    /// `push`.
    fn push(&mut self, next_pc: usize, src: u16) -> (r: Result<Step, VmError>)
        requires
            old(self).wf(),
        ensures
            final(self).wf(),
            (match spec_push(old(self)@, next_pc as nat, src) {
                Ok(p) => r == Ok::<Step, VmError>(p.1) && final(self)@ == p.0,
                Err(e) => r == Err::<Step, VmError>(e) && final(self)@ == old(self)@,
            }),
    {
        let v = match self.reg_lit(src) {
            Ok(v) => v,
            Err(e) => {
                return Err(e);
            },
        };
        self.stack.push(v);
        self.pc = next_pc;
        Ok(Step::Continue)
    }

    /// `pop`.
    fn pop(&mut self, next_pc: usize, dst: u16) -> (r: Result<Step, VmError>)
        requires
            old(self).wf(),
        ensures
            final(self).wf(),
            (match spec_pop(old(self)@, next_pc as nat, dst) {
                Ok(p) => r == Ok::<Step, VmError>(p.1) && final(self)@ == p.0,
                Err(e) => r == Err::<Step, VmError>(e) && final(self)@ == old(self)@,
            }),
    {
        let t = match self.reg_index(dst) {
            Ok(t) => t,
            Err(e) => {
                return Err(e);
            },
        };
        let v = match self.stack.pop() {
            Some(v) => v,
            None => {
                return Err(VmError::StackUnderflow);
            },
        };
        self.registers.set(t, v);
        self.pc = next_pc;
        proof {
            assert(self@.stack =~= old(self)@.stack.drop_last());
        }
        Ok(Step::Continue)
    }

    /// The shared path of the seven register-writing binary operations.
    fn bin_op(&mut self, next_pc: usize, op: u16, dst: u16, x: u16, y: u16) -> (r: Result<
        Step,
        VmError,
    >)
        requires
            old(self).wf(),
            is_bin_op(op),
        ensures
            final(self).wf(),
            (match spec_binop(old(self)@, next_pc as nat, op, dst, x, y) {
                Ok(p) => r == Ok::<Step, VmError>(p.1) && final(self)@ == p.0,
                Err(e) => r == Err::<Step, VmError>(e) && final(self)@ == old(self)@,
            }),
    {
        let t = match self.reg_index(dst) {
            Ok(t) => t,
            Err(e) => {
                return Err(e);
            },
        };
        let a = match self.reg_lit(x) {
            Ok(a) => a,
            Err(e) => {
                return Err(e);
            },
        };
        let b = match self.reg_lit(y) {
            Ok(b) => b,
            Err(e) => {
                return Err(e);
            },
        };
        if op == 11 && b == 0 {
            return Err(VmError::DivideByZero);
        }
        let val: u16 = if op == 4 {
            if a == b {
                1
            } else {
                0
            }
        } else if op == 5 {
            if a > b {
                1
            } else {
                0
            }
        } else if op == 9 {
            (((a as u32) + (b as u32)) % (MAX_VAL as u32)) as u16
        } else if op == 10 {
            proof {
                assert((a as int) * (b as int) <= 65535 * 65535) by (nonlinear_arith)
                    requires
                        a <= 65535,
                        b <= 65535,
                ;
            }
            (((a as u32) * (b as u32)) % (MAX_VAL as u32)) as u16
        } else if op == 11 {
            (a % b) % MAX_VAL
        } else if op == 12 {
            (a & b) % MAX_VAL
        } else {
            (a | b) % MAX_VAL
        };
        self.registers.set(t, val);
        self.pc = next_pc;
        Ok(Step::Continue)
    }

    /// `eq`.
    fn eq(&mut self, next_pc: usize, dst: u16, x: u16, y: u16) -> (r: Result<Step, VmError>)
        requires
            old(self).wf(),
        ensures
            final(self).wf(),
            (match spec_binop(old(self)@, next_pc as nat, 4, dst, x, y) {
                Ok(p) => r == Ok::<Step, VmError>(p.1) && final(self)@ == p.0,
                Err(e) => r == Err::<Step, VmError>(e) && final(self)@ == old(self)@,
            }),
    {
        self.bin_op(next_pc, 4, dst, x, y)
    }

    /// `gt`.
    fn gt(&mut self, next_pc: usize, dst: u16, x: u16, y: u16) -> (r: Result<Step, VmError>)
        requires
            old(self).wf(),
        ensures
            final(self).wf(),
            (match spec_binop(old(self)@, next_pc as nat, 5, dst, x, y) {
                Ok(p) => r == Ok::<Step, VmError>(p.1) && final(self)@ == p.0,
                Err(e) => r == Err::<Step, VmError>(e) && final(self)@ == old(self)@,
            }),
    {
        self.bin_op(next_pc, 5, dst, x, y)
    }

    /// `add`: the sum, reduced modulo 32768; the widening keeps the native
    /// addition from overflowing.
    fn add(&mut self, next_pc: usize, dst: u16, x: u16, y: u16) -> (r: Result<Step, VmError>)
        requires
            old(self).wf(),
        ensures
            final(self).wf(),
            (match spec_binop(old(self)@, next_pc as nat, 9, dst, x, y) {
                Ok(p) => r == Ok::<Step, VmError>(p.1) && final(self)@ == p.0,
                Err(e) => r == Err::<Step, VmError>(e) && final(self)@ == old(self)@,
            }),
    {
        self.bin_op(next_pc, 9, dst, x, y)
    }

    /// `mult`: the product, widened before the multiply and reduced modulo
    /// 32768.
    fn mult(&mut self, next_pc: usize, dst: u16, x: u16, y: u16) -> (r: Result<Step, VmError>)
        requires
            old(self).wf(),
        ensures
            final(self).wf(),
            (match spec_binop(old(self)@, next_pc as nat, 10, dst, x, y) {
                Ok(p) => r == Ok::<Step, VmError>(p.1) && final(self)@ == p.0,
                Err(e) => r == Err::<Step, VmError>(e) && final(self)@ == old(self)@,
            }),
    {
        self.bin_op(next_pc, 10, dst, x, y)
    }

    /// `mod`; the name avoids the reserved word.
    fn _mod(&mut self, next_pc: usize, dst: u16, x: u16, y: u16) -> (r: Result<Step, VmError>)
        requires
            old(self).wf(),
        ensures
            final(self).wf(),
            (match spec_binop(old(self)@, next_pc as nat, 11, dst, x, y) {
                Ok(p) => r == Ok::<Step, VmError>(p.1) && final(self)@ == p.0,
                Err(e) => r == Err::<Step, VmError>(e) && final(self)@ == old(self)@,
            }),
    {
        self.bin_op(next_pc, 11, dst, x, y)
    }

    /// `and`.
    fn and(&mut self, next_pc: usize, dst: u16, x: u16, y: u16) -> (r: Result<Step, VmError>)
        requires
            old(self).wf(),
        ensures
            final(self).wf(),
            (match spec_binop(old(self)@, next_pc as nat, 12, dst, x, y) {
                Ok(p) => r == Ok::<Step, VmError>(p.1) && final(self)@ == p.0,
                Err(e) => r == Err::<Step, VmError>(e) && final(self)@ == old(self)@,
            }),
    {
        self.bin_op(next_pc, 12, dst, x, y)
    }

    /// `or`.
    fn or(&mut self, next_pc: usize, dst: u16, x: u16, y: u16) -> (r: Result<Step, VmError>)
        requires
            old(self).wf(),
        ensures
            final(self).wf(),
            (match spec_binop(old(self)@, next_pc as nat, 13, dst, x, y) {
                Ok(p) => r == Ok::<Step, VmError>(p.1) && final(self)@ == p.0,
                Err(e) => r == Err::<Step, VmError>(e) && final(self)@ == old(self)@,
            }),
    {
        self.bin_op(next_pc, 13, dst, x, y)
    }

    /// `jmp`: double resolution of the target, as [`spec_jmp`] states.
    fn jmp(&mut self, addr: u16) -> (r: Result<Step, VmError>)
        requires
            old(self).wf(),
        ensures
            final(self).wf(),
            (match spec_jmp(old(self)@, addr) {
                Ok(p) => r == Ok::<Step, VmError>(p.1) && final(self)@ == p.0,
                Err(e) => r == Err::<Step, VmError>(e) && final(self)@ == old(self)@,
            }),
    {
        let x = match self.reg_lit(addr) {
            Ok(x) => x,
            Err(e) => {
                return Err(e);
            },
        };
        let y = match self.reg_lit(x) {
            Ok(y) => y,
            Err(e) => {
                return Err(e);
            },
        };
        self.pc = y as usize;
        Ok(Step::Continue)
    }

    /// `jt`.
    fn jt(&mut self, next_pc: usize, cond: u16, addr: u16) -> (r: Result<Step, VmError>)
        requires
            old(self).wf(),
        ensures
            final(self).wf(),
            (match spec_jt(old(self)@, next_pc as nat, cond, addr) {
                Ok(p) => r == Ok::<Step, VmError>(p.1) && final(self)@ == p.0,
                Err(e) => r == Err::<Step, VmError>(e) && final(self)@ == old(self)@,
            }),
    {
        let c = match self.reg_lit(cond) {
            Ok(c) => c,
            Err(e) => {
                return Err(e);
            },
        };
        let t = match self.reg_lit(addr) {
            Ok(t) => t,
            Err(e) => {
                return Err(e);
            },
        };
        if c != 0 {
            self.pc = t as usize;
        } else {
            self.pc = next_pc;
        }
        Ok(Step::Continue)
    }

    /// `jf`.
    fn jf(&mut self, next_pc: usize, cond: u16, addr: u16) -> (r: Result<Step, VmError>)
        requires
            old(self).wf(),
        ensures
            final(self).wf(),
            (match spec_jf(old(self)@, next_pc as nat, cond, addr) {
                Ok(p) => r == Ok::<Step, VmError>(p.1) && final(self)@ == p.0,
                Err(e) => r == Err::<Step, VmError>(e) && final(self)@ == old(self)@,
            }),
    {
        let c = match self.reg_lit(cond) {
            Ok(c) => c,
            Err(e) => {
                return Err(e);
            },
        };
        let t = match self.reg_lit(addr) {
            Ok(t) => t,
            Err(e) => {
                return Err(e);
            },
        };
        if c == 0 {
            self.pc = t as usize;
        } else {
            self.pc = next_pc;
        }
        Ok(Step::Continue)
    }

    /// `not`.
    fn not(&mut self, next_pc: usize, dst: u16, src: u16) -> (r: Result<Step, VmError>)
        requires
            old(self).wf(),
        ensures
            final(self).wf(),
            (match spec_not(old(self)@, next_pc as nat, dst, src) {
                Ok(p) => r == Ok::<Step, VmError>(p.1) && final(self)@ == p.0,
                Err(e) => r == Err::<Step, VmError>(e) && final(self)@ == old(self)@,
            }),
    {
        let t = match self.reg_index(dst) {
            Ok(t) => t,
            Err(e) => {
                return Err(e);
            },
        };
        let a = match self.reg_lit(src) {
            Ok(a) => a,
            Err(e) => {
                return Err(e);
            },
        };
        self.registers.set(t, !a & 0x7fff);
        self.pc = next_pc;
        Ok(Step::Continue)
    }

    /// `rmem`.
    fn rmem(&mut self, next_pc: usize, dst: u16, addr: u16) -> (r: Result<Step, VmError>)
        requires
            old(self).wf(),
        ensures
            final(self).wf(),
            (match spec_rmem(old(self)@, next_pc as nat, dst, addr) {
                Ok(p) => r == Ok::<Step, VmError>(p.1) && final(self)@ == p.0,
                Err(e) => r == Err::<Step, VmError>(e) && final(self)@ == old(self)@,
            }),
    {
        let t = match self.reg_index(dst) {
            Ok(t) => t,
            Err(e) => {
                return Err(e);
            },
        };
        let a = match self.reg_lit(addr) {
            Ok(a) => a,
            Err(e) => {
                return Err(e);
            },
        };
        if a >= MAX_VAL {
            return Err(VmError::AddressOutOfRange);
        }
        let v = self.memory[a as usize];
        self.registers.set(t, v);
        self.pc = next_pc;
        Ok(Step::Continue)
    }

    /// `wmem`.
    fn wmem(&mut self, next_pc: usize, addr: u16, val: u16) -> (r: Result<Step, VmError>)
        requires
            old(self).wf(),
        ensures
            final(self).wf(),
            (match spec_wmem(old(self)@, next_pc as nat, addr, val) {
                Ok(p) => r == Ok::<Step, VmError>(p.1) && final(self)@ == p.0,
                Err(e) => r == Err::<Step, VmError>(e) && final(self)@ == old(self)@,
            }),
    {
        let a = match self.reg_lit(addr) {
            Ok(a) => a,
            Err(e) => {
                return Err(e);
            },
        };
        let v = match self.reg_lit(val) {
            Ok(v) => v,
            Err(e) => {
                return Err(e);
            },
        };
        if a >= MAX_VAL {
            return Err(VmError::AddressOutOfRange);
        }
        self.memory.set(a as usize, v);
        self.pc = next_pc;
        Ok(Step::Continue)
    }

    /// `call`: push the address of the next instruction, then `jmp`
    /// semantics on the operand.
    fn call(&mut self, next_pc: usize, addr: u16) -> (r: Result<Step, VmError>)
        requires
            old(self).wf(),
        ensures
            final(self).wf(),
            (match spec_call(old(self)@, next_pc as nat, addr) {
                Ok(p) => r == Ok::<Step, VmError>(p.1) && final(self)@ == p.0,
                Err(e) => r == Err::<Step, VmError>(e) && final(self)@ == old(self)@,
            }),
    {
        let x = match self.reg_lit(addr) {
            Ok(x) => x,
            Err(e) => {
                return Err(e);
            },
        };
        let y = match self.reg_lit(x) {
            Ok(y) => y,
            Err(e) => {
                return Err(e);
            },
        };
        self.stack.push(next_pc as u16);
        self.pc = y as usize;
        Ok(Step::Continue)
    }

    /// `ret`: an empty stack halts the machine cleanly; otherwise the top
    /// of the stack is popped and jumped to with `jmp` semantics.
    fn ret(&mut self, next_pc: usize) -> (r: Result<Step, VmError>)
        requires
            old(self).wf(),
        ensures
            final(self).wf(),
            (match spec_ret(old(self)@, next_pc as nat) {
                Ok(p) => r == Ok::<Step, VmError>(p.1) && final(self)@ == p.0,
                Err(e) => r == Err::<Step, VmError>(e) && final(self)@ == old(self)@,
            }),
    {
        if self.stack.len() == 0 {
            self.pc = next_pc;
            self.enabled = false;
            return Ok(Step::Halted);
        }
        let w = self.stack[self.stack.len() - 1];
        let x = match self.reg_lit(w) {
            Ok(x) => x,
            Err(e) => {
                return Err(e);
            },
        };
        let y = match self.reg_lit(x) {
            Ok(y) => y,
            Err(e) => {
                return Err(e);
            },
        };
        let _ = self.stack.pop();
        self.pc = y as usize;
        proof {
            assert(self@.stack =~= old(self)@.stack.drop_last());
        }
        Ok(Step::Continue)
    }

    /// `out`: hand the resolved code point to the driving loop.
    fn out(&mut self, next_pc: usize, src: u16) -> (r: Result<Step, VmError>)
        requires
            old(self).wf(),
        ensures
            final(self).wf(),
            (match spec_out(old(self)@, next_pc as nat, src) {
                Ok(p) => r == Ok::<Step, VmError>(p.1) && final(self)@ == p.0,
                Err(e) => r == Err::<Step, VmError>(e) && final(self)@ == old(self)@,
            }),
    {
        let v = match self.reg_lit(src) {
            Ok(v) => v,
            Err(e) => {
                return Err(e);
            },
        };
        if 0xD800 <= v && v < 0xE000 {
            return Err(VmError::InvalidScalar);
        }
        self.pc = next_pc;
        Ok(Step::Output(v))
    }

    /// `in`; the name avoids the reserved word.
    fn _in(&mut self, next_pc: usize, dst: u16) -> (r: Result<Step, VmError>)
        requires
            old(self).wf(),
        ensures
            final(self).wf(),
            (match spec_in(old(self)@, next_pc as nat, dst) {
                Ok(p) => r == Ok::<Step, VmError>(p.1) && final(self)@ == p.0,
                Err(e) => r == Err::<Step, VmError>(e) && final(self)@ == old(self)@,
            }),
    {
        let t = match self.reg_index(dst) {
            Ok(t) => t,
            Err(e) => {
                return Err(e);
            },
        };
        if self.input_index < self.input_buffer.len() {
            let b = self.input_buffer[self.input_index];
            self.registers.set(t, b as u16);
            self.input_index += 1;
            self.pc = next_pc;
            Ok(Step::Continue)
        } else {
            Ok(Step::NeedInput)
        }
    }

    /// `noop`.
    fn noop(&mut self, next_pc: usize) -> (r: Result<Step, VmError>)
        requires
            old(self).wf(),
        ensures
            final(self).wf(),
            r == Ok::<Step, VmError>(Step::Continue),
            final(self)@ == (State { pc: next_pc as nat, ..old(self)@ }),
    {
        self.pc = next_pc;
        Ok(Step::Continue)
    }

    /// Hands the machine a fresh line of input after a [`Step::NeedInput`]:
    /// the buffer is replaced and the cursor reset, so the retried `in`
    /// instruction serves the new bytes one at a time.
    pub fn provide_input(&mut self, bytes: Vec<u8>)
        requires
            old(self).wf(),
        ensures
            final(self).wf(),
            final(self)@ == (State { input: bytes@, input_pos: 0, ..old(self)@ }),
    {
        self.input_buffer = bytes;
        self.input_index = 0;
    }

    /// One execution cycle, exactly as [`spec_step`] states: on `Ok` the
    /// machine has taken the step and the result says what the driving loop
    /// owes (run on, print a character, feed input, or stop); on `Err` the
    /// machine is exactly as it was.  Drive it in a loop while `enabled`
    /// holds.
    pub fn execute(&mut self) -> (r: Result<Step, VmError>)
        requires
            old(self).wf(),
        ensures
            final(self).wf(),
            (match spec_step(old(self)@) {
                Ok(p) => r == Ok::<Step, VmError>(p.1) && final(self)@ == p.0,
                Err(e) => r == Err::<Step, VmError>(e) && final(self)@ == old(self)@,
            }),
    {
        if self.pc >= MEM_SIZE {
            return Err(VmError::AddressOutOfRange);
        }
        let opcode = self.memory[self.pc];
        if opcode > 21 {
            return Err(VmError::InvalidOpcode);
        }
        let n = arity_of(opcode);
        if self.pc + n >= MEM_SIZE {
            return Err(VmError::AddressOutOfRange);
        }
        let next_pc = self.pc + 1 + n;
        let a0: u16 = if n >= 1 {
            self.memory[self.pc + 1]
        } else {
            0
        };
        let a1: u16 = if n >= 2 {
            self.memory[self.pc + 2]
        } else {
            0
        };
        let a2: u16 = if n >= 3 {
            self.memory[self.pc + 3]
        } else {
            0
        };
        match opcode {
            0 => self.halt(next_pc),
            1 => self.set(next_pc, a0, a1),
            2 => self.push(next_pc, a0),
            3 => self.pop(next_pc, a0),
            4 => self.eq(next_pc, a0, a1, a2),
            5 => self.gt(next_pc, a0, a1, a2),
            6 => self.jmp(a0),
            7 => self.jt(next_pc, a0, a1),
            8 => self.jf(next_pc, a0, a1),
            9 => self.add(next_pc, a0, a1, a2),
            10 => self.mult(next_pc, a0, a1, a2),
            11 => self._mod(next_pc, a0, a1, a2),
            12 => self.and(next_pc, a0, a1, a2),
            13 => self.or(next_pc, a0, a1, a2),
            14 => self.not(next_pc, a0, a1),
            15 => self.rmem(next_pc, a0, a1),
            16 => self.wmem(next_pc, a0, a1),
            17 => self.call(next_pc, a0),
            18 => self.ret(next_pc),
            19 => self.out(next_pc, a0),
            20 => self._in(next_pc, a0),
            _ => self.noop(next_pc),
        }
    }

    /// The contents of one register.
    pub fn get_register(&self, i: usize) -> (r: u16)
        requires
            self.wf(),
            i < REG_SIZE,
        ensures
            r == self@.regs[i as int],
    {
        self.registers[i]
    }

    /// The word at one memory address.
    pub fn get_memory(&self, addr: usize) -> (r: u16)
        requires
            self.wf(),
            addr < MEM_SIZE,
        ensures
            r == self@.mem[addr as int],
    {
        self.memory[addr]
    }

    /// The program counter.
    pub fn get_pc(&self) -> (r: usize)
        ensures
            r == self@.pc,
    {
        self.pc
    }

    /// How many words the stack holds.
    pub fn stack_len(&self) -> (r: usize)
        ensures
            r == self@.stack.len(),
    {
        self.stack.len()
    }
}

/// The fixed operand count of an opcode, as [`op_arity`] states.
fn arity_of(op: u16) -> (n: usize)
    ensures
        n == op_arity(op),
        n <= 3,
{
    if op == 0 {
        0
    } else if op == 1 {
        2
    } else if op == 2 {
        1
    } else if op == 3 {
        1
    } else if op == 4 {
        3
    } else if op == 5 {
        3
    } else if op == 6 {
        1
    } else if op == 7 {
        2
    } else if op == 8 {
        2
    } else if 9 <= op && op <= 13 {
        3
    } else if op == 14 {
        2
    } else if op == 15 {
        2
    } else if op == 16 {
        2
    } else if op == 17 {
        1
    } else if op == 18 {
        0
    } else if op == 19 {
        1
    } else if op == 20 {
        1
    } else {
        0
    }
}

} // verus!
