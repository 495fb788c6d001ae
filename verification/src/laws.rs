//! Machine-wide laws: properties of operand resolution, of the arithmetic
//! instructions, and of whole execution cycles, proved once for every input.

use vstd::prelude::*;

use crate::cpu::{bin_result, is_bin_op, resolve_spec, spec_step, target_spec, State, Step, VmError};

verus! {

/// A word below 32768 resolves, as a source operand, to itself.
pub proof fn lemma_resolve_literal(regs: Seq<u16>, v: u16)
    requires
        v < 32768,
    ensures
        resolve_spec(regs, v) == Ok::<u16, VmError>(v),
{
}

/// A register alias `32768 + i` resolves, as a source operand, to the
/// contents of register `i`.
pub proof fn lemma_resolve_register(regs: Seq<u16>, i: u16)
    requires
        i < 8,
    ensures
        resolve_spec(regs, (32768 + i) as u16) == Ok::<u16, VmError>(regs[i as int]),
{
}

/// A word at or above 32776 fails both as a source operand and as a
/// destination operand.
pub proof fn lemma_resolve_invalid(regs: Seq<u16>, v: u16)
    requires
        v >= 32776,
    ensures
        resolve_spec(regs, v) == Err::<u16, VmError>(VmError::InvalidRegister),
        target_spec(v) == Err::<usize, VmError>(VmError::InvalidDestination),
{
}

/// For operands in `[0, 32768)`, the values `add` and `mult` store are
/// themselves in `[0, 32768)`.
pub proof fn lemma_arith_in_range(a: u16, b: u16)
    requires
        a < 32768,
        b < 32768,
    ensures
        bin_result(9, a, b) < 32768,
        bin_result(10, a, b) < 32768,
{
    assert(0 <= (a + b) as int % 32768 < 32768) by (nonlinear_arith);
    assert(0 <= (a * b) as int % 32768 < 32768) by (nonlinear_arith);
}

/// For every word, the value `not` stores is below 32768: bit 15 is always
/// cleared by the 15-bit mask.
pub proof fn lemma_not_in_range(v: u16)
    ensures
        (!v & 0x7fff) < 32768,
{
    assert((!v & 0x7fff) < 32768) by (bit_vector);
}

/// The stack law: a `push` whose operand resolves to a value `x`, followed
/// immediately by a `pop` into register `i`, stores `x` in that register and
/// leaves the stack exactly as it was before the push.
pub proof fn lemma_push_pop(s: State, w: u16, i: u16)
    requires
        s.wf(),
        s.pc + 3 < 32768,
        i < 8,
        s.mem[s.pc as int] == 2,
        s.mem[s.pc as int + 1] == w,
        s.mem[s.pc as int + 2] == 3,
        s.mem[s.pc as int + 3] == 32768 + i,
        resolve_spec(s.regs, w) is Ok,
    ensures
        ({
            let x = resolve_spec(s.regs, w)->Ok_0;
            let r1 = spec_step(s);
            &&& r1 is Ok
            &&& r1->Ok_0.1 == Step::Continue
            &&& ({
                let s1 = r1->Ok_0.0;
                let r2 = spec_step(s1);
                &&& r2 is Ok
                &&& r2->Ok_0.1 == Step::Continue
                &&& r2->Ok_0.0.regs == s.regs.update(i as int, x)
                &&& r2->Ok_0.0.stack == s.stack
                &&& r2->Ok_0.0.pc == s.pc + 4
            })
        }),
{
    let s1 = spec_step(s)->Ok_0.0;
    assert(s1.stack.drop_last() =~= s.stack);
}

/// The values a binary-operation handler can store all lie in `[0, 32768)`:
/// whatever `eq`, `gt`, `add`, `mult`, `mod`, `and` or `or` computes is
/// reduced modulo 32768 before it reaches a register.
pub proof fn lemma_bin_result_in_range(op: u16, a: u16, b: u16)
    requires
        is_bin_op(op),
        op == 11 ==> b != 0,
    ensures
        bin_result(op, a, b) < 32768,
{
    assert(0 <= (a + b) as int % 32768 < 32768) by (nonlinear_arith);
    assert(0 <= (a * b) as int % 32768 < 32768) by (nonlinear_arith);
    if b != 0 {
        assert(0 <= (a % b) as int % 32768 < 32768) by (nonlinear_arith)
            requires
                b != 0,
        ;
    }
    assert(0 <= (a & b) as int % 32768 < 32768) by (nonlinear_arith);
    assert(0 <= (a | b) as int % 32768 < 32768) by (nonlinear_arith);
}

/// A successful cycle keeps the machine well-formed: memory and register
/// file keep their fixed sizes, and the input cursor stays inside its
/// buffer.
pub proof fn lemma_step_preserves_wf(s: State)
    requires
        s.wf(),
    ensures
        spec_step(s) is Ok ==> spec_step(s)->Ok_0.0.wf(),
{
}

/// `ret` on an empty stack halts the machine cleanly: the cycle succeeds,
/// reports a halt, and clears the halt flag — no error is raised.
pub proof fn lemma_ret_empty_halts(s: State)
    requires
        s.wf(),
        s.pc < 32768,
        s.mem[s.pc as int] == 18,
        s.stack.len() == 0,
    ensures
        spec_step(s) is Ok,
        spec_step(s)->Ok_0.1 == Step::Halted,
        !spec_step(s)->Ok_0.0.enabled,
{
}

} // verus!
