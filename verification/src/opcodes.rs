use vstd::prelude::*;

use crate::cpu::Cpu;
use crate::cpu::STACK_SIZE;
use crate::errors::ChipError;
use crate::screen::Screen;

verus! {

/// One past the largest address a 16-bit call-stack slot can hold.
pub const RETURN_ADDRESS_LIMIT: usize = 0x10000;

/// The decoded meaning of a 16-bit instruction word, as far as the CPU
/// core interprets words itself.
///
/// The core owns only the machine-control family, whose whole effect is
/// on the CPU's own program counter and call stack. Every other word is
/// classified as [`Opcode::Unsupported`] and surfaced at execute time,
/// so decoding stays total; the full instruction table belongs to the
/// external executor collaborator.
#[derive(Clone, Copy, PartialEq, Eq, Structural, Debug)]
pub enum Opcode {
    /// `1NNN`: jump to address `NNN`.
    Jump(u16),
    /// `2NNN`: push the return address, then jump to `NNN`.
    Call(u16),
    /// `00EE`: return to the address on top of the call stack.
    Return,
    /// Any word outside the machine-control family, kept verbatim.
    Unsupported(u16),
}

/// Classify a 16-bit instruction word. Total and pure: every bit
/// pattern maps to some variant.
#[verifier::when_used_as_spec(spec_decode)]
pub fn decode(word: u16) -> (op: Opcode)
    ensures
        op == spec_decode(word),
{
    if word == 0x00EE {
        Opcode::Return
    } else if word >> 12 == 0x1 {
        Opcode::Jump(word & 0x0FFF)
    } else if word >> 12 == 0x2 {
        Opcode::Call(word & 0x0FFF)
    } else {
        Opcode::Unsupported(word)
    }
}

/// What [`decode`] returns, stated as a specification.
pub open spec fn spec_decode(word: u16) -> Opcode {
    if word == 0x00EE {
        Opcode::Return
    } else if word >> 12 == 0x1 {
        Opcode::Jump(word & 0x0FFF)
    } else if word >> 12 == 0x2 {
        Opcode::Call(word & 0x0FFF)
    } else {
        Opcode::Unsupported(word)
    }
}

/// The exact effect of [`execute`] on the CPU: for each operation and
/// each starting state, the resulting state and result. Errors leave
/// the CPU exactly as it was.
pub open spec fn execute_post(op: Opcode, pre: Cpu, post: Cpu, r: Result<(), ChipError>) -> bool {
    match op {
        Opcode::Jump(addr) => {
            &&& r == Ok::<(), ChipError>(())
            &&& post.pc == addr as usize
            &&& post.sp == pre.sp
            &&& post.stack@ == pre.stack@
            &&& Cpu::data_unchanged(pre, post)
        },
        Opcode::Call(addr) => {
            if pre.pc >= RETURN_ADDRESS_LIMIT {
                &&& r == Err::<(), ChipError>(
                    ChipError::AddressOutOfBounds {
                        address: pre.pc,
                        limit: RETURN_ADDRESS_LIMIT,
                    },
                )
                &&& post == pre
            } else if pre.sp == STACK_SIZE - 1 {
                &&& r == Err::<(), ChipError>(ChipError::StackOverflow(STACK_SIZE))
                &&& post == pre
            } else {
                &&& r == Ok::<(), ChipError>(())
                &&& post.pc == addr as usize
                &&& post.sp == pre.sp + 1
                &&& post.stack@ == pre.stack@.update(pre.sp as int + 1, pre.pc as u16)
                &&& Cpu::data_unchanged(pre, post)
            }
        },
        Opcode::Return => {
            if pre.sp == 0 {
                &&& r == Err::<(), ChipError>(ChipError::StackUnderflow())
                &&& post == pre
            } else {
                &&& r == Ok::<(), ChipError>(())
                &&& post.pc == pre.stack@[pre.sp as int] as usize
                &&& post.sp == pre.sp - 1
                &&& post.stack@ == pre.stack@
                &&& Cpu::data_unchanged(pre, post)
            }
        },
        Opcode::Unsupported(word) => {
            &&& r == Err::<(), ChipError>(ChipError::UnsupportedOpcode(word))
            &&& post == pre
        },
    }
}

/// Apply a decoded operation to the machine.
///
/// Only the machine-control family is interpreted here; its whole
/// effect is on the program counter and the call stack, so memory and
/// the screen are left untouched. A [`Opcode::Call`] whose return
/// address does not fit the 16-bit slots of the call stack, or whose
/// stack is already full, fails without changing anything; so does a
/// [`Opcode::Return`] on an empty stack; an [`Opcode::Unsupported`]
/// word is reported back verbatim.
pub fn execute(op: Opcode, cpu: &mut Cpu, memory: &mut [u8], screen: &mut Screen) -> (r: Result<
    (),
    ChipError,
>)
    requires
        old(cpu).wf(),
    ensures
        final(cpu).wf(),
        final(memory)@ == old(memory)@,
        *final(screen) == *old(screen),
        execute_post(op, *old(cpu), *final(cpu), r),
{
    match op {
        Opcode::Jump(addr) => {
            cpu.pc = addr as usize;
            Ok(())
        },
        Opcode::Call(addr) => {
            if cpu.pc >= RETURN_ADDRESS_LIMIT {
                // The return address must fit a 16-bit stack slot.
                Err(ChipError::AddressOutOfBounds { address: cpu.pc, limit: RETURN_ADDRESS_LIMIT })
            } else {
                let ret: u16 = cpu.pc as u16;
                match cpu.push(ret) {
                    Ok(()) => {
                        cpu.pc = addr as usize;
                        Ok(())
                    },
                    Err(e) => Err(e),
                }
            }
        },
        Opcode::Return => {
            match cpu.pop() {
                Ok(addr) => {
                    cpu.pc = addr as usize;
                    Ok(())
                },
                Err(e) => Err(e),
            }
        },
        Opcode::Unsupported(word) => Err(ChipError::UnsupportedOpcode(word)),
    }
}

} // verus!
