use vstd::prelude::*;

use crate::errors::ChipError;
use crate::opcodes::decode;
use crate::opcodes::execute;
use crate::opcodes::execute_post;
use crate::screen::Screen;

verus! {

broadcast use vstd::array::group_array_axioms;

/// Number of general-purpose byte registers.
pub const NUM_REGISTERS: usize = 0x10;

/// Number of slots in the backing array of the call stack. The bottom
/// slot is a reserved sentinel (see [`Cpu::stack_model`]), so at most
/// `STACK_SIZE - 1` return addresses are live at once.
pub const STACK_SIZE: usize = 16;

/// Number of keys on the hexadecimal keypad.
pub const NUM_KEYS: usize = 16;

/// The CPU of the machine: all mutable machine state, and the fetch,
/// stack and reset operations that every instruction handler builds on.
///
/// The driving loop owns a single `Cpu` for the life of the machine;
/// an external scheduler decrements the two timers at its own cadence,
/// and an external input collaborator writes the keypad.
pub struct Cpu {
    /// General-purpose registers V0 through VF.
    pub v: [u8; NUM_REGISTERS],
    /// The 16-bit index register used by memory-addressing instructions.
    pub i: u16,
    /// Byte offset into addressable memory of the next instruction.
    pub pc: usize,
    /// Index of the top of the call stack; 0 means empty.
    pub sp: usize,
    /// Delay timer, counted down by the external scheduler.
    pub timer_delay: u8,
    /// Sound timer, counted down by the external scheduler.
    pub timer_sound: u8,
    /// Backing array of the call stack of return addresses.
    pub stack: [u16; STACK_SIZE],
    /// Pressed/released state of the 16 host keys.
    pub keypad: [bool; NUM_KEYS],
}

impl Cpu {
    /// The stack pointer never leaves the backing array: this is the
    /// invariant every operation of the core preserves.
    pub open spec fn wf(self) -> bool {
        self.sp < STACK_SIZE
    }

    /// The live contents of the call stack, bottom first.
    ///
    /// The backing array keeps slot 0 as a reserved sentinel: the first
    /// push lands at slot 1 and the stack is full once the pointer
    /// reaches the last slot, so `STACK_SIZE - 1` values fit. The model
    /// is exactly the slots `1 ..= sp`.
    pub open spec fn stack_model(self) -> Seq<u16>
        recommends
            self.wf(),
    {
        self.stack@.subrange(1, self.sp as int + 1)
    }

    /// Every field a stack operation leaves alone: the data registers,
    /// the index register, the two timers and the keypad.
    pub open spec fn data_unchanged(pre: Cpu, post: Cpu) -> bool {
        &&& post.v == pre.v
        &&& post.i == pre.i
        &&& post.timer_delay == pre.timer_delay
        &&& post.timer_sound == pre.timer_sound
        &&& post.keypad == pre.keypad
    }

    /// Every field holds its zero value: the state of a freshly started
    /// or freshly reset machine.
    pub open spec fn is_zeroed(self) -> bool {
        &&& forall|j: int| 0 <= j < NUM_REGISTERS ==> self.v@[j] == 0
        &&& self.i == 0
        &&& self.pc == 0
        &&& self.sp == 0
        &&& self.timer_delay == 0
        &&& self.timer_sound == 0
        &&& forall|j: int| 0 <= j < STACK_SIZE ==> self.stack@[j] == 0
        &&& forall|j: int| 0 <= j < NUM_KEYS ==> self.keypad@[j] == false
    }

    /// Push a return address onto the call stack.
    ///
    /// Fails with [`ChipError::StackOverflow`] when the stack is full,
    /// leaving the whole state untouched. On success the pointer moves
    /// up first and the value lands in the slot it now names.
    pub fn push(&mut self, value: u16) -> (r: Result<(), ChipError>)
        requires
            old(self).wf(),
        ensures
            final(self).wf(),
            old(self).sp == STACK_SIZE - 1 ==> {
                &&& r == Err::<(), ChipError>(ChipError::StackOverflow(STACK_SIZE))
                &&& *final(self) == *old(self)
            },
            old(self).sp < STACK_SIZE - 1 ==> {
                &&& r == Ok::<(), ChipError>(())
                &&& final(self).sp == old(self).sp + 1
                &&& final(self).stack@ == old(self).stack@.update(
                    old(self).sp as int + 1,
                    value,
                )
                &&& final(self).stack_model() == old(self).stack_model().push(value)
                &&& final(self).pc == old(self).pc
                &&& Cpu::data_unchanged(*old(self), *final(self))
            },
    {
        if self.sp == STACK_SIZE - 1 {
            return Err(ChipError::StackOverflow(self.stack.len()));
        }

        self.sp = self.sp + 1;
        self.stack[self.sp] = value;

        proof {
            assert(self.stack_model() =~= old(self).stack_model().push(value));
        }
        Ok(())
    }

    /// Pop the most recent return address off the call stack.
    ///
    /// Fails with [`ChipError::StackUnderflow`] when the stack is
    /// empty, leaving the whole state untouched. On success the value
    /// in the slot the pointer names is read first, then the pointer
    /// moves down: a matched push/pop pair meets in the same slot, so
    /// the stack is last-in first-out.
    pub fn pop(&mut self) -> (r: Result<u16, ChipError>)
        requires
            old(self).wf(),
        ensures
            final(self).wf(),
            old(self).sp == 0 ==> {
                &&& r == Err::<u16, ChipError>(ChipError::StackUnderflow())
                &&& *final(self) == *old(self)
            },
            old(self).sp > 0 ==> {
                &&& r == Ok::<u16, ChipError>(old(self).stack@[old(self).sp as int])
                &&& r == Ok::<u16, ChipError>(old(self).stack_model().last())
                &&& final(self).sp == old(self).sp - 1
                &&& final(self).stack@ == old(self).stack@
                &&& final(self).stack_model() == old(self).stack_model().drop_last()
                &&& final(self).pc == old(self).pc
                &&& Cpu::data_unchanged(*old(self), *final(self))
            },
    {
        if self.sp == 0 {
            return Err(ChipError::StackUnderflow());
        }

        let value = self.stack[self.sp];
        self.sp = self.sp - 1;

        proof {
            assert(self.stack_model() =~= old(self).stack_model().drop_last());
        }
        Ok(value)
    }

    /// Read the instruction word at the program counter.
    ///
    /// The two bytes at `pc` and `pc + 1` are composed big-endian, high
    /// byte first — the fixed storage order of instruction words — and
    /// the counter advances by exactly 2. When `pc + 1` is not a valid
    /// index into `memory`, the read fails with
    /// [`ChipError::AddressOutOfBounds`] before any state changes.
    pub fn fetch(&mut self, memory: &mut [u8]) -> (r: Result<u16, ChipError>)
        requires
            old(self).pc < usize::MAX,
        ensures
            final(memory)@ == old(memory)@,
            old(self).pc + 1 >= old(memory)@.len() ==> {
                &&& r == Err::<u16, ChipError>(
                    ChipError::AddressOutOfBounds {
                        address: (old(self).pc + 1) as usize,
                        limit: old(memory)@.len() as usize,
                    },
                )
                &&& *final(self) == *old(self)
            },
            old(self).pc + 1 < old(memory)@.len() ==> {
                &&& r == Ok::<u16, ChipError>(word_at(old(memory)@, old(self).pc as int))
                &&& final(self).pc == old(self).pc + 2
                &&& final(self).sp == old(self).sp
                &&& final(self).stack@ == old(self).stack@
                &&& Cpu::data_unchanged(*old(self), *final(self))
            },
    {
        if self.pc + 1 >= memory.len() {
            return Err(ChipError::AddressOutOfBounds {
                address: self.pc + 1,
                limit: memory.len(),
            });
        }

        let hi = memory[self.pc] as u16;
        let lo = memory[self.pc + 1] as u16;

        // Instruction words are stored big endian.
        let word: u16 = (hi << 8) | lo;
        self.pc = self.pc + 2;

        Ok(word)
    }

    /// This state with the program counter moved to `pc` and everything
    /// else as it was.
    pub open spec fn with_pc(self, pc: usize) -> Cpu {
        Cpu { pc, ..self }
    }

    /// Run one full fetch-decode-execute cycle.
    ///
    /// The instruction word at the program counter is fetched (which
    /// advances the counter by 2), decoded — decoding is total — and
    /// handed to the executor. Any error short-circuits and propagates
    /// unchanged: a failed fetch leaves the whole state untouched, and
    /// a failed execute leaves the state exactly as fetch left it.
    pub fn step(&mut self, memory: &mut [u8], screen: &mut Screen) -> (r: Result<(), ChipError>)
        requires
            old(self).wf(),
            old(self).pc < usize::MAX,
        ensures
            final(self).wf(),
            final(memory)@ == old(memory)@,
            *final(screen) == *old(screen),
            old(self).pc + 1 >= old(memory)@.len() ==> {
                &&& r == Err::<(), ChipError>(
                    ChipError::AddressOutOfBounds {
                        address: (old(self).pc + 1) as usize,
                        limit: old(memory)@.len() as usize,
                    },
                )
                &&& *final(self) == *old(self)
            },
            old(self).pc + 1 < old(memory)@.len() ==> execute_post(
                decode(word_at(old(memory)@, old(self).pc as int)),
                old(self).with_pc((old(self).pc + 2) as usize),
                *final(self),
                r,
            ),
    {
        // Fetch
        let word = match self.fetch(memory) {
            Ok(word) => word,
            Err(e) => {
                return Err(e);
            },
        };

        proof {
            assert(self.stack =~= old(self).stack);
            assert(*self == old(self).with_pc((old(self).pc + 2) as usize));
        }

        // Decode
        let op = decode(word);

        // Execute
        execute(op, self, memory, screen)
    }

    /// Set every field back to its zero value: all registers, the index
    /// register, the program counter, the stack pointer, both timers,
    /// the whole call stack and the whole keypad. Never fails, and no
    /// partial reset is observable: the caller sees the state only
    /// after every field is zeroed.
    pub fn reset(&mut self)
        ensures
            final(self).is_zeroed(),
            final(self).wf(),
    {
        self.v = [0; NUM_REGISTERS];
        self.i = 0;
        self.pc = 0;
        self.sp = 0;
        self.timer_delay = 0;
        self.timer_sound = 0;
        self.stack = [0; STACK_SIZE];
        self.keypad = [false; NUM_KEYS];
    }
}

impl Default for Cpu {
    /// A freshly constructed machine: every field zeroed.
    fn default() -> (cpu: Cpu)
        ensures
            cpu.is_zeroed(),
            cpu.wf(),
    {
        Cpu {
            v: [0; NUM_REGISTERS],
            i: 0,
            pc: 0,
            sp: 0,
            timer_delay: 0,
            timer_sound: 0,
            stack: [0; STACK_SIZE],
            keypad: [false; NUM_KEYS],
        }
    }
}

/// The instruction word stored big-endian at offset `pc` of `mem`:
/// the byte at `pc` is the high byte, the byte at `pc + 1` the low one.
pub open spec fn word_at(mem: Seq<u8>, pc: int) -> u16
    recommends
        0 <= pc,
        pc + 1 < mem.len(),
{
    ((mem[pc] as u16) << 8) | (mem[pc + 1] as u16)
}

/// The values that `n` pops in a row return from a stack whose live
/// contents are `s`, in the order they come back. Each pop returns the
/// last element and leaves the rest, as the contract of [`Cpu::pop`]
/// states over [`Cpu::stack_model`].
pub open spec fn pop_values(s: Seq<u16>, n: nat) -> Seq<u16>
    recommends
        n <= s.len(),
    decreases n,
{
    if n == 0 {
        Seq::empty()
    } else {
        seq![s.last()] + pop_values(s.drop_last(), (n - 1) as nat)
    }
}

/// The live contents the stack keeps after `n` pops in a row.
pub open spec fn pop_rest(s: Seq<u16>, n: nat) -> Seq<u16>
    recommends
        n <= s.len(),
    decreases n,
{
    if n == 0 {
        s
    } else {
        pop_rest(s.drop_last(), (n - 1) as nat)
    }
}

/// The call stack is last-in first-out: pushing the values of `vals`
/// in order onto any live contents `s` — each push appends to the
/// model, as the contract of [`Cpu::push`] states — and then popping
/// `vals.len()` times returns exactly the pushed values in reverse
/// order, and leaves `s` as it was.
pub proof fn lemma_lifo_order(s: Seq<u16>, vals: Seq<u16>)
    ensures
        pop_values(s + vals, vals.len()) == vals.reverse(),
        pop_rest(s + vals, vals.len()) == s,
    decreases vals.len(),
{
    if vals.len() == 0 {
        assert(s + vals =~= s);
        assert(vals.reverse() =~= Seq::<u16>::empty());
    } else {
        assert((s + vals).drop_last() =~= s + vals.drop_last());
        assert((s + vals).last() == vals.last());
        lemma_lifo_order(s, vals.drop_last());
        assert(seq![vals.last()] + vals.drop_last().reverse() =~= vals.reverse());
    }
}

/// Any two zeroed machines are the same value: the state after
/// [`Cpu::reset`] is indistinguishable from a freshly constructed one,
/// whatever either machine went through before.
pub proof fn lemma_zeroed_unique(a: Cpu, b: Cpu)
    requires
        a.is_zeroed(),
        b.is_zeroed(),
    ensures
        a == b,
{
    assert(a.v =~= b.v);
    assert(a.stack =~= b.stack);
    assert(a.keypad =~= b.keypad);
}

} // verus!
