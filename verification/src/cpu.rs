//! The CPU execution engine: fetch-decode-execute stepping, breakpointed
//! runs, and the reset and interrupt entry sequences.

use vstd::prelude::*;

use crate::instructions::{
    spec_execute, spec_handle_interrupt, spec_lookup, Instruction,
};
use crate::memory::{spec_read_address, Address, MemoryBus};
use crate::registers::{Flag, Registers};

verus! {

/// The 6502 processor: its register file and a monotonic cycle counter
/// advanced once per executed instruction.
pub struct CPU {
    pub registers: Registers,
    pub cycles: u64,
}

/// The registers and memory view one fetch-decode-execute step leaves
/// behind.
pub open spec fn spec_step<M: MemoryBus>(regs: Registers, v: M::V) -> (Registers, M::V) {
    let opcode = M::read_value(v, regs.pc.value);
    let v1 = M::read_state(v, regs.pc.value);
    spec_execute::<M>(spec_lookup(opcode), regs, v1)
}

/// Whether the byte at the program counter decodes to an implemented
/// instruction; executing anything else is a fatal error.
pub open spec fn spec_opcode_valid<M: MemoryBus>(regs: Registers, v: M::V) -> bool {
    spec_lookup(M::read_value(v, regs.pc.value)).valid
}

impl CPU {
    pub fn new() -> (r: CPU)
        ensures
            r.registers == crate::registers::spec_registers_new(),
            r.cycles == 0,
    {
        CPU { registers: Registers::new(), cycles: 0 }
    }

    /// Executes the instruction at the program counter and counts one cycle.
    pub fn step<M: MemoryBus>(&mut self, memory: &mut M)
        requires
            old(memory).inv(),
            old(self).cycles < u64::MAX,
            spec_opcode_valid::<M>(old(self).registers, old(memory)@),
        ensures
            final(memory).inv(),
            (final(self).registers, final(memory)@) == spec_step::<M>(
                old(self).registers,
                old(memory)@,
            ),
            final(self).cycles == old(self).cycles + 1,
    {
        let opcode = memory.read(self.registers.pc);
        let instruction = Instruction::lookup(opcode);
        instruction.execute(&mut self.registers, memory);
        self.cycles = self.cycles + 1;
    }

    /// Services a hardware IRQ: pushes the return address and status with
    /// the Break flag clear, disables interrupts, and jumps through the
    /// IRQ/BRK vector.
    pub fn handle_irq<M: MemoryBus>(&mut self, memory: &mut M)
        requires
            old(memory).inv(),
            old(self).cycles < u64::MAX,
        ensures
            final(memory).inv(),
            (final(self).registers, final(memory)@) == spec_handle_interrupt::<M>(
                0xFFFE,
                Registers {
                    p: old(self).registers.p.spec_set(Flag::B, false),
                    ..old(self).registers
                },
                old(memory)@,
            ),
            final(self).cycles == old(self).cycles + 1,
    {
        crate::instructions::handle_irq(&mut self.registers, memory);
        self.cycles = self.cycles + 1;
    }

    /// Services a non-maskable interrupt through the NMI vector.
    pub fn handle_nmi<M: MemoryBus>(&mut self, memory: &mut M)
        requires
            old(memory).inv(),
            old(self).cycles < u64::MAX,
        ensures
            final(memory).inv(),
            (final(self).registers, final(memory)@) == spec_handle_interrupt::<M>(
                0xFFFA,
                Registers {
                    p: old(self).registers.p.spec_set(Flag::B, false),
                    ..old(self).registers
                },
                old(memory)@,
            ),
            final(self).cycles == old(self).cycles + 1,
    {
        crate::instructions::handle_nmi(&mut self.registers, memory);
        self.cycles = self.cycles + 1;
    }

    /// The documented power-on sequence: the accumulator shows the 0xAA
    /// probe value, the stack pointer starts at 0xFD, and the program
    /// counter is loaded from the reset vector, consuming nine cycles.
    pub fn reset<M: MemoryBus>(&mut self, memory: &mut M)
        requires
            old(memory).inv(),
            old(self).cycles + 9 <= u64::MAX,
        ensures
            final(memory).inv(),
            final(self).registers.a == 0xAA,
            final(self).registers.s.offset == 0xFD,
            final(self).registers.pc.value == spec_read_address::<M>(old(memory)@, 0xFFFC).0,
            final(memory)@ == spec_read_address::<M>(old(memory)@, 0xFFFC).1,
            final(self).registers.x == old(self).registers.x,
            final(self).registers.y == old(self).registers.y,
            final(self).registers.p == old(self).registers.p,
            final(self).cycles == old(self).cycles + 9,
    {
        self.registers.a = 0xAA;
        self.registers.s.set(0xFD);
        let vector = Address::from(0xFFFC);
        let address = crate::memory::read_address(memory, vector);
        self.registers.pc = address;
        self.cycles = self.cycles + 9;
    }

    /// Steps repeatedly until the stop condition holds. The run also ends,
    /// without executing further, if the next opcode is an unimplemented
    /// slot (a fatal decode error) or the cycle counter is exhausted.
    ///
    /// The final state is some n-fold iterate of the single-step
    /// transition, with one cycle counted per step, and the run stopped
    /// for one of the three reasons above.
    pub fn run<M: MemoryBus, F: Fn(&CPU, &M) -> bool>(&mut self, memory: &mut M, stop: &F)
        requires
            old(memory).inv(),
            forall|c: &CPU, m: &M| m.inv() ==> #[trigger] call_requires(*stop, (c, m)),
        ensures
            final(memory).inv(),
            exists|n: nat|
                {
                    &&& (final(self).registers, final(memory)@) == #[trigger] spec_step_n::<M>(
                        old(self).registers,
                        old(memory)@,
                        n,
                    )
                    &&& final(self).cycles == old(self).cycles + n
                },
            call_ensures(*stop, (&*final(self), &*final(memory)), true) || !spec_opcode_valid::<
                M,
            >(final(self).registers, final(memory)@) || final(self).cycles == u64::MAX,
    {
        proof {
            assert((self.registers, memory@) == spec_step_n::<M>(
                old(self).registers,
                old(memory)@,
                0,
            ));
        }
        loop
            invariant
                memory.inv(),
                forall|c: &CPU, m: &M| m.inv() ==> #[trigger] call_requires(*stop, (c, m)),
                exists|n: nat|
                    {
                        &&& (self.registers, memory@) == #[trigger] spec_step_n::<M>(
                            old(self).registers,
                            old(memory)@,
                            n,
                        )
                        &&& self.cycles == old(self).cycles + n
                    },
            decreases u64::MAX - self.cycles,
        {
            if stop(self, memory) {
                return ;
            }
            let opcode = memory.peek(self.registers.pc);
            if !Instruction::lookup(opcode).is_valid() {
                return ;
            }
            if self.cycles == u64::MAX {
                return ;
            }
            let ghost pre_regs = self.registers;
            let ghost pre_mem = memory@;
            let ghost pre_cycles = self.cycles;
            let ghost steps_taken = choose|n: nat|
                {
                    &&& (pre_regs, pre_mem) == #[trigger] spec_step_n::<M>(
                        old(self).registers,
                        old(memory)@,
                        n,
                    )
                    &&& pre_cycles == old(self).cycles + n
                };
            self.step(memory);
            proof {
                let next = spec_step_n::<M>(old(self).registers, old(memory)@, steps_taken + 1);
                assert(next == spec_step::<M>(pre_regs, pre_mem));
                assert((self.registers, memory@) == next);
                assert(self.cycles == old(self).cycles + (steps_taken + 1));
            }
        }
    }
}

/// The registers and memory view after `n` fetch-decode-execute steps.
pub open spec fn spec_step_n<M: MemoryBus>(regs: Registers, v: M::V, n: nat) -> (
    Registers,
    M::V,
)
    decreases n,
{
    if n == 0 {
        (regs, v)
    } else {
        let prev = spec_step_n::<M>(regs, v, (n - 1) as nat);
        spec_step::<M>(prev.0, prev.1)
    }
}

/// A breakpoint on the opcode byte at the program counter.
pub fn stop_when<const OPCODE: u8, M: MemoryBus>(cpu: &CPU, mem: &M) -> (r: bool)
    requires
        mem.inv(),
    ensures
        r == (M::read_value(mem@, cpu.registers.pc.value) == OPCODE),
{
    mem.peek(cpu.registers.pc) == OPCODE
}

/// A breakpoint on a cycle budget.
pub fn stop_after<const CYCLES: u64, M: MemoryBus>(cpu: &CPU, _mem: &M) -> (r: bool)
    ensures
        r == (cpu.cycles >= CYCLES),
{
    cpu.cycles >= CYCLES
}

/// A breakpoint on a program-counter value.
pub fn stop_at<const ADDRESS: u16, M: MemoryBus>(cpu: &CPU, _mem: &M) -> (r: bool)
    ensures
        r == (cpu.registers.pc.value == ADDRESS),
{
    cpu.registers.pc.to_u16() == ADDRESS
}

} // verus!
