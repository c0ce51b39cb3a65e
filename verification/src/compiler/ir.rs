//! The intermediate representation that the compiler emits: instructions over registers.

use vstd::prelude::*;

use crate::compiler::integer::Integer;

verus! {

/// An operand of an instruction: a register or a constant.
#[derive(Clone, Copy, Debug, PartialEq, Eq, Structural)]
pub enum IrValue {
    Ref(u32),
    Boolean(bool),
    Integer(Integer),
}

/// The operands of an instruction and the register that receives its result.
#[derive(Debug)]
pub struct QueryData {
    pub destination: u32,
    pub values: Vec<IrValue>,
}

/// An instruction of the intermediate representation.
#[derive(Debug)]
pub enum Instruction {
    Add(QueryData),
    Sub(QueryData),
    Mul(QueryData),
    Div(QueryData),
}

/// A program being emitted: the next free register and the instructions emitted so far.
#[derive(Debug)]
pub struct Program {
    pub next_register: u32,
    pub instructions: Vec<Instruction>,
}

impl Program {
    /// Creates a program with no instruction, whose first free register is the first.
    pub fn new() -> (p: Program)
        ensures
            p.next_register == 0,
            p.instructions@.len() == 0,
    {
        Program { next_register: 0, instructions: Vec::new() }
    }

    /// Returns a fresh register.
    pub fn allocate(&mut self) -> (r: u32)
        requires
            old(self).next_register < u32::MAX,
        ensures
            r == old(self).next_register,
            final(self).next_register == old(self).next_register + 1,
            final(self).instructions@ == old(self).instructions@,
    {
        let r = self.next_register;
        self.next_register = r + 1;
        r
    }

    /// Appends an instruction.
    pub fn emit(&mut self, instruction: Instruction)
        ensures
            final(self).instructions@ == old(self).instructions@.push(instruction),
            final(self).next_register == old(self).next_register,
    {
        self.instructions.push(instruction);
    }

    /// Emits the subtraction of the right operand from the left into a fresh register, which it
    /// returns.
    pub fn evaluate_sub(&mut self, left: IrValue, right: IrValue) -> (r: IrValue)
        requires
            old(self).next_register < u32::MAX,
        ensures
            r == IrValue::Ref(old(self).next_register),
            final(self).next_register == old(self).next_register + 1,
            final(self).instructions@.len() == old(self).instructions@.len() + 1,
            final(self).instructions@.drop_last() == old(self).instructions@,
            final(self).instructions@.last() matches Instruction::Sub(q)
                && q.destination == old(self).next_register && q.values@ == seq![left, right],
    {
        let output = self.allocate();
        let values = vec![left, right];
        self.emit(Instruction::Sub(QueryData { destination: output, values }));
        IrValue::Ref(output)
    }
}

} // verus!
