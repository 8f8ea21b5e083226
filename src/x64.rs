use crate::backend::{Backend, BinaryOperation, Integer};
use crate::text::{decimal, push_decimal, push_signed_decimal, signed_decimal};
use vstd::prelude::*;

verus! {

/// An operand of the flat target: an inline literal, or a slot.
#[derive(Debug, PartialEq, Eq, Structural)]
pub enum Data {
    Value(Integer),
    Allocated(usize),
}

/// A two-address instruction: the first field is the slot that is read and
/// overwritten, the second the source operand.
#[derive(Debug, PartialEq, Eq, Structural)]
pub enum Instruction {
    Mov(usize, Data),
    Add(usize, Data),
    Subtract(usize, Data),
    Multiply(usize, Data),
    Divide(usize, Data),
    DivisionRemainder(usize, Data),
    BitwiseAnd(usize, Data),
    BitwiseOr(usize, Data),
    BitwiseXor(usize, Data),
    LogicalAnd(usize, Data),
    LogicalOr(usize, Data),
    ShiftLeft(usize, Data),
    ShiftRight(usize, Data),
}

/// The instruction that applies `op` to slot `dst` with source `src`.
pub open spec fn operation_instruction(op: BinaryOperation, dst: usize, src: Data) -> Instruction {
    match op {
        BinaryOperation::Add => Instruction::Add(dst, src),
        BinaryOperation::Subtract => Instruction::Subtract(dst, src),
        BinaryOperation::Multiply => Instruction::Multiply(dst, src),
        BinaryOperation::Divide => Instruction::Divide(dst, src),
        BinaryOperation::DivisionRemainder => Instruction::DivisionRemainder(dst, src),
        BinaryOperation::BitwiseAnd => Instruction::BitwiseAnd(dst, src),
        BinaryOperation::BitwiseOr => Instruction::BitwiseOr(dst, src),
        BinaryOperation::BitwiseXor => Instruction::BitwiseXor(dst, src),
        BinaryOperation::LogicalAnd => Instruction::LogicalAnd(dst, src),
        BinaryOperation::LogicalOr => Instruction::LogicalOr(dst, src),
        BinaryOperation::ShiftLeft => Instruction::ShiftLeft(dst, src),
        BinaryOperation::ShiftRight => Instruction::ShiftRight(dst, src),
    }
}

/// A flat two-address emitter whose slots are numbered by a counter and never
/// reused.
#[derive(Debug)]
pub struct X64Backend {
    allocated: usize,
    assembly: Vec<Instruction>,
}

impl X64Backend {
    /// The number of slots handed out so far; the next slot has this number.
    pub closed spec fn slots_used(&self) -> nat {
        self.allocated as nat
    }

    /// The instructions emitted so far, in order.
    pub closed spec fn code(&self) -> Seq<Instruction> {
        self.assembly@
    }

    /// An emitter with no slots and no instructions.
    pub fn new() -> (r: X64Backend)
        ensures
            r.slots_used() == 0,
            r.code() == Seq::<Instruction>::empty(),
    {
        X64Backend { allocated: 0, assembly: Vec::new() }
    }

    /// Hands out the next slot number.
    pub fn allocate(&mut self) -> (r: usize)
        requires
            old(self).slots_used() < usize::MAX,
        ensures
            r == old(self).slots_used(),
            final(self).slots_used() == old(self).slots_used() + 1,
            final(self).code() == old(self).code(),
    {
        self.allocated = self.allocated + 1;
        self.allocated - 1
    }
}

impl Default for X64Backend {
    fn default() -> (r: X64Backend)
        ensures
            r.slots_used() == 0,
            r.code() == Seq::<Instruction>::empty(),
    {
        X64Backend::new()
    }
}

impl Backend for X64Backend {
    type DataType = Data;

    open spec fn lowers_integer(before: Self, after: Self, value: Integer, r: Data) -> bool {
        after == before && r == Data::Value(value)
    }

    open spec fn can_lower_binary(&self, lhs: &Data) -> bool {
        lhs is Value ==> self.slots_used() < usize::MAX
    }

    /// A literal left operand is first moved into a fresh slot; the operation
    /// then overwrites the left slot, which holds the result.
    open spec fn lowers_binary(
        before: Self,
        after: Self,
        op: BinaryOperation,
        lhs: Data,
        rhs: Data,
        r: Data,
    ) -> bool {
        match lhs {
            Data::Allocated(slot) => {
                &&& r == Data::Allocated(slot)
                &&& after.slots_used() == before.slots_used()
                &&& after.code() == before.code().push(operation_instruction(op, slot, rhs))
            },
            Data::Value(value) => {
                let slot = before.slots_used() as usize;
                &&& r == Data::Allocated(slot)
                &&& after.slots_used() == before.slots_used() + 1
                &&& after.code() == before.code().push(Instruction::Mov(slot, Data::Value(value))).push(
                    operation_instruction(op, slot, rhs),
                )
            },
        }
    }

    fn integer(&mut self, value: Integer) -> (r: Data) {
        Data::Value(value)
    }

    fn binary_operation(&mut self, operation: BinaryOperation, lhs: Data, rhs: Data) -> (r: Data) {
        let lhs = match lhs {
            Data::Allocated(lhs) => lhs,
            Data::Value(value) => {
                let allocated_lhs = self.allocate();
                self.assembly.push(Instruction::Mov(allocated_lhs, Data::Value(value)));
                allocated_lhs
            },
        };
        let instruction = match operation {
            BinaryOperation::Add => Instruction::Add(lhs, rhs),
            BinaryOperation::Subtract => Instruction::Subtract(lhs, rhs),
            BinaryOperation::Multiply => Instruction::Multiply(lhs, rhs),
            BinaryOperation::Divide => Instruction::Divide(lhs, rhs),
            BinaryOperation::DivisionRemainder => Instruction::DivisionRemainder(lhs, rhs),
            BinaryOperation::BitwiseAnd => Instruction::BitwiseAnd(lhs, rhs),
            BinaryOperation::BitwiseOr => Instruction::BitwiseOr(lhs, rhs),
            BinaryOperation::BitwiseXor => Instruction::BitwiseXor(lhs, rhs),
            BinaryOperation::LogicalAnd => Instruction::LogicalAnd(lhs, rhs),
            BinaryOperation::LogicalOr => Instruction::LogicalOr(lhs, rhs),
            BinaryOperation::ShiftLeft => Instruction::ShiftLeft(lhs, rhs),
            BinaryOperation::ShiftRight => Instruction::ShiftRight(lhs, rhs),
        };
        self.assembly.push(instruction);
        Data::Allocated(lhs)
    }
}

/// The text of a literal: its decimal value and its width and signedness.
pub open spec fn integer_text(i: Integer) -> Seq<char> {
    match i {
        Integer::U8(v) => decimal(v as nat) + " as u8"@,
        Integer::U16(v) => decimal(v as nat) + " as u16"@,
        Integer::U32(v) => decimal(v as nat) + " as u32"@,
        Integer::U64(v) => decimal(v as nat) + " as u64"@,
        Integer::U128(v) => decimal(v as nat) + " as u128"@,
        Integer::I8(v) => signed_decimal(v as int) + " as i8"@,
        Integer::I16(v) => signed_decimal(v as int) + " as i16"@,
        Integer::I32(v) => signed_decimal(v as int) + " as i32"@,
        Integer::I64(v) => signed_decimal(v as int) + " as i64"@,
        Integer::I128(v) => signed_decimal(v as int) + " as i128"@,
    }
}

/// The text of an operand: `#` and the slot number, or a literal.
pub open spec fn data_text(d: Data) -> Seq<char> {
    match d {
        Data::Value(i) => integer_text(i),
        Data::Allocated(slot) => "#"@ + decimal(slot as nat),
    }
}

/// The mnemonic, destination slot and source operand of an instruction.
pub open spec fn instruction_parts(ins: Instruction) -> (Seq<char>, usize, Data) {
    match ins {
        Instruction::Mov(d, s) => ("mov"@, d, s),
        Instruction::Add(d, s) => ("add"@, d, s),
        Instruction::Subtract(d, s) => ("sub"@, d, s),
        Instruction::Multiply(d, s) => ("mul"@, d, s),
        Instruction::Divide(d, s) => ("div"@, d, s),
        Instruction::DivisionRemainder(d, s) => ("rem"@, d, s),
        Instruction::BitwiseAnd(d, s) => ("and"@, d, s),
        Instruction::BitwiseOr(d, s) => ("or"@, d, s),
        Instruction::BitwiseXor(d, s) => ("xor"@, d, s),
        Instruction::LogicalAnd(d, s) => ("land"@, d, s),
        Instruction::LogicalOr(d, s) => ("lor"@, d, s),
        Instruction::ShiftLeft(d, s) => ("shl"@, d, s),
        Instruction::ShiftRight(d, s) => ("shr"@, d, s),
    }
}

/// One line of output: `op #dest, operand`.
pub open spec fn instruction_line(ins: Instruction) -> Seq<char> {
    let (mnemonic, dst, src) = instruction_parts(ins);
    mnemonic + " #"@ + decimal(dst as nat) + ", "@ + data_text(src) + "\n"@
}

/// The text of an instruction stream, one line per instruction.
pub open spec fn program_text(code: Seq<Instruction>) -> Seq<char>
    decreases code.len(),
{
    if code.len() == 0 {
        Seq::empty()
    } else {
        program_text(code.drop_last()) + instruction_line(code.last())
    }
}

fn push_integer(out: &mut String, i: &Integer)
    ensures
        final(out)@ == old(out)@ + integer_text(*i),
{
    match i {
        Integer::U8(v) => {
            push_decimal(out, *v as u128);
            out.append(" as u8");
        },
        Integer::U16(v) => {
            push_decimal(out, *v as u128);
            out.append(" as u16");
        },
        Integer::U32(v) => {
            push_decimal(out, *v as u128);
            out.append(" as u32");
        },
        Integer::U64(v) => {
            push_decimal(out, *v as u128);
            out.append(" as u64");
        },
        Integer::U128(v) => {
            push_decimal(out, *v);
            out.append(" as u128");
        },
        Integer::I8(v) => {
            push_signed_decimal(out, *v as i128);
            out.append(" as i8");
        },
        Integer::I16(v) => {
            push_signed_decimal(out, *v as i128);
            out.append(" as i16");
        },
        Integer::I32(v) => {
            push_signed_decimal(out, *v as i128);
            out.append(" as i32");
        },
        Integer::I64(v) => {
            push_signed_decimal(out, *v as i128);
            out.append(" as i64");
        },
        Integer::I128(v) => {
            push_signed_decimal(out, *v);
            out.append(" as i128");
        },
    }
    assert(final(out)@ =~= old(out)@ + integer_text(*i));
}

impl Data {
    fn push_text(&self, out: &mut String)
        ensures
            final(out)@ == old(out)@ + data_text(*self),
    {
        match self {
            Data::Value(i) => push_integer(out, i),
            Data::Allocated(slot) => {
                out.append("#");
                push_decimal(out, *slot as u128);
                assert(final(out)@ =~= old(out)@ + data_text(*self));
            },
        }
    }

    /// The operand as text.
    pub fn to_string(&self) -> (r: String)
        ensures
            r@ == data_text(*self),
    {
        let mut out = String::new();
        self.push_text(&mut out);
        assert(out@ =~= data_text(*self));
        out
    }
}

impl Instruction {
    fn parts(&self) -> (r: (&'static str, usize, &Data))
        ensures
            r.0@ == instruction_parts(*self).0,
            r.1 == instruction_parts(*self).1,
            *r.2 == instruction_parts(*self).2,
    {
        match self {
            Instruction::Mov(d, s) => ("mov", *d, s),
            Instruction::Add(d, s) => ("add", *d, s),
            Instruction::Subtract(d, s) => ("sub", *d, s),
            Instruction::Multiply(d, s) => ("mul", *d, s),
            Instruction::Divide(d, s) => ("div", *d, s),
            Instruction::DivisionRemainder(d, s) => ("rem", *d, s),
            Instruction::BitwiseAnd(d, s) => ("and", *d, s),
            Instruction::BitwiseOr(d, s) => ("or", *d, s),
            Instruction::BitwiseXor(d, s) => ("xor", *d, s),
            Instruction::LogicalAnd(d, s) => ("land", *d, s),
            Instruction::LogicalOr(d, s) => ("lor", *d, s),
            Instruction::ShiftLeft(d, s) => ("shl", *d, s),
            Instruction::ShiftRight(d, s) => ("shr", *d, s),
        }
    }

    fn push_line(&self, out: &mut String)
        ensures
            final(out)@ == old(out)@ + instruction_line(*self),
    {
        let (mnemonic, dst, src) = self.parts();
        out.append(mnemonic);
        out.append(" #");
        push_decimal(out, dst as u128);
        out.append(", ");
        src.push_text(out);
        out.append("\n");
        assert(final(out)@ =~= old(out)@ + instruction_line(*self));
    }
}

impl X64Backend {
    /// The emitted program as text, one instruction per line.
    pub fn to_string(&self) -> (r: String)
        ensures
            r@ == program_text(self.code()),
    {
        let mut out = String::new();
        let mut i: usize = 0;
        while i < self.assembly.len()
            invariant
                i <= self.assembly@.len(),
                out@ == program_text(self.assembly@.subrange(0, i as int)),
            decreases self.assembly@.len() - i,
        {
            self.assembly[i].push_line(&mut out);
            assert(self.assembly@.subrange(0, i + 1).drop_last() =~= self.assembly@.subrange(
                0,
                i as int,
            ));
            i = i + 1;
        }
        assert(self.assembly@.subrange(0, i as int) =~= self.assembly@);
        out
    }
}

} // verus!
