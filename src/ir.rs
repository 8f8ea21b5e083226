use crate::backend::operation_mnemonic;
use crate::slots::{is_live, is_lowest_free, live_set, mark_live, max_bits, SlotAllocator};
use crate::text::{decimal, push_decimal, push_signed_decimal, signed_decimal};
use vstd::prelude::*;

pub use crate::backend::BinaryOperation;

verus! {

/// An operand: a computed result held in a live slot, or a literal.
///
/// A value is moved, never copied: passing an allocated value to an operation
/// consumes it together with its slot.
#[derive(Debug, Hash, PartialEq, Eq, Structural)]
pub enum Value {
    Allocated(usize),
    Unsigned(u128),
    Integer(i128),
}

/// A scalar type; the widths are in bytes.
#[derive(Clone, Copy, Debug, Hash, PartialEq, Eq, Structural)]
pub enum Type {
    Void,
    Unsigned(u16),
    Integer(u16),
}

impl Type {
    /// Integer types have a width of at least one byte.
    pub open spec fn wf(self) -> bool {
        match self {
            Type::Void => true,
            Type::Unsigned(width) => width > 0,
            Type::Integer(width) => width > 0,
        }
    }
}

/// One step of a function: a binary operation that writes its output slot, or
/// the return of a value.
#[derive(Debug, Hash, PartialEq, Eq, Structural)]
pub enum Instruction {
    BinaryOp(usize, BinaryOperation, Value, Value),
    Return(Value),
}

/// The bitmap after the slot of `v`, if it has one, is released.
pub open spec fn release_operand(live: Seq<bool>, v: Value) -> Seq<bool> {
    match v {
        Value::Allocated(slot) => live.update(slot as int, false),
        _ => live,
    }
}

/// The bitmap after both operands are released, the left one first.
pub open spec fn release_operands(live: Seq<bool>, lhs: Value, rhs: Value) -> Seq<bool> {
    release_operand(release_operand(live, lhs), rhs)
}

/// Each allocated operand holds a live slot, and the two do not share one.
pub open spec fn operands_live(live: Seq<bool>, lhs: Value, rhs: Value) -> bool {
    &&& (lhs matches Value::Allocated(slot) ==> is_live(live, slot as int))
    &&& (rhs matches Value::Allocated(slot) ==> is_live(release_operand(live, lhs), slot as int))
}

/// The slot that a value holds, if any.
pub open spec fn value_slots(v: Value) -> Set<int> {
    match v {
        Value::Allocated(slot) => set![slot as int],
        _ => Set::empty(),
    }
}

/// Lowering a binary operation takes exactly the operands' slots out of the
/// live set and puts exactly the output slot in; the output slot is held by no
/// value that is still live once the operands are consumed, so no two live
/// values ever share a slot.
pub proof fn lemma_binary_op_single_producer(live: Seq<bool>, lhs: Value, rhs: Value, out: int)
    requires
        operands_live(live, lhs, rhs),
        is_lowest_free(release_operands(live, lhs, rhs), out),
    ensures
        live_set(release_operands(live, lhs, rhs)) == live_set(live) - value_slots(lhs)
            - value_slots(rhs),
        !live_set(release_operands(live, lhs, rhs)).contains(out),
        live_set(mark_live(release_operands(live, lhs, rhs), out)) == live_set(
            release_operands(live, lhs, rhs),
        ).insert(out),
{
    let first = release_operand(live, lhs);
    let freed = release_operands(live, lhs, rhs);
    assert(live_set(first) =~= live_set(live) - value_slots(lhs));
    assert(live_set(freed) =~= live_set(first) - value_slots(rhs));
    assert(live_set(mark_live(freed, out)) =~= live_set(freed).insert(out));
}

/// The slot range grows by at most one slot, and only when every slot is live
/// afterwards: its size never exceeds the peak number of live values.
pub proof fn lemma_growth_only_when_full(live: Seq<bool>, r: int)
    requires
        is_lowest_free(live, r),
    ensures
        mark_live(live, r).len() <= live.len() + 1,
        mark_live(live, r).len() > live.len() ==> forall|j: int|
            0 <= j < mark_live(live, r).len() ==> #[trigger] mark_live(live, r)[j],
{
}

/// One step of a left-deep chain, where the operands are the only live values:
/// the output goes to slot 0, it is then the only live value, and the slot
/// range does not grow past one slot beyond what it was.
pub proof fn lemma_left_deep_chain_step(live: Seq<bool>, lhs: Value, rhs: Value, out: int)
    requires
        operands_live(live, lhs, rhs),
        live_set(live) == value_slots(lhs) + value_slots(rhs),
        is_lowest_free(release_operands(live, lhs, rhs), out),
    ensures
        out == 0,
        live_set(mark_live(release_operands(live, lhs, rhs), out)) == set![0int],
        mark_live(release_operands(live, lhs, rhs), out).len() == if live.len() == 0 {
            1
        } else {
            live.len()
        },
{
    let freed = release_operands(live, lhs, rhs);
    lemma_binary_op_single_producer(live, lhs, rhs, out);
    assert(live_set(freed) =~= Set::<int>::empty());
    if out > 0 {
        assert(freed[0]);
        assert(live_set(freed).contains(0));
    }
    assert(live_set(mark_live(freed, out)) =~= set![0int]);
}

/// A function under construction: its instructions and the allocator of its
/// slots.
#[derive(Debug)]
pub struct Function {
    name: String,
    return_type: Type,
    pub assembly: Vec<Instruction>,
    allocated: SlotAllocator,
}

impl Function {
    /// The function's name.
    pub closed spec fn name(&self) -> Seq<char> {
        self.name@
    }

    /// The function's return type.
    pub closed spec fn return_type(&self) -> Type {
        self.return_type
    }

    /// The function's instructions, in order.
    pub closed spec fn code(&self) -> Seq<Instruction> {
        self.assembly@
    }

    /// Which of the function's slots are live.
    pub closed spec fn live(&self) -> Seq<bool> {
        self.allocated@
    }

    /// An empty function: no instructions and no slots.
    pub fn new(name: String, return_type: Type) -> (r: Function)
        requires
            return_type.wf(),
        ensures
            r.name() == name@,
            r.return_type() == return_type,
            r.code() == Seq::<Instruction>::empty(),
            r.live() == Seq::<bool>::empty(),
    {
        Function { name, return_type, assembly: Vec::new(), allocated: SlotAllocator::new() }
    }

    /// Lowers `op` on two operands into one instruction. Allocated operands are
    /// consumed: their slots are released, the left one first, before the
    /// output slot is allocated, which may reuse one of them.
    pub fn binary_op(&mut self, op: BinaryOperation, lhs: Value, rhs: Value) -> (r: Value)
        requires
            operands_live(old(self).live(), lhs, rhs),
            release_operands(old(self).live(), lhs, rhs).len() < max_bits(),
        ensures
            r matches Value::Allocated(out) && {
                let freed = release_operands(old(self).live(), lhs, rhs);
                &&& is_lowest_free(freed, out as int)
                &&& final(self).live() == mark_live(freed, out as int)
                &&& final(self).code() == old(self).code().push(
                    Instruction::BinaryOp(out, op, lhs, rhs),
                )
            },
            final(self).name() == old(self).name(),
            final(self).return_type() == old(self).return_type(),
    {
        if let Value::Allocated(allocated) = lhs {
            self.drop(allocated);
        }
        if let Value::Allocated(allocated) = rhs {
            self.drop(allocated);
        }
        let output = self.allocate();
        self.assembly.push(Instruction::BinaryOp(output, op, lhs, rhs));
        Value::Allocated(output)
    }

    /// Marks the lowest slot that is not live as live and returns it, growing
    /// the slot range by one when every slot is live.
    pub fn allocate(&mut self) -> (r: usize)
        requires
            old(self).live().len() < max_bits(),
        ensures
            is_lowest_free(old(self).live(), r as int),
            final(self).live() == mark_live(old(self).live(), r as int),
            final(self).code() == old(self).code(),
            final(self).name() == old(self).name(),
            final(self).return_type() == old(self).return_type(),
    {
        self.allocated.allocate()
    }

    /// Releases a live slot.
    pub fn drop(&mut self, allocated: usize)
        requires
            is_live(old(self).live(), allocated as int),
        ensures
            final(self).live() == old(self).live().update(allocated as int, false),
            final(self).code() == old(self).code(),
            final(self).name() == old(self).name(),
            final(self).return_type() == old(self).return_type(),
    {
        self.allocated.release(allocated);
    }
}

/// An ordered collection of functions.
#[derive(Debug)]
pub struct Module {
    pub functions: Vec<Function>,
}

impl Default for Module {
    fn default() -> (r: Module)
        ensures
            r.functions@ == Seq::<Function>::empty(),
    {
        Module { functions: Vec::new() }
    }
}

/// The text of a value: `%` and the slot number, or the literal in decimal.
pub open spec fn value_text(v: Value) -> Seq<char> {
    match v {
        Value::Allocated(slot) => "%"@ + decimal(slot as nat),
        Value::Unsigned(n) => decimal(n as nat),
        Value::Integer(n) => signed_decimal(n as int),
    }
}

/// The text of a type: `void`, or `u` or `i` and the width in bits.
pub open spec fn type_text(t: Type) -> Seq<char> {
    match t {
        Type::Void => "void"@,
        Type::Unsigned(width) => "u"@ + decimal((width * 8) as nat),
        Type::Integer(width) => "i"@ + decimal((width * 8) as nat),
    }
}

/// The text of an instruction.
pub open spec fn instruction_text(ins: Instruction) -> Seq<char> {
    match ins {
        Instruction::BinaryOp(out, op, lhs, rhs) => "%"@ + decimal(out as nat) + " = "@
            + operation_mnemonic(op) + " "@ + value_text(lhs) + ", "@ + value_text(rhs),
        Instruction::Return(v) => "return "@ + value_text(v),
    }
}

/// The instructions of a function, one indented line each.
pub open spec fn body_text(code: Seq<Instruction>) -> Seq<char>
    decreases code.len(),
{
    if code.len() == 0 {
        Seq::empty()
    } else {
        body_text(code.drop_last()) + "    "@ + instruction_text(code.last()) + "\n"@
    }
}

/// The text of a function: a header line, then its instructions.
pub open spec fn function_text(f: Function) -> Seq<char> {
    "function "@ + f.name() + "() -> "@ + type_text(f.return_type()) + ":\n"@ + body_text(f.code())
}

/// The text of a sequence of functions, one after the other.
pub open spec fn functions_text(fs: Seq<Function>) -> Seq<char>
    decreases fs.len(),
{
    if fs.len() == 0 {
        Seq::empty()
    } else {
        functions_text(fs.drop_last()) + function_text(fs.last())
    }
}

impl Value {
    fn push_text(&self, out: &mut String)
        ensures
            final(out)@ == old(out)@ + value_text(*self),
    {
        match self {
            Value::Allocated(slot) => {
                out.append("%");
                push_decimal(out, *slot as u128);
                assert(final(out)@ =~= old(out)@ + value_text(*self));
            },
            Value::Unsigned(n) => push_decimal(out, *n),
            Value::Integer(n) => push_signed_decimal(out, *n),
        }
    }

    /// The value as text.
    pub fn to_string(&self) -> (r: String)
        ensures
            r@ == value_text(*self),
    {
        let mut out = String::new();
        self.push_text(&mut out);
        assert(out@ =~= value_text(*self));
        out
    }
}

impl Type {
    fn push_text(&self, out: &mut String)
        ensures
            final(out)@ == old(out)@ + type_text(*self),
    {
        match self {
            Type::Void => out.append("void"),
            Type::Unsigned(width) => {
                out.append("u");
                push_decimal(out, (*width as u128) * 8);
            },
            Type::Integer(width) => {
                out.append("i");
                push_decimal(out, (*width as u128) * 8);
            },
        }
        assert(final(out)@ =~= old(out)@ + type_text(*self));
    }

    /// The type as text.
    pub fn to_string(&self) -> (r: String)
        ensures
            r@ == type_text(*self),
    {
        let mut out = String::new();
        self.push_text(&mut out);
        assert(out@ =~= type_text(*self));
        out
    }
}

impl Instruction {
    fn push_text(&self, out: &mut String)
        ensures
            final(out)@ == old(out)@ + instruction_text(*self),
    {
        match self {
            Instruction::BinaryOp(target, op, lhs, rhs) => {
                out.append("%");
                push_decimal(out, *target as u128);
                out.append(" = ");
                out.append(op.mnemonic());
                out.append(" ");
                lhs.push_text(out);
                out.append(", ");
                rhs.push_text(out);
            },
            Instruction::Return(v) => {
                out.append("return ");
                v.push_text(out);
            },
        }
        assert(final(out)@ =~= old(out)@ + instruction_text(*self));
    }

    /// The instruction as text.
    pub fn to_string(&self) -> (r: String)
        ensures
            r@ == instruction_text(*self),
    {
        let mut out = String::new();
        self.push_text(&mut out);
        assert(out@ =~= instruction_text(*self));
        out
    }
}

impl Function {
    fn push_text(&self, out: &mut String)
        ensures
            final(out)@ == old(out)@ + function_text(*self),
    {
        out.append("function ");
        out.append(self.name.as_str());
        out.append("() -> ");
        self.return_type.push_text(out);
        out.append(":\n");
        let ghost header = out@;
        let mut i: usize = 0;
        while i < self.assembly.len()
            invariant
                i <= self.assembly@.len(),
                out@ == header + body_text(self.assembly@.subrange(0, i as int)),
            decreases self.assembly@.len() - i,
        {
            out.append("    ");
            self.assembly[i].push_text(out);
            out.append("\n");
            assert(self.assembly@.subrange(0, i + 1).drop_last() =~= self.assembly@.subrange(
                0,
                i as int,
            ));
            assert(out@ =~= header + body_text(self.assembly@.subrange(0, i + 1)));
            i = i + 1;
        }
        assert(self.assembly@.subrange(0, i as int) =~= self.assembly@);
        assert(final(out)@ =~= old(out)@ + function_text(*self));
    }

    /// The function as text: a header line, then one indented line per
    /// instruction.
    pub fn to_string(&self) -> (r: String)
        ensures
            r@ == function_text(*self),
    {
        let mut out = String::new();
        self.push_text(&mut out);
        assert(out@ =~= function_text(*self));
        out
    }
}

impl Module {
    /// The module as text: its functions, one after the other.
    pub fn to_string(&self) -> (r: String)
        ensures
            r@ == functions_text(self.functions@),
    {
        let mut out = String::new();
        let mut i: usize = 0;
        while i < self.functions.len()
            invariant
                i <= self.functions@.len(),
                out@ == functions_text(self.functions@.subrange(0, i as int)),
            decreases self.functions@.len() - i,
        {
            self.functions[i].push_text(&mut out);
            assert(self.functions@.subrange(0, i + 1).drop_last() =~= self.functions@.subrange(
                0,
                i as int,
            ));
            i = i + 1;
        }
        assert(self.functions@.subrange(0, i as int) =~= self.functions@);
        out
    }
}

/// Rendering depends on the functions alone: two renderings of the same
/// functions give the same text.
pub proof fn lemma_rendering_deterministic(fs1: Seq<Function>, fs2: Seq<Function>)
    requires
        fs1 == fs2,
    ensures
        functions_text(fs1) == functions_text(fs2),
{
}

} // verus!
