use vstd::prelude::*;

verus! {

/// An integer literal tagged with its width and signedness.
#[derive(Clone, Copy, Hash, Debug, PartialEq, Eq, Structural, PartialOrd, Ord)]
pub enum Integer {
    U8(u8),
    U16(u16),
    U32(u32),
    U64(u64),
    U128(u128),
    I8(i8),
    I16(i16),
    I32(i32),
    I64(i64),
    I128(i128),
}

/// The binary operations that a backend lowers.
#[derive(Clone, Copy, Hash, Debug, PartialEq, Eq, Structural, PartialOrd, Ord)]
pub enum BinaryOperation {
    Add,
    Subtract,
    Multiply,
    Divide,
    DivisionRemainder,
    BitwiseAnd,
    BitwiseOr,
    BitwiseXor,
    LogicalAnd,
    LogicalOr,
    ShiftLeft,
    ShiftRight,
}

/// The mnemonic of an operation.
pub open spec fn operation_mnemonic(op: BinaryOperation) -> Seq<char> {
    match op {
        BinaryOperation::Add => "add"@,
        BinaryOperation::Subtract => "sub"@,
        BinaryOperation::Multiply => "mul"@,
        BinaryOperation::Divide => "div"@,
        BinaryOperation::DivisionRemainder => "rem"@,
        BinaryOperation::BitwiseAnd => "and"@,
        BinaryOperation::BitwiseOr => "or"@,
        BinaryOperation::BitwiseXor => "xor"@,
        BinaryOperation::LogicalAnd => "land"@,
        BinaryOperation::LogicalOr => "lor"@,
        BinaryOperation::ShiftLeft => "shl"@,
        BinaryOperation::ShiftRight => "shr"@,
    }
}

impl BinaryOperation {
    /// The mnemonic of the operation.
    pub fn mnemonic(&self) -> (r: &'static str)
        ensures
            r@ == operation_mnemonic(*self),
    {
        match self {
            BinaryOperation::Add => "add",
            BinaryOperation::Subtract => "sub",
            BinaryOperation::Multiply => "mul",
            BinaryOperation::Divide => "div",
            BinaryOperation::DivisionRemainder => "rem",
            BinaryOperation::BitwiseAnd => "and",
            BinaryOperation::BitwiseOr => "or",
            BinaryOperation::BitwiseXor => "xor",
            BinaryOperation::LogicalAnd => "land",
            BinaryOperation::LogicalOr => "lor",
            BinaryOperation::ShiftLeft => "shl",
            BinaryOperation::ShiftRight => "shr",
        }
    }

    /// The mnemonic of the operation, as a `String`.
    pub fn to_string(&self) -> (r: String)
        ensures
            r@ == operation_mnemonic(*self),
    {
        String::from_str(self.mnemonic())
    }
}

/// The narrowest unsigned literal that holds `value`: 8 bits when its highest
/// set bit is among the low 8, else 16, 32, 64, and 128 bits.
pub open spec fn autosized(value: u128) -> Integer {
    if value <= 0xff {
        Integer::U8(value as u8)
    } else if value <= 0xffff {
        Integer::U16(value as u16)
    } else if value <= 0xffff_ffff {
        Integer::U32(value as u32)
    } else if value <= 0xffff_ffff_ffff_ffff {
        Integer::U64(value as u64)
    } else {
        Integer::U128(value)
    }
}

/// A code generation target: it receives literals and binary operations and
/// represents each result as a value of its own `DataType`.
pub trait Backend: Sized {
    type DataType;

    /// `r` is what lowering the literal `value` gives, taking the backend from
    /// `before` to `after`.
    spec fn lowers_integer(before: Self, after: Self, value: Integer, r: Self::DataType) -> bool;

    /// The backend can lower a binary operation whose left operand is `lhs`.
    spec fn can_lower_binary(&self, lhs: &Self::DataType) -> bool;

    /// `r` is what lowering `op` on `lhs` and `rhs` gives, taking the backend
    /// from `before` to `after`.
    spec fn lowers_binary(
        before: Self,
        after: Self,
        op: BinaryOperation,
        lhs: Self::DataType,
        rhs: Self::DataType,
        r: Self::DataType,
    ) -> bool;

    /// Lowers an integer literal.
    fn integer(&mut self, value: Integer) -> (r: Self::DataType)
        ensures
            Self::lowers_integer(*old(self), *final(self), value, r),
    ;

    /// Lowers a binary operation on two lowered operands.
    fn binary_operation(
        &mut self,
        operation: BinaryOperation,
        lhs: Self::DataType,
        rhs: Self::DataType,
    ) -> (r: Self::DataType)
        requires
            old(self).can_lower_binary(&lhs),
        ensures
            Self::lowers_binary(*old(self), *final(self), operation, lhs, rhs, r),
    ;

    /// Lowers `value` as the narrowest unsigned literal that holds it.
    fn unsigned_autosize(&mut self, value: u128) -> (r: Self::DataType)
        ensures
            Self::lowers_integer(*old(self), *final(self), autosized(value), r),
    {
        if value <= 0xff {
            self.integer(Integer::U8(value as u8))
        } else if value <= 0xffff {
            self.integer(Integer::U16(value as u16))
        } else if value <= 0xffff_ffff {
            self.integer(Integer::U32(value as u32))
        } else if value <= 0xffff_ffff_ffff_ffff {
            self.integer(Integer::U64(value as u64))
        } else {
            self.integer(Integer::U128(value))
        }
    }
}

} // verus!
