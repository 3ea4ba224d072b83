//! The closed set of types that a program's values can have once inference
//! has finished.

use vstd::prelude::*;
use crate::ident::{CallPath, Ident};

verus! {

/// The width of an unsigned integer type.
#[derive(Debug, Clone, Copy, PartialEq, Eq, Structural)]
pub enum IntegerBits {
    Eight,
    Sixteen,
    ThirtyTwo,
    SixtyFour,
}

/// A field of a struct type: its name and its resolved type.
#[derive(Debug)]
pub struct TypedStructField {
    pub name: Ident,
    pub field_type: ResolvedType,
}

/// A type-checked expression, held as its source text. The type layer carries
/// it along and never inspects it.
#[derive(Debug, Clone)]
pub struct TypedExpression {
    pub source: String,
}

/// A fully resolved type.
#[derive(Debug)]
pub enum ResolvedType {
    /// The number in a `Str` represents its size, which must be known at
    /// compile time.
    Str(u64),
    UnsignedInteger(IntegerBits),
    Boolean,
    Unit,
    Byte,
    B256,
    Struct { name: Ident, fields: Vec<TypedStructField> },
    Enum { name: Ident, variant_types: Vec<ResolvedType> },
    /// Represents the contract's type as a whole. Used for implementing
    /// traits on the contract itself, to enforce a specific type of ABI.
    /// There is one such type: any two `Contract` values are equivalent.
    Contract,
    /// Represents a type which contains methods to issue a contract call.
    /// The specific contract is identified by its ABI name; the address is a
    /// runtime value and is no part of the type's identity.
    ContractCaller { abi_name: CallPath, address: Box<TypedExpression> },
    Function { from: Box<ResolvedType>, to: Box<ResolvedType> },
    /// Used for recovering from errors in the AST.
    ErrorRecovery,
}

/// The variants whose values are copied rather than referenced.
pub open spec fn spec_is_copy_type(t: ResolvedType) -> bool {
    t is Boolean || t is Byte || t is Unit || t is UnsignedInteger
}

impl Default for ResolvedType {
    /// The neutral placeholder type: `Unit`.
    fn default() -> (r: ResolvedType)
        ensures
            r is Unit,
    {
        ResolvedType::Unit
    }
}

impl ResolvedType {
    /// Whether values of this type are passed by value.
    pub fn is_copy_type(&self) -> (r: bool)
        ensures
            r == spec_is_copy_type(*self),
    {
        matches!(
            self,
            ResolvedType::Boolean | ResolvedType::Byte | ResolvedType::Unit
                | ResolvedType::UnsignedInteger(_)
        )
    }

    /// Whether this is an unsigned integer type. `Byte` and `B256` are not
    /// numeric.
    pub fn is_numeric(&self) -> (r: bool)
        ensures
            r == (*self is UnsignedInteger),
    {
        matches!(self, ResolvedType::UnsignedInteger(_))
    }
}

} // verus!
