//! Context-bound views and the structural equivalence of resolved types.

use vstd::prelude::*;
use crate::resolved_type::{ResolvedType, TypedStructField};

verus! {

broadcast use vstd::std_specs::vec::axiom_vec_index_decreases;

/// The shared compilation context that resolves declaration names. The type
/// layer only borrows it: by the time types are compared, field and variant
/// lists are concrete, so a comparison reads nothing from it and passes the
/// same reference down to every nested comparison.
#[derive(Debug)]
pub struct DeclarationEngine;

/// A value paired with a borrowed reference to the compilation context.
pub struct CompileWrapper<'a, T> {
    pub inner: &'a T,
    pub declaration_engine: &'a DeclarationEngine,
}

/// Binds a value to a compilation context.
pub trait ToCompileWrapper: Sized {
    fn wrap<'a>(&'a self, de: &'a DeclarationEngine) -> (r: CompileWrapper<'a, Self>)
        ensures
            r.inner == self,
            r.declaration_engine == de,
    ;
}

impl<T> ToCompileWrapper for T {
    fn wrap<'a>(&'a self, de: &'a DeclarationEngine) -> (r: CompileWrapper<'a, T>) {
        CompileWrapper { inner: self, declaration_engine: de }
    }
}

/// When two resolved types denote the same type. `Struct` and `Enum` are
/// nominal at the top and structural below; a `ContractCaller` is identified
/// by its ABI name alone; `Contract` is a single type; any two different
/// variants are different types.
pub open spec fn types_equivalent(a: ResolvedType, b: ResolvedType) -> bool
    decreases a,
{
    match a {
        ResolvedType::Str(l) => b is Str && b->Str_0 == l,
        ResolvedType::UnsignedInteger(l) => b is UnsignedInteger && b->UnsignedInteger_0 == l,
        ResolvedType::Boolean => b is Boolean,
        ResolvedType::Unit => b is Unit,
        ResolvedType::Byte => b is Byte,
        ResolvedType::B256 => b is B256,
        ResolvedType::Struct { name, fields } => {
            &&& b is Struct
            &&& name@ == b->Struct_name@
            &&& fields_equivalent(fields@, b->Struct_fields@)
        },
        ResolvedType::Enum { name, variant_types } => {
            &&& b is Enum
            &&& name@ == b->Enum_name@
            &&& variants_equivalent(variant_types@, b->Enum_variant_types@)
        },
        ResolvedType::Contract => b is Contract,
        ResolvedType::ContractCaller { abi_name, .. } => {
            b is ContractCaller && abi_name@ == b->ContractCaller_abi_name@
        },
        ResolvedType::Function { from, to } => {
            &&& b is Function
            &&& types_equivalent(*from, *b->Function_from)
            &&& types_equivalent(*to, *b->Function_to)
        },
        ResolvedType::ErrorRecovery => b is ErrorRecovery,
    }
}

/// Two field lists match when they have the same length and, position by
/// position, the same field name and equivalent field types.
pub open spec fn fields_equivalent(l: Seq<TypedStructField>, r: Seq<TypedStructField>) -> bool
    decreases l,
{
    &&& l.len() == r.len()
    &&& forall|i: int|
        0 <= i < l.len() ==> (#[trigger] l[i]).name@ == r[i].name@ && types_equivalent(
            l[i].field_type,
            r[i].field_type,
        )
}

/// Two variant-type lists match when they have the same length and are
/// equivalent position by position.
pub open spec fn variants_equivalent(l: Seq<ResolvedType>, r: Seq<ResolvedType>) -> bool
    decreases l,
{
    &&& l.len() == r.len()
    &&& forall|i: int| 0 <= i < l.len() ==> types_equivalent(#[trigger] l[i], r[i])
}

impl<'a> CompileWrapper<'a, ResolvedType> {
    /// Decides whether the two types are the same type. Nested types are
    /// compared bound to this view's context.
    pub fn equivalent(&self, other: &CompileWrapper<'_, ResolvedType>) -> (r: bool)
        ensures
            r == types_equivalent(*self.inner, *other.inner),
        decreases *self.inner,
    {
        let de = self.declaration_engine;
        match (self.inner, other.inner) {
            (ResolvedType::Str(l), ResolvedType::Str(r)) => *l == *r,
            (ResolvedType::UnsignedInteger(l), ResolvedType::UnsignedInteger(r)) => *l == *r,
            (ResolvedType::Boolean, ResolvedType::Boolean) => true,
            (ResolvedType::Unit, ResolvedType::Unit) => true,
            (ResolvedType::Byte, ResolvedType::Byte) => true,
            (ResolvedType::B256, ResolvedType::B256) => true,
            (
                ResolvedType::Struct { name: l_name, fields: l_fields },
                ResolvedType::Struct { name: r_name, fields: r_fields },
            ) => *l_name == *r_name && l_fields.wrap(de).fields_equivalent(&r_fields.wrap(de)),
            (
                ResolvedType::Enum { name: l_name, variant_types: l_variant_types },
                ResolvedType::Enum { name: r_name, variant_types: r_variant_types },
            ) => {
                *l_name == *r_name
                    && l_variant_types.wrap(de).variants_equivalent(&r_variant_types.wrap(de))
            },
            (ResolvedType::Contract, ResolvedType::Contract) => true,
            (
                ResolvedType::ContractCaller { abi_name: l_name, .. },
                ResolvedType::ContractCaller { abi_name: r_name, .. },
            ) => *l_name == *r_name,
            (
                ResolvedType::Function { from: l_from, to: l_to },
                ResolvedType::Function { from: r_from, to: r_to },
            ) => {
                (**l_from).wrap(de).equivalent(&(**r_from).wrap(de))
                    && (**l_to).wrap(de).equivalent(&(**r_to).wrap(de))
            },
            (ResolvedType::ErrorRecovery, ResolvedType::ErrorRecovery) => true,
            _ => false,
        }
    }
}

impl<'a> CompileWrapper<'a, Vec<TypedStructField>> {
    /// Compares two field lists position by position: names, then types bound
    /// to this view's context.
    pub fn fields_equivalent(
        &self,
        other: &CompileWrapper<'_, Vec<TypedStructField>>,
    ) -> (r: bool)
        ensures
            r == fields_equivalent(self.inner@, other.inner@),
        decreases *self.inner,
    {
        let de = self.declaration_engine;
        let l = self.inner;
        let r = other.inner;
        if l.len() != r.len() {
            return false;
        }
        let mut i: usize = 0;
        while i < l.len()
            invariant
                l.len() == r.len(),
                0 <= i <= l.len(),
                l == self.inner,
                r == other.inner,
                forall|j: int|
                    0 <= j < i ==> (#[trigger] l@[j]).name@ == r@[j].name@ && types_equivalent(
                        l@[j].field_type,
                        r@[j].field_type,
                    ),
            decreases l.len() - i,
        {
            if l[i].name != r[i].name {
                return false;
            }
            if !l[i].field_type.wrap(de).equivalent(&r[i].field_type.wrap(de)) {
                return false;
            }
            i = i + 1;
        }
        true
    }
}

impl<'a> CompileWrapper<'a, Vec<ResolvedType>> {
    /// Compares two variant-type lists position by position, each bound to
    /// this view's context.
    pub fn variants_equivalent(
        &self,
        other: &CompileWrapper<'_, Vec<ResolvedType>>,
    ) -> (r: bool)
        ensures
            r == variants_equivalent(self.inner@, other.inner@),
        decreases *self.inner,
    {
        let de = self.declaration_engine;
        let l = self.inner;
        let r = other.inner;
        if l.len() != r.len() {
            return false;
        }
        let mut i: usize = 0;
        while i < l.len()
            invariant
                l.len() == r.len(),
                0 <= i <= l.len(),
                l == self.inner,
                r == other.inner,
                forall|j: int| 0 <= j < i ==> types_equivalent(#[trigger] l@[j], r@[j]),
            decreases l.len() - i,
        {
            if !l[i].wrap(de).equivalent(&r[i].wrap(de)) {
                return false;
            }
            i = i + 1;
        }
        true
    }
}

impl PartialEq for CompileWrapper<'_, ResolvedType> {
    fn eq(&self, other: &Self) -> (r: bool)
        ensures
            r == types_equivalent(*self.inner, *other.inner),
    {
        self.equivalent(other)
    }
}

impl vstd::std_specs::cmp::PartialEqSpecImpl for CompileWrapper<'_, ResolvedType> {
    open spec fn obeys_eq_spec() -> bool {
        true
    }

    open spec fn eq_spec(&self, other: &Self) -> bool {
        types_equivalent(*self.inner, *other.inner)
    }
}

impl PartialEq for CompileWrapper<'_, Vec<TypedStructField>> {
    fn eq(&self, other: &Self) -> (r: bool)
        ensures
            r == fields_equivalent(self.inner@, other.inner@),
    {
        self.fields_equivalent(other)
    }
}

impl vstd::std_specs::cmp::PartialEqSpecImpl for CompileWrapper<'_, Vec<TypedStructField>> {
    open spec fn obeys_eq_spec() -> bool {
        true
    }

    open spec fn eq_spec(&self, other: &Self) -> bool {
        fields_equivalent(self.inner@, other.inner@)
    }
}

} // verus!
