//! Properties of type equivalence, proved over its specification.

use vstd::prelude::*;
use crate::compile_wrapper::{fields_equivalent, types_equivalent, variants_equivalent};
use crate::ident::{CallPath, Ident};
use crate::resolved_type::{IntegerBits, ResolvedType, TypedExpression, TypedStructField};

verus! {

broadcast use vstd::std_specs::vec::axiom_vec_index_decreases;

/// Each payload-free variant (`Boolean`, `Unit`, `Byte`, `B256`) is
/// equivalent to itself and to nothing else, from either side.
pub proof fn lemma_singleton_variants(t: ResolvedType)
    ensures
        types_equivalent(ResolvedType::Boolean, t) <==> t is Boolean,
        types_equivalent(t, ResolvedType::Boolean) <==> t is Boolean,
        types_equivalent(ResolvedType::Unit, t) <==> t is Unit,
        types_equivalent(t, ResolvedType::Unit) <==> t is Unit,
        types_equivalent(ResolvedType::Byte, t) <==> t is Byte,
        types_equivalent(t, ResolvedType::Byte) <==> t is Byte,
        types_equivalent(ResolvedType::B256, t) <==> t is B256,
        types_equivalent(t, ResolvedType::B256) <==> t is B256,
{
}

/// A string type is equivalent to one of the same size and to no string type
/// of another size.
pub proof fn lemma_str_sizes(n: u64, m: u64)
    ensures
        types_equivalent(ResolvedType::Str(n), ResolvedType::Str(n)),
        n != m ==> !types_equivalent(ResolvedType::Str(n), ResolvedType::Str(m)),
{
}

/// Two unsigned integer types are equivalent exactly when their widths are
/// equal.
pub proof fn lemma_unsigned_integer_widths(w1: IntegerBits, w2: IntegerBits)
    ensures
        types_equivalent(ResolvedType::UnsignedInteger(w1), ResolvedType::UnsignedInteger(w2))
            <==> w1 == w2,
{
}

/// Struct types are nominal at the top and structural below: different
/// names, different field counts, or a difference at any one position (field
/// name or field type) make two struct types different.
pub proof fn lemma_struct_equivalence(
    n1: Ident,
    f1: Vec<TypedStructField>,
    n2: Ident,
    f2: Vec<TypedStructField>,
    i: int,
)
    ensures
        n1@ != n2@ ==> !types_equivalent(
            ResolvedType::Struct { name: n1, fields: f1 },
            ResolvedType::Struct { name: n2, fields: f2 },
        ),
        f1@.len() != f2@.len() ==> !types_equivalent(
            ResolvedType::Struct { name: n1, fields: f1 },
            ResolvedType::Struct { name: n2, fields: f2 },
        ),
        (0 <= i < f1@.len() && i < f2@.len() && (f1@[i].name@ != f2@[i].name@
            || !types_equivalent(f1@[i].field_type, f2@[i].field_type))) ==> !types_equivalent(
            ResolvedType::Struct { name: n1, fields: f1 },
            ResolvedType::Struct { name: n2, fields: f2 },
        ),
{
    if types_equivalent(
        ResolvedType::Struct { name: n1, fields: f1 },
        ResolvedType::Struct { name: n2, fields: f2 },
    ) {
        assert(fields_equivalent(f1@, f2@));
        if 0 <= i < f1@.len() {
            assert(f1@[i].name@ == f2@[i].name@);
        }
    }
}

/// Enum types compare their variant types in declaration order: swapping two
/// non-equivalent variant types gives a different type, though the name and
/// the variant types are the same.
pub proof fn lemma_enum_variant_order(
    name: Ident,
    v1: Vec<ResolvedType>,
    v2: Vec<ResolvedType>,
    i: int,
    j: int,
)
    requires
        0 <= i < v1@.len(),
        0 <= j < v1@.len(),
        v2@ == v1@.update(i, v1@[j]).update(j, v1@[i]),
        !types_equivalent(v1@[i], v1@[j]),
    ensures
        types_equivalent(
            ResolvedType::Enum { name: name, variant_types: v1 },
            ResolvedType::Enum { name: name, variant_types: v1 },
        ),
        !types_equivalent(
            ResolvedType::Enum { name: name, variant_types: v1 },
            ResolvedType::Enum { name: name, variant_types: v2 },
        ),
{
    lemma_equivalence_reflexive(ResolvedType::Enum { name: name, variant_types: v1 });
    if i == j {
        lemma_equivalence_reflexive(v1@[i]);
    }
    assert(v2@[i] == v1@[j]);
    if types_equivalent(
        ResolvedType::Enum { name: name, variant_types: v1 },
        ResolvedType::Enum { name: name, variant_types: v2 },
    ) {
        assert(variants_equivalent(v1@, v2@));
        assert(types_equivalent(v1@[i], v2@[i]));
    }
}

/// Two contract callers with the same ABI name are the same type whatever
/// their addresses.
pub proof fn lemma_contract_caller_ignores_address(
    abi1: CallPath,
    address1: Box<TypedExpression>,
    abi2: CallPath,
    address2: Box<TypedExpression>,
)
    requires
        abi1@ == abi2@,
    ensures
        types_equivalent(
            ResolvedType::ContractCaller { abi_name: abi1, address: address1 },
            ResolvedType::ContractCaller { abi_name: abi2, address: address2 },
        ),
{
}

/// The error-recovery sentinel is equivalent to itself and to nothing else,
/// from either side.
pub proof fn lemma_error_recovery(t: ResolvedType)
    ensures
        types_equivalent(ResolvedType::ErrorRecovery, t) <==> t is ErrorRecovery,
        types_equivalent(t, ResolvedType::ErrorRecovery) <==> t is ErrorRecovery,
{
}

/// The default type is equivalent to `Unit` and to no other type.
pub proof fn lemma_default_is_unit(d: ResolvedType, t: ResolvedType)
    requires
        call_ensures(<ResolvedType as Default>::default, (), d),
    ensures
        types_equivalent(d, ResolvedType::Unit),
        types_equivalent(d, t) <==> t is Unit,
        types_equivalent(t, d) <==> t is Unit,
{
}

/// Every type is equivalent to itself.
pub proof fn lemma_equivalence_reflexive(t: ResolvedType)
    ensures
        types_equivalent(t, t),
    decreases t,
{
    match t {
        ResolvedType::Struct { name, fields } => {
            assert forall|i: int| 0 <= i < fields@.len() implies (#[trigger] fields@[i]).name@
                == fields@[i].name@ && types_equivalent(
                fields@[i].field_type,
                fields@[i].field_type,
            ) by {
                lemma_equivalence_reflexive(fields@[i].field_type);
            }
            assert(fields_equivalent(fields@, fields@));
        },
        ResolvedType::Enum { name, variant_types } => {
            assert forall|i: int| 0 <= i < variant_types@.len() implies types_equivalent(
                #[trigger] variant_types@[i],
                variant_types@[i],
            ) by {
                lemma_equivalence_reflexive(variant_types@[i]);
            }
            assert(variants_equivalent(variant_types@, variant_types@));
        },
        ResolvedType::Function { from, to } => {
            lemma_equivalence_reflexive(*from);
            lemma_equivalence_reflexive(*to);
        },
        _ => {},
    }
}

/// Equivalence does not depend on the order of the two types.
pub proof fn lemma_equivalence_symmetric(a: ResolvedType, b: ResolvedType)
    ensures
        types_equivalent(a, b) ==> types_equivalent(b, a),
    decreases a,
{
    if types_equivalent(a, b) {
        match a {
            ResolvedType::Struct { name, fields } => {
                let other = b->Struct_fields;
                assert(fields_equivalent(fields@, other@));
                assert forall|i: int| 0 <= i < other@.len() implies (#[trigger] other@[i]).name@
                    == fields@[i].name@ && types_equivalent(
                    other@[i].field_type,
                    fields@[i].field_type,
                ) by {
                    lemma_equivalence_symmetric(fields@[i].field_type, other@[i].field_type);
                }
                assert(fields_equivalent(other@, fields@));
            },
            ResolvedType::Enum { name, variant_types } => {
                let other = b->Enum_variant_types;
                assert(variants_equivalent(variant_types@, other@));
                assert forall|i: int| 0 <= i < other@.len() implies types_equivalent(
                    #[trigger] other@[i],
                    variant_types@[i],
                ) by {
                    lemma_equivalence_symmetric(variant_types@[i], other@[i]);
                }
                assert(variants_equivalent(other@, variant_types@));
            },
            ResolvedType::Function { from, to } => {
                lemma_equivalence_symmetric(*from, *b->Function_from);
                lemma_equivalence_symmetric(*to, *b->Function_to);
            },
            _ => {},
        }
    }
}

/// Two types equivalent to a third are equivalent to each other.
pub proof fn lemma_equivalence_transitive(a: ResolvedType, b: ResolvedType, c: ResolvedType)
    ensures
        types_equivalent(a, b) && types_equivalent(b, c) ==> types_equivalent(a, c),
    decreases a,
{
    if types_equivalent(a, b) && types_equivalent(b, c) {
        match a {
            ResolvedType::Struct { name, fields } => {
                let mid = b->Struct_fields;
                let last = c->Struct_fields;
                assert(fields_equivalent(fields@, mid@));
                assert(fields_equivalent(mid@, last@));
                assert forall|i: int| 0 <= i < fields@.len() implies (#[trigger] fields@[i]).name@
                    == last@[i].name@ && types_equivalent(
                    fields@[i].field_type,
                    last@[i].field_type,
                ) by {
                    assert(mid@[i].name@ == last@[i].name@);
                    lemma_equivalence_transitive(
                        fields@[i].field_type,
                        mid@[i].field_type,
                        last@[i].field_type,
                    );
                }
                assert(fields_equivalent(fields@, last@));
            },
            ResolvedType::Enum { name, variant_types } => {
                let mid = b->Enum_variant_types;
                let last = c->Enum_variant_types;
                assert(variants_equivalent(variant_types@, mid@));
                assert(variants_equivalent(mid@, last@));
                assert forall|i: int| 0 <= i < variant_types@.len() implies types_equivalent(
                    #[trigger] variant_types@[i],
                    last@[i],
                ) by {
                    assert(types_equivalent(mid@[i], last@[i]));
                    lemma_equivalence_transitive(variant_types@[i], mid@[i], last@[i]);
                }
                assert(variants_equivalent(variant_types@, last@));
            },
            ResolvedType::Function { from, to } => {
                lemma_equivalence_transitive(*from, *b->Function_from, *c->Function_from);
                lemma_equivalence_transitive(*to, *b->Function_to, *c->Function_to);
            },
            _ => {},
        }
    }
}

} // verus!
