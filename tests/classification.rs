use resolved_types::{
    CallPath, DeclarationEngine, Ident, IntegerBits, ResolvedType, ToCompileWrapper,
    TypedExpression, TypedStructField,
};

fn ident(s: &str) -> Ident {
    Ident::new(s.to_string())
}

fn all_variants() -> Vec<ResolvedType> {
    vec![
        ResolvedType::Str(3),
        ResolvedType::UnsignedInteger(IntegerBits::Eight),
        ResolvedType::UnsignedInteger(IntegerBits::Sixteen),
        ResolvedType::UnsignedInteger(IntegerBits::ThirtyTwo),
        ResolvedType::UnsignedInteger(IntegerBits::SixtyFour),
        ResolvedType::Boolean,
        ResolvedType::Unit,
        ResolvedType::Byte,
        ResolvedType::B256,
        ResolvedType::Struct {
            name: ident("S"),
            fields: vec![TypedStructField { name: ident("a"), field_type: ResolvedType::Byte }],
        },
        ResolvedType::Enum { name: ident("E"), variant_types: vec![ResolvedType::Unit] },
        ResolvedType::Contract,
        ResolvedType::ContractCaller {
            abi_name: CallPath::new(vec![], ident("Abi")),
            address: Box::new(TypedExpression { source: "addr".to_string() }),
        },
        ResolvedType::Function {
            from: Box::new(ResolvedType::Unit),
            to: Box::new(ResolvedType::Unit),
        },
        ResolvedType::ErrorRecovery,
    ]
}

#[test]
fn copy_types() {
    for t in all_variants().iter() {
        let expected = matches!(
            t,
            ResolvedType::Boolean
                | ResolvedType::Byte
                | ResolvedType::Unit
                | ResolvedType::UnsignedInteger(_)
        );
        assert_eq!(t.is_copy_type(), expected, "{:?}", t);
    }
    assert!(!ResolvedType::ErrorRecovery.is_copy_type());
    assert!(!ResolvedType::B256.is_copy_type());
    assert!(!ResolvedType::Str(1).is_copy_type());
}

#[test]
fn numeric_types() {
    for t in all_variants().iter() {
        let expected = matches!(t, ResolvedType::UnsignedInteger(_));
        assert_eq!(t.is_numeric(), expected, "{:?}", t);
    }
    assert!(!ResolvedType::Byte.is_numeric());
    assert!(!ResolvedType::B256.is_numeric());
}

#[test]
fn default_is_unit_only() {
    let de = DeclarationEngine;
    let d = ResolvedType::default();
    assert!(matches!(d, ResolvedType::Unit));
    for t in all_variants().iter() {
        let expected = matches!(t, ResolvedType::Unit);
        assert_eq!(d.wrap(&de) == t.wrap(&de), expected, "{:?}", t);
    }
}
