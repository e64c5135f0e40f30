//! Type system behaviour: equality, subtyping, intersection and the
//! container-insertion guards.

use styxc::types::{
    equate_primitives, equate_types, is_primitive, is_subtype, type_from_name,
    validate_array_insertion, validate_intersection, validate_map_insertion,
    validate_set_insertion, Type, TypeError,
};

#[test]
fn type_equality() {
    assert!(equate_types(&Type::Int, &Type::Int));
}

#[test]
fn union_inclusion() {
    assert!(is_subtype(
        &Type::Int,
        &Type::Union(vec![Type::Int, Type::Float])
    ));
}

#[test]
fn subtyping_is_irreflexive() {
    assert!(!is_subtype(&Type::Int, &Type::Int));
    let union = Type::Union(vec![Type::Int, Type::Float]);
    assert!(!is_subtype(&union, &union.clone()));
}

#[test]
fn subtyping_needs_a_union_member() {
    assert!(!is_subtype(&Type::Bool, &Type::Union(vec![Type::Int, Type::Float])));
    assert!(!is_subtype(&Type::Int, &Type::Float));
}

#[test]
fn intersection_of_equal_types() {
    assert_eq!(Type::Int.intersect(Type::Int), Type::Int);
    assert_eq!(
        Type::Union(vec![Type::Int, Type::Float]).intersect(Type::Union(vec![
            Type::Int,
            Type::Float
        ])),
        Type::Union(vec![Type::Int, Type::Float])
    );
}

#[test]
fn intersection_of_unequal_types_is_never() {
    assert_eq!(Type::Int.intersect(Type::Float), Type::Never);
    assert_eq!(
        Type::Array(Box::new(Type::Int)).intersect(Type::Array(Box::new(Type::Bool))),
        Type::Never
    );
}

#[test]
fn structural_equality_recurses() {
    let a = Type::MapOf(Box::new(Type::String), Box::new(Type::Array(Box::new(Type::Int))));
    let b = Type::MapOf(Box::new(Type::String), Box::new(Type::Array(Box::new(Type::Int))));
    assert!(equate_types(&a, &b));
    let c = Type::MapOf(Box::new(Type::String), Box::new(Type::Array(Box::new(Type::Bool))));
    assert!(!equate_types(&a, &c));
    assert!(equate_types(
        &Type::Reference("Point".to_string()),
        &Type::Reference("Point".to_string())
    ));
    assert!(!equate_types(
        &Type::Reference("Point".to_string()),
        &Type::Reference("Line".to_string())
    ));
}

#[test]
fn primitive_checks() {
    assert!(is_primitive(&Type::Int));
    assert!(is_primitive(&Type::Float));
    assert!(is_primitive(&Type::Bool));
    assert!(is_primitive(&Type::String));
    assert!(!is_primitive(&Type::Char));
    assert!(!is_primitive(&Type::Unit));
    assert!(equate_primitives(&Type::Bool, &Type::Bool));
    assert!(!equate_primitives(&Type::Int, &Type::Float));
    assert!(!equate_primitives(&Type::Char, &Type::Char));
}

#[test]
fn intersection_validation() {
    let fine = Type::Intersection(vec![
        Type::Reference("Reader".to_string()),
        Type::Reference("Writer".to_string()),
    ]);
    assert_eq!(validate_intersection(&fine), Ok(()));

    let with_primitive = Type::Intersection(vec![Type::Reference("Reader".to_string()), Type::Int]);
    assert_eq!(
        validate_intersection(&with_primitive),
        Err(TypeError::PrimitiveIntersection)
    );

    assert_eq!(
        validate_intersection(&Type::Int),
        Err(TypeError::NotAnIntersection)
    );
}

#[test]
fn type_error_messages() {
    assert_eq!(
        TypeError::PrimitiveIntersection.message(),
        "cannot compute the intersection type of primitives"
    );
    assert_eq!(
        TypeError::NotAnIntersection.message(),
        "cannot validate a type that is not an intersection type"
    );
}

#[test]
fn container_insertion_guards() {
    // The declared key and value types accept a candidate through the
    // subtype relation, with the declared type as its left side.
    let map = Type::MapOf(Box::new(Type::Int), Box::new(Type::Bool));
    assert!(validate_map_insertion(
        &Type::Union(vec![Type::Int, Type::Float]),
        &Type::Union(vec![Type::Bool, Type::Char]),
        &map
    ));
    assert!(!validate_map_insertion(&Type::Int, &Type::Bool, &map));
    assert!(!validate_map_insertion(&Type::Int, &Type::Bool, &Type::Int));

    let set = Type::SetOf(Box::new(Type::Int));
    assert!(!validate_set_insertion(&Type::Int, &set));
    assert!(validate_set_insertion(
        &Type::Union(vec![Type::Int, Type::Float]),
        &set
    ));
    assert!(!validate_set_insertion(&Type::Int, &Type::Bool));

    let array = Type::Array(Box::new(Type::Int));
    assert!(validate_array_insertion(
        &Type::Union(vec![Type::Int, Type::Float]),
        &array
    ));
    assert!(!validate_array_insertion(&Type::Bool, &array));
    assert!(!validate_array_insertion(&Type::Int, &Type::Unit));
}

#[test]
fn type_names_resolve() {
    assert_eq!(type_from_name("()"), Type::Unit);
    assert_eq!(type_from_name("bool"), Type::Bool);
    assert_eq!(type_from_name("char"), Type::Char);
    assert_eq!(type_from_name("float"), Type::Float);
    assert_eq!(type_from_name("int"), Type::Int);
    assert_eq!(type_from_name("str"), Type::String);
    assert_eq!(
        type_from_name("Point"),
        Type::Reference("Point".to_string())
    );
}
