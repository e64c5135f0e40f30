//! The structural type system: a closed set of type variants together with
//! pure operations for equality, subtyping, intersection and
//! container-insertion validity checks.

use vstd::prelude::*;

verus! {

use crate::text::str_eq;

/// The closed set of types the language knows about.
#[derive(Debug)]
pub enum Type {
    /// A 64-bit integer type.
    Int,
    /// A 64-bit floating point type.
    Float,
    /// A boolean type.
    Bool,
    /// A character type.
    Char,
    /// A string type.
    String,
    /// A tuple type.
    Tuple(Vec<Type>),
    /// An array type.
    Array(Box<Type>),
    /// A map type.
    MapOf(Box<Type>, Box<Type>),
    /// A set type.
    SetOf(Box<Type>),
    /// An optional type.
    Optional(Box<Type>),
    /// A union of types.
    Union(Vec<Type>),
    /// An intersection of types.
    Intersection(Vec<Type>),
    /// A type already referred to further up the same type expression.
    Circular(Box<Type>),
    /// A function type: argument types and a return type.
    Func(Vec<Type>, Box<Type>),
    /// A reference to a named type.
    Reference(String),
    /// The unit type.
    Unit,
    /// A type that has yet to be inferred.
    Infer,
    /// A type that can never occur.
    Never,
}

/// Structural equality on types: two types are equal when they are the same
/// variant and all corresponding children are (recursively) equal.
pub open spec fn type_eq(a: Type, b: Type) -> bool
    decreases a,
{
    match (a, b) {
        (Type::Int, Type::Int) => true,
        (Type::Float, Type::Float) => true,
        (Type::Bool, Type::Bool) => true,
        (Type::Char, Type::Char) => true,
        (Type::String, Type::String) => true,
        (Type::Unit, Type::Unit) => true,
        (Type::Infer, Type::Infer) => true,
        (Type::Never, Type::Never) => true,
        (Type::Tuple(xs), Type::Tuple(ys)) => seq_type_eq(xs@, ys@),
        (Type::Array(x), Type::Array(y)) => type_eq(*x, *y),
        (Type::MapOf(xk, xv), Type::MapOf(yk, yv)) => type_eq(*xk, *yk) && type_eq(*xv, *yv),
        (Type::SetOf(x), Type::SetOf(y)) => type_eq(*x, *y),
        (Type::Optional(x), Type::Optional(y)) => type_eq(*x, *y),
        (Type::Union(xs), Type::Union(ys)) => seq_type_eq(xs@, ys@),
        (Type::Intersection(xs), Type::Intersection(ys)) => seq_type_eq(xs@, ys@),
        (Type::Circular(x), Type::Circular(y)) => type_eq(*x, *y),
        (Type::Func(xs, xr), Type::Func(ys, yr)) => seq_type_eq(xs@, ys@) && type_eq(*xr, *yr),
        (Type::Reference(x), Type::Reference(y)) => x@ == y@,
        _ => false,
    }
}

/// Pointwise structural equality of two type sequences.
pub open spec fn seq_type_eq(xs: Seq<Type>, ys: Seq<Type>) -> bool
    decreases xs,
{
    xs.len() == ys.len() && (forall|i: int| 0 <= i < xs.len() ==> type_eq(xs[i], ys[i]))
}

/// Whether a type is one of the four primitives that take part in primitive
/// equality: integers, floats, booleans and strings.
pub open spec fn spec_is_primitive(t: Type) -> bool {
    match t {
        Type::Int | Type::Float | Type::Bool | Type::String => true,
        _ => false,
    }
}

/// Test if type `t` is a primitive.
pub fn is_primitive(t: &Type) -> (r: bool)
    ensures
        r == spec_is_primitive(*t),
{
    match t {
        Type::Int | Type::Float | Type::Bool | Type::String => true,
        _ => false,
    }
}

/// Test if two primitive types are equal; any pairing that is not two
/// identical primitives is unequal.
pub fn equate_primitives(a: &Type, b: &Type) -> (r: bool)
    ensures
        r == (spec_is_primitive(*a) && spec_is_primitive(*b) && type_eq(*a, *b)),
{
    match (a, b) {
        (Type::Int, Type::Int) => true,
        (Type::Float, Type::Float) => true,
        (Type::Bool, Type::Bool) => true,
        (Type::String, Type::String) => true,
        _ => false,
    }
}

/// Test if type `a` is equal to type `b`: the same variant with
/// (recursively) equal children, and false for any other pairing.
pub fn equate_types(a: &Type, b: &Type) -> (r: bool)
    ensures
        r == type_eq(*a, *b),
    decreases *a,
{
    match (a, b) {
        (Type::Int, Type::Int) => true,
        (Type::Float, Type::Float) => true,
        (Type::Bool, Type::Bool) => true,
        (Type::Char, Type::Char) => true,
        (Type::String, Type::String) => true,
        (Type::Unit, Type::Unit) => true,
        (Type::Infer, Type::Infer) => true,
        (Type::Never, Type::Never) => true,
        (Type::Tuple(xs), Type::Tuple(ys)) => equate_type_seqs(xs, ys),
        (Type::Array(x), Type::Array(y)) => equate_types(x, y),
        (Type::MapOf(xk, xv), Type::MapOf(yk, yv)) => equate_types(xk, yk) && equate_types(
            xv,
            yv,
        ),
        (Type::SetOf(x), Type::SetOf(y)) => equate_types(x, y),
        (Type::Optional(x), Type::Optional(y)) => equate_types(x, y),
        (Type::Union(xs), Type::Union(ys)) => equate_type_seqs(xs, ys),
        (Type::Intersection(xs), Type::Intersection(ys)) => equate_type_seqs(xs, ys),
        (Type::Circular(x), Type::Circular(y)) => equate_types(x, y),
        (Type::Func(xs, xr), Type::Func(ys, yr)) => equate_type_seqs(xs, ys) && equate_types(
            xr,
            yr,
        ),
        (Type::Reference(x), Type::Reference(y)) => *x == *y,
        _ => false,
    }
}

/// Pointwise equality of the members of two type lists.
fn equate_type_seqs(xs: &Vec<Type>, ys: &Vec<Type>) -> (r: bool)
    ensures
        r == seq_type_eq(xs@, ys@),
    decreases xs@,
{
    if xs.len() != ys.len() {
        return false;
    }
    let mut i: usize = 0;
    while i < xs.len()
        invariant
            i <= xs@.len(),
            xs@.len() == ys@.len(),
            forall|j: int| 0 <= j < i ==> type_eq(xs@[j], ys@[j]),
        decreases xs@.len() - i,
    {
        if !equate_types(&xs[i], &ys[i]) {
            return false;
        }
        i += 1;
    }
    true
}

/// What `is_subtype` computes: `a` is included in `b` exactly when the two
/// are unequal and `b` is a union with a member equal to `a`. The relation
/// is deliberately irreflexive: a type is never a subtype of itself.
pub open spec fn spec_is_subtype(a: Type, b: Type) -> bool {
    !type_eq(a, b) && match b {
        Type::Union(ts) => exists|i: int| 0 <= i < ts@.len() && type_eq(a, ts@[i]),
        _ => false,
    }
}

/// Test if one type is included within another. Can be used to test for
/// extension.
pub fn is_subtype(a: &Type, b: &Type) -> (r: bool)
    ensures
        r == spec_is_subtype(*a, *b),
{
    if equate_types(a, b) {
        return false;
    }
    match b {
        Type::Union(ts) => {
            let mut i: usize = 0;
            while i < ts.len()
                invariant
                    i <= ts@.len(),
                    !type_eq(*a, *b),
                    *b == Type::Union(*ts),
                    forall|j: int| 0 <= j < i ==> !type_eq(*a, ts@[j]),
                decreases ts@.len() - i,
            {
                if equate_types(a, &ts[i]) {
                    proof {
                        assert((*b)->Union_0@ == ts@);
                        assert(exists|k: int|
                            0 <= k < (*b)->Union_0@.len() && type_eq(*a, (*b)->Union_0@[k])) by {
                            assert(0 <= i < (*b)->Union_0@.len() && type_eq(
                                *a,
                                (*b)->Union_0@[i as int],
                            ));
                        }
                        assert(spec_is_subtype(*a, *b));
                    }
                    return true;
                }
                i += 1;
            }
            false
        },
        _ => false,
    }
}

/// What `Type::intersect` computes: the left type when the two are equal,
/// and `Never` for every other pairing.
pub open spec fn spec_intersect(a: Type, b: Type) -> Type {
    if type_eq(a, b) {
        a
    } else {
        Type::Never
    }
}

impl Type {
    /// Compute the intersection of this type with another.
    pub fn intersect(self, other: Type) -> (r: Type)
        ensures
            r == spec_intersect(self, other),
    {
        if equate_types(&self, &other) {
            return self;
        }
        Type::Never
    }
}

/// The ways a type-system operation can be misused.
#[derive(Debug, PartialEq, Eq, Structural, Clone, Copy)]
pub enum TypeError {
    /// An intersection type contained a primitive member; primitives cannot
    /// be intersected.
    PrimitiveIntersection,
    /// Intersection validation was asked of a type that is not an
    /// intersection type at all.
    NotAnIntersection,
}

impl TypeError {
    /// A human-readable description of the misuse.
    pub fn message(&self) -> (r: String)
        ensures
            *self is PrimitiveIntersection ==> r@ == "cannot compute the intersection type of primitives"@,
            *self is NotAnIntersection ==> r@ == "cannot validate a type that is not an intersection type"@,
    {
        match self {
            TypeError::PrimitiveIntersection => String::from_str(
                "cannot compute the intersection type of primitives",
            ),
            TypeError::NotAnIntersection => String::from_str(
                "cannot validate a type that is not an intersection type",
            ),
        }
    }
}

/// Test if an intersection type is valid: none of its members may be a
/// primitive. Calling this on anything but an intersection type is itself
/// an error.
pub fn validate_intersection(t: &Type) -> (r: Result<(), TypeError>)
    ensures
        match *t {
            Type::Intersection(ts) => match r {
                Ok(()) => forall|i: int| 0 <= i < ts@.len() ==> !spec_is_primitive(ts@[i]),
                Err(e) => e == TypeError::PrimitiveIntersection && exists|i: int|
                    0 <= i < ts@.len() && spec_is_primitive(ts@[i]),
            },
            _ => r == Err::<(), TypeError>(TypeError::NotAnIntersection),
        },
{
    match t {
        Type::Intersection(ts) => {
            let mut i: usize = 0;
            while i < ts.len()
                invariant
                    i <= ts@.len(),
                    *t == Type::Intersection(*ts),
                    forall|j: int| 0 <= j < i ==> !spec_is_primitive(ts@[j]),
                decreases ts@.len() - i,
            {
                if is_primitive(&ts[i]) {
                    proof {
                        assert((*t)->Intersection_0@ == ts@);
                        assert(exists|k: int|
                            0 <= k < (*t)->Intersection_0@.len() && spec_is_primitive(
                                (*t)->Intersection_0@[k],
                            )) by {
                            assert(0 <= i < (*t)->Intersection_0@.len() && spec_is_primitive(
                                (*t)->Intersection_0@[i as int],
                            ));
                        }
                    }
                    return Err(TypeError::PrimitiveIntersection);
                }
                i += 1;
            }
            Ok(())
        },
        _ => Err(TypeError::NotAnIntersection),
    }
}

/// Validate if a key/value pairing is valid for insertion into a map type:
/// the map's declared key and value types must each accept the candidate
/// via the subtype relation.
pub fn validate_map_insertion(k: &Type, v: &Type, map: &Type) -> (r: bool)
    ensures
        r == match *map {
            Type::MapOf(key, value) => spec_is_subtype(*key, *k) && spec_is_subtype(*value, *v),
            _ => false,
        },
{
    match map {
        Type::MapOf(key, value) => is_subtype(key, k) && is_subtype(value, v),
        _ => false,
    }
}

/// Validate if a value type is valid for insertion into a set type.
pub fn validate_set_insertion(v: &Type, set: &Type) -> (r: bool)
    ensures
        r == match *set {
            Type::SetOf(value) => spec_is_subtype(*value, *v),
            _ => false,
        },
{
    match set {
        Type::SetOf(value) => is_subtype(value, v),
        _ => false,
    }
}

/// Validate if a value type is valid for insertion into an array type.
pub fn validate_array_insertion(v: &Type, array: &Type) -> (r: bool)
    ensures
        r == match *array {
            Type::Array(value) => spec_is_subtype(*value, *v),
            _ => false,
        },
{
    match array {
        Type::Array(value) => is_subtype(value, v),
        _ => false,
    }
}

impl Clone for Type {
    /// A deep copy; the copy is structurally equal to the original.
    fn clone(&self) -> (r: Self)
        ensures
            type_eq(r, *self),
        decreases *self,
    {
        match self {
            Type::Int => Type::Int,
            Type::Float => Type::Float,
            Type::Bool => Type::Bool,
            Type::Char => Type::Char,
            Type::String => Type::String,
            Type::Unit => Type::Unit,
            Type::Infer => Type::Infer,
            Type::Never => Type::Never,
            Type::Tuple(xs) => Type::Tuple(clone_type_seq(xs)),
            Type::Array(x) => Type::Array(Box::new((**x).clone())),
            Type::MapOf(k, v) => Type::MapOf(Box::new((**k).clone()), Box::new((**v).clone())),
            Type::SetOf(x) => Type::SetOf(Box::new((**x).clone())),
            Type::Optional(x) => Type::Optional(Box::new((**x).clone())),
            Type::Union(xs) => Type::Union(clone_type_seq(xs)),
            Type::Intersection(xs) => Type::Intersection(clone_type_seq(xs)),
            Type::Circular(x) => Type::Circular(Box::new((**x).clone())),
            Type::Func(xs, ret) => Type::Func(clone_type_seq(xs), Box::new((**ret).clone())),
            Type::Reference(n) => Type::Reference(n.clone()),
        }
    }
}

/// Deep-copy a list of types member by member.
fn clone_type_seq(xs: &Vec<Type>) -> (r: Vec<Type>)
    ensures
        seq_type_eq(r@, xs@),
    decreases xs@,
{
    let mut out: Vec<Type> = Vec::new();
    let mut i: usize = 0;
    while i < xs.len()
        invariant
            i <= xs@.len(),
            out@.len() == i,
            forall|j: int| 0 <= j < i ==> type_eq(out@[j], xs@[j]),
        decreases xs@.len() - i,
    {
        out.push(xs[i].clone());
        i += 1;
    }
    out
}

impl PartialEq for Type {
    /// `==` on types is structural equality.
    fn eq(&self, other: &Type) -> (r: bool) {
        equate_types(self, other)
    }
}

impl vstd::std_specs::cmp::PartialEqSpecImpl for Type {
    open spec fn obeys_eq_spec() -> bool {
        true
    }

    open spec fn eq_spec(&self, other: &Type) -> bool {
        type_eq(*self, *other)
    }
}

/// Structural equality is reflexive: every type equals itself.
pub proof fn lemma_type_eq_reflexive(a: Type)
    ensures
        type_eq(a, a),
    decreases a,
{
    match a {
        Type::Tuple(xs) => lemma_seq_type_eq_reflexive(xs@),
        Type::Array(x) => lemma_type_eq_reflexive(*x),
        Type::MapOf(k, v) => {
            lemma_type_eq_reflexive(*k);
            lemma_type_eq_reflexive(*v);
        },
        Type::SetOf(x) => lemma_type_eq_reflexive(*x),
        Type::Optional(x) => lemma_type_eq_reflexive(*x),
        Type::Union(xs) => lemma_seq_type_eq_reflexive(xs@),
        Type::Intersection(xs) => lemma_seq_type_eq_reflexive(xs@),
        Type::Circular(x) => lemma_type_eq_reflexive(*x),
        Type::Func(xs, ret) => {
            lemma_seq_type_eq_reflexive(xs@);
            lemma_type_eq_reflexive(*ret);
        },
        _ => {},
    }
}

/// Pointwise structural equality is reflexive.
pub proof fn lemma_seq_type_eq_reflexive(xs: Seq<Type>)
    ensures
        seq_type_eq(xs, xs),
    decreases xs,
{
    assert forall|i: int| 0 <= i < xs.len() implies type_eq(xs[i], xs[i]) by {
        lemma_type_eq_reflexive(xs[i]);
    }
}

/// Structural equality is symmetric.
pub proof fn lemma_type_eq_symmetric(a: Type, b: Type)
    ensures
        type_eq(a, b) == type_eq(b, a),
    decreases a,
{
    match (a, b) {
        (Type::Tuple(xs), Type::Tuple(ys)) => lemma_seq_type_eq_symmetric(xs@, ys@),
        (Type::Array(x), Type::Array(y)) => lemma_type_eq_symmetric(*x, *y),
        (Type::MapOf(xk, xv), Type::MapOf(yk, yv)) => {
            lemma_type_eq_symmetric(*xk, *yk);
            lemma_type_eq_symmetric(*xv, *yv);
        },
        (Type::SetOf(x), Type::SetOf(y)) => lemma_type_eq_symmetric(*x, *y),
        (Type::Optional(x), Type::Optional(y)) => lemma_type_eq_symmetric(*x, *y),
        (Type::Union(xs), Type::Union(ys)) => lemma_seq_type_eq_symmetric(xs@, ys@),
        (Type::Intersection(xs), Type::Intersection(ys)) => lemma_seq_type_eq_symmetric(xs@, ys@),
        (Type::Circular(x), Type::Circular(y)) => lemma_type_eq_symmetric(*x, *y),
        (Type::Func(xs, xr), Type::Func(ys, yr)) => {
            lemma_seq_type_eq_symmetric(xs@, ys@);
            lemma_type_eq_symmetric(*xr, *yr);
        },
        _ => {},
    }
}

/// Pointwise structural equality is symmetric.
pub proof fn lemma_seq_type_eq_symmetric(xs: Seq<Type>, ys: Seq<Type>)
    ensures
        seq_type_eq(xs, ys) == seq_type_eq(ys, xs),
    decreases xs,
{
    assert forall|i: int| 0 <= i < xs.len() && i < ys.len() implies type_eq(xs[i], ys[i])
        == type_eq(ys[i], xs[i]) by {
        lemma_type_eq_symmetric(xs[i], ys[i]);
    }
}

/// Structural equality is transitive.
pub proof fn lemma_type_eq_transitive(a: Type, b: Type, c: Type)
    requires
        type_eq(a, b),
        type_eq(b, c),
    ensures
        type_eq(a, c),
    decreases a,
{
    match (a, b, c) {
        (Type::Tuple(xs), Type::Tuple(ys), Type::Tuple(zs)) => lemma_seq_type_eq_transitive(
            xs@,
            ys@,
            zs@,
        ),
        (Type::Array(x), Type::Array(y), Type::Array(z)) => lemma_type_eq_transitive(*x, *y, *z),
        (Type::MapOf(xk, xv), Type::MapOf(yk, yv), Type::MapOf(zk, zv)) => {
            lemma_type_eq_transitive(*xk, *yk, *zk);
            lemma_type_eq_transitive(*xv, *yv, *zv);
        },
        (Type::SetOf(x), Type::SetOf(y), Type::SetOf(z)) => lemma_type_eq_transitive(*x, *y, *z),
        (Type::Optional(x), Type::Optional(y), Type::Optional(z)) => lemma_type_eq_transitive(
            *x,
            *y,
            *z,
        ),
        (Type::Union(xs), Type::Union(ys), Type::Union(zs)) => lemma_seq_type_eq_transitive(
            xs@,
            ys@,
            zs@,
        ),
        (Type::Intersection(xs), Type::Intersection(ys), Type::Intersection(zs)) => lemma_seq_type_eq_transitive(
            xs@,
            ys@,
            zs@,
        ),
        (Type::Circular(x), Type::Circular(y), Type::Circular(z)) => lemma_type_eq_transitive(
            *x,
            *y,
            *z,
        ),
        (Type::Func(xs, xr), Type::Func(ys, yr), Type::Func(zs, zr)) => {
            lemma_seq_type_eq_transitive(xs@, ys@, zs@);
            lemma_type_eq_transitive(*xr, *yr, *zr);
        },
        _ => {},
    }
}

/// Pointwise structural equality is transitive.
pub proof fn lemma_seq_type_eq_transitive(xs: Seq<Type>, ys: Seq<Type>, zs: Seq<Type>)
    requires
        seq_type_eq(xs, ys),
        seq_type_eq(ys, zs),
    ensures
        seq_type_eq(xs, zs),
    decreases xs,
{
    assert forall|i: int| 0 <= i < xs.len() implies type_eq(xs[i], zs[i]) by {
        lemma_type_eq_transitive(xs[i], ys[i], zs[i]);
    }
}

/// A type is never a subtype of itself: the subtype relation excludes
/// equal types, and structural equality is reflexive.
pub proof fn lemma_subtype_irreflexive(a: Type)
    ensures
        !spec_is_subtype(a, a),
{
    lemma_type_eq_reflexive(a);
}

/// The intersection of any type with itself is that type.
pub proof fn lemma_intersect_self(a: Type)
    ensures
        spec_intersect(a, a) == a,
{
    lemma_type_eq_reflexive(a);
}

/// How a surface type name and the type it denotes relate: the six
/// primitive spellings map to their primitives, and every other name to a
/// reference carrying that name.
pub open spec fn named_type_rel(s: Seq<char>, t: Type) -> bool {
    if s == "()"@ {
        t == Type::Unit
    } else if s == "bool"@ {
        t == Type::Bool
    } else if s == "char"@ {
        t == Type::Char
    } else if s == "float"@ {
        t == Type::Float
    } else if s == "int"@ {
        t == Type::Int
    } else if s == "str"@ {
        t == Type::String
    } else {
        t matches Type::Reference(n) && n@ == s
    }
}

/// Resolve a surface type name to a type: primitive spellings become the
/// primitive types, and any other name a reference to a named type.
pub fn type_from_name(s: &str) -> (r: Type)
    ensures
        named_type_rel(s@, r),
{
    if str_eq(s, "()") {
        Type::Unit
    } else if str_eq(s, "bool") {
        Type::Bool
    } else if str_eq(s, "char") {
        Type::Char
    } else if str_eq(s, "float") {
        Type::Float
    } else if str_eq(s, "int") {
        Type::Int
    } else if str_eq(s, "str") {
        Type::String
    } else {
        Type::Reference(s.to_owned())
    }
}

/// A trait implementable by function objects, exposing a function's type.
pub trait FuncType {
    /// Fetch the type of this function.
    fn as_ty(&self) -> Type;

    /// Fetch the argument types of this function.
    fn argument_types(&self) -> Vec<Type>;

    /// Fetch the return type of this function.
    fn ret_ty(&self) -> Type;
}

} // verus!
