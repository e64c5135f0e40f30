//! The scope-resolving walker: symbol records for functions and variables,
//! the shadowing-aware symbol stack, and the walker that registers
//! declarations and computes expression types over a parsed block.

use vstd::prelude::*;

verus! {

use crate::ast::{Block, Declaration, Expr, ExternFunc, FuncDecl, Ident, Literal, Mutability, Node,
    ParenArgument, Stmt};
use crate::text::str_eq;
use crate::types::{named_type_rel, spec_intersect, type_eq, type_from_name, FuncType,
    lemma_type_eq_reflexive, lemma_type_eq_symmetric, lemma_type_eq_transitive, Type};

/// How a function came into scope.
#[derive(Debug, PartialEq, Eq, Structural, Clone, Copy)]
pub enum Linkage {
    /// The function is declared locally, and is not exported.
    Local,
    /// The function is declared in the scope of the module being compiled.
    Module,
    /// The function is declared externally, and has been imported.
    External,
}

/// A callable function known to the walker.
#[derive(Debug)]
pub struct Function {
    /// The name of the function.
    pub name: String,
    /// The arguments of the function.
    pub args: Vec<ParenArgument>,
    /// The linkage type of this function.
    pub linkage: Linkage,
    /// The return type of this function.
    pub ret_type: Type,
}

/// A variable known to the walker.
#[derive(Debug)]
pub struct Variable {
    /// The name of this variable.
    pub name: String,
    /// The mutability of this variable.
    pub mutable: bool,
    /// The type of this variable.
    pub ty: Type,
}

/// A type variable declared via a `type x = ...` expression.
pub struct TypeVariable {
    /// The name of this type variable.
    pub name: String,
    /// The type held by this type variable.
    pub ty: Type,
}

/// Whether `f` is the symbol record that a function declaration with the
/// given name, arguments, return type annotation and linkage produces.
pub open spec fn is_function_record(
    f: Function,
    name: Seq<char>,
    args: Seq<Node<ParenArgument>>,
    ret: Option<Node<Ident>>,
    linkage: Linkage,
) -> bool {
    &&& f.name@ == name
    &&& f.args@ == args.map_values(|n: Node<ParenArgument>| n.value)
    &&& f.linkage == linkage
    &&& match ret {
        Some(t) => named_type_rel(t.value@, f.ret_type),
        None => f.ret_type == Type::Unit,
    }
}

/// Strip the span wrappers off a declaration's argument list.
fn argument_values(args: &Vec<Node<ParenArgument>>) -> (r: Vec<ParenArgument>)
    ensures
        r@ == args@.map_values(|n: Node<ParenArgument>| n.value),
{
    let mut out: Vec<ParenArgument> = Vec::new();
    let mut i: usize = 0;
    while i < args.len()
        invariant
            i <= args@.len(),
            out@.len() == i,
            forall|j: int| 0 <= j < i ==> out@[j] == args@[j].value,
        decreases args@.len() - i,
    {
        out.push(args[i].value.clone());
        i += 1;
    }
    proof {
        assert(out@ =~= args@.map_values(|n: Node<ParenArgument>| n.value));
    }
    out
}

/// Resolve an optional return type annotation; a missing annotation means
/// the unit type.
fn resolve_ret_type(ret: &Option<Node<Ident>>) -> (r: Type)
    ensures
        match *ret {
            Some(t) => named_type_rel(t.value@, r),
            None => r == Type::Unit,
        },
{
    match ret {
        Some(t) => type_from_name(t.value.as_str()),
        None => Type::Unit,
    }
}

impl Function {
    /// Build the symbol record for a function declaration under the given
    /// linkage.
    pub fn from_declaration(decl: &FuncDecl, linkage: Linkage) -> (r: Function)
        ensures
            is_function_record(r, decl.ident.value@, decl.args@, decl.ret_type_expr, linkage),
    {
        Function {
            name: decl.ident.value.clone(),
            args: argument_values(&decl.args),
            linkage,
            ret_type: resolve_ret_type(&decl.ret_type_expr),
        }
    }
}

impl FuncType for Function {
    fn as_ty(&self) -> (r: Type)
        ensures
            r matches Type::Func(args, ret) && args@.len() == self.args@.len() && (forall|i: int|
                0 <= i < args@.len() ==> named_type_rel(
                    (#[trigger] self.args@[i]).type_expr.value@,
                    args@[i],
                )) && type_eq(*ret, self.ret_type),
    {
        Type::Func(self.argument_types(), Box::new(self.ret_type.clone()))
    }

    fn argument_types(&self) -> (r: Vec<Type>)
        ensures
            r@.len() == self.args@.len(),
            forall|i: int|
                0 <= i < r@.len() ==> named_type_rel(
                    (#[trigger] self.args@[i]).type_expr.value@,
                    r@[i],
                ),
    {
        let mut out: Vec<Type> = Vec::new();
        let mut i: usize = 0;
        while i < self.args.len()
            invariant
                i <= self.args@.len(),
                out@.len() == i,
                forall|j: int|
                    0 <= j < i ==> named_type_rel(
                        (#[trigger] self.args@[j]).type_expr.value@,
                        out@[j],
                    ),
            decreases self.args@.len() - i,
        {
            out.push(type_from_name(self.args[i].type_expr.value.as_str()));
            i += 1;
        }
        out
    }

    fn ret_ty(&self) -> (r: Type)
        ensures
            type_eq(r, self.ret_type),
    {
        self.ret_type.clone()
    }
}

/// A stack of symbol records, searched from the most recently pushed entry
/// to the oldest.
#[derive(Debug)]
pub struct Stack<T> {
    contents: Vec<T>,
}

impl<T> View for Stack<T> {
    type V = Seq<T>;

    closed spec fn view(&self) -> Seq<T> {
        self.contents@
    }
}

impl<T> Stack<T> {
    /// Creates a new, empty stack.
    pub fn new() -> (s: Stack<T>)
        ensures
            s@ == Seq::<T>::empty(),
    {
        Stack { contents: Vec::new() }
    }

    /// Return the size of the stack.
    pub fn size(&self) -> (n: usize)
        ensures
            n == self@.len(),
    {
        self.contents.len()
    }

    /// Get an object from the stack, oldest entry first.
    pub fn get(&self, index: usize) -> (r: Option<&T>)
        ensures
            match r {
                Some(item) => index < self@.len() && *item == self@[index as int],
                None => index >= self@.len(),
            },
    {
        if index < self.contents.len() {
            Some(&self.contents[index])
        } else {
            None
        }
    }

    /// Get an object from the stack without checking whether the index is
    /// in range; the caller owes that it is.
    pub fn get_unchecked(&self, index: usize) -> (r: &T)
        requires
            index < self@.len(),
        ensures
            *r == self@[index as int],
    {
        &self.contents[index]
    }

    /// Push an item onto the stack.
    pub fn push(&mut self, item: T)
        ensures
            final(self)@ == old(self)@.push(item),
    {
        self.contents.push(item);
    }

    /// Pop the most recently pushed item off of the stack.
    pub fn pop(&mut self) -> (r: Option<T>)
        ensures
            match r {
                Some(item) => old(self)@.len() > 0 && item == old(self)@.last() && final(self)@
                    == old(self)@.drop_last(),
                None => old(self)@.len() == 0 && final(self)@ == old(self)@,
            },
    {
        self.contents.pop()
    }

    /// Find the most recently pushed item accepted by the given predicate.
    pub fn find<F: Fn(&T) -> bool>(&self, predicate: F) -> (r: Option<&T>)
        requires
            forall|t: &T| call_requires(predicate, (t,)),
        ensures
            match r {
                Some(item) => exists|i: int|
                    0 <= i < self@.len() && *item == self@[i] && call_ensures(
                        predicate,
                        (&self@[i],),
                        true,
                    ) && (forall|j: int|
                        i < j < self@.len() ==> call_ensures(predicate, (&self@[j],), false)),
                None => forall|j: int|
                    0 <= j < self@.len() ==> call_ensures(predicate, (&self@[j],), false),
            },
    {
        let n = self.contents.len();
        let mut i: usize = n;
        while i > 0
            invariant
                i <= n,
                n == self@.len(),
                forall|t: &T| call_requires(predicate, (t,)),
                forall|j: int| i <= j < n ==> call_ensures(predicate, (&self@[j],), false),
            decreases i,
        {
            i = i - 1;
            if predicate(&self.contents[i]) {
                proof {
                    assert(call_ensures(predicate, (&self@[i as int],), true));
                }
                return Some(&self.contents[i]);
            }
        }
        None
    }

    /// Find the most recently pushed item accepted by the given predicate,
    /// returning a mutable reference to the item.
    pub fn find_mut<F: Fn(&T) -> bool>(&mut self, predicate: F) -> (r: Option<&mut T>)
        requires
            forall|t: &T| call_requires(predicate, (t,)),
        ensures
            match r {
                Some(item) => exists|i: int|
                    0 <= i < old(self)@.len() && *item == old(self)@[i] && call_ensures(
                        predicate,
                        (&old(self)@[i],),
                        true,
                    ) && (forall|j: int|
                        i < j < old(self)@.len() ==> call_ensures(
                            predicate,
                            (&old(self)@[j],),
                            false,
                        )) && final(self)@ == old(self)@.update(i, *final(item)),
                None => final(self)@ == old(self)@ && forall|j: int|
                    0 <= j < old(self)@.len() ==> call_ensures(predicate, (&old(self)@[j],), false),
            },
    {
        let n = self.contents.len();
        let mut i: usize = n;
        while i > 0
            invariant
                i <= n,
                n == self@.len(),
                self@ == old(self)@,
                forall|t: &T| call_requires(predicate, (t,)),
                forall|j: int| i <= j < n ==> call_ensures(predicate, (&self@[j],), false),
            decreases i,
        {
            i = i - 1;
            if predicate(&self.contents[i]) {
                proof {
                    assert(call_ensures(predicate, (&self@[i as int],), true));
                }
                let m = &mut self.contents[i];
                return Some(m);
            }
        }
        None
    }
}

/// The variable that a name resolves to: the stack is searched from the
/// most recently pushed record to the oldest, so the most recent binding
/// of a name wins (shadowing).
pub open spec fn spec_lookup_variable(entries: Seq<Variable>, name: Seq<char>) -> Option<Variable>
    decreases entries.len(),
{
    if entries.len() == 0 {
        None
    } else if entries.last().name@ == name {
        Some(entries.last())
    } else {
        spec_lookup_variable(entries.drop_last(), name)
    }
}

/// The function that a name resolves to, under the same most-recent-first
/// search as variables.
pub open spec fn spec_lookup_function(entries: Seq<Function>, name: Seq<char>) -> Option<Function>
    decreases entries.len(),
{
    if entries.len() == 0 {
        None
    } else if entries.last().name@ == name {
        Some(entries.last())
    } else {
        spec_lookup_function(entries.drop_last(), name)
    }
}

/// If position `i` holds the name and nothing above it does, the search
/// resolves to position `i`.
proof fn lemma_lookup_variable_at(entries: Seq<Variable>, name: Seq<char>, i: int)
    requires
        0 <= i < entries.len(),
        entries[i].name@ == name,
        forall|j: int| i < j < entries.len() ==> entries[j].name@ != name,
    ensures
        spec_lookup_variable(entries, name) == Some(entries[i]),
    decreases entries.len(),
{
    if i < entries.len() - 1 {
        lemma_lookup_variable_at(entries.drop_last(), name, i);
    }
}

/// If no position holds the name, the search resolves to nothing.
proof fn lemma_lookup_variable_none(entries: Seq<Variable>, name: Seq<char>)
    requires
        forall|j: int| 0 <= j < entries.len() ==> entries[j].name@ != name,
    ensures
        spec_lookup_variable(entries, name) is None,
    decreases entries.len(),
{
    if entries.len() > 0 {
        lemma_lookup_variable_none(entries.drop_last(), name);
    }
}

/// If position `i` holds the name and nothing above it does, the search
/// resolves to position `i`.
proof fn lemma_lookup_function_at(entries: Seq<Function>, name: Seq<char>, i: int)
    requires
        0 <= i < entries.len(),
        entries[i].name@ == name,
        forall|j: int| i < j < entries.len() ==> entries[j].name@ != name,
    ensures
        spec_lookup_function(entries, name) == Some(entries[i]),
    decreases entries.len(),
{
    if i < entries.len() - 1 {
        lemma_lookup_function_at(entries.drop_last(), name, i);
    }
}

/// If no position holds the name, the search resolves to nothing.
proof fn lemma_lookup_function_none(entries: Seq<Function>, name: Seq<char>)
    requires
        forall|j: int| 0 <= j < entries.len() ==> entries[j].name@ != name,
    ensures
        spec_lookup_function(entries, name) is None,
    decreases entries.len(),
{
    if entries.len() > 0 {
        lemma_lookup_function_none(entries.drop_last(), name);
    }
}

/// Shadowing: a name declared twice resolves to the more recently pushed
/// record, whatever else the frame holds below the two.
pub proof fn lemma_lookup_shadowing(entries: Seq<Variable>, first: Variable, second: Variable)
    requires
        first.name@ == second.name@,
    ensures
        spec_lookup_variable(entries.push(first).push(second), second.name@) == Some(second),
{
}

/// The type the walker gives an expression, over a given variable frame:
/// literals type by their literal kind, identifiers by variable lookup
/// (an unresolved name degrades to the inference sentinel rather than an
/// error), binary expressions by intersecting operand types — both of
/// which are resolved from the left-hand child, as the walker computes
/// them — blocks by unit, and unary expressions are not yet typed.
pub open spec fn spec_expr_type(vars: Seq<Variable>, e: Expr) -> Type
    decreases e,
{
    match e {
        Expr::Literal(lit) => match lit.value {
            Literal::Bool(_) => Type::Bool,
            Literal::Int(_) => Type::Int,
            Literal::Float(_) => Type::Float,
            Literal::String(_) => Type::String,
            Literal::Char(_) => Type::Char,
            Literal::Array(_) => Type::Array(Box::new(Type::Infer)),
        },
        Expr::Ident(ident) => match spec_lookup_variable(vars, ident.value@) {
            Some(var) => var.ty,
            None => Type::Infer,
        },
        Expr::BinaryExpr(bin_op) => {
            let lhs = spec_expr_type(vars, bin_op.value.lhs.value);
            spec_intersect(lhs, lhs)
        },
        Expr::UnaryExpr(_) => Type::Infer,
        Expr::Block(_) => Type::Unit,
    }
}

/// Whether `v` is the symbol record that a variable declaration produces
/// over the given variable frame: the declared name and mutability, and
/// the annotated type where one was written, else the type the walker
/// computes for the declared value.
pub open spec fn is_variable_record(v: Variable, decl: Declaration, vars: Seq<Variable>) -> bool {
    &&& v.name@ == decl.ident.value@
    &&& v.mutable == (decl.mutability is Mutable)
    &&& match decl.explicit_type {
        Some(t) => named_type_rel(t.value@, v.ty),
        None => type_eq(v.ty, spec_expr_type(vars, decl.value.value)),
    }
}

/// Whether `fs` is exactly the sequence of function records that a
/// pre-scan of `stmts` registers: one local record per function
/// declaration and one external record per external declaration, in
/// statement order, with every other statement contributing nothing.
pub open spec fn hoisted_functions_rel(stmts: Seq<Node<Stmt>>, fs: Seq<Function>) -> bool
    decreases stmts.len(),
{
    if stmts.len() == 0 {
        fs.len() == 0
    } else {
        match stmts.last().value {
            Stmt::FuncDecl(func) => fs.len() >= 1 && is_function_record(
                fs.last(),
                func.value.ident.value@,
                func.value.args@,
                func.value.ret_type_expr,
                Linkage::Local,
            ) && hoisted_functions_rel(stmts.drop_last(), fs.drop_last()),
            Stmt::ExternFunc(func) => fs.len() >= 1 && is_function_record(
                fs.last(),
                func.value.ident.value@,
                func.value.args@,
                func.value.ret_type_expr,
                Linkage::External,
            ) && hoisted_functions_rel(stmts.drop_last(), fs.drop_last()),
            _ => hoisted_functions_rel(stmts.drop_last(), fs),
        }
    }
}

/// A utility for walking the AST: owns the variable and function frames
/// and the optional record of the function being walked.
pub struct Walker {
    current_function: Option<Function>,
    variables: Stack<Variable>,
    functions: Stack<Function>,
}

impl Walker {
    /// The variable frame, oldest record first.
    pub closed spec fn vars(&self) -> Seq<Variable> {
        self.variables@
    }

    /// The function frame, oldest record first.
    pub closed spec fn fns(&self) -> Seq<Function> {
        self.functions@
    }

    /// The function currently being walked, if any.
    pub closed spec fn cur_fn(&self) -> Option<Function> {
        self.current_function
    }

    /// Create a new walker with empty frames.
    pub fn new() -> (r: Self)
        ensures
            r.vars() == Seq::<Variable>::empty(),
            r.fns() == Seq::<Function>::empty(),
            r.cur_fn() is None,
    {
        Walker { current_function: None, variables: Stack::new(), functions: Stack::new() }
    }

    /// Return the current function, if any.
    pub fn current_function(&self) -> (r: Option<&Function>)
        ensures
            match r {
                Some(f) => self.cur_fn() == Some(*f),
                None => self.cur_fn() is None,
            },
    {
        match &self.current_function {
            Some(f) => Some(f),
            None => None,
        }
    }

    /// Enter a block: register every function and external function
    /// declared directly in it, whatever their position, so that later
    /// statements may call earlier-and-later-declared functions alike.
    pub fn enter_block(&mut self, block: &Block)
        ensures
            final(self).vars() == old(self).vars(),
            final(self).cur_fn() == old(self).cur_fn(),
            final(self).fns().len() >= old(self).fns().len(),
            final(self).fns().take(old(self).fns().len() as int) == old(self).fns(),
            hoisted_functions_rel(
                block.stmts@,
                final(self).fns().skip(old(self).fns().len() as int),
            ),
    {
        self.declare_all_in_stmts(&block.stmts);
    }

    /// Register every function and external function declared directly in
    /// the given statements (hoisting), in statement order.
    pub fn declare_all_in_stmts(&mut self, stmts: &Vec<Node<Stmt>>)
        ensures
            final(self).vars() == old(self).vars(),
            final(self).cur_fn() == old(self).cur_fn(),
            final(self).fns().len() >= old(self).fns().len(),
            final(self).fns().take(old(self).fns().len() as int) == old(self).fns(),
            hoisted_functions_rel(stmts@, final(self).fns().skip(old(self).fns().len() as int)),
    {
        let ghost base = old(self).fns().len() as int;
        let mut i: usize = 0;
        while i < stmts.len()
            invariant
                i <= stmts@.len(),
                self.vars() == old(self).vars(),
                self.cur_fn() == old(self).cur_fn(),
                self.fns().len() >= base,
                base == old(self).fns().len(),
                self.fns().take(base) == old(self).fns(),
                hoisted_functions_rel(stmts@.take(i as int), self.fns().skip(base)),
            decreases stmts@.len() - i,
        {
            let ghost prev = self.fns();
            match &stmts[i].value {
                Stmt::FuncDecl(func) => self.declare_function(&func.value),
                Stmt::ExternFunc(func) => self.declare_external_function(&func.value),
                _ => (),
            }
            proof {
                assert(stmts@.take(i + 1).drop_last() =~= stmts@.take(i as int));
                assert(stmts@.take(i + 1).last() == stmts@[i as int]);
                match stmts@[i as int].value {
                    Stmt::FuncDecl(_) | Stmt::ExternFunc(_) => {
                        assert(self.fns().skip(base).drop_last() =~= prev.skip(base));
                        assert(self.fns().take(base) =~= prev.take(base));
                    },
                    _ => {},
                }
            }
            i += 1;
        }
        proof {
            assert(stmts@.take(stmts@.len() as int) =~= stmts@);
        }
    }

    /// Declare a locally linked function.
    pub fn declare_function(&mut self, func: &FuncDecl)
        ensures
            final(self).vars() == old(self).vars(),
            final(self).cur_fn() == old(self).cur_fn(),
            final(self).fns().len() == old(self).fns().len() + 1,
            final(self).fns().drop_last() == old(self).fns(),
            is_function_record(
                final(self).fns().last(),
                func.ident.value@,
                func.args@,
                func.ret_type_expr,
                Linkage::Local,
            ),
    {
        self.functions.push(
            Function {
                name: func.ident.value.clone(),
                args: argument_values(&func.args),
                linkage: Linkage::Local,
                ret_type: resolve_ret_type(&func.ret_type_expr),
            },
        );
        proof {
            assert(final(self).fns().drop_last() =~= old(self).fns());
        }
    }

    /// Declare an externally linked function.
    pub fn declare_external_function(&mut self, extern_func: &ExternFunc)
        ensures
            final(self).vars() == old(self).vars(),
            final(self).cur_fn() == old(self).cur_fn(),
            final(self).fns().len() == old(self).fns().len() + 1,
            final(self).fns().drop_last() == old(self).fns(),
            is_function_record(
                final(self).fns().last(),
                extern_func.ident.value@,
                extern_func.args@,
                extern_func.ret_type_expr,
                Linkage::External,
            ),
    {
        self.functions.push(
            Function {
                name: extern_func.ident.value.clone(),
                args: argument_values(&extern_func.args),
                linkage: Linkage::External,
                ret_type: resolve_ret_type(&extern_func.ret_type_expr),
            },
        );
        proof {
            assert(final(self).fns().drop_last() =~= old(self).fns());
        }
    }

    /// Declare a variable: push its record onto the variable frame. The
    /// binding is visible only from this point forward; there is no
    /// hoisting for variables.
    pub fn declare_variable(&mut self, decl: &Declaration)
        ensures
            final(self).fns() == old(self).fns(),
            final(self).cur_fn() == old(self).cur_fn(),
            final(self).vars().len() == old(self).vars().len() + 1,
            final(self).vars().drop_last() == old(self).vars(),
            is_variable_record(final(self).vars().last(), *decl, old(self).vars()),
    {
        let ty = match &decl.explicit_type {
            Some(t) => type_from_name(t.value.as_str()),
            None => self.get_expr_type(&decl.value.value),
        };
        self.variables.push(
            Variable {
                name: decl.ident.value.clone(),
                mutable: match decl.mutability {
                    Mutability::Mutable => true,
                    Mutability::Immutable => false,
                },
                ty,
            },
        );
        proof {
            assert(final(self).vars().drop_last() =~= old(self).vars());
        }
    }

    /// Lookup a variable available in the current scope.
    pub fn lookup_variable(&self, name: &str) -> (r: Option<&Variable>)
        ensures
            match r {
                Some(v) => spec_lookup_variable(self.vars(), name@) == Some(*v),
                None => spec_lookup_variable(self.vars(), name@) is None,
            },
    {
        let matches_name = |v: &Variable| -> (matched: bool)
            ensures
                matched == (v.name@ == name@),
            {
                str_eq(v.name.as_str(), name)
            };
        let found = self.variables.find(matches_name);
        proof {
            let entries = self.vars();
            match found {
                Some(v) => {
                    let i = choose|i: int|
                        0 <= i < entries.len() && *v == entries[i] && entries[i].name@ == name@
                            && (forall|j: int| i < j < entries.len() ==> entries[j].name@ != name@);
                    lemma_lookup_variable_at(entries, name@, i);
                },
                None => {
                    lemma_lookup_variable_none(entries, name@);
                },
            }
        }
        found
    }

    /// Lookup a variable available in the current scope, returning a
    /// mutable reference to the variable.
    #[verifier::rlimit(50)]
    pub fn lookup_variable_mut(&mut self, name: &str) -> (r: Option<&mut Variable>)
        ensures
            match r {
                Some(v) => spec_lookup_variable(old(self).vars(), name@) == Some(*v) && exists|
                    i: int,
                |
                    0 <= i < old(self).vars().len() && *v == old(self).vars()[i] && final(self).vars() == old(self).vars().update(i, *final(v)),
                None => spec_lookup_variable(old(self).vars(), name@) is None && final(self).vars()
                    == old(self).vars(),
            },
            final(self).fns() == old(self).fns(),
            final(self).cur_fn() == old(self).cur_fn(),
    {
        let matches_name = |v: &Variable| -> (matched: bool)
            ensures
                matched == (v.name@ == name@),
            {
                str_eq(v.name.as_str(), name)
            };
        proof {
            let entries = self.vars();
            assert forall|i: int|
                0 <= i < entries.len() && entries[i].name@ == name@ && (forall|j: int|
                    i < j < entries.len() ==> entries[j].name@ != name@) implies {
                spec_lookup_variable(entries, name@) == Some(entries[i])
            } by {
                lemma_lookup_variable_at(entries, name@, i);
            }
            if forall|j: int| 0 <= j < entries.len() ==> entries[j].name@ != name@ {
                lemma_lookup_variable_none(entries, name@);
            }
        }
        self.variables.find_mut(matches_name)
    }

    /// Lookup a function available in the current scope.
    pub fn lookup_function(&self, name: &str) -> (r: Option<&Function>)
        ensures
            match r {
                Some(f) => spec_lookup_function(self.fns(), name@) == Some(*f),
                None => spec_lookup_function(self.fns(), name@) is None,
            },
    {
        let matches_name = |f: &Function| -> (matched: bool)
            ensures
                matched == (f.name@ == name@),
            {
                str_eq(f.name.as_str(), name)
            };
        let found = self.functions.find(matches_name);
        proof {
            let entries = self.fns();
            match found {
                Some(f) => {
                    let i = choose|i: int|
                        0 <= i < entries.len() && *f == entries[i] && entries[i].name@ == name@
                            && (forall|j: int| i < j < entries.len() ==> entries[j].name@ != name@);
                    lemma_lookup_function_at(entries, name@, i);
                },
                None => {
                    lemma_lookup_function_none(entries, name@);
                },
            }
        }
        found
    }

    /// Lookup a function available in the current scope, returning a
    /// mutable reference to the function.
    #[verifier::rlimit(50)]
    pub fn lookup_function_mut(&mut self, name: &str) -> (r: Option<&mut Function>)
        ensures
            match r {
                Some(f) => spec_lookup_function(old(self).fns(), name@) == Some(*f) && exists|
                    i: int,
                |
                    0 <= i < old(self).fns().len() && *f == old(self).fns()[i] && final(self).fns()
                        == old(self).fns().update(i, *final(f)),
                None => spec_lookup_function(old(self).fns(), name@) is None && final(self).fns()
                    == old(self).fns(),
            },
            final(self).vars() == old(self).vars(),
            final(self).cur_fn() == old(self).cur_fn(),
    {
        let matches_name = |f: &Function| -> (matched: bool)
            ensures
                matched == (f.name@ == name@),
            {
                str_eq(f.name.as_str(), name)
            };
        proof {
            let entries = self.fns();
            assert forall|i: int|
                0 <= i < entries.len() && entries[i].name@ == name@ && (forall|j: int|
                    i < j < entries.len() ==> entries[j].name@ != name@) implies {
                spec_lookup_function(entries, name@) == Some(entries[i])
            } by {
                lemma_lookup_function_at(entries, name@, i);
            }
            if forall|j: int| 0 <= j < entries.len() ==> entries[j].name@ != name@ {
                lemma_lookup_function_none(entries, name@);
            }
        }
        self.functions.find_mut(matches_name)
    }

    /// Get the type of an expression in the current scope. The walker is
    /// left unchanged; the result is structurally equal to the type the
    /// specification assigns.
    pub fn get_expr_type(&mut self, expr: &Expr) -> (r: Type)
        ensures
            *final(self) == *old(self),
            type_eq(r, spec_expr_type(old(self).vars(), *expr)),
        decreases *expr,
    {
        match expr {
            Expr::Literal(literal) => {
                let r = match &literal.value {
                    Literal::Bool(_) => Type::Bool,
                    Literal::Int(_) => Type::Int,
                    Literal::Float(_) => Type::Float,
                    Literal::String(_) => Type::String,
                    Literal::Char(_) => Type::Char,
                    Literal::Array(_) => Type::Array(Box::new(Type::Infer)),
                };
                proof {
                    lemma_type_eq_reflexive(r);
                }
                r
            },
            Expr::Ident(ident) => {
                let r = match self.lookup_variable(ident.value.as_str()) {
                    Some(var) => var.ty.clone(),
                    None => Type::Infer,
                };
                proof {
                    lemma_type_eq_reflexive(r);
                }
                r
            },
            Expr::BinaryExpr(bin_op) => {
                let lhs = self.get_expr_type(&bin_op.value.lhs.value);
                let rhs = self.get_expr_type(&bin_op.value.lhs.value);
                let ghost spec_lhs = spec_expr_type(
                    old(self).vars(),
                    bin_op.value.lhs.value,
                );
                proof {
                    // Both operand types resolve to the left child's
                    // specification type, so they are equal to each other
                    // and the intersection is that type again.
                    lemma_type_eq_reflexive(spec_lhs);
                    lemma_type_eq_symmetric(rhs, spec_lhs);
                    lemma_type_eq_transitive(lhs, spec_lhs, rhs);
                }
                lhs.intersect(rhs)
            },
            Expr::UnaryExpr(_) => Type::Infer,
            Expr::Block(_) => Type::Unit,
        }
    }

    /// Proceed to the next statement, declaring any variable it binds and
    /// any function it declares; every other statement form changes
    /// nothing at this layer.
    pub fn next_stmt(&mut self, stmt: &Stmt)
        ensures
            match *stmt {
                Stmt::Declaration(decl) => final(self).fns() == old(self).fns() && final(self).cur_fn() == old(self).cur_fn() && final(self).vars().len() == old(self).vars().len() + 1 && final(self).vars().drop_last() == old(self).vars()
                    && is_variable_record(
                    final(self).vars().last(),
                    decl.value,
                    old(self).vars(),
                ),
                Stmt::FuncDecl(func) => final(self).vars() == old(self).vars() && final(self).cur_fn() == old(self).cur_fn() && final(self).fns().len() == old(self).fns().len() + 1 && final(self).fns().drop_last() == old(self).fns()
                    && is_function_record(
                    final(self).fns().last(),
                    func.value.ident.value@,
                    func.value.args@,
                    func.value.ret_type_expr,
                    Linkage::Local,
                ),
                Stmt::ExternFunc(func) => final(self).vars() == old(self).vars() && final(self).cur_fn() == old(self).cur_fn() && final(self).fns().len() == old(self).fns().len() + 1 && final(self).fns().drop_last() == old(self).fns()
                    && is_function_record(
                    final(self).fns().last(),
                    func.value.ident.value@,
                    func.value.args@,
                    func.value.ret_type_expr,
                    Linkage::External,
                ),
                _ => *final(self) == *old(self),
            },
    {
        match stmt {
            Stmt::Declaration(decl) => self.declare_variable(&decl.value),
            Stmt::FuncDecl(func) => self.declare_function(&func.value),
            Stmt::ExternFunc(extern_func) => self.declare_external_function(&extern_func.value),
            _ => (),
        }
    }
}

} // verus!
