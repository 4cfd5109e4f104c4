//! The structural rewrite framework: a pass supplies per-node rewrites,
//! and the traversal here rebuilds every node from its folded children, left
//! to right, then hands the rebuilt node to the pass.

use vstd::prelude::*;
use crate::expr::{
    array_size, expression_type, BooleanExpression, FieldElementArrayExpression,
    FieldElementExpression, MultiTyped, TypedExpression, TypedExpressionList,
};
use crate::types::{Parameter, Type, Variable};
use crate::statement::{
    assignee_type, expressions_match_types, lemma_each_well_typed, statement_well_typed, statements_well_typed,
    TypedAssignee, TypedStatement,
};
use crate::program::{
    function_well_typed, module_valid, module_well_typed, program_valid, program_well_typed, TypedFunction,
    TypedFunctionSymbol, TypedModule, TypedModuleId, TypedProgram,
};
use crate::types::{same_key, FunctionKey};

verus! {

/// A rewriting pass. Expressions and statements are first shown to an
/// `enter_*` method, which may replace the node outright; otherwise the
/// node's children are folded. Each `rewrite_*` method then receives a node
/// whose children have already been folded and returns the node to put in
/// its place, possibly changing the pass's own state. What it returns and what
/// state it leaves are the pass's `spec_rewrite_*` and `spec_after_*`, which
/// by default keep the node and the state. A rewrite keeps the static type
/// of the node.
pub trait Folder<T>: Sized {
    /// The replacement that `enter_field_expression` gives for `e`, if any.
    open spec fn spec_enter_field(&self, e: FieldElementExpression<T>) -> Option<FieldElementExpression<T>> {
        None
    }

    /// The state that `enter_field_expression` leaves after seeing `e`.
    open spec fn spec_after_enter_field(&self, e: FieldElementExpression<T>) -> Self {
        *self
    }

    /// Sees a field element expression before its children are folded. A replacement that it
    /// returns takes the node's place, and the node's children are not
    /// folded; otherwise the fold goes on into the children.
    fn enter_field_expression(&mut self, e: &FieldElementExpression<T>) -> (r: Option<FieldElementExpression<T>>)
        ensures
            r == old(self).spec_enter_field(*e),
            *final(self) == old(self).spec_after_enter_field(*e),
    ;

    /// The replacement that `enter_boolean_expression` gives for `e`, if any.
    open spec fn spec_enter_boolean(&self, e: BooleanExpression<T>) -> Option<BooleanExpression<T>> {
        None
    }

    /// The state that `enter_boolean_expression` leaves after seeing `e`.
    open spec fn spec_after_enter_boolean(&self, e: BooleanExpression<T>) -> Self {
        *self
    }

    /// Sees a boolean expression before its children are folded. A replacement that it
    /// returns takes the node's place, and the node's children are not
    /// folded; otherwise the fold goes on into the children.
    fn enter_boolean_expression(&mut self, e: &BooleanExpression<T>) -> (r: Option<BooleanExpression<T>>)
        ensures
            r == old(self).spec_enter_boolean(*e),
            *final(self) == old(self).spec_after_enter_boolean(*e),
    ;

    /// The replacement that `enter_array_expression` gives for `e`, if any.
    open spec fn spec_enter_array(&self, e: FieldElementArrayExpression<T>) -> Option<FieldElementArrayExpression<T>> {
        None
    }

    /// The state that `enter_array_expression` leaves after seeing `e`.
    open spec fn spec_after_enter_array(&self, e: FieldElementArrayExpression<T>) -> Self {
        *self
    }

    /// Sees an array expression before its children are folded. A replacement that it
    /// returns takes the node's place, and the node's children are not
    /// folded; otherwise the fold goes on into the children.
    fn enter_array_expression(&mut self, e: &FieldElementArrayExpression<T>) -> (r: Option<FieldElementArrayExpression<T>>)
        ensures
            r == old(self).spec_enter_array(*e),
            *final(self) == old(self).spec_after_enter_array(*e),
            r matches Some(x) ==> array_size(x) == array_size(*e),
    ;

    /// The replacement that `enter_statement` gives for `s`, if any.
    open spec fn spec_enter_statement(&self, s: TypedStatement<T>) -> Option<TypedStatement<T>> {
        None
    }

    /// The state that `enter_statement` leaves after seeing `s`.
    open spec fn spec_after_enter_statement(&self, s: TypedStatement<T>) -> Self {
        *self
    }

    /// Sees a statement before its children are folded. A replacement that it
    /// returns takes the node's place, and the node's children are not
    /// folded; otherwise the fold goes on into the children.
    fn enter_statement(&mut self, s: &TypedStatement<T>) -> (r: Option<TypedStatement<T>>)
        ensures
            r == old(self).spec_enter_statement(*s),
            *final(self) == old(self).spec_after_enter_statement(*s),
            r matches Some(x) ==> forall|o: Seq<Type>| statement_well_typed(*s, o) ==> #[trigger] statement_well_typed(x, o),
    ;

    /// The node that `rewrite_field_expression` puts in place of `e`.
    open spec fn spec_rewrite_field(&self, e: FieldElementExpression<T>) -> FieldElementExpression<T> {
        e
    }

    /// The state that `rewrite_field_expression` leaves after rewriting `e`.
    open spec fn spec_after_field(&self, e: FieldElementExpression<T>) -> Self {
        *self
    }

    /// Rewrites a field element expression.
    fn rewrite_field_expression(&mut self, e: FieldElementExpression<T>) -> (r: FieldElementExpression<T>)
        ensures
            r == old(self).spec_rewrite_field(e),
            *final(self) == old(self).spec_after_field(e),
    ;

    /// The node that `rewrite_boolean_expression` puts in place of `e`.
    open spec fn spec_rewrite_boolean(&self, e: BooleanExpression<T>) -> BooleanExpression<T> {
        e
    }

    /// The state that `rewrite_boolean_expression` leaves after rewriting `e`.
    open spec fn spec_after_boolean(&self, e: BooleanExpression<T>) -> Self {
        *self
    }

    /// Rewrites a boolean expression.
    fn rewrite_boolean_expression(&mut self, e: BooleanExpression<T>) -> (r: BooleanExpression<T>)
        ensures
            r == old(self).spec_rewrite_boolean(e),
            *final(self) == old(self).spec_after_boolean(e),
    ;

    /// The node that `rewrite_array_expression` puts in place of `e`.
    open spec fn spec_rewrite_array(&self, e: FieldElementArrayExpression<T>) -> FieldElementArrayExpression<T> {
        e
    }

    /// The state that `rewrite_array_expression` leaves after rewriting `e`.
    open spec fn spec_after_array(&self, e: FieldElementArrayExpression<T>) -> Self {
        *self
    }

    /// Rewrites an array expression into one of the same length.
    fn rewrite_array_expression(&mut self, e: FieldElementArrayExpression<T>) -> (r: FieldElementArrayExpression<T>)
        ensures
            r == old(self).spec_rewrite_array(e),
            *final(self) == old(self).spec_after_array(e),
            array_size(r) == array_size(e),
    ;

    /// The node that `rewrite_variable` puts in place of `v`.
    open spec fn spec_rewrite_variable(&self, v: Variable) -> Variable {
        v
    }

    /// The state that `rewrite_variable` leaves after rewriting `v`.
    open spec fn spec_after_variable(&self, v: Variable) -> Self {
        *self
    }

    /// Rewrites a variable into one of the same type.
    fn rewrite_variable(&mut self, v: Variable) -> (r: Variable)
        ensures
            r == old(self).spec_rewrite_variable(v),
            *final(self) == old(self).spec_after_variable(v),
            r.ty == v.ty,
    ;

    /// The node that `rewrite_assignee` puts in place of `a`.
    open spec fn spec_rewrite_assignee(&self, a: TypedAssignee<T>) -> TypedAssignee<T> {
        a
    }

    /// The state that `rewrite_assignee` leaves after rewriting `a`.
    open spec fn spec_after_assignee(&self, a: TypedAssignee<T>) -> Self {
        *self
    }

    /// Rewrites an assignee into one of the same type.
    fn rewrite_assignee(&mut self, a: TypedAssignee<T>) -> (r: TypedAssignee<T>)
        ensures
            r == old(self).spec_rewrite_assignee(a),
            *final(self) == old(self).spec_after_assignee(a),
            assignee_type(r) == assignee_type(a),
    ;

    /// The node that `rewrite_expression_list` puts in place of `e`.
    open spec fn spec_rewrite_list(&self, e: TypedExpressionList<T>) -> TypedExpressionList<T> {
        e
    }

    /// The state that `rewrite_expression_list` leaves after rewriting `e`.
    open spec fn spec_after_list(&self, e: TypedExpressionList<T>) -> Self {
        *self
    }

    /// Rewrites a multiple-result call into one with the same result types.
    fn rewrite_expression_list(&mut self, e: TypedExpressionList<T>) -> (r: TypedExpressionList<T>)
        ensures
            r == old(self).spec_rewrite_list(e),
            *final(self) == old(self).spec_after_list(e),
            r.spec_types() == e.spec_types(),
    ;

    /// The node that `rewrite_statement` puts in place of `s`.
    open spec fn spec_rewrite_statement(&self, s: TypedStatement<T>) -> TypedStatement<T> {
        s
    }

    /// The state that `rewrite_statement` leaves after rewriting `s`.
    open spec fn spec_after_statement(&self, s: TypedStatement<T>) -> Self {
        *self
    }

    /// Rewrites a statement; a well-typed one stays well typed.
    fn rewrite_statement(&mut self, s: TypedStatement<T>) -> (r: TypedStatement<T>)
        ensures
            r == old(self).spec_rewrite_statement(s),
            *final(self) == old(self).spec_after_statement(s),
            forall|o: Seq<Type>| statement_well_typed(s, o) ==> #[trigger] statement_well_typed(r, o),
    ;

    /// The node that `rewrite_function` puts in place of `f`.
    open spec fn spec_rewrite_function(&self, f: TypedFunction<T>) -> TypedFunction<T> {
        f
    }

    /// The state that `rewrite_function` leaves after rewriting `f`.
    open spec fn spec_after_function(&self, f: TypedFunction<T>) -> Self {
        *self
    }

    /// Rewrites a function; a well-typed one stays well typed.
    fn rewrite_function(&mut self, f: TypedFunction<T>) -> (r: TypedFunction<T>)
        ensures
            r == old(self).spec_rewrite_function(f),
            *final(self) == old(self).spec_after_function(f),
            function_well_typed(f) ==> function_well_typed(r),
    ;

    /// The module that `rewrite_module` puts in place of `m`.
    open spec fn spec_rewrite_module(&self, m: TypedModule<T>) -> TypedModule<T> {
        m
    }

    /// The state that `rewrite_module` leaves after rewriting `m`.
    open spec fn spec_after_module(&self, m: TypedModule<T>) -> Self {
        *self
    }

    /// Rewrites a module; a well-typed one stays well typed, a valid one
    /// valid.
    fn rewrite_module(&mut self, m: TypedModule<T>) -> (r: TypedModule<T>)
        ensures
            r == old(self).spec_rewrite_module(m),
            *final(self) == old(self).spec_after_module(m),
            module_well_typed(m) ==> module_well_typed(r),
            module_valid(m) ==> module_valid(r),
    ;

    /// The program that `rewrite_program` puts in place of `p`.
    open spec fn spec_rewrite_program(&self, p: TypedProgram<T>) -> TypedProgram<T> {
        p
    }

    /// The state that `rewrite_program` leaves after rewriting `p`.
    open spec fn spec_after_program(&self, p: TypedProgram<T>) -> Self {
        *self
    }

    /// Rewrites a program; a well-typed one stays well typed, a valid one
    /// valid.
    fn rewrite_program(&mut self, p: TypedProgram<T>) -> (r: TypedProgram<T>)
        ensures
            r == old(self).spec_rewrite_program(p),
            *final(self) == old(self).spec_after_program(p),
            program_well_typed(p) ==> program_well_typed(r),
            program_valid(p) ==> program_valid(r),
    ;
}

/// Marks a state through which a fold passes between two of its steps.
pub open spec fn intermediate<F>(f: F) -> bool {
    true
}

/// How the children of a field element expression fold from state `f0`:
/// left to right, each from the state the previous one left, into the
/// rebuilt node `rb` and the state `f1`.
pub open spec fn field_children_folded<T, F: Folder<T>>(f0: F, e: FieldElementExpression<T>, f1: F, rb: FieldElementExpression<T>) -> bool
    decreases e, 0nat,
{
    match e {
        FieldElementExpression::Number(n) => f1 == f0 && rb == FieldElementExpression::<T>::Number(n),
        FieldElementExpression::Identifier(v) => f1 == f0 && rb == FieldElementExpression::<T>::Identifier(v),
        FieldElementExpression::Add(l, r) => rb matches FieldElementExpression::Add(l2, r2) && exists|fa: F|
            #[trigger] intermediate(fa) && field_folded(f0, *l, fa, *l2) && field_folded(fa, *r, f1, *r2),
        FieldElementExpression::Sub(l, r) => rb matches FieldElementExpression::Sub(l2, r2) && exists|fa: F|
            #[trigger] intermediate(fa) && field_folded(f0, *l, fa, *l2) && field_folded(fa, *r, f1, *r2),
        FieldElementExpression::Mult(l, r) => rb matches FieldElementExpression::Mult(l2, r2) && exists|fa: F|
            #[trigger] intermediate(fa) && field_folded(f0, *l, fa, *l2) && field_folded(fa, *r, f1, *r2),
        FieldElementExpression::Div(l, r) => rb matches FieldElementExpression::Div(l2, r2) && exists|fa: F|
            #[trigger] intermediate(fa) && field_folded(f0, *l, fa, *l2) && field_folded(fa, *r, f1, *r2),
        FieldElementExpression::Pow(l, r) => rb matches FieldElementExpression::Pow(l2, r2) && exists|fa: F|
            #[trigger] intermediate(fa) && field_folded(f0, *l, fa, *l2) && field_folded(fa, *r, f1, *r2),
        FieldElementExpression::IfElse(c, a, b) => rb matches FieldElementExpression::IfElse(c2, a2, b2) && exists|fa: F, fb: F| #![trigger intermediate(fa), intermediate(fb)]
            boolean_folded(f0, *c, fa, *c2) && field_folded(fa, *a, fb, *a2) && field_folded(fb, *b, f1, *b2),
        FieldElementExpression::FunctionCall(k, args) => rb matches FieldElementExpression::FunctionCall(k2, args2) && k2 == k
            && arguments_folded(f0, args@, f1, args2@),
        FieldElementExpression::Select(a, i) => rb matches FieldElementExpression::Select(a2, i2) && exists|fa: F|
            #[trigger] intermediate(fa) && array_folded(f0, *a, fa, *a2) && field_folded(fa, *i, f1, *i2),
    }
}

/// How a field element expression folds from state `f0` into `r` and the
/// state `f1`: the pass's replacement on entry, if it gives one; otherwise
/// its children, then the pass's rewrite of the rebuilt node.
pub open spec fn field_folded<T, F: Folder<T>>(f0: F, e: FieldElementExpression<T>, f1: F, r: FieldElementExpression<T>) -> bool
    decreases e, 1nat,
{
    match f0.spec_enter_field(e) {
        Some(x) => r == x && f1 == f0.spec_after_enter_field(e),
        None => exists|fm: F, rb: FieldElementExpression<T>| #![trigger intermediate(fm), intermediate(rb)]
            field_children_folded(f0.spec_after_enter_field(e), e, fm, rb) && r == fm.spec_rewrite_field(rb) && f1 == fm.spec_after_field(rb),
    }
}

/// How the children of a boolean expression fold from state `f0`, left to
/// right.
pub open spec fn boolean_children_folded<T, F: Folder<T>>(f0: F, e: BooleanExpression<T>, f1: F, rb: BooleanExpression<T>) -> bool
    decreases e, 0nat,
{
    match e {
        BooleanExpression::Identifier(v) => f1 == f0 && rb == BooleanExpression::<T>::Identifier(v),
        BooleanExpression::Value(b) => f1 == f0 && rb == BooleanExpression::<T>::Value(b),
        BooleanExpression::Lt(l, r) => rb matches BooleanExpression::Lt(l2, r2) && exists|fa: F|
            #[trigger] intermediate(fa) && field_folded(f0, *l, fa, *l2) && field_folded(fa, *r, f1, *r2),
        BooleanExpression::Le(l, r) => rb matches BooleanExpression::Le(l2, r2) && exists|fa: F|
            #[trigger] intermediate(fa) && field_folded(f0, *l, fa, *l2) && field_folded(fa, *r, f1, *r2),
        BooleanExpression::Eq(l, r) => rb matches BooleanExpression::Eq(l2, r2) && exists|fa: F|
            #[trigger] intermediate(fa) && field_folded(f0, *l, fa, *l2) && field_folded(fa, *r, f1, *r2),
        BooleanExpression::Ge(l, r) => rb matches BooleanExpression::Ge(l2, r2) && exists|fa: F|
            #[trigger] intermediate(fa) && field_folded(f0, *l, fa, *l2) && field_folded(fa, *r, f1, *r2),
        BooleanExpression::Gt(l, r) => rb matches BooleanExpression::Gt(l2, r2) && exists|fa: F|
            #[trigger] intermediate(fa) && field_folded(f0, *l, fa, *l2) && field_folded(fa, *r, f1, *r2),
        BooleanExpression::Or(l, r) => rb matches BooleanExpression::Or(l2, r2) && exists|fa: F|
            #[trigger] intermediate(fa) && boolean_folded(f0, *l, fa, *l2) && boolean_folded(fa, *r, f1, *r2),
        BooleanExpression::And(l, r) => rb matches BooleanExpression::And(l2, r2) && exists|fa: F|
            #[trigger] intermediate(fa) && boolean_folded(f0, *l, fa, *l2) && boolean_folded(fa, *r, f1, *r2),
        BooleanExpression::Not(x) => rb matches BooleanExpression::Not(x2) && boolean_folded(f0, *x, f1, *x2),
    }
}

/// How a boolean expression folds from state `f0`: its children, then the
/// pass's rewrite of the rebuilt node.
pub open spec fn boolean_folded<T, F: Folder<T>>(f0: F, e: BooleanExpression<T>, f1: F, r: BooleanExpression<T>) -> bool
    decreases e, 1nat,
{
    match f0.spec_enter_boolean(e) {
        Some(x) => r == x && f1 == f0.spec_after_enter_boolean(e),
        None => exists|fm: F, rb: BooleanExpression<T>| #![trigger intermediate(fm), intermediate(rb)]
            boolean_children_folded(f0.spec_after_enter_boolean(e), e, fm, rb) && r == fm.spec_rewrite_boolean(rb) && f1 == fm.spec_after_boolean(rb),
    }
}

/// How the children of an array expression fold from state `f0`, left to
/// right.
pub open spec fn array_children_folded<T, F: Folder<T>>(f0: F, e: FieldElementArrayExpression<T>, f1: F, rb: FieldElementArrayExpression<T>) -> bool
    decreases e, 0nat,
{
    match e {
        FieldElementArrayExpression::Identifier(n, v) => f1 == f0 && rb == FieldElementArrayExpression::<T>::Identifier(n, v),
        FieldElementArrayExpression::Value(n, values) => rb matches FieldElementArrayExpression::Value(n2, values2) && n2 == n
            && elements_folded(f0, values@, f1, values2@),
        FieldElementArrayExpression::FunctionCall(n, k, args) => rb matches FieldElementArrayExpression::FunctionCall(n2, k2, args2) && n2 == n
            && k2 == k && arguments_folded(f0, args@, f1, args2@),
        FieldElementArrayExpression::IfElse(c, a, b) => rb matches FieldElementArrayExpression::IfElse(c2, a2, b2) && exists|fa: F, fb: F| #![trigger intermediate(fa), intermediate(fb)]
            boolean_folded(f0, *c, fa, *c2) && array_folded(fa, *a, fb, *a2) && array_folded(fb, *b, f1, *b2),
    }
}

/// How an array expression folds from state `f0`: its children, then the
/// pass's rewrite of the rebuilt node.
pub open spec fn array_folded<T, F: Folder<T>>(f0: F, e: FieldElementArrayExpression<T>, f1: F, r: FieldElementArrayExpression<T>) -> bool
    decreases e, 1nat,
{
    match f0.spec_enter_array(e) {
        Some(x) => r == x && f1 == f0.spec_after_enter_array(e),
        None => exists|fm: F, rb: FieldElementArrayExpression<T>| #![trigger intermediate(fm), intermediate(rb)]
            array_children_folded(f0.spec_after_enter_array(e), e, fm, rb) && r == fm.spec_rewrite_array(rb) && f1 == fm.spec_after_array(rb),
    }
}

/// How an expression of any kind folds: as an expression of its kind.
pub open spec fn expression_folded<T, F: Folder<T>>(f0: F, e: TypedExpression<T>, f1: F, r: TypedExpression<T>) -> bool
    decreases e, 1nat,
{
    match e {
        TypedExpression::Boolean(b) => r matches TypedExpression::Boolean(b2) && boolean_folded(f0, b, f1, b2),
        TypedExpression::FieldElement(x) => r matches TypedExpression::FieldElement(x2) && field_folded(f0, x, f1, x2),
        TypedExpression::FieldElementArray(a) => r matches TypedExpression::FieldElementArray(a2) && array_folded(f0, a, f1, a2),
    }
}

/// How a sequence of expressions folds from state `f0`: each in order, from
/// the state the previous one left.
pub open spec fn arguments_folded<T, F: Folder<T>>(f0: F, s: Seq<TypedExpression<T>>, f1: F, r: Seq<TypedExpression<T>>) -> bool
    decreases s, 1nat,
{
    if s.len() == 0 {
        f1 == f0 && r.len() == 0
    } else {
        r.len() == s.len() && exists|fm: F|
            #[trigger] intermediate(fm) && arguments_folded(f0, s.drop_last(), fm, r.drop_last()) && expression_folded(fm, s.last(), f1, r.last())
    }
}

/// How a sequence of field element expressions folds from state `f0`: each
/// in order, from the state the previous one left.
pub open spec fn elements_folded<T, F: Folder<T>>(f0: F, s: Seq<FieldElementExpression<T>>, f1: F, r: Seq<FieldElementExpression<T>>) -> bool
    decreases s, 1nat,
{
    if s.len() == 0 {
        f1 == f0 && r.len() == 0
    } else {
        r.len() == s.len() && exists|fm: F|
            #[trigger] intermediate(fm) && elements_folded(f0, s.drop_last(), fm, r.drop_last()) && field_folded(fm, s.last(), f1, r.last())
    }
}

/// One more element folded after a folded prefix.
proof fn lemma_arguments_step<T, F: Folder<T>>(f0: F, s: Seq<TypedExpression<T>>, fm: F, f1: F, r: Seq<TypedExpression<T>>)
    requires
        s.len() > 0,
        r.len() == s.len(),
        arguments_folded(f0, s.drop_last(), fm, r.drop_last()),
        expression_folded(fm, s.last(), f1, r.last()),
    ensures
        arguments_folded(f0, s, f1, r),
{
    assert(intermediate(fm));
}

/// One more element folded after a folded prefix.
proof fn lemma_elements_step<T, F: Folder<T>>(f0: F, s: Seq<FieldElementExpression<T>>, fm: F, f1: F, r: Seq<FieldElementExpression<T>>)
    requires
        s.len() > 0,
        r.len() == s.len(),
        elements_folded(f0, s.drop_last(), fm, r.drop_last()),
        field_folded(fm, s.last(), f1, r.last()),
    ensures
        elements_folded(f0, s, f1, r),
{
    assert(intermediate(fm));
}

/// Folds each expression of `v`, in order; their types are kept.
pub fn fold_expressions<T, F: Folder<T>>(f: &mut F, v: Vec<TypedExpression<T>>) -> (r: Vec<TypedExpression<T>>)
    ensures
        arguments_folded(*old(f), v@, *final(f), r@),
        r@.len() == v@.len(),
        forall|i: int| 0 <= i < v@.len() ==> #[trigger] expression_type(r@[i]) == expression_type(v@[i]),
    decreases v, 1nat,
{
    let ghost f0 = *f;
    let ghost v0 = v;
    let mut rest = v;
    let mut out: Vec<TypedExpression<T>> = Vec::new();
    while rest.len() > 0
        invariant
            v0 == v,
            out@.len() + rest@.len() == v0@.len(),
            rest@ == v0@.subrange(out@.len() as int, v0@.len() as int),
            arguments_folded(f0, v0@.subrange(0, out@.len() as int), *f, out@),
            forall|i: int| 0 <= i < out@.len() ==> #[trigger] expression_type(out@[i]) == expression_type(v0@[i]),
        decreases rest@.len(),
    {
        let ghost k = out@.len() as int;
        let ghost fb = *f;
        let ghost ob = out@;
        let x = rest.remove(0);
        assert(x == v0@[k]);
        proof {
            vstd::std_specs::vec::axiom_vec_index_decreases(v0, k);
        }
        let y = fold_expression(f, x);
        out.push(y);
        assert(v0@.subrange(0, k + 1).drop_last() =~= v0@.subrange(0, k));
        assert(out@.drop_last() =~= ob);
        assert(arguments_folded(f0, v0@.subrange(0, k + 1).drop_last(), fb, out@.drop_last()));
        assert(expression_folded(fb, v0@.subrange(0, k + 1).last(), *f, out@.last()));
        proof {
            lemma_arguments_step(f0, v0@.subrange(0, k + 1), fb, *f, out@);
        }
        assert(rest@ =~= v0@.subrange(out@.len() as int, v0@.len() as int));
    }
    assert(v0@.subrange(0, v0@.len() as int) =~= v0@);
    out
}

/// Folds each field element expression of `v`, in order.
pub fn fold_field_expressions<T, F: Folder<T>>(f: &mut F, v: Vec<FieldElementExpression<T>>) -> (r: Vec<FieldElementExpression<T>>)
    ensures
        elements_folded(*old(f), v@, *final(f), r@),
        r@.len() == v@.len(),
    decreases v, 1nat,
{
    let ghost f0 = *f;
    let ghost v0 = v;
    let mut rest = v;
    let mut out: Vec<FieldElementExpression<T>> = Vec::new();
    while rest.len() > 0
        invariant
            v0 == v,
            out@.len() + rest@.len() == v0@.len(),
            rest@ == v0@.subrange(out@.len() as int, v0@.len() as int),
            elements_folded(f0, v0@.subrange(0, out@.len() as int), *f, out@),
        decreases rest@.len(),
    {
        let ghost k = out@.len() as int;
        let ghost fb = *f;
        let ghost ob = out@;
        let x = rest.remove(0);
        assert(x == v0@[k]);
        proof {
            vstd::std_specs::vec::axiom_vec_index_decreases(v0, k);
        }
        let y = fold_field_expression(f, x);
        out.push(y);
        assert(v0@.subrange(0, k + 1).drop_last() =~= v0@.subrange(0, k));
        assert(out@.drop_last() =~= ob);
        assert(elements_folded(f0, v0@.subrange(0, k + 1).drop_last(), fb, out@.drop_last()));
        assert(field_folded(fb, v0@.subrange(0, k + 1).last(), *f, out@.last()));
        proof {
            lemma_elements_step(f0, v0@.subrange(0, k + 1), fb, *f, out@);
        }
        assert(rest@ =~= v0@.subrange(out@.len() as int, v0@.len() as int));
    }
    assert(v0@.subrange(0, v0@.len() as int) =~= v0@);
    out
}

/// Folds an expression of any kind; its type is kept.
pub fn fold_expression<T, F: Folder<T>>(f: &mut F, e: TypedExpression<T>) -> (r: TypedExpression<T>)
    ensures
        expression_folded(*old(f), e, *final(f), r),
        expression_type(r) == expression_type(e),
    decreases e, 1nat,
{
    match e {
        TypedExpression::Boolean(b) => TypedExpression::Boolean(fold_boolean_expression(f, b)),
        TypedExpression::FieldElement(x) => TypedExpression::FieldElement(fold_field_expression(f, x)),
        TypedExpression::FieldElementArray(a) => TypedExpression::FieldElementArray(fold_array_expression(f, a)),
    }
}

/// Folds the children of a field element expression, left to right, and
/// rebuilds the node.
fn fold_field_children<T, F: Folder<T>>(f: &mut F, e: FieldElementExpression<T>) -> (rb: FieldElementExpression<T>)
    ensures
        field_children_folded(*old(f), e, *final(f), rb),
    decreases e, 0nat,
{
    match e {
        FieldElementExpression::Number(n) => FieldElementExpression::Number(n),
        FieldElementExpression::Identifier(v) => FieldElementExpression::Identifier(v),
        FieldElementExpression::Add(l, r) => {
            let l2 = fold_field_expression(f, *l);
            proof { assert(intermediate(*f)); }
            let r2 = fold_field_expression(f, *r);
            proof { assert(intermediate(*f)); }
            FieldElementExpression::Add(Box::new(l2), Box::new(r2))
        },
        FieldElementExpression::Sub(l, r) => {
            let l2 = fold_field_expression(f, *l);
            proof { assert(intermediate(*f)); }
            let r2 = fold_field_expression(f, *r);
            proof { assert(intermediate(*f)); }
            FieldElementExpression::Sub(Box::new(l2), Box::new(r2))
        },
        FieldElementExpression::Mult(l, r) => {
            let l2 = fold_field_expression(f, *l);
            proof { assert(intermediate(*f)); }
            let r2 = fold_field_expression(f, *r);
            proof { assert(intermediate(*f)); }
            FieldElementExpression::Mult(Box::new(l2), Box::new(r2))
        },
        FieldElementExpression::Div(l, r) => {
            let l2 = fold_field_expression(f, *l);
            proof { assert(intermediate(*f)); }
            let r2 = fold_field_expression(f, *r);
            proof { assert(intermediate(*f)); }
            FieldElementExpression::Div(Box::new(l2), Box::new(r2))
        },
        FieldElementExpression::Pow(l, r) => {
            let l2 = fold_field_expression(f, *l);
            proof { assert(intermediate(*f)); }
            let r2 = fold_field_expression(f, *r);
            proof { assert(intermediate(*f)); }
            FieldElementExpression::Pow(Box::new(l2), Box::new(r2))
        },
        FieldElementExpression::IfElse(c, a, b) => {
            let c2 = fold_boolean_expression(f, *c);
            proof { assert(intermediate(*f)); }
            let a2 = fold_field_expression(f, *a);
            proof { assert(intermediate(*f)); }
            let b2 = fold_field_expression(f, *b);
            proof { assert(intermediate(*f)); }
            FieldElementExpression::IfElse(Box::new(c2), Box::new(a2), Box::new(b2))
        },
        FieldElementExpression::FunctionCall(k, args) => {
            let args2 = fold_expressions(f, args);
            proof { assert(intermediate(*f)); }
            FieldElementExpression::FunctionCall(k, args2)
        },
        FieldElementExpression::Select(a, i) => {
            let a2 = fold_array_expression(f, *a);
            proof { assert(intermediate(*f)); }
            let i2 = fold_field_expression(f, *i);
            proof { assert(intermediate(*f)); }
            FieldElementExpression::Select(Box::new(a2), Box::new(i2))
        },
    }
}

/// Folds a field element expression: the pass's `enter` may replace it
/// outright; otherwise its children from left to right, then the pass's
/// rewrite of the rebuilt node.
pub fn fold_field_expression<T, F: Folder<T>>(f: &mut F, e: FieldElementExpression<T>) -> (r: FieldElementExpression<T>)
    ensures
        field_folded(*old(f), e, *final(f), r),
    decreases e, 1nat,
{
    match f.enter_field_expression(&e) {
        Some(x) => x,
        None => {
            let rb = fold_field_children(f, e);
            proof { assert(intermediate(*f)); assert(intermediate(rb)); }
            f.rewrite_field_expression(rb)
        },
    }
}

/// Folds the children of a boolean expression, left to right, and rebuilds
/// the node.
fn fold_boolean_children<T, F: Folder<T>>(f: &mut F, e: BooleanExpression<T>) -> (rb: BooleanExpression<T>)
    ensures
        boolean_children_folded(*old(f), e, *final(f), rb),
    decreases e, 0nat,
{
    match e {
        BooleanExpression::Identifier(v) => BooleanExpression::Identifier(v),
        BooleanExpression::Value(b) => BooleanExpression::Value(b),
        BooleanExpression::Lt(l, r) => {
            let l2 = fold_field_expression(f, *l);
            proof { assert(intermediate(*f)); }
            let r2 = fold_field_expression(f, *r);
            proof { assert(intermediate(*f)); }
            BooleanExpression::Lt(Box::new(l2), Box::new(r2))
        },
        BooleanExpression::Le(l, r) => {
            let l2 = fold_field_expression(f, *l);
            proof { assert(intermediate(*f)); }
            let r2 = fold_field_expression(f, *r);
            proof { assert(intermediate(*f)); }
            BooleanExpression::Le(Box::new(l2), Box::new(r2))
        },
        BooleanExpression::Eq(l, r) => {
            let l2 = fold_field_expression(f, *l);
            proof { assert(intermediate(*f)); }
            let r2 = fold_field_expression(f, *r);
            proof { assert(intermediate(*f)); }
            BooleanExpression::Eq(Box::new(l2), Box::new(r2))
        },
        BooleanExpression::Ge(l, r) => {
            let l2 = fold_field_expression(f, *l);
            proof { assert(intermediate(*f)); }
            let r2 = fold_field_expression(f, *r);
            proof { assert(intermediate(*f)); }
            BooleanExpression::Ge(Box::new(l2), Box::new(r2))
        },
        BooleanExpression::Gt(l, r) => {
            let l2 = fold_field_expression(f, *l);
            proof { assert(intermediate(*f)); }
            let r2 = fold_field_expression(f, *r);
            proof { assert(intermediate(*f)); }
            BooleanExpression::Gt(Box::new(l2), Box::new(r2))
        },
        BooleanExpression::Or(l, r) => {
            let l2 = fold_boolean_expression(f, *l);
            proof { assert(intermediate(*f)); }
            let r2 = fold_boolean_expression(f, *r);
            proof { assert(intermediate(*f)); }
            BooleanExpression::Or(Box::new(l2), Box::new(r2))
        },
        BooleanExpression::And(l, r) => {
            let l2 = fold_boolean_expression(f, *l);
            proof { assert(intermediate(*f)); }
            let r2 = fold_boolean_expression(f, *r);
            proof { assert(intermediate(*f)); }
            BooleanExpression::And(Box::new(l2), Box::new(r2))
        },
        BooleanExpression::Not(x) => {
            let x2 = fold_boolean_expression(f, *x);
            proof { assert(intermediate(*f)); }
            BooleanExpression::Not(Box::new(x2))
        },
    }
}

/// Folds a boolean expression: the pass's `enter` may replace it outright;
/// otherwise its children from left to right, then the pass's rewrite of
/// the rebuilt node.
pub fn fold_boolean_expression<T, F: Folder<T>>(f: &mut F, e: BooleanExpression<T>) -> (r: BooleanExpression<T>)
    ensures
        boolean_folded(*old(f), e, *final(f), r),
    decreases e, 1nat,
{
    match f.enter_boolean_expression(&e) {
        Some(x) => x,
        None => {
            let rb = fold_boolean_children(f, e);
            proof { assert(intermediate(*f)); assert(intermediate(rb)); }
            f.rewrite_boolean_expression(rb)
        },
    }
}

/// Folds the children of an array expression, left to right, and rebuilds
/// the node. The length is kept.
fn fold_array_children<T, F: Folder<T>>(f: &mut F, e: FieldElementArrayExpression<T>) -> (rb: FieldElementArrayExpression<T>)
    ensures
        array_children_folded(*old(f), e, *final(f), rb),
        array_size(rb) == array_size(e),
    decreases e, 0nat,
{
    match e {
        FieldElementArrayExpression::Identifier(n, v) => FieldElementArrayExpression::Identifier(n, v),
        FieldElementArrayExpression::Value(n, values) => {
            let values2 = fold_field_expressions(f, values);
            proof { assert(intermediate(*f)); }
            FieldElementArrayExpression::Value(n, values2)
        },
        FieldElementArrayExpression::FunctionCall(n, k, args) => {
            let args2 = fold_expressions(f, args);
            proof { assert(intermediate(*f)); }
            FieldElementArrayExpression::FunctionCall(n, k, args2)
        },
        FieldElementArrayExpression::IfElse(c, a, b) => {
            let c2 = fold_boolean_expression(f, *c);
            proof { assert(intermediate(*f)); }
            let a2 = fold_array_expression(f, *a);
            proof { assert(intermediate(*f)); }
            let b2 = fold_array_expression(f, *b);
            proof { assert(intermediate(*f)); }
            FieldElementArrayExpression::IfElse(Box::new(c2), Box::new(a2), Box::new(b2))
        },
    }
}

/// Folds an array expression: the pass's `enter` may replace it outright;
/// otherwise its children from left to right, then the pass's rewrite of
/// the rebuilt node. The length is kept.
pub fn fold_array_expression<T, F: Folder<T>>(f: &mut F, e: FieldElementArrayExpression<T>) -> (r: FieldElementArrayExpression<T>)
    ensures
        array_folded(*old(f), e, *final(f), r),
        array_size(r) == array_size(e),
    decreases e, 1nat,
{
    match f.enter_array_expression(&e) {
        Some(x) => x,
        None => {
            let rb = fold_array_children(f, e);
            proof { assert(intermediate(*f)); assert(intermediate(rb)); }
            f.rewrite_array_expression(rb)
        },
    }
}

/// How a variable folds: the pass's rewrite of it.
pub open spec fn variable_folded<T, F: Folder<T>>(f0: F, v: Variable, f1: F, r: Variable) -> bool {
    r == f0.spec_rewrite_variable(v) && f1 == f0.spec_after_variable(v)
}

/// How a sequence of variables folds from state `f0`: each in order.
pub open spec fn variables_folded<T, F: Folder<T>>(f0: F, s: Seq<Variable>, f1: F, r: Seq<Variable>) -> bool
    decreases s, 1nat,
{
    if s.len() == 0 {
        f1 == f0 && r.len() == 0
    } else {
        r.len() == s.len() && exists|fm: F|
            #[trigger] intermediate(fm) && variables_folded(f0, s.drop_last(), fm, r.drop_last()) && variable_folded(fm, s.last(), f1, r.last())
    }
}

/// How the children of an assignee fold from state `f0`, left to right.
pub open spec fn assignee_children_folded<T, F: Folder<T>>(f0: F, a: TypedAssignee<T>, f1: F, rb: TypedAssignee<T>) -> bool
    decreases a, 0nat,
{
    match a {
        TypedAssignee::Identifier(v) => rb matches TypedAssignee::Identifier(v2) && variable_folded(f0, v, f1, v2),
        TypedAssignee::ArrayElement(b, i) => rb matches TypedAssignee::ArrayElement(b2, i2) && exists|fa: F|
            #[trigger] intermediate(fa) && assignee_folded(f0, *b, fa, *b2) && field_folded(fa, *i, f1, *i2),
    }
}

/// How an assignee folds: its children, then the pass's rewrite.
pub open spec fn assignee_folded<T, F: Folder<T>>(f0: F, a: TypedAssignee<T>, f1: F, r: TypedAssignee<T>) -> bool
    decreases a, 1nat,
{
    exists|fm: F, rb: TypedAssignee<T>| #![trigger intermediate(fm), intermediate(rb)]
        assignee_children_folded(f0, a, fm, rb) && r == fm.spec_rewrite_assignee(rb) && f1 == fm.spec_after_assignee(rb)
}

/// How the arguments of a multiple-result call fold, into the rebuilt call.
pub open spec fn list_children_folded<T, F: Folder<T>>(f0: F, e: TypedExpressionList<T>, f1: F, rb: TypedExpressionList<T>) -> bool {
    match e {
        TypedExpressionList::FunctionCall(k, args, types) => rb matches TypedExpressionList::FunctionCall(k2, args2, types2)
            && k2 == k && types2 == types && arguments_folded(f0, args@, f1, args2@),
    }
}

/// How a multiple-result call folds: its arguments in order, then the
/// pass's rewrite of the rebuilt call.
pub open spec fn list_folded<T, F: Folder<T>>(f0: F, e: TypedExpressionList<T>, f1: F, r: TypedExpressionList<T>) -> bool {
    exists|fm: F, rb: TypedExpressionList<T>| #![trigger intermediate(fm), intermediate(rb)]
        list_children_folded(f0, e, fm, rb) && r == fm.spec_rewrite_list(rb) && f1 == fm.spec_after_list(rb)
}

/// How the parts of a statement fold from state `f0`, left to right.
pub open spec fn statement_children_folded<T, F: Folder<T>>(f0: F, s: TypedStatement<T>, f1: F, rb: TypedStatement<T>) -> bool
    decreases s, 0nat,
{
    match s {
        TypedStatement::Return(es) => rb matches TypedStatement::Return(es2) && arguments_folded(f0, es@, f1, es2@),
        TypedStatement::Definition(a, e) => rb matches TypedStatement::Definition(a2, e2) && exists|fa: F|
            #[trigger] intermediate(fa) && assignee_folded(f0, a, fa, a2) && expression_folded(fa, e, f1, e2),
        TypedStatement::Declaration(v) => rb matches TypedStatement::Declaration(v2) && variable_folded(f0, v, f1, v2),
        TypedStatement::Condition(l, r) => rb matches TypedStatement::Condition(l2, r2) && exists|fa: F|
            #[trigger] intermediate(fa) && expression_folded(f0, l, fa, l2) && expression_folded(fa, r, f1, r2),
        TypedStatement::For(v, start, stop, body) => rb matches TypedStatement::For(v2, start2, stop2, body2)
            && start2 == start && stop2 == stop && exists|fa: F|
            #[trigger] intermediate(fa) && variable_folded(f0, v, fa, v2) && statements_folded(fa, body@, f1, body2@),
        TypedStatement::MultipleDefinition(vars, call) => rb matches TypedStatement::MultipleDefinition(vars2, call2)
            && exists|fa: F|
            #[trigger] intermediate(fa) && variables_folded(f0, vars@, fa, vars2@) && list_folded(fa, call, f1, call2),
    }
}

/// How a statement folds: its parts, then the pass's rewrite.
pub open spec fn statement_folded<T, F: Folder<T>>(f0: F, s: TypedStatement<T>, f1: F, r: TypedStatement<T>) -> bool
    decreases s, 1nat,
{
    match f0.spec_enter_statement(s) {
        Some(x) => r == x && f1 == f0.spec_after_enter_statement(s),
        None => exists|fm: F, rb: TypedStatement<T>| #![trigger intermediate(fm), intermediate(rb)]
            statement_children_folded(f0.spec_after_enter_statement(s), s, fm, rb) && r == fm.spec_rewrite_statement(rb) && f1 == fm.spec_after_statement(rb),
    }
}

/// How a sequence of statements folds from state `f0`: each in order.
pub open spec fn statements_folded<T, F: Folder<T>>(f0: F, s: Seq<TypedStatement<T>>, f1: F, r: Seq<TypedStatement<T>>) -> bool
    decreases s, 1nat,
{
    if s.len() == 0 {
        f1 == f0 && r.len() == 0
    } else {
        r.len() == s.len() && exists|fm: F|
            #[trigger] intermediate(fm) && statements_folded(f0, s.drop_last(), fm, r.drop_last()) && statement_folded(fm, s.last(), f1, r.last())
    }
}

/// How a parameter folds: its variable, with its visibility kept.
pub open spec fn parameter_folded<T, F: Folder<T>>(f0: F, p: Parameter, f1: F, r: Parameter) -> bool {
    r.private == p.private && variable_folded(f0, p.id, f1, r.id)
}

/// How a sequence of parameters folds from state `f0`: each in order.
pub open spec fn parameters_folded<T, F: Folder<T>>(f0: F, s: Seq<Parameter>, f1: F, r: Seq<Parameter>) -> bool
    decreases s.len(),
{
    if s.len() == 0 {
        f1 == f0 && r.len() == 0
    } else {
        r.len() == s.len() && exists|fm: F|
            #[trigger] intermediate(fm) && parameters_folded(f0, s.drop_last(), fm, r.drop_last()) && parameter_folded(fm, s.last(), f1, r.last())
    }
}

/// How a function folds: its parameters in order, then its body, with name
/// and signature kept, then the pass's rewrite.
pub open spec fn function_folded<T, F: Folder<T>>(f0: F, g: TypedFunction<T>, f1: F, r: TypedFunction<T>) -> bool {
    exists|fa: F, fm: F, rb: TypedFunction<T>| #![trigger intermediate(fa), intermediate(fm), intermediate(rb)]
        rb.id == g.id && rb.signature == g.signature
        && parameters_folded(f0, g.arguments@, fa, rb.arguments@)
        && statements_folded(fa, g.statements@, fm, rb.statements@)
        && r == fm.spec_rewrite_function(rb) && f1 == fm.spec_after_function(rb)
}

/// How an entry of a symbol table folds: the key is kept, a function defined
/// here is folded, and an alias is kept.
pub open spec fn symbol_folded<T, F: Folder<T>>(f0: F, e: (FunctionKey, TypedFunctionSymbol<T>), f1: F, r: (FunctionKey, TypedFunctionSymbol<T>)) -> bool {
    r.0 == e.0 && match e.1 {
        TypedFunctionSymbol::Here(g) => r.1 matches TypedFunctionSymbol::Here(g2) && function_folded(f0, g, f1, g2),
        TypedFunctionSymbol::There(k, m) => f1 == f0 && r.1 == TypedFunctionSymbol::<T>::There(k, m),
    }
}

/// How a symbol table folds from state `f0`: each entry in order.
pub open spec fn symbols_folded<T, F: Folder<T>>(f0: F, s: Seq<(FunctionKey, TypedFunctionSymbol<T>)>, f1: F, r: Seq<(FunctionKey, TypedFunctionSymbol<T>)>) -> bool
    decreases s, 1nat,
{
    if s.len() == 0 {
        f1 == f0 && r.len() == 0
    } else {
        r.len() == s.len() && exists|fm: F|
            #[trigger] intermediate(fm) && symbols_folded(f0, s.drop_last(), fm, r.drop_last()) && symbol_folded(fm, s.last(), f1, r.last())
    }
}

/// How a module folds: its symbol table, with imports kept, then the pass's
/// rewrite.
pub open spec fn module_folded<T, F: Folder<T>>(f0: F, m: TypedModule<T>, f1: F, r: TypedModule<T>) -> bool {
    exists|fm: F, rb: TypedModule<T>| #![trigger intermediate(fm), intermediate(rb)]
        rb.imports == m.imports && rb.imported_functions == m.imported_functions
        && symbols_folded(f0, m.functions@, fm, rb.functions@)
        && r == fm.spec_rewrite_module(rb) && f1 == fm.spec_after_module(rb)
}

/// How an entry of a module table folds: the identifier is kept and the
/// module is folded.
pub open spec fn named_module_folded<T, F: Folder<T>>(f0: F, e: (TypedModuleId, TypedModule<T>), f1: F, r: (TypedModuleId, TypedModule<T>)) -> bool {
    r.0 == e.0 && module_folded(f0, e.1, f1, r.1)
}

/// How a module table folds from state `f0`: each module in order.
pub open spec fn modules_folded<T, F: Folder<T>>(f0: F, s: Seq<(TypedModuleId, TypedModule<T>)>, f1: F, r: Seq<(TypedModuleId, TypedModule<T>)>) -> bool
    decreases s, 1nat,
{
    if s.len() == 0 {
        f1 == f0 && r.len() == 0
    } else {
        r.len() == s.len() && exists|fm: F|
            #[trigger] intermediate(fm) && modules_folded(f0, s.drop_last(), fm, r.drop_last()) && named_module_folded(fm, s.last(), f1, r.last())
    }
}

/// How a program folds: the entry module, then the module table, then the
/// pass's rewrite.
pub open spec fn program_folded<T, F: Folder<T>>(f0: F, p: TypedProgram<T>, f1: F, r: TypedProgram<T>) -> bool {
    exists|fa: F, fm: F, rb: TypedProgram<T>| #![trigger intermediate(fa), intermediate(fm), intermediate(rb)]
        module_folded(f0, p.main, fa, rb.main) && modules_folded(fa, p.modules@, fm, rb.modules@)
        && r == fm.spec_rewrite_program(rb) && f1 == fm.spec_after_program(rb)
}

/// One more element folded after a folded prefix.
proof fn lemma_variables_step<T, F: Folder<T>>(f0: F, s: Seq<Variable>, fm: F, f1: F, r: Seq<Variable>)
    requires
        s.len() > 0,
        r.len() == s.len(),
        variables_folded(f0, s.drop_last(), fm, r.drop_last()),
        variable_folded(fm, s.last(), f1, r.last()),
    ensures
        variables_folded(f0, s, f1, r),
{
    assert(intermediate(fm));
}

/// One more element folded after a folded prefix.
proof fn lemma_statements_step<T, F: Folder<T>>(f0: F, s: Seq<TypedStatement<T>>, fm: F, f1: F, r: Seq<TypedStatement<T>>)
    requires
        s.len() > 0,
        r.len() == s.len(),
        statements_folded(f0, s.drop_last(), fm, r.drop_last()),
        statement_folded(fm, s.last(), f1, r.last()),
    ensures
        statements_folded(f0, s, f1, r),
{
    assert(intermediate(fm));
}

/// One more element folded after a folded prefix.
proof fn lemma_symbols_step<T, F: Folder<T>>(f0: F, s: Seq<(FunctionKey, TypedFunctionSymbol<T>)>, fm: F, f1: F, r: Seq<(FunctionKey, TypedFunctionSymbol<T>)>)
    requires
        s.len() > 0,
        r.len() == s.len(),
        symbols_folded(f0, s.drop_last(), fm, r.drop_last()),
        symbol_folded(fm, s.last(), f1, r.last()),
    ensures
        symbols_folded(f0, s, f1, r),
{
    assert(intermediate(fm));
}

/// One more element folded after a folded prefix.
proof fn lemma_modules_step<T, F: Folder<T>>(f0: F, s: Seq<(TypedModuleId, TypedModule<T>)>, fm: F, f1: F, r: Seq<(TypedModuleId, TypedModule<T>)>)
    requires
        s.len() > 0,
        r.len() == s.len(),
        modules_folded(f0, s.drop_last(), fm, r.drop_last()),
        named_module_folded(fm, s.last(), f1, r.last()),
    ensures
        modules_folded(f0, s, f1, r),
{
    assert(intermediate(fm));
}

/// Folds a variable: the pass's rewrite of it. Its type is kept.
pub fn fold_variable<T, F: Folder<T>>(f: &mut F, v: Variable) -> (r: Variable)
    ensures
        variable_folded(*old(f), v, *final(f), r),
        r.ty == v.ty,
{
    f.rewrite_variable(v)
}

/// Folds each variable of `v`, in order; their types are kept.
pub fn fold_variables<T, F: Folder<T>>(f: &mut F, v: Vec<Variable>) -> (r: Vec<Variable>)
    ensures
        variables_folded(*old(f), v@, *final(f), r@),
        r@.len() == v@.len(),
        forall|i: int| 0 <= i < v@.len() ==> #[trigger] r@[i].ty == v@[i].ty,
{
    let ghost f0 = *f;
    let ghost v0 = v;
    let mut rest = v;
    let mut out: Vec<Variable> = Vec::new();
    while rest.len() > 0
        invariant
            out@.len() + rest@.len() == v0@.len(),
            rest@ == v0@.subrange(out@.len() as int, v0@.len() as int),
            variables_folded(f0, v0@.subrange(0, out@.len() as int), *f, out@),
            forall|i: int| 0 <= i < out@.len() ==> #[trigger] out@[i].ty == v0@[i].ty,
        decreases rest@.len(),
    {
        let ghost k = out@.len() as int;
        let ghost fb = *f;
        let ghost ob = out@;
        let x = rest.remove(0);
        assert(x == v0@[k]);
        let y = fold_variable(f, x);
        out.push(y);
        assert(v0@.subrange(0, k + 1).drop_last() =~= v0@.subrange(0, k));
        assert(out@.drop_last() =~= ob);
        proof {
            lemma_variables_step(f0, v0@.subrange(0, k + 1), fb, *f, out@);
        }
        assert(rest@ =~= v0@.subrange(out@.len() as int, v0@.len() as int));
    }
    assert(v0@.subrange(0, v0@.len() as int) =~= v0@);
    out
}

/// Folds each parameter of `v`, in order: its variable through the pass's
/// variable rewrite. Types and visibility are kept.
pub fn fold_parameters<T, F: Folder<T>>(f: &mut F, v: Vec<Parameter>) -> (r: Vec<Parameter>)
    ensures
        parameters_folded(*old(f), v@, *final(f), r@),
        r@.len() == v@.len(),
        forall|i: int| 0 <= i < v@.len() ==> #[trigger] r@[i].id.ty == v@[i].id.ty,
{
    let ghost f0 = *f;
    let ghost v0 = v;
    let mut rest = v;
    let mut out: Vec<Parameter> = Vec::new();
    while rest.len() > 0
        invariant
            out@.len() + rest@.len() == v0@.len(),
            rest@ == v0@.subrange(out@.len() as int, v0@.len() as int),
            parameters_folded(f0, v0@.subrange(0, out@.len() as int), *f, out@),
            forall|i: int| 0 <= i < out@.len() ==> #[trigger] out@[i].id.ty == v0@[i].id.ty,
        decreases rest@.len(),
    {
        let ghost k = out@.len() as int;
        let ghost fb = *f;
        let ghost ob = out@;
        let x = rest.remove(0);
        assert(x == v0@[k]);
        let Parameter { id, private } = x;
        let y = Parameter { id: fold_variable(f, id), private };
        out.push(y);
        assert(v0@.subrange(0, k + 1).drop_last() =~= v0@.subrange(0, k));
        assert(out@.drop_last() =~= ob);
        proof {
            lemma_parameters_step(f0, v0@.subrange(0, k + 1), fb, *f, out@);
        }
        assert(rest@ =~= v0@.subrange(out@.len() as int, v0@.len() as int));
    }
    assert(v0@.subrange(0, v0@.len() as int) =~= v0@);
    out
}

/// One more parameter folded after a folded prefix.
proof fn lemma_parameters_step<T, F: Folder<T>>(f0: F, s: Seq<Parameter>, fm: F, f1: F, r: Seq<Parameter>)
    requires
        s.len() > 0,
        r.len() == s.len(),
        parameters_folded(f0, s.drop_last(), fm, r.drop_last()),
        parameter_folded(fm, s.last(), f1, r.last()),
    ensures
        parameters_folded(f0, s, f1, r),
{
    assert(intermediate(fm));
}

/// Folds the children of an assignee, left to right, and rebuilds it.
fn fold_assignee_children<T, F: Folder<T>>(f: &mut F, a: TypedAssignee<T>) -> (rb: TypedAssignee<T>)
    ensures
        assignee_children_folded(*old(f), a, *final(f), rb),
        assignee_type(rb) == assignee_type(a),
    decreases a, 0nat,
{
    match a {
        TypedAssignee::Identifier(v) => {
            let v2 = fold_variable(f, v);
            TypedAssignee::Identifier(v2)
        },
        TypedAssignee::ArrayElement(base, i) => {
            let b2 = fold_assignee(f, *base);
            proof { assert(intermediate(*f)); }
            let i2 = fold_field_expression(f, *i);
            TypedAssignee::ArrayElement(Box::new(b2), Box::new(i2))
        },
    }
}

/// Folds an assignee: its base and index, then the pass's rewrite. Its type
/// is kept.
pub fn fold_assignee<T, F: Folder<T>>(f: &mut F, a: TypedAssignee<T>) -> (r: TypedAssignee<T>)
    ensures
        assignee_folded(*old(f), a, *final(f), r),
        assignee_type(r) == assignee_type(a),
    decreases a, 1nat,
{
    let rb = fold_assignee_children(f, a);
    proof { assert(intermediate(*f)); assert(intermediate(rb)); }
    f.rewrite_assignee(rb)
}

/// Folds a multiple-result call: its arguments, then the pass's rewrite.
/// Its result types are kept.
pub fn fold_expression_list<T, F: Folder<T>>(f: &mut F, e: TypedExpressionList<T>) -> (r: TypedExpressionList<T>)
    ensures
        list_folded(*old(f), e, *final(f), r),
        r.spec_types() == e.spec_types(),
{
    let rb = match e {
        TypedExpressionList::FunctionCall(k, args, types) => {
            let args2 = fold_expressions(f, args);
            TypedExpressionList::FunctionCall(k, args2, types)
        },
    };
    proof { assert(intermediate(*f)); assert(intermediate(rb)); }
    f.rewrite_expression_list(rb)
}

/// Folds the parts of a statement, left to right, and rebuilds it. A
/// well-typed statement stays well typed.
fn fold_statement_children<T, F: Folder<T>>(f: &mut F, s: TypedStatement<T>) -> (rb: TypedStatement<T>)
    ensures
        statement_children_folded(*old(f), s, *final(f), rb),
        forall|o: Seq<Type>| statement_well_typed(s, o) ==> #[trigger] statement_well_typed(rb, o),
    decreases s, 0nat,
{
    let ghost s0 = s;
    match s {
        TypedStatement::Return(es) => {
            let ghost es0 = es;
            let es2 = fold_expressions(f, es);
            proof {
                assert forall|o: Seq<Type>| expressions_match_types(es0@, o) implies expressions_match_types(es2@, o) by {
                    assert forall|i: int| 0 <= i < es2@.len() implies #[trigger] expression_type(es2@[i]) == o[i] by {
                        assert(expression_type(es0@[i]) == o[i]);
                    }
                }
            }
            let rb = TypedStatement::Return(es2);
            proof {
                assert forall|o: Seq<Type>| statement_well_typed(s0, o) implies #[trigger] statement_well_typed(rb, o) by {
                    reveal_with_fuel(statement_well_typed, 2);
                }
            }
            rb
        },
        TypedStatement::Definition(a, e) => {
            let a2 = fold_assignee(f, a);
            proof { assert(intermediate(*f)); }
            let e2 = fold_expression(f, e);
            let rb = TypedStatement::Definition(a2, e2);
            proof {
                assert forall|o: Seq<Type>| statement_well_typed(s0, o) implies #[trigger] statement_well_typed(rb, o) by {
                    reveal_with_fuel(statement_well_typed, 2);
                }
            }
            rb
        },
        TypedStatement::Declaration(v) => {
            let v2 = fold_variable(f, v);
            let rb = TypedStatement::Declaration(v2);
            proof {
                assert forall|o: Seq<Type>| statement_well_typed(s0, o) implies #[trigger] statement_well_typed(rb, o) by {
                    reveal_with_fuel(statement_well_typed, 2);
                }
            }
            rb
        },
        TypedStatement::Condition(l, r) => {
            let l2 = fold_expression(f, l);
            proof { assert(intermediate(*f)); }
            let r2 = fold_expression(f, r);
            let rb = TypedStatement::Condition(l2, r2);
            proof {
                assert forall|o: Seq<Type>| statement_well_typed(s0, o) implies #[trigger] statement_well_typed(rb, o) by {
                    reveal_with_fuel(statement_well_typed, 2);
                }
            }
            rb
        },
        TypedStatement::For(v, start, stop, body) => {
            let v2 = fold_variable(f, v);
            proof { assert(intermediate(*f)); }
            let ghost b0 = body;
            let body2 = fold_statements(f, body);
            let ghost b2 = body2;
            let rb = TypedStatement::For(v2, start, stop, body2);
            proof {
                assert forall|o: Seq<Type>| statement_well_typed(s0, o) implies #[trigger] statement_well_typed(rb, o) by {
                    assert(statements_well_typed(b0@, o));
                    assert(statements_well_typed(b2@, o));
                }
            }
            rb
        },
        TypedStatement::MultipleDefinition(vars, call) => {
            let vars2 = fold_variables(f, vars);
            proof { assert(intermediate(*f)); }
            let call2 = fold_expression_list(f, call);
            let rb = TypedStatement::MultipleDefinition(vars2, call2);
            proof {
                assert forall|o: Seq<Type>| statement_well_typed(s0, o) implies #[trigger] statement_well_typed(rb, o) by {
                    reveal_with_fuel(statement_well_typed, 2);
                }
            }
            rb
        },
    }
}

/// Folds a statement: the pass's `enter` may replace it outright; otherwise
/// its parts from left to right, then the pass's rewrite. A well-typed
/// statement stays well typed.
pub fn fold_statement<T, F: Folder<T>>(f: &mut F, s: TypedStatement<T>) -> (r: TypedStatement<T>)
    ensures
        statement_folded(*old(f), s, *final(f), r),
        forall|o: Seq<Type>| statement_well_typed(s, o) ==> #[trigger] statement_well_typed(r, o),
    decreases s, 1nat,
{
    match f.enter_statement(&s) {
        Some(x) => x,
        None => {
            let rb = fold_statement_children(f, s);
            proof { assert(intermediate(*f)); assert(intermediate(rb)); }
            f.rewrite_statement(rb)
        },
    }
}

/// Folds each statement of `v`, in order. A well-typed sequence stays well
/// typed.
pub fn fold_statements<T, F: Folder<T>>(f: &mut F, v: Vec<TypedStatement<T>>) -> (r: Vec<TypedStatement<T>>)
    ensures
        statements_folded(*old(f), v@, *final(f), r@),
        r@.len() == v@.len(),
        forall|o: Seq<Type>| statements_well_typed(v@, o) ==> #[trigger] statements_well_typed(r@, o),
    decreases v, 1nat,
{
    let ghost f0 = *f;
    let ghost v0 = v;
    let mut rest = v;
    let mut out: Vec<TypedStatement<T>> = Vec::new();
    while rest.len() > 0
        invariant
            v0 == v,
            out@.len() + rest@.len() == v0@.len(),
            rest@ == v0@.subrange(out@.len() as int, v0@.len() as int),
            statements_folded(f0, v0@.subrange(0, out@.len() as int), *f, out@),
            forall|o: Seq<Type>| statements_well_typed(v0@, o) ==> #[trigger] statements_well_typed(out@, o),
        decreases rest@.len(),
    {
        let ghost k = out@.len() as int;
        let ghost fb = *f;
        let ghost ob = out@;
        let x = rest.remove(0);
        assert(x == v0@[k]);
        proof {
            vstd::std_specs::vec::axiom_vec_index_decreases(v0, k);
            assert forall|o: Seq<Type>| statements_well_typed(v0@, o) implies #[trigger] statement_well_typed(x, o) by {
                lemma_each_well_typed(v0@, k, o);
            }
        }
        let y = fold_statement(f, x);
        out.push(y);
        assert(v0@.subrange(0, k + 1).drop_last() =~= v0@.subrange(0, k));
        assert(out@.drop_last() =~= ob);
        assert forall|o: Seq<Type>| statements_well_typed(v0@, o) implies #[trigger] statements_well_typed(out@, o) by {
            assert(statements_well_typed(ob, o));
            assert(statement_well_typed(out@.last(), o));
        }
        proof {
            lemma_statements_step(f0, v0@.subrange(0, k + 1), fb, *f, out@);
        }
        assert(rest@ =~= v0@.subrange(out@.len() as int, v0@.len() as int));
    }
    assert(v0@.subrange(0, v0@.len() as int) =~= v0@);
    out
}

/// Folds a function: its parameters, then its body, then the pass's
/// rewrite. A well-typed
/// function stays well typed.
pub fn fold_function<T, F: Folder<T>>(f: &mut F, fun: TypedFunction<T>) -> (r: TypedFunction<T>)
    ensures
        function_folded(*old(f), fun, *final(f), r),
        function_well_typed(fun) ==> function_well_typed(r),
{
    let TypedFunction { id, arguments, statements, signature } = fun;
    let arguments = fold_parameters(f, arguments);
    proof { assert(intermediate(*f)); }
    let statements = fold_statements(f, statements);
    let rb = TypedFunction { id, arguments, statements, signature };
    proof { assert(intermediate(*f)); assert(intermediate(rb)); }
    assert(function_well_typed(fun) ==> function_well_typed(rb)) by {
        if function_well_typed(fun) {
            assert forall|i: int| 0 <= i < rb.arguments@.len() implies #[trigger] rb.arguments@[i].id.ty == rb.signature.inputs@[i] by {
                assert(fun.arguments@[i].id.ty == fun.signature.inputs@[i]);
            }
        }
    }
    f.rewrite_function(rb)
}

/// Folds an entry of a symbol table.
fn fold_symbol<T, F: Folder<T>>(f: &mut F, e: (FunctionKey, TypedFunctionSymbol<T>)) -> (r: (FunctionKey, TypedFunctionSymbol<T>))
    ensures
        symbol_folded(*old(f), e, *final(f), r),
        r.0 == e.0,
        match e.1 {
            TypedFunctionSymbol::Here(g) => r.1 matches TypedFunctionSymbol::Here(h) && (function_well_typed(g) ==> function_well_typed(h)),
            TypedFunctionSymbol::There(k, m) => r.1 == TypedFunctionSymbol::<T>::There(k, m),
        },
{
    let (key, sym) = e;
    let folded = match sym {
        TypedFunctionSymbol::Here(g) => TypedFunctionSymbol::Here(fold_function(f, g)),
        TypedFunctionSymbol::There(k, m) => TypedFunctionSymbol::There(k, m),
    };
    (key, folded)
}

/// Folds a symbol table: each entry in order.
pub fn fold_symbols<T, F: Folder<T>>(f: &mut F, v: Vec<(FunctionKey, TypedFunctionSymbol<T>)>) -> (r: Vec<(FunctionKey, TypedFunctionSymbol<T>)>)
    ensures
        symbols_folded(*old(f), v@, *final(f), r@),
        r@.len() == v@.len(),
        forall|i: int| 0 <= i < v@.len() ==> (#[trigger] r@[i]).0 == v@[i].0,
        forall|i: int| 0 <= i < v@.len() ==> match (#[trigger] v@[i]).1 {
            TypedFunctionSymbol::Here(g) => r@[i].1 matches TypedFunctionSymbol::Here(h) && (function_well_typed(g) ==> function_well_typed(h)),
            TypedFunctionSymbol::There(k, m) => r@[i].1 == TypedFunctionSymbol::<T>::There(k, m),
        },
{
    let ghost f0 = *f;
    let ghost v0 = v;
    let mut rest = v;
    let mut out: Vec<(FunctionKey, TypedFunctionSymbol<T>)> = Vec::new();
    while rest.len() > 0
        invariant
            out@.len() + rest@.len() == v0@.len(),
            rest@ == v0@.subrange(out@.len() as int, v0@.len() as int),
            symbols_folded(f0, v0@.subrange(0, out@.len() as int), *f, out@),
            forall|i: int| 0 <= i < out@.len() ==> (#[trigger] out@[i]).0 == v0@[i].0,
            forall|i: int| 0 <= i < out@.len() ==> match (#[trigger] v0@[i]).1 {
                TypedFunctionSymbol::Here(g) => out@[i].1 matches TypedFunctionSymbol::Here(h) && (function_well_typed(g) ==> function_well_typed(h)),
                TypedFunctionSymbol::There(k, m) => out@[i].1 == TypedFunctionSymbol::<T>::There(k, m),
            },
        decreases rest@.len(),
    {
        let ghost k = out@.len() as int;
        let ghost fb = *f;
        let ghost ob = out@;
        let x = rest.remove(0);
        assert(x == v0@[k]);
        let y = fold_symbol(f, x);
        out.push(y);
        assert(v0@.subrange(0, k + 1).drop_last() =~= v0@.subrange(0, k));
        assert(out@.drop_last() =~= ob);
        proof {
            lemma_symbols_step(f0, v0@.subrange(0, k + 1), fb, *f, out@);
        }
        assert(rest@ =~= v0@.subrange(out@.len() as int, v0@.len() as int));
    }
    assert(v0@.subrange(0, v0@.len() as int) =~= v0@);
    out
}

/// Folds a module: its symbol table, with imports kept, then the pass's
/// rewrite. A well-typed module
/// stays well typed.
pub fn fold_module<T, F: Folder<T>>(f: &mut F, m: TypedModule<T>) -> (r: TypedModule<T>)
    ensures
        module_folded(*old(f), m, *final(f), r),
        module_well_typed(m) ==> module_well_typed(r),
        module_valid(m) ==> module_valid(r),
{
    let TypedModule { functions, imports, imported_functions } = m;
    let functions = fold_symbols(f, functions);
    let r = TypedModule { functions, imports, imported_functions };
    proof { assert(intermediate(*f)); assert(intermediate(r)); }
    assert(module_well_typed(m) ==> module_well_typed(r)) by {
        if module_well_typed(m) {
            assert forall|i: int| 0 <= i < r.functions@.len() implies match #[trigger] r.functions@[i].1 {
                TypedFunctionSymbol::Here(g) => function_well_typed(g),
                TypedFunctionSymbol::There(_, _) => true,
            } by {
                let _ = m.functions@[i].1;
            }
        }
    }
    assert(module_valid(m) ==> module_valid(r)) by {
        if module_valid(m) {
            assert forall|a: int, b: int| 0 <= a < b < r.functions@.len() implies !same_key(
                #[trigger] r.functions@[a].0,
                #[trigger] r.functions@[b].0,
            ) by {
                assert(!same_key(m.functions@[a].0, m.functions@[b].0));
            }
        }
    }
    f.rewrite_module(r)
}

/// Folds an entry of a module table.
fn fold_named_module<T, F: Folder<T>>(f: &mut F, e: (TypedModuleId, TypedModule<T>)) -> (r: (TypedModuleId, TypedModule<T>))
    ensures
        named_module_folded(*old(f), e, *final(f), r),
        module_well_typed(e.1) ==> module_well_typed(r.1),
        module_valid(e.1) ==> module_valid(r.1),
        r.0 == e.0,
{
    let (id, m) = e;
    (id, fold_module(f, m))
}

/// Folds a module table: each module in order.
pub fn fold_modules<T, F: Folder<T>>(f: &mut F, v: Vec<(TypedModuleId, TypedModule<T>)>) -> (r: Vec<(TypedModuleId, TypedModule<T>)>)
    ensures
        modules_folded(*old(f), v@, *final(f), r@),
        r@.len() == v@.len(),
        forall|i: int| 0 <= i < v@.len() ==> (#[trigger] r@[i]).0 == v@[i].0,
        forall|i: int| 0 <= i < v@.len() ==> module_valid(#[trigger] v@[i].1) ==> module_valid(r@[i].1),
        forall|i: int| 0 <= i < v@.len() ==> module_well_typed(#[trigger] v@[i].1) ==> module_well_typed(r@[i].1),
{
    let ghost f0 = *f;
    let ghost v0 = v;
    let mut rest = v;
    let mut out: Vec<(TypedModuleId, TypedModule<T>)> = Vec::new();
    while rest.len() > 0
        invariant
            out@.len() + rest@.len() == v0@.len(),
            rest@ == v0@.subrange(out@.len() as int, v0@.len() as int),
            modules_folded(f0, v0@.subrange(0, out@.len() as int), *f, out@),
            forall|i: int| 0 <= i < out@.len() ==> (#[trigger] out@[i]).0 == v0@[i].0,
            forall|i: int| 0 <= i < out@.len() ==> module_valid(#[trigger] v0@[i].1) ==> module_valid(out@[i].1),
            forall|i: int| 0 <= i < out@.len() ==> module_well_typed(#[trigger] v0@[i].1) ==> module_well_typed(out@[i].1),
        decreases rest@.len(),
    {
        let ghost k = out@.len() as int;
        let ghost fb = *f;
        let ghost ob = out@;
        let x = rest.remove(0);
        assert(x == v0@[k]);
        let y = fold_named_module(f, x);
        out.push(y);
        assert(v0@.subrange(0, k + 1).drop_last() =~= v0@.subrange(0, k));
        assert(out@.drop_last() =~= ob);
        proof {
            lemma_modules_step(f0, v0@.subrange(0, k + 1), fb, *f, out@);
        }
        assert(rest@ =~= v0@.subrange(out@.len() as int, v0@.len() as int));
    }
    assert(v0@.subrange(0, v0@.len() as int) =~= v0@);
    out
}

/// Folds a program: the entry module, then each module of the table in
/// order, then the pass's rewrite. A well-typed program stays well typed.
pub fn fold_program<T, F: Folder<T>>(f: &mut F, p: TypedProgram<T>) -> (r: TypedProgram<T>)
    ensures
        program_folded(*old(f), p, *final(f), r),
        program_well_typed(p) ==> program_well_typed(r),
        program_valid(p) ==> program_valid(r),
{
    let TypedProgram { modules, main } = p;
    let main = fold_module(f, main);
    proof { assert(intermediate(*f)); }
    let modules = fold_modules(f, modules);
    let r = TypedProgram { modules, main };
    proof { assert(intermediate(*f)); assert(intermediate(r)); }
    assert(program_well_typed(p) ==> program_well_typed(r)) by {
        if program_well_typed(p) {
            assert forall|i: int| 0 <= i < r.modules@.len() implies module_well_typed(
                #[trigger] r.modules@[i].1,
            ) by {
                assert(module_well_typed(p.modules@[i].1));
            }
        }
    }
    assert(program_valid(p) ==> program_valid(r)) by {
        if program_valid(p) {
            assert forall|a: int, b: int| 0 <= a < b < r.modules@.len() implies (#[trigger] r.modules@[a]).0@
                != (#[trigger] r.modules@[b]).0@ by {
                assert(p.modules@[a].0@ != p.modules@[b].0@);
            }
            assert forall|a: int| 0 <= a < r.modules@.len() implies module_valid(#[trigger] r.modules@[a].1) by {
                assert(module_valid(p.modules@[a].1));
            }
        }
    }
    f.rewrite_program(r)
}

/// A pass that renames every occurrence of one identifier: in expressions
/// of the three kinds and in variables.
pub struct Renamer {
    pub from: String,
    pub to: String,
}

impl Renamer {
    /// The pass that renames `from` to `to`.
    pub fn new(from: String, to: String) -> (r: Renamer)
        ensures
            r.from == from,
            r.to == to,
    {
        Renamer { from, to }
    }

    /// The new name of `id`.
    pub open spec fn renamed(&self, id: String) -> String {
        if id@ == self.from@ {
            self.to
        } else {
            id
        }
    }

    /// The new name of `id`.
    fn rename(&self, id: String) -> (r: String)
        ensures
            r == self.renamed(id),
    {
        if id == self.from {
            self.to.clone()
        } else {
            id
        }
    }
}

impl<T> Folder<T> for Renamer {
    fn enter_field_expression(&mut self, e: &FieldElementExpression<T>) -> (r: Option<FieldElementExpression<T>>) {
        None
    }

    fn enter_boolean_expression(&mut self, e: &BooleanExpression<T>) -> (r: Option<BooleanExpression<T>>) {
        None
    }

    fn enter_array_expression(&mut self, e: &FieldElementArrayExpression<T>) -> (r: Option<FieldElementArrayExpression<T>>) {
        None
    }

    fn enter_statement(&mut self, s: &TypedStatement<T>) -> (r: Option<TypedStatement<T>>) {
        None
    }

    /// An identifier is renamed; other nodes are kept.
    open spec fn spec_rewrite_field(&self, e: FieldElementExpression<T>) -> FieldElementExpression<T> {
        match e {
            FieldElementExpression::Identifier(id) => FieldElementExpression::Identifier(self.renamed(id)),
            other => other,
        }
    }

    open spec fn spec_after_field(&self, e: FieldElementExpression<T>) -> Self {
        *self
    }

    fn rewrite_field_expression(&mut self, e: FieldElementExpression<T>) -> (r: FieldElementExpression<T>) {
        match e {
            FieldElementExpression::Identifier(id) => FieldElementExpression::Identifier(self.rename(id)),
            other => other,
        }
    }

    /// An identifier is renamed; other nodes are kept.
    open spec fn spec_rewrite_boolean(&self, e: BooleanExpression<T>) -> BooleanExpression<T> {
        match e {
            BooleanExpression::Identifier(id) => BooleanExpression::Identifier(self.renamed(id)),
            other => other,
        }
    }

    open spec fn spec_after_boolean(&self, e: BooleanExpression<T>) -> Self {
        *self
    }

    fn rewrite_boolean_expression(&mut self, e: BooleanExpression<T>) -> (r: BooleanExpression<T>) {
        match e {
            BooleanExpression::Identifier(id) => BooleanExpression::Identifier(self.rename(id)),
            other => other,
        }
    }

    /// An identifier is renamed; other nodes are kept.
    open spec fn spec_rewrite_array(&self, e: FieldElementArrayExpression<T>) -> FieldElementArrayExpression<T> {
        match e {
            FieldElementArrayExpression::Identifier(n, id) => FieldElementArrayExpression::Identifier(n, self.renamed(id)),
            other => other,
        }
    }

    open spec fn spec_after_array(&self, e: FieldElementArrayExpression<T>) -> Self {
        *self
    }

    fn rewrite_array_expression(&mut self, e: FieldElementArrayExpression<T>) -> (r: FieldElementArrayExpression<T>) {
        match e {
            FieldElementArrayExpression::Identifier(n, id) => FieldElementArrayExpression::Identifier(n, self.rename(id)),
            other => other,
        }
    }

    /// A variable is renamed; its type is kept.
    open spec fn spec_rewrite_variable(&self, v: Variable) -> Variable {
        Variable { id: self.renamed(v.id), ty: v.ty }
    }

    open spec fn spec_after_variable(&self, v: Variable) -> Self {
        *self
    }

    fn rewrite_variable(&mut self, v: Variable) -> (r: Variable) {
        let Variable { id, ty } = v;
        Variable { id: self.rename(id), ty }
    }

    /// Assignees are kept: their variables are renamed as variables.
    open spec fn spec_rewrite_assignee(&self, a: TypedAssignee<T>) -> TypedAssignee<T> {
        a
    }

    open spec fn spec_after_assignee(&self, a: TypedAssignee<T>) -> Self {
        *self
    }

    fn rewrite_assignee(&mut self, a: TypedAssignee<T>) -> (r: TypedAssignee<T>) {
        a
    }

    /// Calls are kept.
    open spec fn spec_rewrite_list(&self, e: TypedExpressionList<T>) -> TypedExpressionList<T> {
        e
    }

    open spec fn spec_after_list(&self, e: TypedExpressionList<T>) -> Self {
        *self
    }

    fn rewrite_expression_list(&mut self, e: TypedExpressionList<T>) -> (r: TypedExpressionList<T>) {
        e
    }

    /// Statements are kept.
    open spec fn spec_rewrite_statement(&self, s: TypedStatement<T>) -> TypedStatement<T> {
        s
    }

    open spec fn spec_after_statement(&self, s: TypedStatement<T>) -> Self {
        *self
    }

    fn rewrite_statement(&mut self, s: TypedStatement<T>) -> (r: TypedStatement<T>) {
        s
    }

    /// Functions are kept.
    open spec fn spec_rewrite_function(&self, f: TypedFunction<T>) -> TypedFunction<T> {
        f
    }

    open spec fn spec_after_function(&self, f: TypedFunction<T>) -> Self {
        *self
    }

    fn rewrite_function(&mut self, f: TypedFunction<T>) -> (r: TypedFunction<T>) {
        f
    }

    fn rewrite_module(&mut self, m: TypedModule<T>) -> (r: TypedModule<T>) {
        m
    }

    fn rewrite_program(&mut self, p: TypedProgram<T>) -> (r: TypedProgram<T>) {
        p
    }
}

} // verus!
