//! Calls agree with the functions they call: each call gives one argument
//! of each of the callee's input types, in order, and a multiple-result
//! call expects the callee's output types.

use vstd::prelude::*;
use crate::expr::{
    BooleanExpression, FieldElementArrayExpression, FieldElementExpression, TypedExpression,
    TypedExpressionList,
};
use crate::statement::{check_expressions, expressions_match_types, TypedAssignee, TypedStatement};
use crate::program::{TypedFunction, TypedFunctionSymbol, TypedModule, TypedProgram};
use crate::types::types_equal;

verus! {

/// Whether every call in a field element expression agrees with its callee.
pub open spec fn field_calls_typed<T>(e: FieldElementExpression<T>) -> bool
    decreases e,
{
    match e {
        FieldElementExpression::Number(_) => true,
        FieldElementExpression::Identifier(_) => true,
        FieldElementExpression::Add(l, r) => field_calls_typed(*l) && field_calls_typed(*r),
        FieldElementExpression::Sub(l, r) => field_calls_typed(*l) && field_calls_typed(*r),
        FieldElementExpression::Mult(l, r) => field_calls_typed(*l) && field_calls_typed(*r),
        FieldElementExpression::Div(l, r) => field_calls_typed(*l) && field_calls_typed(*r),
        FieldElementExpression::Pow(l, r) => field_calls_typed(*l) && field_calls_typed(*r),
        FieldElementExpression::IfElse(c, a, b) => boolean_calls_typed(*c) && field_calls_typed(*a) && field_calls_typed(*b),
        FieldElementExpression::FunctionCall(k, args) => expressions_match_types(args@, k.signature.inputs@)
            && arguments_calls_typed(args@),
        FieldElementExpression::Select(a, i) => array_calls_typed(*a) && field_calls_typed(*i),
    }
}

/// Whether every call in a boolean expression agrees with its callee.
pub open spec fn boolean_calls_typed<T>(e: BooleanExpression<T>) -> bool
    decreases e,
{
    match e {
        BooleanExpression::Identifier(_) => true,
        BooleanExpression::Value(_) => true,
        BooleanExpression::Lt(l, r) => field_calls_typed(*l) && field_calls_typed(*r),
        BooleanExpression::Le(l, r) => field_calls_typed(*l) && field_calls_typed(*r),
        BooleanExpression::Eq(l, r) => field_calls_typed(*l) && field_calls_typed(*r),
        BooleanExpression::Ge(l, r) => field_calls_typed(*l) && field_calls_typed(*r),
        BooleanExpression::Gt(l, r) => field_calls_typed(*l) && field_calls_typed(*r),
        BooleanExpression::Or(l, r) => boolean_calls_typed(*l) && boolean_calls_typed(*r),
        BooleanExpression::And(l, r) => boolean_calls_typed(*l) && boolean_calls_typed(*r),
        BooleanExpression::Not(x) => boolean_calls_typed(*x),
    }
}

/// Whether every call in an array expression agrees with its callee.
pub open spec fn array_calls_typed<T>(e: FieldElementArrayExpression<T>) -> bool
    decreases e,
{
    match e {
        FieldElementArrayExpression::Identifier(_, _) => true,
        FieldElementArrayExpression::Value(_, vs) => elements_calls_typed(vs@),
        FieldElementArrayExpression::FunctionCall(_, k, args) => expressions_match_types(args@, k.signature.inputs@)
            && arguments_calls_typed(args@),
        FieldElementArrayExpression::IfElse(c, a, b) => boolean_calls_typed(*c) && array_calls_typed(*a) && array_calls_typed(*b),
    }
}

/// Whether every call in an expression of any kind agrees with its callee.
pub open spec fn expression_calls_typed<T>(e: TypedExpression<T>) -> bool
    decreases e,
{
    match e {
        TypedExpression::Boolean(b) => boolean_calls_typed(b),
        TypedExpression::FieldElement(f) => field_calls_typed(f),
        TypedExpression::FieldElementArray(a) => array_calls_typed(a),
    }
}

/// Whether every call in a list of expressions agrees with its callee.
pub open spec fn arguments_calls_typed<T>(s: Seq<TypedExpression<T>>) -> bool
    decreases s,
{
    if s.len() == 0 {
        true
    } else {
        arguments_calls_typed(s.drop_last()) && expression_calls_typed(s.last())
    }
}

/// Whether every call in a list of field element expressions agrees with its
/// callee.
pub open spec fn elements_calls_typed<T>(s: Seq<FieldElementExpression<T>>) -> bool
    decreases s,
{
    if s.len() == 0 {
        true
    } else {
        elements_calls_typed(s.drop_last()) && field_calls_typed(s.last())
    }
}

/// Whether every call in an assignee's indices agrees with its callee.
pub open spec fn assignee_calls_typed<T>(a: TypedAssignee<T>) -> bool
    decreases a,
{
    match a {
        TypedAssignee::Identifier(_) => true,
        TypedAssignee::ArrayElement(b, i) => assignee_calls_typed(*b) && field_calls_typed(*i),
    }
}

/// Whether a multiple-result call agrees with its callee: its arguments
/// have the input types, the results it expects are the output types, and
/// the calls in its arguments agree too.
pub open spec fn list_calls_typed<T>(e: TypedExpressionList<T>) -> bool {
    match e {
        TypedExpressionList::FunctionCall(k, args, types) => expressions_match_types(args@, k.signature.inputs@)
            && types@ == k.signature.outputs@ && arguments_calls_typed(args@),
    }
}

/// Whether every call in a statement agrees with its callee.
pub open spec fn statement_calls_typed<T>(s: TypedStatement<T>) -> bool
    decreases s,
{
    match s {
        TypedStatement::Return(es) => arguments_calls_typed(es@),
        TypedStatement::Definition(a, e) => assignee_calls_typed(a) && expression_calls_typed(e),
        TypedStatement::Declaration(_) => true,
        TypedStatement::Condition(l, r) => expression_calls_typed(l) && expression_calls_typed(r),
        TypedStatement::For(_, _, _, body) => statements_calls_typed(body@),
        TypedStatement::MultipleDefinition(_, call) => list_calls_typed(call),
    }
}

/// Whether every call in a sequence of statements agrees with its callee.
pub open spec fn statements_calls_typed<T>(s: Seq<TypedStatement<T>>) -> bool
    decreases s,
{
    if s.len() == 0 {
        true
    } else {
        statements_calls_typed(s.drop_last()) && statement_calls_typed(s.last())
    }
}

/// Whether every call in a function's body agrees with its callee.
pub open spec fn function_calls_typed<T>(f: TypedFunction<T>) -> bool {
    statements_calls_typed(f.statements@)
}

/// Whether every call in the functions defined in a module agrees with its
/// callee.
pub open spec fn module_calls_typed<T>(m: TypedModule<T>) -> bool {
    forall|i: int| 0 <= i < m.functions@.len() ==> match #[trigger] m.functions@[i].1 {
        TypedFunctionSymbol::Here(f) => function_calls_typed(f),
        TypedFunctionSymbol::There(_, _) => true,
    }
}

/// Whether every call in a program agrees with its callee.
pub open spec fn program_calls_typed<T>(p: TypedProgram<T>) -> bool {
    &&& module_calls_typed(p.main)
    &&& forall|i: int| 0 <= i < p.modules@.len() ==> module_calls_typed(#[trigger] p.modules@[i].1)
}

/// Each argument of a call in a field element expression whose calls agree
/// with their callees has the type of the parameter it is bound to.
pub proof fn lemma_call_arguments_typed<T>(k: crate::types::FunctionKey, args: Vec<TypedExpression<T>>)
    requires
        field_calls_typed(FieldElementExpression::<T>::FunctionCall(k, args)),
    ensures
        args@.len() == k.signature.inputs@.len(),
        forall|i: int| 0 <= i < args@.len() ==> #[trigger] crate::expr::expression_type(args@[i]) == k.signature.inputs@[i],
{
}

/// Whether every call in a list of expressions agrees with its callee.
pub fn check_arguments_calls<T>(v: &Vec<TypedExpression<T>>) -> (r: bool)
    ensures
        r == arguments_calls_typed(v@),
    decreases v,
{
    let mut ok = true;
    let mut i: usize = 0;
    while i < v.len()
        invariant
            i <= v.len(),
            ok == arguments_calls_typed(v@.subrange(0, i as int)),
        decreases v.len() - i,
    {
        let c = expression_calls_ok(&v[i]);
        ok = ok && c;
        i = i + 1;
        assert(v@.subrange(0, i as int).drop_last() =~= v@.subrange(0, i - 1));
    }
    assert(v@.subrange(0, i as int) =~= v@);
    ok
}

/// Whether every call in a list of field element expressions agrees with its
/// callee.
pub fn check_elements_calls<T>(v: &Vec<FieldElementExpression<T>>) -> (r: bool)
    ensures
        r == elements_calls_typed(v@),
    decreases v,
{
    let mut ok = true;
    let mut i: usize = 0;
    while i < v.len()
        invariant
            i <= v.len(),
            ok == elements_calls_typed(v@.subrange(0, i as int)),
        decreases v.len() - i,
    {
        let c = field_calls_ok(&v[i]);
        ok = ok && c;
        i = i + 1;
        assert(v@.subrange(0, i as int).drop_last() =~= v@.subrange(0, i - 1));
    }
    assert(v@.subrange(0, i as int) =~= v@);
    ok
}

/// Whether every call in a sequence of statements agrees with its callee.
pub fn check_statements_calls<T>(v: &Vec<TypedStatement<T>>) -> (r: bool)
    ensures
        r == statements_calls_typed(v@),
    decreases v,
{
    let mut ok = true;
    let mut i: usize = 0;
    while i < v.len()
        invariant
            i <= v.len(),
            ok == statements_calls_typed(v@.subrange(0, i as int)),
        decreases v.len() - i,
    {
        let c = statement_calls_ok(&v[i]);
        ok = ok && c;
        i = i + 1;
        assert(v@.subrange(0, i as int).drop_last() =~= v@.subrange(0, i - 1));
    }
    assert(v@.subrange(0, i as int) =~= v@);
    ok
}

/// Whether every call in a field element expression agrees with its callee.
pub fn field_calls_ok<T>(e: &FieldElementExpression<T>) -> (r: bool)
    ensures
        r == field_calls_typed(*e),
    decreases e,
{
    match e {
        FieldElementExpression::Number(_) => true,
        FieldElementExpression::Identifier(_) => true,
        FieldElementExpression::Add(l, r) => {
            let a = field_calls_ok(l);
            let b = field_calls_ok(r);
            a && b
        },
        FieldElementExpression::Sub(l, r) => {
            let a = field_calls_ok(l);
            let b = field_calls_ok(r);
            a && b
        },
        FieldElementExpression::Mult(l, r) => {
            let a = field_calls_ok(l);
            let b = field_calls_ok(r);
            a && b
        },
        FieldElementExpression::Div(l, r) => {
            let a = field_calls_ok(l);
            let b = field_calls_ok(r);
            a && b
        },
        FieldElementExpression::Pow(l, r) => {
            let a = field_calls_ok(l);
            let b = field_calls_ok(r);
            a && b
        },
        FieldElementExpression::IfElse(c, a, b) => {
            let x = boolean_calls_ok(c);
            let y = field_calls_ok(a);
            let z = field_calls_ok(b);
            x && y && z
        },
        FieldElementExpression::FunctionCall(k, args) => {
            let x = check_expressions(args, &k.signature.inputs);
            let y = check_arguments_calls(args);
            x && y
        },
        FieldElementExpression::Select(a, i) => {
            let x = array_calls_ok(a);
            let y = field_calls_ok(i);
            x && y
        },
    }
}

/// Whether every call in a boolean expression agrees with its callee.
pub fn boolean_calls_ok<T>(e: &BooleanExpression<T>) -> (r: bool)
    ensures
        r == boolean_calls_typed(*e),
    decreases e,
{
    match e {
        BooleanExpression::Identifier(_) => true,
        BooleanExpression::Value(_) => true,
        BooleanExpression::Lt(l, r) => {
            let a = field_calls_ok(l);
            let b = field_calls_ok(r);
            a && b
        },
        BooleanExpression::Le(l, r) => {
            let a = field_calls_ok(l);
            let b = field_calls_ok(r);
            a && b
        },
        BooleanExpression::Eq(l, r) => {
            let a = field_calls_ok(l);
            let b = field_calls_ok(r);
            a && b
        },
        BooleanExpression::Ge(l, r) => {
            let a = field_calls_ok(l);
            let b = field_calls_ok(r);
            a && b
        },
        BooleanExpression::Gt(l, r) => {
            let a = field_calls_ok(l);
            let b = field_calls_ok(r);
            a && b
        },
        BooleanExpression::Or(l, r) => {
            let a = boolean_calls_ok(l);
            let b = boolean_calls_ok(r);
            a && b
        },
        BooleanExpression::And(l, r) => {
            let a = boolean_calls_ok(l);
            let b = boolean_calls_ok(r);
            a && b
        },
        BooleanExpression::Not(x) => boolean_calls_ok(x),
    }
}

/// Whether every call in an array expression agrees with its callee.
pub fn array_calls_ok<T>(e: &FieldElementArrayExpression<T>) -> (r: bool)
    ensures
        r == array_calls_typed(*e),
    decreases e,
{
    match e {
        FieldElementArrayExpression::Identifier(_, _) => true,
        FieldElementArrayExpression::Value(_, vs) => check_elements_calls(vs),
        FieldElementArrayExpression::FunctionCall(_, k, args) => {
            let x = check_expressions(args, &k.signature.inputs);
            let y = check_arguments_calls(args);
            x && y
        },
        FieldElementArrayExpression::IfElse(c, a, b) => {
            let x = boolean_calls_ok(c);
            let y = array_calls_ok(a);
            let z = array_calls_ok(b);
            x && y && z
        },
    }
}

/// Whether every call in an expression of any kind agrees with its callee.
pub fn expression_calls_ok<T>(e: &TypedExpression<T>) -> (r: bool)
    ensures
        r == expression_calls_typed(*e),
    decreases e,
{
    match e {
        TypedExpression::Boolean(b) => boolean_calls_ok(b),
        TypedExpression::FieldElement(f) => field_calls_ok(f),
        TypedExpression::FieldElementArray(a) => array_calls_ok(a),
    }
}

/// Whether every call in an assignee's indices agrees with its callee.
pub fn assignee_calls_ok<T>(a: &TypedAssignee<T>) -> (r: bool)
    ensures
        r == assignee_calls_typed(*a),
    decreases a,
{
    match a {
        TypedAssignee::Identifier(_) => true,
        TypedAssignee::ArrayElement(b, i) => {
            let x = assignee_calls_ok(b);
            let y = field_calls_ok(i);
            x && y
        },
    }
}

/// Whether every call in a statement agrees with its callee.
pub fn statement_calls_ok<T>(s: &TypedStatement<T>) -> (r: bool)
    ensures
        r == statement_calls_typed(*s),
    decreases s,
{
    match s {
        TypedStatement::Return(es) => check_arguments_calls(es),
        TypedStatement::Definition(a, e) => {
            let x = assignee_calls_ok(a);
            let y = expression_calls_ok(e);
            x && y
        },
        TypedStatement::Declaration(_) => true,
        TypedStatement::Condition(l, r) => {
            let x = expression_calls_ok(l);
            let y = expression_calls_ok(r);
            x && y
        },
        TypedStatement::For(_, _, _, body) => check_statements_calls(body),
        TypedStatement::MultipleDefinition(_, call) => match call {
            TypedExpressionList::FunctionCall(k, args, types) => {
                let x = check_expressions(args, &k.signature.inputs);
                let y = types_equal(types, &k.signature.outputs);
                let z = check_arguments_calls(args);
                x && y && z
            },
        },
    }
}

impl<T> TypedFunction<T> {
    /// Whether every call in the body agrees with its callee.
    pub fn calls_agree(&self) -> (r: bool)
        ensures
            r == function_calls_typed(*self),
    {
        check_statements_calls(&self.statements)
    }
}

impl<T> TypedModule<T> {
    /// Whether every call in the functions defined here agrees with its
    /// callee.
    pub fn calls_agree(&self) -> (r: bool)
        ensures
            r == module_calls_typed(*self),
    {
        let mut i: usize = 0;
        while i < self.functions.len()
            invariant
                i <= self.functions.len(),
                forall|j: int| 0 <= j < i ==> match #[trigger] self.functions@[j].1 {
                    TypedFunctionSymbol::Here(f) => function_calls_typed(f),
                    TypedFunctionSymbol::There(_, _) => true,
                },
            decreases self.functions.len() - i,
        {
            match &self.functions[i].1 {
                TypedFunctionSymbol::Here(f) => {
                    if !f.calls_agree() {
                        return false;
                    }
                },
                TypedFunctionSymbol::There(_, _) => {},
            }
            i = i + 1;
        }
        true
    }
}

impl<T> TypedProgram<T> {
    /// Whether every call in the program agrees with its callee.
    pub fn calls_agree(&self) -> (r: bool)
        ensures
            r == program_calls_typed(*self),
    {
        if !self.main.calls_agree() {
            return false;
        }
        let mut i: usize = 0;
        while i < self.modules.len()
            invariant
                i <= self.modules.len(),
                module_calls_typed(self.main),
                forall|j: int| 0 <= j < i ==> module_calls_typed(#[trigger] self.modules@[j].1),
            decreases self.modules.len() - i,
        {
            if !self.modules[i].1.calls_agree() {
                return false;
            }
            i = i + 1;
        }
        true
    }
}

} // verus!
