//! Assignment targets and statements: their types, their well-typedness
//! and their rendering.

use vstd::prelude::*;
use crate::field::Field;
use crate::types::{Type, Variable};
use crate::expr::{
    expression_type, FieldElementExpression, MultiTyped, TypedExpression, TypedExpressionList,
    Typed,
};
use crate::expr_text::{
    arguments_text, expression_list_text, expression_text, field_text, render_arguments_into,
};

verus! {

/// An addressable target of an assignment: a variable, or an element of an
/// array target.
#[derive(Debug, PartialEq, Eq, Hash)]
pub enum TypedAssignee<T> {
    Identifier(Variable),
    ArrayElement(Box<TypedAssignee<T>>, Box<FieldElementExpression<T>>),
}

/// The type of an assignee: the variable's type, or for an element the
/// element type of its base. `None` where an element is taken of a base
/// that is not an array.
pub open spec fn assignee_type<T>(a: TypedAssignee<T>) -> Option<Type>
    decreases a,
{
    match a {
        TypedAssignee::Identifier(v) => Some(v.ty),
        TypedAssignee::ArrayElement(base, _) => match assignee_type(*base) {
            Some(Type::FieldElementArray(_)) => Some(Type::FieldElement),
            _ => None,
        },
    }
}

impl<T> TypedAssignee<T> {
    /// The type of the assignee, or `None` where an element is taken of a
    /// base that is not an array.
    pub fn try_get_type(&self) -> (r: Option<Type>)
        ensures
            r == assignee_type(*self),
        decreases self,
    {
        match self {
            TypedAssignee::Identifier(v) => Some(v.get_type()),
            TypedAssignee::ArrayElement(base, _) => match base.try_get_type() {
                Some(Type::FieldElementArray(_)) => Some(Type::FieldElement),
                _ => None,
            },
        }
    }
}

impl<T> Typed for TypedAssignee<T> {
    open spec fn has_type(&self) -> bool {
        assignee_type(*self) is Some
    }

    open spec fn spec_type(&self) -> Type {
        assignee_type(*self)->Some_0
    }

    fn get_type(&self) -> (r: Type) {
        match self.try_get_type() {
            Some(t) => t,
            None => Type::FieldElement,
        }
    }
}

/// Rendering of an assignee: `x`, or `base[index]`.
pub open spec fn assignee_text<T: Field>(a: TypedAssignee<T>) -> Seq<char>
    decreases a,
{
    match a {
        TypedAssignee::Identifier(v) => v.id@,
        TypedAssignee::ArrayElement(base, i) => assignee_text(*base) + "["@ + field_text(*i) + "]"@,
    }
}

impl<T: Field> TypedAssignee<T> {
    /// Appends the rendering of the assignee to `out`.
    pub fn render_into(&self, out: &mut String)
        ensures
            final(out)@ == old(out)@ + assignee_text(*self),
        decreases self,
    {
        match self {
            TypedAssignee::Identifier(v) => v.render_into(out),
            TypedAssignee::ArrayElement(base, i) => {
                base.render_into(out);
                out.append("[");
                i.render_into(out);
                out.append("]");
            },
        }
    }

    /// The rendering of the assignee.
    pub fn render(&self) -> (r: String)
        ensures
            r@ == assignee_text(*self),
    {
        let mut out = String::new();
        self.render_into(&mut out);
        out
    }
}

/// A unit of sequential execution in a function body.
#[derive(Debug, PartialEq, Eq)]
pub enum TypedStatement<T> {
    /// Returns the values of the expressions.
    Return(Vec<TypedExpression<T>>),
    /// Assigns the value of the expression to the target.
    Definition(TypedAssignee<T>, TypedExpression<T>),
    /// Introduces a binding without a value.
    Declaration(Variable),
    /// Asserts that the two expressions have equal values.
    Condition(TypedExpression<T>, TypedExpression<T>),
    /// Runs the body for each value of the variable from the first constant
    /// up to the second, excluded.
    For(Variable, T, T, Vec<TypedStatement<T>>),
    /// Binds the results of a call to the variables, in order.
    MultipleDefinition(Vec<Variable>, TypedExpressionList<T>),
}

/// Whether each variable has the type at the same place in `types`, and
/// there are as many of one as of the other.
pub open spec fn variables_match_types(vars: Seq<Variable>, types: Seq<Type>) -> bool {
    &&& vars.len() == types.len()
    &&& forall|i: int| 0 <= i < vars.len() ==> #[trigger] vars[i].ty == types[i]
}

/// Whether each expression has the type at the same place in `types`, and
/// there are as many of one as of the other.
pub open spec fn expressions_match_types<T>(es: Seq<TypedExpression<T>>, types: Seq<Type>) -> bool {
    &&& es.len() == types.len()
    &&& forall|i: int| 0 <= i < es.len() ==> #[trigger] expression_type(es[i]) == types[i]
}

/// Whether a statement is well typed in a function with output types
/// `outputs`: a return gives one value of the right type per output, a
/// definition's target has the type of its value, an assertion compares
/// values of one type, a destructuring binds one variable of the right type
/// per result, and a loop's body is well typed.
pub open spec fn statement_well_typed<T>(s: TypedStatement<T>, outputs: Seq<Type>) -> bool
    decreases s,
{
    match s {
        TypedStatement::Return(es) => expressions_match_types(es@, outputs),
        TypedStatement::Declaration(_) => true,
        TypedStatement::Definition(a, e) => assignee_type(a) == Some(expression_type(e)),
        TypedStatement::Condition(l, r) => expression_type(l) == expression_type(r),
        TypedStatement::For(_, _, _, body) => statements_well_typed(body@, outputs),
        TypedStatement::MultipleDefinition(vars, call) => variables_match_types(vars@, call.spec_types()),
    }
}

/// Whether every statement of the sequence is well typed in a function with
/// output types `outputs`.
pub open spec fn statements_well_typed<T>(s: Seq<TypedStatement<T>>, outputs: Seq<Type>) -> bool
    decreases s,
{
    if s.len() == 0 {
        true
    } else {
        statements_well_typed(s.drop_last(), outputs) && statement_well_typed(s.last(), outputs)
    }
}

/// In a well-typed destructuring, there are as many variables as the call
/// has results.
pub proof fn lemma_destructuring_arity<T>(vars: Vec<Variable>, call: TypedExpressionList<T>, outputs: Seq<Type>)
    requires
        statement_well_typed(TypedStatement::MultipleDefinition(vars, call), outputs),
    ensures
        vars@.len() == call.spec_types().len(),
{
}

/// In a well-typed definition of a variable, and in a well-typed
/// destructuring, each bound value has the type declared for its variable;
/// a well-typed return gives one value of each output type, in order.
pub proof fn lemma_bound_values_have_declared_types<T>(s: TypedStatement<T>, outputs: Seq<Type>)
    requires
        statement_well_typed(s, outputs),
    ensures
        s matches TypedStatement::Definition(TypedAssignee::Identifier(v), e) ==> e.spec_type() == v.ty,
        s matches TypedStatement::MultipleDefinition(vars, call) ==> forall|i: int|
            0 <= i < vars@.len() ==> #[trigger] vars@[i].ty == call.spec_types()[i],
        s matches TypedStatement::Return(es) ==> es@.len() == outputs.len() && forall|i: int|
            0 <= i < es@.len() ==> #[trigger] es@[i].spec_type() == outputs[i],
{
}

/// Whether the variables have the given types, in order.
pub fn check_variables(vars: &Vec<Variable>, types: &Vec<Type>) -> (r: bool)
    ensures
        r == variables_match_types(vars@, types@),
{
    if vars.len() != types.len() {
        return false;
    }
    let mut i: usize = 0;
    while i < vars.len()
        invariant
            i <= vars.len(),
            vars.len() == types.len(),
            forall|j: int| 0 <= j < i ==> #[trigger] vars@[j].ty == types@[j],
        decreases vars.len() - i,
    {
        if vars[i].ty != types[i] {
            return false;
        }
        i = i + 1;
    }
    true
}

/// Whether the expressions have the given types, in order.
pub fn check_expressions<T>(es: &Vec<TypedExpression<T>>, types: &Vec<Type>) -> (r: bool)
    ensures
        r == expressions_match_types(es@, types@),
{
    if es.len() != types.len() {
        return false;
    }
    let mut i: usize = 0;
    while i < es.len()
        invariant
            i <= es.len(),
            es.len() == types.len(),
            forall|j: int| 0 <= j < i ==> #[trigger] expression_type(es@[j]) == types@[j],
        decreases es.len() - i,
    {
        if es[i].get_type() != types[i] {
            return false;
        }
        i = i + 1;
    }
    true
}

/// Whether every statement of `body` is well typed in a function with
/// output types `outputs`.
pub fn check_statements<T>(body: &Vec<TypedStatement<T>>, outputs: &Vec<Type>) -> (r: bool)
    ensures
        r == statements_well_typed(body@, outputs@),
    decreases body,
{
    let mut i: usize = 0;
    while i < body.len()
        invariant
            i <= body.len(),
            statements_well_typed(body@.subrange(0, i as int), outputs@),
        decreases body.len() - i,
    {
        let ok = body[i].is_well_typed(outputs);
        assert(body@.subrange(0, i + 1).drop_last() =~= body@.subrange(0, i as int));
        if !ok {
            proof {
                assert(body@.subrange(0, body@.len() as int) =~= body@);
                if statements_well_typed(body@, outputs@) {
                    lemma_prefix_well_typed(body@, (i + 1) as nat, body@.len() as nat, outputs@);
                }
            }
            return false;
        }
        i = i + 1;
    }
    assert(body@.subrange(0, i as int) =~= body@);
    true
}

/// A prefix of a well-typed sequence of statements is well typed.
pub proof fn lemma_prefix_well_typed<T>(s: Seq<TypedStatement<T>>, i: nat, j: nat, outputs: Seq<Type>)
    requires
        i <= j <= s.len(),
        statements_well_typed(s.subrange(0, j as int), outputs),
    ensures
        statements_well_typed(s.subrange(0, i as int), outputs),
    decreases j - i,
{
    if i < j {
        assert(s.subrange(0, j as int).drop_last() =~= s.subrange(0, j - 1));
        lemma_prefix_well_typed(s, i, (j - 1) as nat, outputs);
    }
}

/// Each statement of a well-typed sequence is well typed.
pub proof fn lemma_each_well_typed<T>(s: Seq<TypedStatement<T>>, i: int, outputs: Seq<Type>)
    requires
        statements_well_typed(s, outputs),
        0 <= i < s.len(),
    ensures
        statement_well_typed(s[i], outputs),
{
    assert(s.subrange(0, s.len() as int) =~= s);
    lemma_prefix_well_typed(s, (i + 1) as nat, s.len() as nat, outputs);
}

impl<T> TypedStatement<T> {
    /// Whether the statement is well typed in a function with output types
    /// `outputs`.
    pub fn is_well_typed(&self, outputs: &Vec<Type>) -> (r: bool)
        ensures
            r == statement_well_typed(*self, outputs@),
        decreases self,
    {
        match self {
            TypedStatement::Return(es) => check_expressions(es, outputs),
            TypedStatement::Declaration(_) => true,
            TypedStatement::Definition(a, e) => match a.try_get_type() {
                Some(t) => t == e.get_type(),
                None => false,
            },
            TypedStatement::Condition(l, r) => l.get_type() == r.get_type(),
            TypedStatement::For(_, _, _, body) => check_statements(body, outputs),
            TypedStatement::MultipleDefinition(vars, call) => check_variables(vars, call.get_types()),
        }
    }
}

/// Rendering of a statement.
pub open spec fn statement_text<T: Field>(s: TypedStatement<T>) -> Seq<char>
    decreases s,
{
    match s {
        TypedStatement::Return(es) => "return "@ + arguments_text(es@),
        TypedStatement::Declaration(v) => v.id@,
        TypedStatement::Definition(a, e) => assignee_text(a) + " = "@ + expression_text(e),
        TypedStatement::Condition(l, r) => expression_text(l) + " == "@ + expression_text(r),
        TypedStatement::For(v, start, stop, body) => "for "@ + v.id@ + " in "@ + start.text() + ".."@
            + stop.text() + " do\n"@ + loop_body_text(body@) + "\tendfor"@,
        TypedStatement::MultipleDefinition(vars, call) => names_text(vars@) + " = "@
            + expression_list_text(call),
    }
}

/// Rendering of a loop body: each statement after two tabs, on a line of
/// its own.
pub open spec fn loop_body_text<T: Field>(s: Seq<TypedStatement<T>>) -> Seq<char>
    decreases s,
{
    if s.len() == 0 {
        Seq::empty()
    } else {
        loop_body_text(s.drop_last()) + "\t\t"@ + statement_text(s.last()) + "\n"@
    }
}

/// Rendering of a list of variable names, separated by `", "`.
pub open spec fn names_text(vars: Seq<Variable>) -> Seq<char>
    decreases vars.len(),
{
    if vars.len() == 0 {
        Seq::empty()
    } else if vars.len() == 1 {
        vars[0].id@
    } else {
        names_text(vars.drop_last()) + ", "@ + vars.last().id@
    }
}

/// Appends the names of the variables, separated by `", "`, to `out`.
pub fn render_names_into(vars: &Vec<Variable>, out: &mut String)
    ensures
        final(out)@ == old(out)@ + names_text(vars@),
{
    let mut i: usize = 0;
    while i < vars.len()
        invariant
            i <= vars.len(),
            out@ == old(out)@ + names_text(vars@.subrange(0, i as int)),
        decreases vars.len() - i,
    {
        if i > 0 {
            out.append(", ");
        }
        vars[i].render_into(out);
        i = i + 1;
        assert(vars@.subrange(0, i as int).drop_last() =~= vars@.subrange(0, i - 1));
    }
    assert(vars@.subrange(0, i as int) =~= vars@);
}

/// Appends the rendering of a loop body to `out`.
pub fn render_loop_body_into<T: Field>(body: &Vec<TypedStatement<T>>, out: &mut String)
    ensures
        final(out)@ == old(out)@ + loop_body_text(body@),
    decreases body,
{
    let mut i: usize = 0;
    while i < body.len()
        invariant
            i <= body.len(),
            out@ == old(out)@ + loop_body_text(body@.subrange(0, i as int)),
        decreases body.len() - i,
    {
        out.append("\t\t");
        body[i].render_into(out);
        out.append("\n");
        i = i + 1;
        assert(body@.subrange(0, i as int).drop_last() =~= body@.subrange(0, i - 1));
    }
    assert(body@.subrange(0, i as int) =~= body@);
}

impl<T: Field> TypedStatement<T> {
    /// Appends the rendering of the statement to `out`.
    pub fn render_into(&self, out: &mut String)
        ensures
            final(out)@ == old(out)@ + statement_text(*self),
        decreases self,
    {
        match self {
            TypedStatement::Return(es) => {
                out.append("return ");
                render_arguments_into(es, out);
            },
            TypedStatement::Declaration(v) => v.render_into(out),
            TypedStatement::Definition(a, e) => {
                a.render_into(out);
                out.append(" = ");
                e.render_into(out);
            },
            TypedStatement::Condition(l, r) => {
                l.render_into(out);
                out.append(" == ");
                r.render_into(out);
            },
            TypedStatement::For(v, start, stop, body) => {
                out.append("for ");
                v.render_into(out);
                out.append(" in ");
                start.render_into(out);
                out.append("..");
                stop.render_into(out);
                out.append(" do\n");
                render_loop_body_into(body, out);
                out.append("\tendfor");
            },
            TypedStatement::MultipleDefinition(vars, call) => {
                render_names_into(vars, out);
                out.append(" = ");
                call.render_into(out);
            },
        }
    }

    /// The rendering of the statement.
    pub fn render(&self) -> (r: String)
        ensures
            r@ == statement_text(*self),
    {
        let mut out = String::new();
        self.render_into(&mut out);
        out
    }
}

} // verus!
