//! Rendering of expressions: binary arithmetic fully parenthesized,
//! conditionals as `if c then a else b fi`, calls as `f(a, b)`.

use vstd::prelude::*;
use crate::field::Field;
use crate::expr::{
    BooleanExpression, FieldElementArrayExpression, FieldElementExpression, TypedExpression,
    TypedExpressionList,
};

verus! {

/// Rendering of a binary arithmetic node: `(l op r)`.
pub open spec fn parenthesized(l: Seq<char>, op: Seq<char>, r: Seq<char>) -> Seq<char> {
    "("@ + l + op + r + ")"@
}

/// Rendering of a conditional: `if c then a else b fi`.
pub open spec fn conditional(c: Seq<char>, a: Seq<char>, b: Seq<char>) -> Seq<char> {
    "if "@ + c + " then "@ + a + " else "@ + b + " fi"@
}

/// Rendering of a call: `f(args)`.
pub open spec fn call(f: Seq<char>, args: Seq<char>) -> Seq<char> {
    f + "("@ + args + ")"@
}

/// Rendering of a field element expression.
pub open spec fn field_text<T: Field>(e: FieldElementExpression<T>) -> Seq<char>
    decreases e,
{
    match e {
        FieldElementExpression::Number(n) => n.text(),
        FieldElementExpression::Identifier(v) => v@,
        FieldElementExpression::Add(l, r) => parenthesized(field_text(*l), " + "@, field_text(*r)),
        FieldElementExpression::Sub(l, r) => parenthesized(field_text(*l), " - "@, field_text(*r)),
        FieldElementExpression::Mult(l, r) => parenthesized(field_text(*l), " * "@, field_text(*r)),
        FieldElementExpression::Div(l, r) => parenthesized(field_text(*l), " / "@, field_text(*r)),
        FieldElementExpression::Pow(l, r) => parenthesized(field_text(*l), "**"@, field_text(*r)),
        FieldElementExpression::IfElse(c, a, b) => conditional(
            boolean_text(*c),
            field_text(*a),
            field_text(*b),
        ),
        FieldElementExpression::FunctionCall(k, args) => call(k.id@, arguments_text(args@)),
        FieldElementExpression::Select(a, i) => array_text(*a) + "["@ + field_text(*i) + "]"@,
    }
}

/// Rendering of a boolean expression.
pub open spec fn boolean_text<T: Field>(e: BooleanExpression<T>) -> Seq<char>
    decreases e,
{
    match e {
        BooleanExpression::Identifier(v) => v@,
        BooleanExpression::Value(b) => if b { "true"@ } else { "false"@ },
        BooleanExpression::Lt(l, r) => field_text(*l) + " < "@ + field_text(*r),
        BooleanExpression::Le(l, r) => field_text(*l) + " <= "@ + field_text(*r),
        BooleanExpression::Eq(l, r) => field_text(*l) + " == "@ + field_text(*r),
        BooleanExpression::Ge(l, r) => field_text(*l) + " >= "@ + field_text(*r),
        BooleanExpression::Gt(l, r) => field_text(*l) + " > "@ + field_text(*r),
        BooleanExpression::Or(l, r) => boolean_text(*l) + " || "@ + boolean_text(*r),
        BooleanExpression::And(l, r) => boolean_text(*l) + " && "@ + boolean_text(*r),
        BooleanExpression::Not(x) => "!"@ + boolean_text(*x),
    }
}

/// Rendering of an array expression.
pub open spec fn array_text<T: Field>(e: FieldElementArrayExpression<T>) -> Seq<char>
    decreases e,
{
    match e {
        FieldElementArrayExpression::Identifier(_, v) => v@,
        FieldElementArrayExpression::Value(_, vs) => "["@ + elements_text(vs@) + "]"@,
        FieldElementArrayExpression::FunctionCall(_, k, args) => call(k.id@, arguments_text(args@)),
        FieldElementArrayExpression::IfElse(c, a, b) => conditional(
            boolean_text(*c),
            array_text(*a),
            array_text(*b),
        ),
    }
}

/// Rendering of an expression of any kind.
pub open spec fn expression_text<T: Field>(e: TypedExpression<T>) -> Seq<char>
    decreases e,
{
    match e {
        TypedExpression::Boolean(b) => boolean_text(b),
        TypedExpression::FieldElement(f) => field_text(f),
        TypedExpression::FieldElementArray(a) => array_text(a),
    }
}

/// Rendering of a list of expressions, separated by `", "`.
pub open spec fn arguments_text<T: Field>(s: Seq<TypedExpression<T>>) -> Seq<char>
    decreases s,
{
    if s.len() == 0 {
        Seq::empty()
    } else if s.len() == 1 {
        expression_text(s[0])
    } else {
        arguments_text(s.drop_last()) + ", "@ + expression_text(s.last())
    }
}

/// Rendering of a list of field element expressions, separated by `", "`.
pub open spec fn elements_text<T: Field>(s: Seq<FieldElementExpression<T>>) -> Seq<char>
    decreases s,
{
    if s.len() == 0 {
        Seq::empty()
    } else if s.len() == 1 {
        field_text(s[0])
    } else {
        elements_text(s.drop_last()) + ", "@ + field_text(s.last())
    }
}

/// Rendering of a multiple-result call.
pub open spec fn expression_list_text<T: Field>(e: TypedExpressionList<T>) -> Seq<char> {
    match e {
        TypedExpressionList::FunctionCall(k, args, _) => call(k.id@, arguments_text(args@)),
    }
}

/// Appends the rendering of each expression of `args`, separated by `", "`.
pub fn render_arguments_into<T: Field>(args: &Vec<TypedExpression<T>>, out: &mut String)
    ensures
        final(out)@ == old(out)@ + arguments_text(args@),
    decreases args,
{
    let mut i: usize = 0;
    while i < args.len()
        invariant
            i <= args.len(),
            out@ == old(out)@ + arguments_text(args@.subrange(0, i as int)),
        decreases args.len() - i,
    {
        if i > 0 {
            out.append(", ");
        }
        args[i].render_into(out);
        i = i + 1;
        assert(args@.subrange(0, i as int).drop_last() =~= args@.subrange(0, i - 1));
    }
    assert(args@.subrange(0, i as int) =~= args@);
}

/// Appends the rendering of each expression of `values`, separated by `", "`.
pub fn render_elements_into<T: Field>(values: &Vec<FieldElementExpression<T>>, out: &mut String)
    ensures
        final(out)@ == old(out)@ + elements_text(values@),
    decreases values,
{
    let mut i: usize = 0;
    while i < values.len()
        invariant
            i <= values.len(),
            out@ == old(out)@ + elements_text(values@.subrange(0, i as int)),
        decreases values.len() - i,
    {
        if i > 0 {
            out.append(", ");
        }
        values[i].render_into(out);
        i = i + 1;
        assert(values@.subrange(0, i as int).drop_last() =~= values@.subrange(0, i - 1));
    }
    assert(values@.subrange(0, i as int) =~= values@);
}

impl<T: Field> FieldElementExpression<T> {
    /// Appends the rendering of the expression to `out`.
    pub fn render_into(&self, out: &mut String)
        ensures
            final(out)@ == old(out)@ + field_text(*self),
        decreases self,
    {
        match self {
            FieldElementExpression::Number(n) => n.render_into(out),
            FieldElementExpression::Identifier(v) => out.append(v.as_str()),
            FieldElementExpression::Add(l, r) => {
                out.append("(");
                l.render_into(out);
                out.append(" + ");
                r.render_into(out);
                out.append(")");
            },
            FieldElementExpression::Sub(l, r) => {
                out.append("(");
                l.render_into(out);
                out.append(" - ");
                r.render_into(out);
                out.append(")");
            },
            FieldElementExpression::Mult(l, r) => {
                out.append("(");
                l.render_into(out);
                out.append(" * ");
                r.render_into(out);
                out.append(")");
            },
            FieldElementExpression::Div(l, r) => {
                out.append("(");
                l.render_into(out);
                out.append(" / ");
                r.render_into(out);
                out.append(")");
            },
            FieldElementExpression::Pow(l, r) => {
                out.append("(");
                l.render_into(out);
                out.append("**");
                r.render_into(out);
                out.append(")");
            },
            FieldElementExpression::IfElse(c, a, b) => {
                out.append("if ");
                c.render_into(out);
                out.append(" then ");
                a.render_into(out);
                out.append(" else ");
                b.render_into(out);
                out.append(" fi");
            },
            FieldElementExpression::FunctionCall(k, args) => {
                out.append(k.id.as_str());
                out.append("(");
                render_arguments_into(args, out);
                out.append(")");
            },
            FieldElementExpression::Select(a, i) => {
                a.render_into(out);
                out.append("[");
                i.render_into(out);
                out.append("]");
            },
        }
    }

    /// The rendering of the expression.
    pub fn render(&self) -> (r: String)
        ensures
            r@ == field_text(*self),
    {
        let mut out = String::new();
        self.render_into(&mut out);
        out
    }
}

impl<T: Field> BooleanExpression<T> {
    /// Appends the rendering of the expression to `out`.
    pub fn render_into(&self, out: &mut String)
        ensures
            final(out)@ == old(out)@ + boolean_text(*self),
        decreases self,
    {
        match self {
            BooleanExpression::Identifier(v) => out.append(v.as_str()),
            BooleanExpression::Value(b) => {
                if *b {
                    out.append("true");
                } else {
                    out.append("false");
                }
            },
            BooleanExpression::Lt(l, r) => {
                l.render_into(out);
                out.append(" < ");
                r.render_into(out);
            },
            BooleanExpression::Le(l, r) => {
                l.render_into(out);
                out.append(" <= ");
                r.render_into(out);
            },
            BooleanExpression::Eq(l, r) => {
                l.render_into(out);
                out.append(" == ");
                r.render_into(out);
            },
            BooleanExpression::Ge(l, r) => {
                l.render_into(out);
                out.append(" >= ");
                r.render_into(out);
            },
            BooleanExpression::Gt(l, r) => {
                l.render_into(out);
                out.append(" > ");
                r.render_into(out);
            },
            BooleanExpression::Or(l, r) => {
                l.render_into(out);
                out.append(" || ");
                r.render_into(out);
            },
            BooleanExpression::And(l, r) => {
                l.render_into(out);
                out.append(" && ");
                r.render_into(out);
            },
            BooleanExpression::Not(x) => {
                out.append("!");
                x.render_into(out);
            },
        }
    }

    /// The rendering of the expression.
    pub fn render(&self) -> (r: String)
        ensures
            r@ == boolean_text(*self),
    {
        let mut out = String::new();
        self.render_into(&mut out);
        out
    }
}

impl<T: Field> FieldElementArrayExpression<T> {
    /// Appends the rendering of the expression to `out`.
    pub fn render_into(&self, out: &mut String)
        ensures
            final(out)@ == old(out)@ + array_text(*self),
        decreases self,
    {
        match self {
            FieldElementArrayExpression::Identifier(_, v) => out.append(v.as_str()),
            FieldElementArrayExpression::Value(_, values) => {
                out.append("[");
                render_elements_into(values, out);
                out.append("]");
            },
            FieldElementArrayExpression::FunctionCall(_, k, args) => {
                out.append(k.id.as_str());
                out.append("(");
                render_arguments_into(args, out);
                out.append(")");
            },
            FieldElementArrayExpression::IfElse(c, a, b) => {
                out.append("if ");
                c.render_into(out);
                out.append(" then ");
                a.render_into(out);
                out.append(" else ");
                b.render_into(out);
                out.append(" fi");
            },
        }
    }

    /// The rendering of the expression.
    pub fn render(&self) -> (r: String)
        ensures
            r@ == array_text(*self),
    {
        let mut out = String::new();
        self.render_into(&mut out);
        out
    }
}

impl<T: Field> TypedExpression<T> {
    /// Appends the rendering of the expression to `out`.
    pub fn render_into(&self, out: &mut String)
        ensures
            final(out)@ == old(out)@ + expression_text(*self),
        decreases self,
    {
        match self {
            TypedExpression::Boolean(b) => b.render_into(out),
            TypedExpression::FieldElement(f) => f.render_into(out),
            TypedExpression::FieldElementArray(a) => a.render_into(out),
        }
    }

    /// The rendering of the expression.
    pub fn render(&self) -> (r: String)
        ensures
            r@ == expression_text(*self),
    {
        let mut out = String::new();
        self.render_into(&mut out);
        out
    }
}

impl<T: Field> TypedExpressionList<T> {
    /// Appends the rendering of the call to `out`.
    pub fn render_into(&self, out: &mut String)
        ensures
            final(out)@ == old(out)@ + expression_list_text(*self),
    {
        match self {
            TypedExpressionList::FunctionCall(k, args, _) => {
                out.append(k.id.as_str());
                out.append("(");
                render_arguments_into(args, out);
                out.append(")");
            },
        }
    }

    /// The rendering of the call.
    pub fn render(&self) -> (r: String)
        ensures
            r@ == expression_list_text(*self),
    {
        let mut out = String::new();
        self.render_into(&mut out);
        out
    }
}

/// Structural rendering of a field element expression: each node by its
/// kind, `Num(..)`, `Ide(..)`, `Add(.., ..)` and so on.
pub open spec fn field_debug<T: Field>(e: FieldElementExpression<T>) -> Seq<char>
    decreases e,
{
    match e {
        FieldElementExpression::Number(n) => "Num("@ + n.text() + ")"@,
        FieldElementExpression::Identifier(v) => "Ide("@ + v@ + ")"@,
        FieldElementExpression::Add(l, r) => "Add("@ + field_debug(*l) + ", "@ + field_debug(*r) + ")"@,
        FieldElementExpression::Sub(l, r) => "Sub("@ + field_debug(*l) + ", "@ + field_debug(*r) + ")"@,
        FieldElementExpression::Mult(l, r) => "Mult("@ + field_debug(*l) + ", "@ + field_debug(*r) + ")"@,
        FieldElementExpression::Div(l, r) => "Div("@ + field_debug(*l) + ", "@ + field_debug(*r) + ")"@,
        FieldElementExpression::Pow(l, r) => "Pow("@ + field_debug(*l) + ", "@ + field_debug(*r) + ")"@,
        FieldElementExpression::IfElse(c, a, b) => "IfElse("@ + boolean_text(*c) + ", "@ + field_debug(*a) + ", "@
            + field_debug(*b) + ")"@,
        FieldElementExpression::FunctionCall(k, args) => "FunctionCall("@ + k.id@ + ", (["@ + arguments_debug(args@) + "]))"@,
        FieldElementExpression::Select(a, i) => "Select("@ + array_debug(*a) + ", "@ + field_debug(*i) + ")"@,
    }
}

/// Structural rendering of an array expression: a name in quotes, a list
/// of structural renderings, a call, or a conditional.
pub open spec fn array_debug<T: Field>(e: FieldElementArrayExpression<T>) -> Seq<char>
    decreases e,
{
    match e {
        FieldElementArrayExpression::Identifier(_, v) => "\""@ + v@ + "\""@,
        FieldElementArrayExpression::Value(_, vs) => "["@ + elements_debug(vs@) + "]"@,
        FieldElementArrayExpression::FunctionCall(_, k, args) => "FunctionCall("@ + k.id@ + ", (["@ + arguments_debug(args@) + "]))"@,
        FieldElementArrayExpression::IfElse(c, a, b) => "IfElse("@ + boolean_text(*c) + ", "@ + array_debug(*a) + ", "@
            + array_debug(*b) + ")"@,
    }
}

/// Structural rendering of an expression of any kind; a boolean expression
/// renders as its text.
pub open spec fn expression_debug<T: Field>(e: TypedExpression<T>) -> Seq<char>
    decreases e,
{
    match e {
        TypedExpression::Boolean(b) => boolean_text(b),
        TypedExpression::FieldElement(f) => field_debug(f),
        TypedExpression::FieldElementArray(a) => array_debug(a),
    }
}

/// Structural renderings of a list of expressions, separated by `", "`.
pub open spec fn arguments_debug<T: Field>(s: Seq<TypedExpression<T>>) -> Seq<char>
    decreases s,
{
    if s.len() == 0 {
        Seq::empty()
    } else if s.len() == 1 {
        expression_debug(s[0])
    } else {
        arguments_debug(s.drop_last()) + ", "@ + expression_debug(s.last())
    }
}

/// Structural renderings of a list of field element expressions, separated
/// by `", "`.
pub open spec fn elements_debug<T: Field>(s: Seq<FieldElementExpression<T>>) -> Seq<char>
    decreases s,
{
    if s.len() == 0 {
        Seq::empty()
    } else if s.len() == 1 {
        field_debug(s[0])
    } else {
        elements_debug(s.drop_last()) + ", "@ + field_debug(s.last())
    }
}

/// Appends the structural rendering of each expression of `args`, separated
/// by `", "`.
pub fn debug_arguments_into<T: Field>(args: &Vec<TypedExpression<T>>, out: &mut String)
    ensures
        final(out)@ == old(out)@ + arguments_debug(args@),
    decreases args,
{
    let mut i: usize = 0;
    while i < args.len()
        invariant
            i <= args.len(),
            out@ == old(out)@ + arguments_debug(args@.subrange(0, i as int)),
        decreases args.len() - i,
    {
        if i > 0 {
            out.append(", ");
        }
        args[i].debug_into(out);
        i = i + 1;
        assert(args@.subrange(0, i as int).drop_last() =~= args@.subrange(0, i - 1));
    }
    assert(args@.subrange(0, i as int) =~= args@);
}

/// Appends the structural rendering of each expression of `values`,
/// separated by `", "`.
pub fn debug_elements_into<T: Field>(values: &Vec<FieldElementExpression<T>>, out: &mut String)
    ensures
        final(out)@ == old(out)@ + elements_debug(values@),
    decreases values,
{
    let mut i: usize = 0;
    while i < values.len()
        invariant
            i <= values.len(),
            out@ == old(out)@ + elements_debug(values@.subrange(0, i as int)),
        decreases values.len() - i,
    {
        if i > 0 {
            out.append(", ");
        }
        values[i].debug_into(out);
        i = i + 1;
        assert(values@.subrange(0, i as int).drop_last() =~= values@.subrange(0, i - 1));
    }
    assert(values@.subrange(0, i as int) =~= values@);
}

impl<T: Field> FieldElementExpression<T> {
    /// Appends the structural rendering of the expression to `out`.
    pub fn debug_into(&self, out: &mut String)
        ensures
            final(out)@ == old(out)@ + field_debug(*self),
        decreases self,
    {
        match self {
            FieldElementExpression::Number(n) => {
                out.append("Num(");
                n.render_into(out);
                out.append(")");
            },
            FieldElementExpression::Identifier(v) => {
                out.append("Ide(");
                out.append(v.as_str());
                out.append(")");
            },
            FieldElementExpression::Add(l, r) => {
                out.append("Add(");
                l.debug_into(out);
                out.append(", ");
                r.debug_into(out);
                out.append(")");
            },
            FieldElementExpression::Sub(l, r) => {
                out.append("Sub(");
                l.debug_into(out);
                out.append(", ");
                r.debug_into(out);
                out.append(")");
            },
            FieldElementExpression::Mult(l, r) => {
                out.append("Mult(");
                l.debug_into(out);
                out.append(", ");
                r.debug_into(out);
                out.append(")");
            },
            FieldElementExpression::Div(l, r) => {
                out.append("Div(");
                l.debug_into(out);
                out.append(", ");
                r.debug_into(out);
                out.append(")");
            },
            FieldElementExpression::Pow(l, r) => {
                out.append("Pow(");
                l.debug_into(out);
                out.append(", ");
                r.debug_into(out);
                out.append(")");
            },
            FieldElementExpression::IfElse(c, a, b) => {
                out.append("IfElse(");
                c.render_into(out);
                out.append(", ");
                a.debug_into(out);
                out.append(", ");
                b.debug_into(out);
                out.append(")");
            },
            FieldElementExpression::FunctionCall(k, args) => {
                out.append("FunctionCall(");
                out.append(k.id.as_str());
                out.append(", ([");
                debug_arguments_into(args, out);
                out.append("]))");
            },
            FieldElementExpression::Select(a, i) => {
                out.append("Select(");
                a.debug_into(out);
                out.append(", ");
                i.debug_into(out);
                out.append(")");
            },
        }
    }

    /// The structural rendering of the expression.
    pub fn debug_text(&self) -> (r: String)
        ensures
            r@ == field_debug(*self),
    {
        let mut out = String::new();
        self.debug_into(&mut out);
        out
    }
}

impl<T: Field> FieldElementArrayExpression<T> {
    /// Appends the structural rendering of the expression to `out`.
    pub fn debug_into(&self, out: &mut String)
        ensures
            final(out)@ == old(out)@ + array_debug(*self),
        decreases self,
    {
        match self {
            FieldElementArrayExpression::Identifier(_, v) => {
                out.append("\"");
                out.append(v.as_str());
                out.append("\"");
            },
            FieldElementArrayExpression::Value(_, values) => {
                out.append("[");
                debug_elements_into(values, out);
                out.append("]");
            },
            FieldElementArrayExpression::FunctionCall(_, k, args) => {
                out.append("FunctionCall(");
                out.append(k.id.as_str());
                out.append(", ([");
                debug_arguments_into(args, out);
                out.append("]))");
            },
            FieldElementArrayExpression::IfElse(c, a, b) => {
                out.append("IfElse(");
                c.render_into(out);
                out.append(", ");
                a.debug_into(out);
                out.append(", ");
                b.debug_into(out);
                out.append(")");
            },
        }
    }

    /// The structural rendering of the expression.
    pub fn debug_text(&self) -> (r: String)
        ensures
            r@ == array_debug(*self),
    {
        let mut out = String::new();
        self.debug_into(&mut out);
        out
    }
}

impl<T: Field> TypedExpression<T> {
    /// Appends the structural rendering of the expression to `out`.
    pub fn debug_into(&self, out: &mut String)
        ensures
            final(out)@ == old(out)@ + expression_debug(*self),
        decreases self,
    {
        match self {
            TypedExpression::Boolean(b) => b.render_into(out),
            TypedExpression::FieldElement(f) => f.debug_into(out),
            TypedExpression::FieldElementArray(a) => a.debug_into(out),
        }
    }

    /// The structural rendering of the expression.
    pub fn debug_text(&self) -> (r: String)
        ensures
            r@ == expression_debug(*self),
    {
        let mut out = String::new();
        self.debug_into(&mut out);
        out
    }
}

} // verus!
