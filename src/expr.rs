//! Expressions of the three kinds, their static types and their rendering.

use vstd::prelude::*;
use crate::field::Field;
use crate::types::{FunctionKey, Type};

verus! {

/// Whatever has a static type.
pub trait Typed {
    /// Whether the node is well formed enough to have a type.
    spec fn has_type(&self) -> bool;

    /// The static type of the node, computed from its structure.
    spec fn spec_type(&self) -> Type;

    /// The static type of the node.
    fn get_type(&self) -> (r: Type)
        requires
            self.has_type(),
        ensures
            r == self.spec_type(),
    ;
}

/// Whatever has an ordered list of static types.
pub trait MultiTyped {
    /// The static types, in order.
    spec fn spec_types(&self) -> Seq<Type>;

    /// The static types, in order.
    fn get_types(&self) -> (r: &Vec<Type>)
        ensures
            r@ == self.spec_types(),
    ;
}

/// An expression of any of the three kinds.
#[derive(Debug, PartialEq, Eq, Hash)]
pub enum TypedExpression<T> {
    Boolean(BooleanExpression<T>),
    FieldElement(FieldElementExpression<T>),
    FieldElementArray(FieldElementArrayExpression<T>),
}

/// An expression whose value is a field element.
#[derive(Debug, PartialEq, Eq, Hash)]
pub enum FieldElementExpression<T> {
    Number(T),
    Identifier(String),
    Add(Box<FieldElementExpression<T>>, Box<FieldElementExpression<T>>),
    Sub(Box<FieldElementExpression<T>>, Box<FieldElementExpression<T>>),
    Mult(Box<FieldElementExpression<T>>, Box<FieldElementExpression<T>>),
    Div(Box<FieldElementExpression<T>>, Box<FieldElementExpression<T>>),
    Pow(Box<FieldElementExpression<T>>, Box<FieldElementExpression<T>>),
    IfElse(
        Box<BooleanExpression<T>>,
        Box<FieldElementExpression<T>>,
        Box<FieldElementExpression<T>>,
    ),
    FunctionCall(FunctionKey, Vec<TypedExpression<T>>),
    Select(Box<FieldElementArrayExpression<T>>, Box<FieldElementExpression<T>>),
}

/// An expression whose value is a boolean.
#[derive(Debug, PartialEq, Eq, Hash)]
pub enum BooleanExpression<T> {
    Identifier(String),
    Value(bool),
    Lt(Box<FieldElementExpression<T>>, Box<FieldElementExpression<T>>),
    Le(Box<FieldElementExpression<T>>, Box<FieldElementExpression<T>>),
    Eq(Box<FieldElementExpression<T>>, Box<FieldElementExpression<T>>),
    Ge(Box<FieldElementExpression<T>>, Box<FieldElementExpression<T>>),
    Gt(Box<FieldElementExpression<T>>, Box<FieldElementExpression<T>>),
    Or(Box<BooleanExpression<T>>, Box<BooleanExpression<T>>),
    And(Box<BooleanExpression<T>>, Box<BooleanExpression<T>>),
    Not(Box<BooleanExpression<T>>),
}

/// An expression whose value is an array of field elements. Each variant
/// but the conditional carries the array's length; a conditional takes the
/// length of its consequent, and the length of its alternative is not
/// checked against it (a known inconsistency, kept as is).
#[derive(Debug, PartialEq, Eq, Hash)]
pub enum FieldElementArrayExpression<T> {
    Identifier(usize, String),
    Value(usize, Vec<FieldElementExpression<T>>),
    FunctionCall(usize, FunctionKey, Vec<TypedExpression<T>>),
    IfElse(
        Box<BooleanExpression<T>>,
        Box<FieldElementArrayExpression<T>>,
        Box<FieldElementArrayExpression<T>>,
    ),
}

/// The call of a function with several results.
#[derive(Debug, PartialEq, Eq, Hash)]
pub enum TypedExpressionList<T> {
    FunctionCall(FunctionKey, Vec<TypedExpression<T>>, Vec<Type>),
}

/// The length of an array expression: the stored one, or for a conditional
/// the length of its consequent. The alternative's length is not compared
/// with it: a conditional whose branches differ in length is a known
/// inconsistency that this layer keeps, and reports the consequent's length.
pub open spec fn array_size<T>(e: FieldElementArrayExpression<T>) -> nat
    decreases e,
{
    match e {
        FieldElementArrayExpression::Identifier(n, _) => n as nat,
        FieldElementArrayExpression::Value(n, _) => n as nat,
        FieldElementArrayExpression::FunctionCall(n, _, _) => n as nat,
        FieldElementArrayExpression::IfElse(_, c, _) => array_size(*c),
    }
}

/// The static type of an expression of any kind.
pub open spec fn expression_type<T>(e: TypedExpression<T>) -> Type {
    match e {
        TypedExpression::Boolean(_) => Type::Boolean,
        TypedExpression::FieldElement(_) => Type::FieldElement,
        TypedExpression::FieldElementArray(a) => Type::FieldElementArray(array_size(a) as usize),
    }
}

impl<T> FieldElementArrayExpression<T> {
    /// The length of the array.
    pub fn size(&self) -> (r: usize)
        ensures
            r as nat == array_size(*self),
        decreases self,
    {
        match self {
            FieldElementArrayExpression::Identifier(n, _) => *n,
            FieldElementArrayExpression::Value(n, _) => *n,
            FieldElementArrayExpression::FunctionCall(n, _, _) => *n,
            FieldElementArrayExpression::IfElse(_, c, _) => c.size(),
        }
    }
}

/// Every array expression has a length that fits in `usize`.
pub proof fn lemma_array_size_bounded<T>(e: FieldElementArrayExpression<T>)
    ensures
        array_size(e) <= usize::MAX,
    decreases e,
{
    if let FieldElementArrayExpression::IfElse(_, c, _) = e {
        lemma_array_size_bounded(*c);
    }
}

/// The type of an array expression is the array type of its length.
pub proof fn lemma_array_type_is_size<T>(e: FieldElementArrayExpression<T>)
    ensures
        e.spec_type() == Type::FieldElementArray(array_size(e) as usize),
        TypedExpression::FieldElementArray(e).spec_type() == Type::FieldElementArray(array_size(e) as usize),
        array_size(e) <= usize::MAX,
{
    lemma_array_size_bounded(e);
}

impl<T> Typed for FieldElementArrayExpression<T> {
    open spec fn has_type(&self) -> bool {
        true
    }

    open spec fn spec_type(&self) -> Type {
        Type::FieldElementArray(array_size(*self) as usize)
    }

    fn get_type(&self) -> (r: Type) {
        Type::FieldElementArray(self.size())
    }
}

impl<T> Typed for FieldElementExpression<T> {
    open spec fn has_type(&self) -> bool {
        true
    }

    open spec fn spec_type(&self) -> Type {
        Type::FieldElement
    }

    fn get_type(&self) -> (r: Type) {
        Type::FieldElement
    }
}

impl<T> Typed for BooleanExpression<T> {
    open spec fn has_type(&self) -> bool {
        true
    }

    open spec fn spec_type(&self) -> Type {
        Type::Boolean
    }

    fn get_type(&self) -> (r: Type) {
        Type::Boolean
    }
}

impl<T> Typed for TypedExpression<T> {
    open spec fn has_type(&self) -> bool {
        true
    }

    open spec fn spec_type(&self) -> Type {
        expression_type(*self)
    }

    fn get_type(&self) -> (r: Type) {
        match self {
            TypedExpression::Boolean(_) => Type::Boolean,
            TypedExpression::FieldElement(_) => Type::FieldElement,
            TypedExpression::FieldElementArray(a) => a.get_type(),
        }
    }
}

impl<T> MultiTyped for TypedExpressionList<T> {
    open spec fn spec_types(&self) -> Seq<Type> {
        match *self {
            TypedExpressionList::FunctionCall(_, _, types) => types@,
        }
    }

    fn get_types(&self) -> (r: &Vec<Type>) {
        match self {
            TypedExpressionList::FunctionCall(_, _, types) => types,
        }
    }
}

impl<T> From<BooleanExpression<T>> for TypedExpression<T> {
    fn from(e: BooleanExpression<T>) -> (r: TypedExpression<T>) {
        TypedExpression::Boolean(e)
    }
}

impl<T> From<FieldElementExpression<T>> for TypedExpression<T> {
    fn from(e: FieldElementExpression<T>) -> (r: TypedExpression<T>) {
        TypedExpression::FieldElement(e)
    }
}

impl<T> From<FieldElementArrayExpression<T>> for TypedExpression<T> {
    fn from(e: FieldElementArrayExpression<T>) -> (r: TypedExpression<T>) {
        TypedExpression::FieldElementArray(e)
    }
}

impl<T> vstd::std_specs::convert::FromSpecImpl<BooleanExpression<T>> for TypedExpression<T> {
    open spec fn obeys_from_spec() -> bool {
        true
    }

    open spec fn from_spec(e: BooleanExpression<T>) -> TypedExpression<T> {
        TypedExpression::Boolean(e)
    }
}

impl<T> vstd::std_specs::convert::FromSpecImpl<FieldElementExpression<T>> for TypedExpression<T> {
    open spec fn obeys_from_spec() -> bool {
        true
    }

    open spec fn from_spec(e: FieldElementExpression<T>) -> TypedExpression<T> {
        TypedExpression::FieldElement(e)
    }
}

impl<T> vstd::std_specs::convert::FromSpecImpl<FieldElementArrayExpression<T>> for TypedExpression<T> {
    open spec fn obeys_from_spec() -> bool {
        true
    }

    open spec fn from_spec(e: FieldElementArrayExpression<T>) -> TypedExpression<T> {
        TypedExpression::FieldElementArray(e)
    }
}

} // verus!
