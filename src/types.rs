//! Static types, signatures, function keys, variables and parameters.

use vstd::prelude::*;
use crate::text::{decimal, push_decimal};

verus! {

/// The static type of a value. The length of an array is part of its type.
#[derive(Clone, Copy, Debug, PartialEq, Eq, Structural, Hash)]
pub enum Type {
    Boolean,
    FieldElement,
    FieldElementArray(usize),
}

/// Rendering of a type.
pub open spec fn type_text(t: Type) -> Seq<char> {
    match t {
        Type::Boolean => "Boolean"@,
        Type::FieldElement => "FieldElement"@,
        Type::FieldElementArray(n) => "FieldElementArray("@ + decimal(n as nat) + ")"@,
    }
}

/// Rendering of a list of types, separated by `", "`.
pub open spec fn types_text(ts: Seq<Type>) -> Seq<char>
    decreases ts.len(),
{
    if ts.len() == 0 {
        Seq::empty()
    } else if ts.len() == 1 {
        type_text(ts[0])
    } else {
        types_text(ts.drop_last()) + ", "@ + type_text(ts.last())
    }
}

impl Type {
    /// Appends the rendering of the type to `out`.
    pub fn render_into(&self, out: &mut String)
        ensures
            final(out)@ == old(out)@ + type_text(*self),
    {
        match self {
            Type::Boolean => out.append("Boolean"),
            Type::FieldElement => out.append("FieldElement"),
            Type::FieldElementArray(n) => {
                out.append("FieldElementArray(");
                push_decimal(out, *n as u128);
                out.append(")");
            },
        }
    }

    /// The rendering of the type.
    pub fn render(&self) -> (r: String)
        ensures
            r@ == type_text(*self),
    {
        let mut out = String::new();
        self.render_into(&mut out);
        out
    }
}

/// Appends the rendering of a list of types to `out`.
pub fn render_types_into(ts: &Vec<Type>, out: &mut String)
    ensures
        final(out)@ == old(out)@ + types_text(ts@),
{
    let mut i: usize = 0;
    while i < ts.len()
        invariant
            i <= ts.len(),
            out@ == old(out)@ + types_text(ts@.subrange(0, i as int)),
        decreases ts.len() - i,
    {
        if i > 0 {
            out.append(", ");
        }
        ts[i].render_into(out);
        i = i + 1;
        assert(ts@.subrange(0, i as int).drop_last() =~= ts@.subrange(0, i - 1));
    }
    assert(ts@.subrange(0, i as int) =~= ts@);
}

/// Copies a list of types.
pub fn copy_types(ts: &Vec<Type>) -> (r: Vec<Type>)
    ensures
        r@ == ts@,
{
    let mut r: Vec<Type> = Vec::new();
    let mut i: usize = 0;
    while i < ts.len()
        invariant
            i <= ts.len(),
            r@ == ts@.subrange(0, i as int),
        decreases ts.len() - i,
    {
        r.push(ts[i]);
        i = i + 1;
    }
    assert(ts@.subrange(0, i as int) =~= ts@);
    r
}

/// Whether two lists of types are equal, element by element.
pub fn types_equal(a: &Vec<Type>, b: &Vec<Type>) -> (r: bool)
    ensures
        r == (a@ == b@),
{
    if a.len() != b.len() {
        return false;
    }
    let mut i: usize = 0;
    while i < a.len()
        invariant
            i <= a.len(),
            a.len() == b.len(),
            a@.subrange(0, i as int) == b@.subrange(0, i as int),
        decreases a.len() - i,
    {
        if a[i] != b[i] {
            assert(a@[i as int] != b@[i as int]);
            return false;
        }
        i = i + 1;
        assert(a@.subrange(0, i as int) =~= b@.subrange(0, i as int));
    }
    assert(a@ =~= a@.subrange(0, i as int));
    assert(b@ =~= b@.subrange(0, i as int));
    true
}

/// What a signature says: its input types and its output types, in order.
pub struct SignatureView {
    pub inputs: Seq<Type>,
    pub outputs: Seq<Type>,
}

/// A function's static type: ordered input types and ordered output types.
#[derive(Clone, Debug, PartialEq, Eq, Hash)]
pub struct Signature {
    pub inputs: Vec<Type>,
    pub outputs: Vec<Type>,
}

impl View for Signature {
    type V = SignatureView;

    open spec fn view(&self) -> SignatureView {
        SignatureView { inputs: self.inputs@, outputs: self.outputs@ }
    }
}

/// Rendering of a signature: `(inputs) -> (outputs)`.
pub open spec fn signature_text(s: SignatureView) -> Seq<char> {
    "("@ + types_text(s.inputs) + ") -> ("@ + types_text(s.outputs) + ")"@
}

impl Signature {
    /// The signature with the given input and output types.
    pub fn new(inputs: Vec<Type>, outputs: Vec<Type>) -> (r: Signature)
        ensures
            r.inputs@ == inputs@,
            r.outputs@ == outputs@,
    {
        Signature { inputs, outputs }
    }

    /// A copy of the signature.
    pub fn copy(&self) -> (r: Signature)
        ensures
            r@ == self@,
    {
        Signature { inputs: copy_types(&self.inputs), outputs: copy_types(&self.outputs) }
    }

    /// Whether two signatures have the same inputs and outputs.
    pub fn same_as(&self, other: &Signature) -> (r: bool)
        ensures
            r == (self@ == other@),
    {
        let i = types_equal(&self.inputs, &other.inputs);
        let o = types_equal(&self.outputs, &other.outputs);
        i && o
    }

    /// Appends the rendering of the signature to `out`.
    pub fn render_into(&self, out: &mut String)
        ensures
            final(out)@ == old(out)@ + signature_text(self@),
    {
        out.append("(");
        render_types_into(&self.inputs, out);
        out.append(") -> (");
        render_types_into(&self.outputs, out);
        out.append(")");
    }
}

/// A function's identity within a module: its name and its signature.
#[derive(Clone, Debug, PartialEq, Eq, Hash)]
pub struct FunctionKey {
    pub id: String,
    pub signature: Signature,
}

/// Whether two keys name the same function: same name, same signature.
pub open spec fn same_key(a: FunctionKey, b: FunctionKey) -> bool {
    a.id@ == b.id@ && a.signature@ == b.signature@
}

impl FunctionKey {
    /// The key of the function `id` with signature `signature`.
    pub fn with_id_and_signature(id: String, signature: Signature) -> (r: FunctionKey)
        ensures
            r.id == id,
            r.signature@ == signature@,
    {
        FunctionKey { id, signature }
    }

    /// Whether the two keys name the same function.
    pub fn matches(&self, other: &FunctionKey) -> (r: bool)
        ensures
            r == same_key(*self, *other),
    {
        let same_id = self.id == other.id;
        same_id && self.signature.same_as(&other.signature)
    }
}

/// A typed, named binding.
#[derive(Clone, Debug, PartialEq, Eq, Hash)]
pub struct Variable {
    pub id: String,
    pub ty: Type,
}

impl Variable {
    /// A variable named `id` of type `ty`.
    pub fn new(id: String, ty: Type) -> (r: Variable)
        ensures
            r.id == id,
            r.ty == ty,
    {
        Variable { id, ty }
    }

    /// A field element variable.
    pub fn field_element(id: String) -> (r: Variable)
        ensures
            r.id == id,
            r.ty == Type::FieldElement,
    {
        Variable { id, ty: Type::FieldElement }
    }

    /// A boolean variable.
    pub fn boolean(id: String) -> (r: Variable)
        ensures
            r.id == id,
            r.ty == Type::Boolean,
    {
        Variable { id, ty: Type::Boolean }
    }

    /// An array variable of `size` field elements.
    pub fn field_array(id: String, size: usize) -> (r: Variable)
        ensures
            r.id == id,
            r.ty == Type::FieldElementArray(size),
    {
        Variable { id, ty: Type::FieldElementArray(size) }
    }

    /// The declared type of the variable.
    pub fn get_type(&self) -> (r: Type)
        ensures
            r == self.ty,
    {
        self.ty
    }

    /// Appends the rendering of the variable, its name, to `out`.
    pub fn render_into(&self, out: &mut String)
        ensures
            final(out)@ == old(out)@ + self.id@,
    {
        out.append(self.id.as_str());
    }
}

/// A function argument: a variable, public or private.
#[derive(Clone, Debug, PartialEq, Eq, Hash)]
pub struct Parameter {
    pub id: Variable,
    pub private: bool,
}

/// Rendering of a parameter: its name. Visibility is not rendered.
pub open spec fn parameter_text(p: Parameter) -> Seq<char> {
    p.id.id@
}

impl Parameter {
    /// A public parameter.
    pub fn public(id: Variable) -> (r: Parameter)
        ensures
            r.id == id,
            !r.private,
    {
        Parameter { id, private: false }
    }

    /// A private parameter.
    pub fn private(id: Variable) -> (r: Parameter)
        ensures
            r.id == id,
            r.private,
    {
        Parameter { id, private: true }
    }

    /// Appends the rendering of the parameter to `out`.
    pub fn render_into(&self, out: &mut String)
        ensures
            final(out)@ == old(out)@ + parameter_text(*self),
    {
        self.id.render_into(out);
    }
}

} // verus!
