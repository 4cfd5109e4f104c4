//! Field elements as the IR carries them: opaque values that only need to be
//! rendered.

use vstd::prelude::*;
use crate::text::{decimal, push_decimal};

verus! {

/// A value type for field elements. The IR stores such values (numbers,
/// loop bounds) and renders them; it performs no arithmetic on them.
pub trait Field: Sized {
    /// The rendering of the value.
    spec fn text(&self) -> Seq<char>;

    /// Appends the rendering of the value to `out`.
    fn render_into(&self, out: &mut String)
        ensures
            final(out)@ == old(out)@ + self.text(),
    ;
}

/// A field element held by its canonical representative. The representative
/// is a `u128`: elements of a field whose modulus exceeds 2^128 (such as the
/// scalar field of a pairing-friendly curve, about 254 bits) are not all
/// representable in this type.
#[derive(Clone, Copy, Debug, PartialEq, Eq, Hash)]
pub struct FieldPrime {
    pub value: u128,
}

impl FieldPrime {
    /// The element whose canonical representative is `value`.
    pub fn from_u128(value: u128) -> (r: FieldPrime)
        ensures
            r.value == value,
    {
        FieldPrime { value }
    }
}

impl Field for FieldPrime {
    /// A field element renders as its representative in decimal.
    open spec fn text(&self) -> Seq<char> {
        decimal(self.value as nat)
    }

    fn render_into(&self, out: &mut String) {
        push_decimal(out, self.value);
    }
}

} // verus!
