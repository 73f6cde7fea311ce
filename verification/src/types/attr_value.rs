//! The value of an attribute on a block.

use vstd::prelude::*;

verus! {

/// The value of an attribute: a block attribute is either a bare flag or
/// carries text.
#[derive(Debug, Clone, PartialEq, Eq)]
pub enum AttrValue {
    /// The attribute carries text, as in `lang="ts"`.
    String(String),
    /// The attribute is a bare flag, as in `scoped`.
    Bool(bool),
}

/// An attribute value as contracts see it.
pub enum AttrValueView {
    /// The attribute carries text.
    String(Seq<char>),
    /// The attribute is a bare flag.
    Bool(bool),
}

impl View for AttrValue {
    type V = AttrValueView;

    open spec fn view(&self) -> AttrValueView {
        match self {
            AttrValue::String(text) => AttrValueView::String(text@),
            AttrValue::Bool(flag) => AttrValueView::Bool(*flag),
        }
    }
}

} // verus!
