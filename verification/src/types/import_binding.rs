//! What the script analysis knows of one import.

use vstd::prelude::*;

verus! {

/// The metadata of one imported name.
#[derive(Debug, Clone)]
pub struct ImportBinding {
    /// Whether the import is type-only.
    pub is_type: bool,
    /// The name that is imported, as the exporting module calls it.
    pub imported: String,
    /// The module that is imported from.
    pub source: String,
    /// Whether the import site was inside the setup block.
    pub is_from_setup: bool,
}

/// An import binding as contracts see it.
pub struct ImportBindingView {
    /// Whether the import is type-only.
    pub is_type: bool,
    /// The name that is imported.
    pub imported: Seq<char>,
    /// The module that is imported from.
    pub source: Seq<char>,
    /// Whether the import site was inside the setup block.
    pub is_from_setup: bool,
}

impl View for ImportBinding {
    type V = ImportBindingView;

    open spec fn view(&self) -> ImportBindingView {
        ImportBindingView {
            is_type: self.is_type,
            imported: self.imported@,
            source: self.source@,
            is_from_setup: self.is_from_setup,
        }
    }
}

} // verus!
