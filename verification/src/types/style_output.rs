//! The view of a style compilation result.

use vstd::prelude::*;
use crate::compiler::Compiler;
use crate::engine::{Engine, Text};
use crate::protocol::{Exchange, Held};
use crate::raw::RawHandle;
use crate::types::handle::Handle;

verus! {

/// The result of compiling a style block.
pub struct StyleOutput(Handle);

impl View for StyleOutput {
    type V = Held;

    closed spec fn view(&self) -> Held {
        self.0@
    }
}

impl StyleOutput {
    /// The view over a raw handle that names a style result. The sentinel
    /// names none.
    pub(crate) fn from_raw(handle: RawHandle, owner: Ghost<int>) -> (output: Self)
        requires
            handle.0 != 0,
        ensures
            output@ == (Held { runtime: owner@, handle }),
    {
        match Handle::new(handle, owner) {
            Some(handle) => StyleOutput(handle),
            None => {
                proof {
                    assert(false);
                }
                unreached()
            },
        }
    }

    /// Gives the result back to the engine.
    pub fn release<E: Engine>(self, runtime: &mut Compiler<E>)
        requires
            old(runtime).wf(),
            old(runtime).holds(self@),
        ensures
            final(runtime).wf(),
            final(runtime).log() == old(runtime).log().push(
                Exchange::Free { handle: self@.handle },
            ),
            final(runtime).ledger() == old(runtime).ledger().remove(self@.handle),
    {
        self.0.release(runtime);
    }

    /// The compiled CSS.
    pub fn code<E: Engine>(&self, runtime: &mut Compiler<E>) -> (code: String)
        requires
            old(runtime).wf(),
            old(runtime).holds(self@),
        ensures
            final(runtime).wf(),
            final(runtime).ledger() == old(runtime).ledger(),
            final(runtime).log() == old(runtime).log().push(
                Exchange::Text { which: Text::StyleCode, handle: self@.handle, answer: code@ },
            ),
    {
        runtime.text(Text::StyleCode, self.0.raw())
    }
}

} // verus!
