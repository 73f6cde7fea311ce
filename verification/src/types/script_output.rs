//! The view of a script compilation result.

use vstd::prelude::*;
use crate::compiler::Compiler;
use crate::engine::{Engine, Text};
use crate::protocol::{lent, Exchange, Held};
use crate::raw::RawHandle;
use crate::types::handle::Handle;

verus! {

/// The result of compiling the script blocks of a component.
///
/// The result owns its bindings: the metadata about the script's variables
/// that the template compiler uses as hints. The bindings handle is lent to
/// the template compiler for one call and is never released on its own; it
/// is valid as long as this result is held.
pub struct ScriptOutput(Handle);

impl View for ScriptOutput {
    type V = Held;

    closed spec fn view(&self) -> Held {
        self.0@
    }
}

impl ScriptOutput {
    /// The view over a handle that names a script result.
    pub(crate) fn from_handle(handle: Handle) -> (output: Self)
        ensures
            output@ == handle@,
    {
        ScriptOutput(handle)
    }

    /// Gives the result back to the engine, and its bindings with it.
    pub fn release<E: Engine>(self, runtime: &mut Compiler<E>)
        requires
            old(runtime).wf(),
            old(runtime).holds(self@),
        ensures
            final(runtime).wf(),
            final(runtime).log() == old(runtime).log().push(
                Exchange::Free { handle: self@.handle },
            ),
            final(runtime).ledger() == old(runtime).ledger().remove(self@.handle),
    {
        self.0.release(runtime);
    }

    /// The compiled script.
    pub fn content<E: Engine>(&self, runtime: &mut Compiler<E>) -> (content: String)
        requires
            old(runtime).wf(),
            old(runtime).holds(self@),
        ensures
            final(runtime).wf(),
            final(runtime).ledger() == old(runtime).ledger(),
            final(runtime).log() == old(runtime).log().push(
                Exchange::Text {
                    which: Text::ScriptContent,
                    handle: self@.handle,
                    answer: content@,
                },
            ),
    {
        runtime.text(Text::ScriptContent, self.0.raw())
    }

    /// The handle of the bindings, lent for the call that follows. It may be
    /// the sentinel: then there are no bindings.
    pub(crate) fn bindings_handle<E: Engine>(
        &self,
        runtime: &mut Compiler<E>,
    ) -> (bindings: RawHandle)
        requires
            old(runtime).wf(),
            old(runtime).holds(self@),
        ensures
            final(runtime).wf(),
            final(runtime).ledger() == old(runtime).ledger(),
            final(runtime).log() == old(runtime).log().push(
                Exchange::Bindings { script_result: self@.handle, result: bindings },
            ),
            lent(final(runtime).log(), bindings),
    {
        runtime.bindings(self.0.raw())
    }
}

} // verus!
