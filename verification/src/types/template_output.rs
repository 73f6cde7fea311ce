//! The view of a template compilation result.

use vstd::prelude::*;
use crate::compiler::Compiler;
use crate::engine::{Engine, Number, Text};
use crate::protocol::{number_asked, Exchange, Held};
use crate::raw::RawHandle;
use crate::types::handle::Handle;

verus! {

/// The result of compiling a template.
///
/// Errors that the compiler found in the template are part of the result:
/// they are counted here, and it is for the caller to decide whether they are
/// fatal.
pub struct TemplateOutput(Handle);

impl View for TemplateOutput {
    type V = Held;

    closed spec fn view(&self) -> Held {
        self.0@
    }
}

impl TemplateOutput {
    /// The view over a raw handle that names a template result. The sentinel
    /// names none.
    pub(crate) fn from_raw(handle: RawHandle, owner: Ghost<int>) -> (output: Self)
        requires
            handle.0 != 0,
        ensures
            output@ == (Held { runtime: owner@, handle }),
    {
        match Handle::new(handle, owner) {
            Some(handle) => TemplateOutput(handle),
            None => {
                proof {
                    assert(false);
                }
                unreached()
            },
        }
    }

    /// Gives the result back to the engine.
    pub fn release<E: Engine>(self, runtime: &mut Compiler<E>)
        requires
            old(runtime).wf(),
            old(runtime).holds(self@),
        ensures
            final(runtime).wf(),
            final(runtime).log() == old(runtime).log().push(
                Exchange::Free { handle: self@.handle },
            ),
            final(runtime).ledger() == old(runtime).ledger().remove(self@.handle),
    {
        self.0.release(runtime);
    }

    /// The compiled render function.
    pub fn code<E: Engine>(&self, runtime: &mut Compiler<E>) -> (code: String)
        requires
            old(runtime).wf(),
            old(runtime).holds(self@),
        ensures
            final(runtime).wf(),
            final(runtime).ledger() == old(runtime).ledger(),
            final(runtime).log() == old(runtime).log().push(
                Exchange::Text { which: Text::TemplateCode, handle: self@.handle, answer: code@ },
            ),
    {
        runtime.text(Text::TemplateCode, self.0.raw())
    }

    /// The number of errors that the compiler reported.
    pub fn error_count<E: Engine>(&self, runtime: &mut Compiler<E>) -> (count: usize)
        requires
            old(runtime).wf(),
            old(runtime).holds(self@),
        ensures
            final(runtime).wf(),
            final(runtime).ledger() == old(runtime).ledger(),
            final(runtime).log() == old(runtime).log().push(
                Exchange::Number {
                    which: Number::TemplateErrorCount,
                    handle: self@.handle,
                    answer: count,
                },
            ),
    {
        runtime.number(Number::TemplateErrorCount, self.0.raw())
    }

    /// Whether the compiler reported any error: whether the count that the
    /// engine gives is above zero.
    pub fn has_errors<E: Engine>(&self, runtime: &mut Compiler<E>) -> (errors: bool)
        requires
            old(runtime).wf(),
            old(runtime).holds(self@),
        ensures
            final(runtime).wf(),
            final(runtime).ledger() == old(runtime).ledger(),
            exists|count: usize|
                #[trigger] number_asked(
                    old(runtime).log(),
                    final(runtime).log(),
                    Number::TemplateErrorCount,
                    self@.handle,
                    count,
                ) && errors == (count > 0),
    {
        let count: usize = self.error_count(runtime);
        assert(number_asked(
            old(runtime).log(),
            runtime.log(),
            Number::TemplateErrorCount,
            self@.handle,
            count,
        ));
        count > 0
    }

    /// Whether compilation succeeded: whether the compiler reported no
    /// error. This is the opposite of [`TemplateOutput::has_errors`].
    pub fn is_ok<E: Engine>(&self, runtime: &mut Compiler<E>) -> (ok: bool)
        requires
            old(runtime).wf(),
            old(runtime).holds(self@),
        ensures
            final(runtime).wf(),
            final(runtime).ledger() == old(runtime).ledger(),
            exists|count: usize|
                #[trigger] number_asked(
                    old(runtime).log(),
                    final(runtime).log(),
                    Number::TemplateErrorCount,
                    self@.handle,
                    count,
                ) && ok == (count == 0),
    {
        !self.has_errors(runtime)
    }
}

} // verus!
