//! The view of a parse result.

use vstd::prelude::*;
use crate::compiler::Compiler;
use crate::engine::{Child, Engine, Number, TextAt};
use crate::protocol::{gained, Exchange, Held};
use crate::raw::RawHandle;
use crate::types::descriptor::Descriptor;
use crate::types::handle::Handle;
use crate::util::{list_exchanges, raw_of, read_list, texts};

verus! {

/// The result of parsing a component.
///
/// Parsing yields a result also when the source is malformed. The errors are
/// part of the result, to be read from it; they are not errors of the binding
/// layer.
pub struct ParseOutput(Handle);

impl View for ParseOutput {
    type V = Held;

    closed spec fn view(&self) -> Held {
        self.0@
    }
}

/// The rule for "parsing produced errors": the parser reported at least one
/// error, or there is no descriptor at all. A missing descriptor counts as an
/// error also when no error was reported.
pub open spec fn parse_has_errors(error_count: usize, descriptor: RawHandle) -> bool {
    error_count > 0 || descriptor.0 == 0
}

/// Both cases of "parsing produced errors" are errors, and there is no third.
pub proof fn law_has_errors_in_both_cases(error_count: usize, descriptor: RawHandle)
    ensures
        error_count > 0 ==> parse_has_errors(error_count, descriptor),
        descriptor.0 == 0 ==> parse_has_errors(error_count, descriptor),
        parse_has_errors(error_count, descriptor) ==> error_count > 0 || descriptor.0 == 0,
{
}

/// The exchanges that decide whether `result` has errors: the error count;
/// then, only if that is zero, the request for the descriptor; and, if one
/// was handed out, its release.
pub open spec fn errors_exchanges(
    result: RawHandle,
    error_count: usize,
    descriptor: RawHandle,
) -> Seq<Exchange> {
    let counted = seq![
        Exchange::Number { which: Number::ParseErrorCount, handle: result, answer: error_count },
    ];
    if error_count > 0 {
        counted
    } else {
        let fetched = counted.push(
            Exchange::Child { which: Child::Descriptor, handle: result, result: descriptor },
        );
        if descriptor.0 == 0 {
            fetched
        } else {
            fetched.push(Exchange::Free { handle: descriptor })
        }
    }
}

/// Whether `after` is `before`, followed by the exchanges that decide whether
/// `result` has errors, with the answers `error_count` and `descriptor`.
pub open spec fn errors_checked(
    before: Seq<Exchange>,
    after: Seq<Exchange>,
    result: RawHandle,
    error_count: usize,
    descriptor: RawHandle,
) -> bool {
    after == before + errors_exchanges(result, error_count, descriptor)
}

impl ParseOutput {
    /// The view over a raw handle that names a parse result. The sentinel
    /// names none.
    pub(crate) fn from_raw(handle: RawHandle, owner: Ghost<int>) -> (output: Self)
        requires
            handle.0 != 0,
        ensures
            output@ == (Held { runtime: owner@, handle }),
    {
        match Handle::new(handle, owner) {
            Some(handle) => ParseOutput(handle),
            None => {
                proof {
                    assert(false);
                }
                unreached()
            },
        }
    }

    /// Gives the result back to the engine.
    pub fn release<E: Engine>(self, runtime: &mut Compiler<E>)
        requires
            old(runtime).wf(),
            old(runtime).holds(self@),
        ensures
            final(runtime).wf(),
            final(runtime).log() == old(runtime).log().push(
                Exchange::Free { handle: self@.handle },
            ),
            final(runtime).ledger() == old(runtime).ledger().remove(self@.handle),
    {
        self.0.release(runtime);
    }

    /// The descriptor of the parsed component: its blocks. There is none
    /// where parsing failed; that is an absence, not an error. Each call
    /// hands out a descriptor of its own, to be released on its own.
    pub fn descriptor<E: Engine>(
        &self,
        runtime: &mut Compiler<E>,
    ) -> (descriptor: Option<Descriptor>)
        requires
            old(runtime).wf(),
            old(runtime).holds(self@),
        ensures
            final(runtime).wf(),
            final(runtime).ledger() == gained(old(runtime).ledger(), raw_of(descriptor)),
            descriptor matches Some(found) ==> found@.handle.0 != 0 && final(runtime).holds(found@),
            final(runtime).log() == old(runtime).log().push(
                Exchange::Child {
                    which: Child::Descriptor,
                    handle: self@.handle,
                    result: raw_of(descriptor),
                },
            ),
    {
        let raw = runtime.child(Child::Descriptor, self.0.raw());
        match Handle::new(raw, Ghost(runtime.name())) {
            Some(handle) => Some(Descriptor::from_handle(handle)),
            None => None,
        }
    }

    /// The number of parse errors.
    pub fn error_count<E: Engine>(&self, runtime: &mut Compiler<E>) -> (count: usize)
        requires
            old(runtime).wf(),
            old(runtime).holds(self@),
        ensures
            final(runtime).wf(),
            final(runtime).ledger() == old(runtime).ledger(),
            final(runtime).log() == old(runtime).log().push(
                Exchange::Number {
                    which: Number::ParseErrorCount,
                    handle: self@.handle,
                    answer: count,
                },
            ),
    {
        runtime.number(Number::ParseErrorCount, self.0.raw())
    }

    /// The message of the parse error at `index`.
    pub fn error_message<E: Engine>(
        &self,
        runtime: &mut Compiler<E>,
        index: usize,
    ) -> (message: String)
        requires
            old(runtime).wf(),
            old(runtime).holds(self@),
        ensures
            final(runtime).wf(),
            final(runtime).ledger() == old(runtime).ledger(),
            final(runtime).log() == old(runtime).log().push(
                Exchange::TextAt {
                    which: TextAt::ParseErrorMessage,
                    handle: self@.handle,
                    index,
                    answer: message@,
                },
            ),
    {
        runtime.text_at(TextAt::ParseErrorMessage, self.0.raw(), index)
    }

    /// Whether parsing produced errors: whether the parser reported any, or
    /// there is no descriptor.
    ///
    /// The descriptor is asked for only where no error was reported; one that
    /// is handed out is released at once.
    pub fn has_errors<E: Engine>(&self, runtime: &mut Compiler<E>) -> (errors: bool)
        requires
            old(runtime).wf(),
            old(runtime).holds(self@),
        ensures
            final(runtime).wf(),
            final(runtime).ledger() == old(runtime).ledger(),
            exists|error_count: usize, descriptor: RawHandle|
                #[trigger] errors_checked(
                    old(runtime).log(),
                    final(runtime).log(),
                    self@.handle,
                    error_count,
                    descriptor,
                ) && errors == parse_has_errors(error_count, descriptor),
    {
        let ghost before = runtime.log();
        let count: usize = self.error_count(runtime);
        if count > 0 {
            assert(runtime.log() =~= before + errors_exchanges(self@.handle, count, RawHandle(0)));
            assert(errors_checked(before, runtime.log(), self@.handle, count, RawHandle(0)));
            return true;
        }
        match self.descriptor(runtime) {
            Some(descriptor) => {
                let ghost raw = descriptor@.handle;
                descriptor.release(runtime);
                assert(runtime.log() =~= before + errors_exchanges(self@.handle, count, raw));
                assert(errors_checked(before, runtime.log(), self@.handle, count, raw));
                false
            },
            None => {
                assert(runtime.log() =~= before + errors_exchanges(
                    self@.handle,
                    count,
                    RawHandle(0),
                ));
                assert(errors_checked(before, runtime.log(), self@.handle, count, RawHandle(0)));
                true
            },
        }
    }

    /// Whether parsing succeeded: whether it produced no errors. This is
    /// the opposite of [`ParseOutput::has_errors`], and asks the engine the
    /// same questions.
    pub fn is_ok<E: Engine>(&self, runtime: &mut Compiler<E>) -> (ok: bool)
        requires
            old(runtime).wf(),
            old(runtime).holds(self@),
        ensures
            final(runtime).wf(),
            final(runtime).ledger() == old(runtime).ledger(),
            exists|error_count: usize, descriptor: RawHandle|
                #[trigger] errors_checked(
                    old(runtime).log(),
                    final(runtime).log(),
                    self@.handle,
                    error_count,
                    descriptor,
                ) && ok == !parse_has_errors(error_count, descriptor),
    {
        !self.has_errors(runtime)
    }

    /// The messages of all parse errors, in the engine's order.
    pub fn errors<E: Engine>(&self, runtime: &mut Compiler<E>) -> (errors: Vec<String>)
        requires
            old(runtime).wf(),
            old(runtime).holds(self@),
        ensures
            final(runtime).wf(),
            final(runtime).ledger() == old(runtime).ledger(),
            final(runtime).log() == old(runtime).log().push(
                Exchange::Number {
                    which: Number::ParseErrorCount,
                    handle: self@.handle,
                    answer: errors.len(),
                },
            ) + list_exchanges(TextAt::ParseErrorMessage, self@.handle, texts(errors@)),
    {
        read_list(runtime, Number::ParseErrorCount, TextAt::ParseErrorMessage, self.0.raw())
    }
}

} // verus!
