//! The runtime lifecycle manager: the sole owner of one engine instance.

use vstd::multiset::Multiset;
use vstd::prelude::*;
use crate::engine::{Child, ChildAt, Engine, Flag, FlagAt, Number, Text, TextAt};
use crate::protocol::{disciplined, gained, ledger, lemma_push, lent, Exchange, Held, Ledger};
use crate::raw::RawHandle;
use crate::types::error::{Error, ErrorKind, Result};
use crate::types::parse_output::ParseOutput;
use crate::types::script_output::ScriptOutput;
use crate::types::style_output::StyleOutput;
use crate::types::template_output::TemplateOutput;

verus! {

/// A compiler instance: one engine, and the record of every call made into it.
///
/// The engine is reached through this value only, and every operation takes
/// it exclusively: calls are strictly sequential, in the order in which they
/// are issued, and two of them never overlap. The value can be moved, to
/// another thread too, but it cannot be shared. Parallel compilation takes
/// one instance per thread; instances share nothing.
///
/// Creating an instance is expensive (the engine loads the whole compiler):
/// reuse an instance where possible.
///
/// Handles belong to the instance that issued them. An instance has a name,
/// and every view bears the name of the instance that handed it out. A view
/// must be used with that instance, and with no other: the operations on a
/// view require that the instance holds it, and an instance holds no view
/// of another, not even where the numbers of the handles agree.
pub struct Compiler<E: Engine> {
    engine: E,
    name: Ghost<int>,
    log: Ghost<Seq<Exchange>>,
}

/// The raw handle behind a result: the object's handle on success, the
/// sentinel on failure.
pub open spec fn handle_of<T: View<V = Held>>(result: Result<T>) -> RawHandle {
    match result {
        Ok(object) => object@.handle,
        Err(_) => RawHandle(0),
    }
}

/// The log after a template was compiled with the bindings of a script
/// result: `before`, then the script result lending `lent`, then the
/// compilation `compiled`.
pub open spec fn template_exchanges(
    before: Seq<Exchange>,
    script_result: RawHandle,
    lent: RawHandle,
    compiled: Exchange,
) -> Seq<Exchange> {
    before.push(Exchange::Bindings { script_result, result: lent }).push(compiled)
}

impl<E: Engine> Compiler<E> {
    /// Every call made into the engine so far, with its answer, oldest first.
    pub closed spec fn log(&self) -> Seq<Exchange> {
        self.log@
    }

    /// The invariant: the conversation so far kept the discipline. Every
    /// instance that this crate hands out satisfies it, and every operation
    /// preserves it.
    pub closed spec fn wf(&self) -> bool {
        disciplined(self.log@)
    }

    /// What this instance holds: its name, and the handles that its engine
    /// issued and that have not been released since.
    pub closed spec fn ledger(&self) -> Ledger {
        Ledger { owner: self.name@, held: ledger(self.log@) }
    }

    /// The name of this instance. It never changes, and every view that the
    /// instance hands out bears it. Which name an instance bears is not said:
    /// a view can be shown to be held by the instance that handed it out, and
    /// by no other.
    pub open spec fn name(&self) -> int {
        self.ledger().owner
    }

    /// The engine that this instance owns, as the calls so far have left it.
    pub closed spec fn engine(&self) -> E {
        self.engine
    }

    /// Whether this instance holds the number `handle`.
    pub open spec fn has(&self, handle: RawHandle) -> bool {
        self.ledger().has(handle)
    }

    /// Whether this instance holds `view`: it issued the handle, and has not
    /// released it since. A view of another instance is not held, not even
    /// where the numbers agree.
    pub open spec fn holds(&self, view: Held) -> bool {
        self.ledger().holds(view)
    }

    /// What the invariant and the ledger are in terms of the log: the log is
    /// disciplined, and the handles held are the ones that the log gives.
    pub proof fn lemma_invariant(&self)
        requires
            self.wf(),
        ensures
            disciplined(self.log()),
            self.ledger().held == ledger(self.log()),
    {
    }

    /// Takes charge of the outcome of starting an engine: an instance around
    /// the engine if one was started, the error if none was.
    pub fn adopt(created: Option<E>) -> (compiler: Result<Self>)
        ensures
            compiler is Ok <==> created is Some,
            compiler matches Ok(runtime) ==> created == Some(runtime.engine()),
            compiler matches Ok(runtime) ==> runtime.wf() && runtime.log() == Seq::<
                Exchange,
            >::empty() && runtime.ledger().is_empty(),
            compiler matches Err(error) ==> error.spec_kind() == ErrorKind::EngineInitFailed
                && error.spec_message() == "Failed to create compiler instance"@,
    {
        match created {
            Some(engine) => Ok(
                Compiler { engine, name: Ghost(arbitrary()), log: Ghost(Seq::empty()) },
            ),
            None => Err(
                Error::new(ErrorKind::EngineInitFailed, "Failed to create compiler instance"),
            ),
        }
    }

    /// Creates a compiler instance with a fresh engine. Fails, without
    /// leaving anything behind, when the engine cannot be started.
    pub fn new() -> (compiler: Result<Self>)
        ensures
            compiler matches Ok(runtime) ==> runtime.wf() && runtime.log() == Seq::<
                Exchange,
            >::empty() && runtime.ledger().is_empty(),
            compiler matches Err(error) ==> error.spec_kind() == ErrorKind::EngineInitFailed
                && error.spec_message() == "Failed to create compiler instance"@,
    {
        Self::adopt(E::create())
    }

    /// Shuts the engine down. The instance is consumed, so it cannot be
    /// destroyed twice. Every handle must have been released before: a handle
    /// that is still held would dangle.
    pub fn destroy(self)
        requires
            self.wf(),
            self.ledger().is_empty(),
    {
        self.engine.destroy();
    }

    /// Parses a component. `filename` is used in messages and source maps.
    ///
    /// The parser yields a result also for a malformed source: what it found
    /// wrong is read from the result. The call fails only where the engine
    /// gives no result at all.
    pub fn parse(&mut self, source: &str, filename: &str) -> (output: Result<ParseOutput>)
        requires
            old(self).wf(),
        ensures
            final(self).wf(),
            final(self).ledger() == gained(old(self).ledger(), handle_of(output)),
            final(self).log() == old(self).log().push(
                Exchange::Parse {
                    source: source@,
                    filename: filename@,
                    result: handle_of(output),
                },
            ),
            output matches Ok(parsed) ==> parsed@.handle.0 != 0 && final(self).holds(parsed@),
            output matches Err(error) ==> error.spec_kind() == ErrorKind::InvalidHandle
                && error.spec_message() == "Parse returned invalid handle"@,
    {
        let result = self.engine.parse(source, filename);
        proof {
            let exchange = Exchange::Parse { source: source@, filename: filename@, result };
            lemma_push(self.log@, exchange);
        }
        self.log = Ghost(
            self.log@.push(Exchange::Parse { source: source@, filename: filename@, result }),
        );
        if !result.is_valid() {
            return Err(Error::new(ErrorKind::InvalidHandle, "Parse returned invalid handle"));
        }
        Ok(ParseOutput::from_raw(result, Ghost(self.name())))
    }

    /// Compiles a template to a render function.
    ///
    /// `id` is the scope id for scoped CSS, and `scoped` says whether scoped
    /// attribute selectors are added. `bindings` is the script result whose
    /// bindings serve as optimisation hints, if there is one: its bindings
    /// handle is fetched and passed on at once, while the script result is
    /// held; without one the sentinel is passed.
    pub fn compile_template(
        &mut self,
        source: &str,
        filename: &str,
        id: &str,
        scoped: bool,
        bindings: Option<&ScriptOutput>,
    ) -> (output: Result<TemplateOutput>)
        requires
            old(self).wf(),
            bindings matches Some(script) ==> old(self).holds(script@),
        ensures
            final(self).wf(),
            final(self).ledger() == gained(old(self).ledger(), handle_of(output)),
            match bindings {
                None => final(self).log() == old(self).log().push(
                    Exchange::CompileTemplate {
                        source: source@,
                        filename: filename@,
                        id: id@,
                        scoped,
                        bindings: RawHandle(0),
                        result: handle_of(output),
                    },
                ),
                Some(script) => exists|lent: RawHandle|
                    final(self).log() == #[trigger] template_exchanges(
                        old(self).log(),
                        script@.handle,
                        lent,
                        Exchange::CompileTemplate {
                            source: source@,
                            filename: filename@,
                            id: id@,
                            scoped,
                            bindings: lent,
                            result: handle_of(output),
                        },
                    ),
            },
            output matches Ok(compiled) ==> compiled@.handle.0 != 0 && final(self).holds(compiled@),
            output matches Err(error) ==> error.spec_kind() == ErrorKind::InvalidHandle
                && error.spec_message() == "compile_template returned invalid handle"@,
    {
        let ghost before = self.log@;
        let lent = match bindings {
            Some(script) => script.bindings_handle(self),
            None => RawHandle::invalid(),
        };
        let result = self.engine.compile_template(source, filename, id, scoped, lent);
        let ghost exchange = Exchange::CompileTemplate {
            source: source@,
            filename: filename@,
            id: id@,
            scoped,
            bindings: lent,
            result,
        };
        let ghost asked = self.log@;
        proof {
            lemma_push(asked, exchange);
        }
        self.log = Ghost(self.log@.push(exchange));
        proof {
            if let Some(script) = bindings {
                assert(self.log@ == template_exchanges(before, script@.handle, lent, exchange));
            }
        }
        if !result.is_valid() {
            return Err(
                Error::new(ErrorKind::InvalidHandle, "compile_template returned invalid handle"),
            );
        }
        Ok(TemplateOutput::from_raw(result, Ghost(self.name())))
    }

    /// Compiles a style block. `id` is the scope id, and `scoped` says
    /// whether scoped attribute selectors are added.
    pub fn compile_style(
        &mut self,
        source: &str,
        filename: &str,
        id: &str,
        scoped: bool,
    ) -> (output: Result<StyleOutput>)
        requires
            old(self).wf(),
        ensures
            final(self).wf(),
            final(self).ledger() == gained(old(self).ledger(), handle_of(output)),
            final(self).log() == old(self).log().push(
                Exchange::CompileStyle {
                    source: source@,
                    filename: filename@,
                    id: id@,
                    scoped,
                    result: handle_of(output),
                },
            ),
            output matches Ok(compiled) ==> compiled@.handle.0 != 0 && final(self).holds(compiled@),
            output matches Err(error) ==> error.spec_kind() == ErrorKind::InvalidHandle
                && error.spec_message() == "compile_style returned invalid handle"@,
    {
        let result = self.engine.compile_style(source, filename, id, scoped);
        let ghost exchange = Exchange::CompileStyle {
            source: source@,
            filename: filename@,
            id: id@,
            scoped,
            result,
        };
        proof {
            lemma_push(self.log@, exchange);
        }
        self.log = Ghost(self.log@.push(exchange));
        if !result.is_valid() {
            return Err(
                Error::new(ErrorKind::InvalidHandle, "compile_style returned invalid handle"),
            );
        }
        Ok(StyleOutput::from_raw(result, Ghost(self.name())))
    }

    /// Asks a held script result to lend its bindings. Nothing is issued:
    /// the answer stays the script result's.
    pub(crate) fn bindings(&mut self, script_result: RawHandle) -> (result: RawHandle)
        requires
            old(self).wf(),
            old(self).has(script_result),
        ensures
            final(self).wf(),
            final(self).log() == old(self).log().push(
                Exchange::Bindings { script_result, result },
            ),
            final(self).ledger() == old(self).ledger(),
            lent(final(self).log(), result),
    {
        let result = self.engine.bindings(script_result);
        proof {
            lemma_push(self.log@, Exchange::Bindings { script_result, result });
        }
        self.log = Ghost(self.log@.push(Exchange::Bindings { script_result, result }));
        result
    }

    /// Has the scripts of a held descriptor compiled. The answer is held
    /// afterwards, unless it is the sentinel.
    pub(crate) fn compile_script(
        &mut self,
        descriptor: RawHandle,
        id: &str,
        is_prod: bool,
    ) -> (result: RawHandle)
        requires
            old(self).wf(),
            old(self).has(descriptor),
        ensures
            final(self).wf(),
            final(self).log() == old(self).log().push(
                Exchange::CompileScript { descriptor, id: id@, is_prod, result },
            ),
            final(self).ledger() == gained(old(self).ledger(), result),
            result.0 != 0 ==> final(self).has(result),
    {
        let result = self.engine.compile_script(descriptor, id, is_prod);
        proof {
            lemma_push(self.log@, Exchange::CompileScript { descriptor, id: id@, is_prod, result });
        }
        self.log = Ghost(
            self.log@.push(Exchange::CompileScript { descriptor, id: id@, is_prod, result }),
        );
        result
    }

    /// Frees a held handle.
    pub(crate) fn free(&mut self, handle: RawHandle)
        requires
            old(self).wf(),
            old(self).has(handle),
        ensures
            final(self).wf(),
            final(self).log() == old(self).log().push(Exchange::Free { handle }),
            final(self).ledger() == old(self).ledger().remove(handle),
    {
        self.engine.free_handle(handle);
        proof {
            lemma_push(self.log@, Exchange::Free { handle });
        }
        self.log = Ghost(self.log@.push(Exchange::Free { handle }));
    }

    /// Asks a yes/no question about a held handle.
    pub(crate) fn flag(&mut self, which: Flag, handle: RawHandle) -> (answer: bool)
        requires
            old(self).wf(),
            old(self).has(handle),
        ensures
            final(self).wf(),
            final(self).log() == old(self).log().push(Exchange::Flag { which, handle, answer }),
            final(self).ledger() == old(self).ledger(),
    {
        let answer = self.engine.flag(which, handle);
        proof {
            lemma_push(self.log@, Exchange::Flag { which, handle, answer });
        }
        self.log = Ghost(self.log@.push(Exchange::Flag { which, handle, answer }));
        answer
    }

    /// Asks a yes/no question about a list element of a held handle.
    pub(crate) fn flag_at(
        &mut self,
        which: FlagAt,
        handle: RawHandle,
        index: usize,
    ) -> (answer: bool)
        requires
            old(self).wf(),
            old(self).has(handle),
        ensures
            final(self).wf(),
            final(self).log() == old(self).log().push(
                Exchange::FlagAt { which, handle, index, answer },
            ),
            final(self).ledger() == old(self).ledger(),
    {
        let answer = self.engine.flag_at(which, handle, index);
        proof {
            lemma_push(self.log@, Exchange::FlagAt { which, handle, index, answer });
        }
        self.log = Ghost(self.log@.push(Exchange::FlagAt { which, handle, index, answer }));
        answer
    }

    /// Asks a held handle for a number.
    pub(crate) fn number(&mut self, which: Number, handle: RawHandle) -> (answer: usize)
        requires
            old(self).wf(),
            old(self).has(handle),
        ensures
            final(self).wf(),
            final(self).log() == old(self).log().push(Exchange::Number { which, handle, answer }),
            final(self).ledger() == old(self).ledger(),
    {
        let answer: usize = self.engine.number(which, handle);
        proof {
            lemma_push(self.log@, Exchange::Number { which, handle, answer });
        }
        self.log = Ghost(self.log@.push(Exchange::Number { which, handle, answer }));
        answer
    }

    /// Asks a held handle for text.
    pub(crate) fn text(&mut self, which: Text, handle: RawHandle) -> (answer: String)
        requires
            old(self).wf(),
            old(self).has(handle),
        ensures
            final(self).wf(),
            final(self).log() == old(self).log().push(
                Exchange::Text { which, handle, answer: answer@ },
            ),
            final(self).ledger() == old(self).ledger(),
    {
        let answer = self.engine.text(which, handle);
        proof {
            lemma_push(self.log@, Exchange::Text { which, handle, answer: answer@ });
        }
        self.log = Ghost(self.log@.push(Exchange::Text { which, handle, answer: answer@ }));
        answer
    }

    /// Asks a held handle for the text of a list element.
    pub(crate) fn text_at(
        &mut self,
        which: TextAt,
        handle: RawHandle,
        index: usize,
    ) -> (answer: String)
        requires
            old(self).wf(),
            old(self).has(handle),
        ensures
            final(self).wf(),
            final(self).log() == old(self).log().push(
                Exchange::TextAt { which, handle, index, answer: answer@ },
            ),
            final(self).ledger() == old(self).ledger(),
    {
        let answer = self.engine.text_at(which, handle, index);
        proof {
            lemma_push(self.log@, Exchange::TextAt { which, handle, index, answer: answer@ });
        }
        self.log = Ghost(
            self.log@.push(Exchange::TextAt { which, handle, index, answer: answer@ }),
        );
        answer
    }

    /// Asks a held handle for an object that belongs to it. The answer is
    /// held afterwards, unless it is the sentinel.
    pub(crate) fn child(&mut self, which: Child, handle: RawHandle) -> (result: RawHandle)
        requires
            old(self).wf(),
            old(self).has(handle),
        ensures
            final(self).wf(),
            final(self).log() == old(self).log().push(Exchange::Child { which, handle, result }),
            final(self).ledger() == gained(old(self).ledger(), result),
            result.0 != 0 ==> final(self).has(result),
    {
        let result = self.engine.child(which, handle);
        proof {
            lemma_push(self.log@, Exchange::Child { which, handle, result });
        }
        self.log = Ghost(self.log@.push(Exchange::Child { which, handle, result }));
        result
    }

    /// Asks a held handle for one element of a list of objects. The answer is
    /// held afterwards, unless it is the sentinel.
    pub(crate) fn child_at(
        &mut self,
        which: ChildAt,
        handle: RawHandle,
        index: usize,
    ) -> (result: RawHandle)
        requires
            old(self).wf(),
            old(self).has(handle),
        ensures
            final(self).wf(),
            final(self).log() == old(self).log().push(
                Exchange::ChildAt { which, handle, index, result },
            ),
            final(self).ledger() == gained(old(self).ledger(), result),
            result.0 != 0 ==> final(self).has(result),
    {
        let result = self.engine.child_at(which, handle, index);
        proof {
            lemma_push(self.log@, Exchange::ChildAt { which, handle, index, result });
        }
        self.log = Ghost(self.log@.push(Exchange::ChildAt { which, handle, index, result }));
        result
    }
}

} // verus!
