//! The view of a descriptor: the parsed representation of a component.

use vstd::multiset::Multiset;
use vstd::prelude::*;
use crate::compiler::{handle_of, Compiler};
use crate::engine::{Child, ChildAt, Engine, Flag, Number, Text, TextAt};
use crate::protocol::{gained, Exchange, Held};
use crate::raw::RawHandle;
use crate::types::custom_block::CustomBlock;
use crate::types::error::{Error, ErrorKind, Result};
use crate::types::handle::Handle;
use crate::types::script_block::ScriptBlock;
use crate::types::script_output::ScriptOutput;
use crate::types::style_block::StyleBlock;
use crate::types::template_block::TemplateBlock;
use crate::util::{list_exchanges, raw_of, read_list, texts};

verus! {

/// The descriptor of a parsed component. It holds the component's blocks: at
/// most one template, one plain script and one setup script, and any number
/// of styles and custom blocks.
///
/// Blocks are fetched on demand. Every fetch hands out a view of its own,
/// which the caller releases; nothing is cached, and a block does not keep
/// its descriptor alive.
pub struct Descriptor(Handle);

impl View for Descriptor {
    type V = Held;

    closed spec fn view(&self) -> Held {
        self.0@
    }
}

/// Whether `after` is `before`, followed by the exchanges that fetch a block
/// which a descriptor has at most once: the question whether it is there;
/// then, only if it is, the request for it. `fetched` is what was handed out:
/// the sentinel where the block is not there, or where the engine gave none.
pub open spec fn block_fetched(
    before: Seq<Exchange>,
    after: Seq<Exchange>,
    descriptor: RawHandle,
    present: Flag,
    which: Child,
    fetched: RawHandle,
) -> bool {
    ||| fetched.0 == 0 && after == before.push(
        Exchange::Flag { which: present, handle: descriptor, answer: false },
    )
    ||| after == before.push(
        Exchange::Flag { which: present, handle: descriptor, answer: true },
    ).push(Exchange::Child { which, handle: descriptor, result: fetched })
}

/// Whether `after` is `before`, followed by the exchanges that fetch the
/// style at `index`: the count of the styles; then, only if `index` is below
/// it, the request for the style. `fetched` is what was handed out: the
/// sentinel where `index` is out of range, or where the engine gave none.
pub open spec fn style_fetched(
    before: Seq<Exchange>,
    after: Seq<Exchange>,
    descriptor: RawHandle,
    style_count: usize,
    index: usize,
    fetched: RawHandle,
) -> bool {
    let counted = before.push(
        Exchange::Number { which: Number::StyleCount, handle: descriptor, answer: style_count },
    );
    if index >= style_count {
        fetched.0 == 0 && after == counted
    } else {
        after == counted.push(
            Exchange::ChildAt {
                which: ChildAt::Style,
                handle: descriptor,
                index,
                result: fetched,
            },
        )
    }
}

/// The requests for the elements of a list of objects of `handle`, one by
/// one, with the answers `answers`.
pub open spec fn children_exchanges(
    which: ChildAt,
    handle: RawHandle,
    answers: Seq<RawHandle>,
) -> Seq<Exchange> {
    Seq::new(
        answers.len(),
        |i: int| Exchange::ChildAt { which, handle, index: i as usize, result: answers[i] },
    )
}

/// The answers that name an object: `answers` without the sentinels, in order.
pub open spec fn named(answers: Seq<RawHandle>) -> Seq<RawHandle>
    decreases answers.len(),
{
    if answers.len() == 0 {
        Seq::empty()
    } else if answers.last().0 != 0 {
        named(answers.drop_last()).push(answers.last())
    } else {
        named(answers.drop_last())
    }
}

/// Whether `after` is `before`, followed by the count of a list of objects of
/// `handle` and by the request for each of them, with the answers `answers`.
pub open spec fn children_listed(
    before: Seq<Exchange>,
    after: Seq<Exchange>,
    count: Number,
    which: ChildAt,
    handle: RawHandle,
    answers: Seq<RawHandle>,
) -> bool {
    &&& answers.len() <= usize::MAX
    &&& after == before.push(
        Exchange::Number { which: count, handle, answer: answers.len() as usize },
    ) + children_exchanges(which, handle, answers)
}

/// The raw handles behind a list of views.
pub open spec fn raws<T: View<V = Held>>(list: Seq<T>) -> Seq<RawHandle> {
    Seq::new(list.len(), |i: int| list[i]@.handle)
}

/// The exchanges that ask the style at `index` of `descriptor` whether it is
/// scoped: the request for the style; then, unless the answer is the
/// sentinel, the question, and at once the release of the style.
pub open spec fn probe_exchanges(
    descriptor: RawHandle,
    index: usize,
    style: RawHandle,
    scoped: bool,
) -> Seq<Exchange> {
    let fetched = seq![
        Exchange::ChildAt { which: ChildAt::Style, handle: descriptor, index, result: style },
    ];
    if style.0 == 0 {
        fetched
    } else {
        fetched.push(
            Exchange::Flag { which: Flag::StyleIsScoped, handle: style, answer: scoped },
        ).push(Exchange::Free { handle: style })
    }
}

/// The exchanges that probe the styles of `descriptor` from the first on,
/// with the answers `probes`: for each style its handle and what it said.
pub open spec fn probes_exchanges(
    descriptor: RawHandle,
    probes: Seq<(RawHandle, bool)>,
) -> Seq<Exchange>
    decreases probes.len(),
{
    if probes.len() == 0 {
        Seq::empty()
    } else {
        probes_exchanges(descriptor, probes.drop_last()) + probe_exchanges(
            descriptor,
            (probes.len() - 1) as usize,
            probes.last().0,
            probes.last().1,
        )
    }
}

/// Whether a probe found a scoped style: the engine handed out a style, and
/// the style said that it is scoped.
pub open spec fn found_scoped(probe: (RawHandle, bool)) -> bool {
    probe.0.0 != 0 && probe.1
}

/// Whether any of `probes` found a scoped style.
pub open spec fn any_scoped(probes: Seq<(RawHandle, bool)>) -> bool {
    exists|i: int| 0 <= i < probes.len() && found_scoped(#[trigger] probes[i])
}

/// Whether `after` is `before`, followed by the count of the styles of
/// `descriptor` and by the probing of every one of them, in order, with the
/// answers `probes`.
pub open spec fn styles_probed(
    before: Seq<Exchange>,
    after: Seq<Exchange>,
    descriptor: RawHandle,
    probes: Seq<(RawHandle, bool)>,
) -> bool {
    &&& probes.len() <= usize::MAX
    &&& after == before.push(
        Exchange::Number {
            which: Number::StyleCount,
            handle: descriptor,
            answer: probes.len() as usize,
        },
    ) + probes_exchanges(descriptor, probes)
}

/// Fetches the objects of a list that a held handle has: asks for the count,
/// then for each element in turn. Sentinels are skipped.
fn children<E: Engine>(
    runtime: &mut Compiler<E>,
    count: Number,
    which: ChildAt,
    handle: RawHandle,
) -> (fetched: Vec<Handle>)
    requires
        old(runtime).wf(),
        old(runtime).has(handle),
    ensures
        final(runtime).wf(),
        final(runtime).ledger() == old(runtime).ledger().add(raws(fetched@).to_multiset()),
        forall|i: int| 0 <= i < fetched@.len() ==> final(runtime).holds((#[trigger] fetched@[i])@),
        exists|answers: Seq<RawHandle>|
            #[trigger] children_listed(
                old(runtime).log(),
                final(runtime).log(),
                count,
                which,
                handle,
                answers,
            ) && raws(fetched@) == named(answers),
{
    let ghost before = runtime.log();
    let length: usize = runtime.number(count, handle);
    let ghost counted = runtime.log();
    let mut fetched: Vec<Handle> = Vec::new();
    let ghost mut answers: Seq<RawHandle> = Seq::empty();
    let mut index: usize = 0;
    assert(runtime.log() =~= counted + children_exchanges(which, handle, answers));
    assert(raws(fetched@) =~= named(answers));
    proof {
        broadcast use vstd::seq_lib::group_to_multiset_ensures;

        assert(raws(fetched@).to_multiset() =~= Multiset::empty());
        assert(runtime.ledger().held =~= old(runtime).ledger().add(
            raws(fetched@).to_multiset(),
        ).held);
    }
    while index < length
        invariant
            index <= length,
            answers.len() == index,
            runtime.wf(),
            runtime.has(handle),
            counted == before.push(Exchange::Number { which: count, handle, answer: length }),
            runtime.log() == counted + children_exchanges(which, handle, answers),
            raws(fetched@) == named(answers),
            runtime.ledger() == old(runtime).ledger().add(raws(fetched@).to_multiset()),
            forall|i: int| 0 <= i < fetched@.len() ==> runtime.holds((#[trigger] fetched@[i])@),
        decreases length - index,
    {
        let ghost fetched_before = fetched@;
        let raw = runtime.child_at(which, handle, index);
        proof {
            let extended = answers.push(raw);
            assert(extended.drop_last() =~= answers);
            assert(children_exchanges(which, handle, extended) =~= children_exchanges(
                which,
                handle,
                answers,
            ).push(Exchange::ChildAt { which, handle, index, result: raw }));
            assert(runtime.log() =~= counted + children_exchanges(which, handle, extended));
            answers = extended;
        }
        match Handle::new(raw, Ghost(runtime.name())) {
            Some(wrapped) => {
                fetched.push(wrapped);
                proof {
                    assert(raws(fetched@) =~= raws(fetched_before).push(raw));
                    assert(raws(fetched@).drop_last() =~= raws(fetched_before));
                    vstd::seq_lib::to_multiset_build(raws(fetched_before), raw);
                    assert(runtime.ledger().held =~= old(runtime).ledger().add(
                        raws(fetched@).to_multiset(),
                    ).held);
                    assert forall|i: int| 0 <= i < fetched@.len() implies runtime.holds(
                        (#[trigger] fetched@[i])@,
                    ) by {
                        if i < fetched_before.len() {
                            assert(fetched@[i] == fetched_before[i]);
                        }
                    }
                }
            },
            None => {},
        }
        index += 1;
    }
    proof {
        assert(children_listed(before, runtime.log(), count, which, handle, answers));
    }
    fetched
}

impl Descriptor {
    /// The view over a handle that names a descriptor.
    pub(crate) fn from_handle(handle: Handle) -> (descriptor: Self)
        ensures
            descriptor@ == handle@,
    {
        Descriptor(handle)
    }

    /// Gives the descriptor back to the engine.
    pub fn release<E: Engine>(self, runtime: &mut Compiler<E>)
        requires
            old(runtime).wf(),
            old(runtime).holds(self@),
        ensures
            final(runtime).wf(),
            final(runtime).log() == old(runtime).log().push(
                Exchange::Free { handle: self@.handle },
            ),
            final(runtime).ledger() == old(runtime).ledger().remove(self@.handle),
    {
        self.0.release(runtime);
    }

    /// Whether the component has a template block.
    pub fn has_template<E: Engine>(&self, runtime: &mut Compiler<E>) -> (present: bool)
        requires
            old(runtime).wf(),
            old(runtime).holds(self@),
        ensures
            final(runtime).wf(),
            final(runtime).ledger() == old(runtime).ledger(),
            final(runtime).log() == old(runtime).log().push(
                Exchange::Flag { which: Flag::HasTemplate, handle: self@.handle, answer: present },
            ),
    {
        runtime.flag(Flag::HasTemplate, self.0.raw())
    }

    /// Whether the component has a plain script block.
    pub fn has_script<E: Engine>(&self, runtime: &mut Compiler<E>) -> (present: bool)
        requires
            old(runtime).wf(),
            old(runtime).holds(self@),
        ensures
            final(runtime).wf(),
            final(runtime).ledger() == old(runtime).ledger(),
            final(runtime).log() == old(runtime).log().push(
                Exchange::Flag { which: Flag::HasScript, handle: self@.handle, answer: present },
            ),
    {
        runtime.flag(Flag::HasScript, self.0.raw())
    }

    /// Whether the component has a setup script block.
    pub fn has_script_setup<E: Engine>(&self, runtime: &mut Compiler<E>) -> (present: bool)
        requires
            old(runtime).wf(),
            old(runtime).holds(self@),
        ensures
            final(runtime).wf(),
            final(runtime).ledger() == old(runtime).ledger(),
            final(runtime).log() == old(runtime).log().push(
                Exchange::Flag {
                    which: Flag::HasScriptSetup,
                    handle: self@.handle,
                    answer: present,
                },
            ),
    {
        runtime.flag(Flag::HasScriptSetup, self.0.raw())
    }

    /// The number of style blocks.
    pub fn style_count<E: Engine>(&self, runtime: &mut Compiler<E>) -> (count: usize)
        requires
            old(runtime).wf(),
            old(runtime).holds(self@),
        ensures
            final(runtime).wf(),
            final(runtime).ledger() == old(runtime).ledger(),
            final(runtime).log() == old(runtime).log().push(
                Exchange::Number { which: Number::StyleCount, handle: self@.handle, answer: count },
            ),
    {
        runtime.number(Number::StyleCount, self.0.raw())
    }

    /// Fetches a block that the descriptor has at most once: asks whether it
    /// is there, and for the block only if it is.
    fn optional_child<E: Engine>(
        &self,
        runtime: &mut Compiler<E>,
        present: Flag,
        which: Child,
    ) -> (fetched: Option<Handle>)
        requires
            old(runtime).wf(),
            old(runtime).holds(self@),
        ensures
            final(runtime).wf(),
            final(runtime).ledger() == gained(old(runtime).ledger(), raw_of(fetched)),
            fetched matches Some(handle) ==> handle@.handle.0 != 0 && final(runtime).holds(handle@),
            block_fetched(
                old(runtime).log(),
                final(runtime).log(),
                self@.handle,
                present,
                which,
                raw_of(fetched),
            ),
    {
        if !runtime.flag(present, self.0.raw()) {
            return None;
        }
        Handle::new(runtime.child(which, self.0.raw()), Ghost(runtime.name()))
    }

    /// The template block, if the component has one.
    pub fn template<E: Engine>(&self, runtime: &mut Compiler<E>) -> (block: Option<TemplateBlock>)
        requires
            old(runtime).wf(),
            old(runtime).holds(self@),
        ensures
            final(runtime).wf(),
            final(runtime).ledger() == gained(old(runtime).ledger(), raw_of(block)),
            block matches Some(found) ==> found@.handle.0 != 0 && final(runtime).holds(found@),
            block_fetched(
                old(runtime).log(),
                final(runtime).log(),
                self@.handle,
                Flag::HasTemplate,
                Child::Template,
                raw_of(block),
            ),
    {
        match self.optional_child(runtime, Flag::HasTemplate, Child::Template) {
            Some(handle) => Some(TemplateBlock::from_handle(handle)),
            None => None,
        }
    }

    /// The plain script block (not the setup one), if the component has one.
    pub fn script<E: Engine>(&self, runtime: &mut Compiler<E>) -> (block: Option<ScriptBlock>)
        requires
            old(runtime).wf(),
            old(runtime).holds(self@),
        ensures
            final(runtime).wf(),
            final(runtime).ledger() == gained(old(runtime).ledger(), raw_of(block)),
            block matches Some(found) ==> found@.handle.0 != 0 && final(runtime).holds(found@),
            block_fetched(
                old(runtime).log(),
                final(runtime).log(),
                self@.handle,
                Flag::HasScript,
                Child::Script,
                raw_of(block),
            ),
    {
        match self.optional_child(runtime, Flag::HasScript, Child::Script) {
            Some(handle) => Some(ScriptBlock::from_handle(handle)),
            None => None,
        }
    }

    /// The setup script block, if the component has one.
    pub fn script_setup<E: Engine>(&self, runtime: &mut Compiler<E>) -> (block: Option<ScriptBlock>)
        requires
            old(runtime).wf(),
            old(runtime).holds(self@),
        ensures
            final(runtime).wf(),
            final(runtime).ledger() == gained(old(runtime).ledger(), raw_of(block)),
            block matches Some(found) ==> found@.handle.0 != 0 && final(runtime).holds(found@),
            block_fetched(
                old(runtime).log(),
                final(runtime).log(),
                self@.handle,
                Flag::HasScriptSetup,
                Child::ScriptSetup,
                raw_of(block),
            ),
    {
        match self.optional_child(runtime, Flag::HasScriptSetup, Child::ScriptSetup) {
            Some(handle) => Some(ScriptBlock::from_handle(handle)),
            None => None,
        }
    }

    /// The style block at `index`, if there is one. The engine is asked for
    /// the block only where `index` is below the number of styles.
    pub fn style_at<E: Engine>(
        &self,
        runtime: &mut Compiler<E>,
        index: usize,
    ) -> (block: Option<StyleBlock>)
        requires
            old(runtime).wf(),
            old(runtime).holds(self@),
        ensures
            final(runtime).wf(),
            final(runtime).ledger() == gained(old(runtime).ledger(), raw_of(block)),
            block matches Some(found) ==> found@.handle.0 != 0 && final(runtime).holds(found@),
            exists|style_count: usize|
                #[trigger] style_fetched(
                    old(runtime).log(),
                    final(runtime).log(),
                    self@.handle,
                    style_count,
                    index,
                    raw_of(block),
                ),
    {
        let ghost before = runtime.log();
        let count: usize = runtime.number(Number::StyleCount, self.0.raw());
        if index >= count {
            let block: Option<StyleBlock> = None;
            assert(style_fetched(before, runtime.log(), self@.handle, count, index, raw_of(block)));
            return block;
        }
        let raw = runtime.child_at(ChildAt::Style, self.0.raw(), index);
        let block = match Handle::new(raw, Ghost(runtime.name())) {
            Some(handle) => Some(StyleBlock::from_handle(handle)),
            None => None,
        };
        assert(style_fetched(before, runtime.log(), self@.handle, count, index, raw_of(block)));
        block
    }

    /// The style blocks, in source order. The list is fetched anew by every
    /// call, all of it at once: one view for each style that the engine hands
    /// out, each to be released on its own. To hold one style at a time,
    /// fetch them with [`Descriptor::style_at`].
    pub fn styles<E: Engine>(&self, runtime: &mut Compiler<E>) -> (styles: Vec<StyleBlock>)
        requires
            old(runtime).wf(),
            old(runtime).holds(self@),
        ensures
            final(runtime).wf(),
            final(runtime).ledger() == old(runtime).ledger().add(raws(styles@).to_multiset()),
            forall|i: int|
                0 <= i < styles@.len() ==> final(runtime).holds((#[trigger] styles@[i])@),
            exists|answers: Seq<RawHandle>|
                #[trigger] children_listed(
                    old(runtime).log(),
                    final(runtime).log(),
                    Number::StyleCount,
                    ChildAt::Style,
                    self@.handle,
                    answers,
                ) && raws(styles@) == named(answers),
    {
        let fetched = children(runtime, Number::StyleCount, ChildAt::Style, self.0.raw());
        let ghost handles = fetched@;
        let mut styles: Vec<StyleBlock> = Vec::new();
        for handle in iter: fetched
            invariant
                handles == iter.seq(),
                styles@.len() == iter.index(),
                forall|i: int|
                    0 <= i < styles@.len() ==> (#[trigger] styles@[i])@ == iter.seq()[i]@,
        {
            styles.push(StyleBlock::from_handle(handle));
        }
        assert(raws(styles@) =~= raws(handles));
        styles
    }

    /// Asks the style at `index` whether it is scoped. The style is held
    /// only for the question.
    fn probe_style<E: Engine>(
        &self,
        runtime: &mut Compiler<E>,
        index: usize,
    ) -> (probe: (bool, Ghost<RawHandle>, Ghost<bool>))
        requires
            old(runtime).wf(),
            old(runtime).holds(self@),
        ensures
            final(runtime).wf(),
            final(runtime).ledger() == old(runtime).ledger(),
            probe.0 == found_scoped((probe.1@, probe.2@)),
            final(runtime).log() == old(runtime).log() + probe_exchanges(
                self@.handle,
                index,
                probe.1@,
                probe.2@,
            ),
    {
        let ghost before = runtime.log();
        let raw = runtime.child_at(ChildAt::Style, self.0.raw(), index);
        match Handle::new(raw, Ghost(runtime.name())) {
            Some(handle) => {
                let style = StyleBlock::from_handle(handle);
                let scoped = style.is_scoped(runtime);
                style.release(runtime);
                assert(runtime.log() =~= before + probe_exchanges(
                    self@.handle,
                    index,
                    raw,
                    scoped,
                ));
                (scoped, Ghost(raw), Ghost(scoped))
            },
            None => {
                assert(runtime.log() =~= before + probe_exchanges(self@.handle, index, raw, false));
                (false, Ghost(raw), Ghost(false))
            },
        }
    }

    /// Whether any style block is scoped: whether at least one of the styles
    /// that the engine hands out says so.
    ///
    /// The answer is computed by scanning all styles, every time: each style
    /// is fetched, asked and released in turn. Nothing is cached.
    pub fn has_scoped_style<E: Engine>(&self, runtime: &mut Compiler<E>) -> (scoped: bool)
        requires
            old(runtime).wf(),
            old(runtime).holds(self@),
        ensures
            final(runtime).wf(),
            final(runtime).ledger() == old(runtime).ledger(),
            exists|probes: Seq<(RawHandle, bool)>|
                #[trigger] styles_probed(
                    old(runtime).log(),
                    final(runtime).log(),
                    self@.handle,
                    probes,
                ) && scoped == any_scoped(probes),
    {
        let ghost before = runtime.log();
        let count: usize = runtime.number(Number::StyleCount, self.0.raw());
        let ghost counted = runtime.log();
        let ghost mut probes: Seq<(RawHandle, bool)> = Seq::empty();
        let mut scoped = false;
        let mut index: usize = 0;
        assert(runtime.log() =~= counted + probes_exchanges(self@.handle, probes));
        while index < count
            invariant
                index <= count,
                probes.len() == index,
                runtime.wf(),
                runtime.holds(self@),
                runtime.ledger() == old(runtime).ledger(),
                counted == before.push(
                    Exchange::Number {
                        which: Number::StyleCount,
                        handle: self@.handle,
                        answer: count,
                    },
                ),
                runtime.log() == counted + probes_exchanges(self@.handle, probes),
                scoped == any_scoped(probes),
            decreases count - index,
        {
            let (found, Ghost(style), Ghost(answer)) = self.probe_style(runtime, index);
            proof {
                let extended = probes.push((style, answer));
                assert(extended.drop_last() =~= probes);
                assert(runtime.log() =~= counted + probes_exchanges(self@.handle, extended));
                if any_scoped(probes) {
                    let i = choose|i: int|
                        0 <= i < probes.len() && found_scoped(#[trigger] probes[i]);
                    assert(found_scoped(extended[i]));
                }
                if found {
                    assert(found_scoped(extended[index as int]));
                }
                if any_scoped(extended) {
                    let i = choose|i: int|
                        0 <= i < extended.len() && found_scoped(#[trigger] extended[i]);
                    if i < index {
                        assert(found_scoped(probes[i]));
                    }
                }
                probes = extended;
            }
            if found {
                scoped = true;
            }
            index += 1;
        }
        proof {
            assert(styles_probed(before, runtime.log(), self@.handle, probes));
        }
        scoped
    }

    /// The component's whole source, as it was given to the parser.
    pub fn source<E: Engine>(&self, runtime: &mut Compiler<E>) -> (source: String)
        requires
            old(runtime).wf(),
            old(runtime).holds(self@),
        ensures
            final(runtime).wf(),
            final(runtime).ledger() == old(runtime).ledger(),
            final(runtime).log() == old(runtime).log().push(
                Exchange::Text { which: Text::Source, handle: self@.handle, answer: source@ },
            ),
    {
        runtime.text(Text::Source, self.0.raw())
    }

    /// The file name that was given to the parser.
    pub fn filename<E: Engine>(&self, runtime: &mut Compiler<E>) -> (filename: String)
        requires
            old(runtime).wf(),
            old(runtime).holds(self@),
        ensures
            final(runtime).wf(),
            final(runtime).ledger() == old(runtime).ledger(),
            final(runtime).log() == old(runtime).log().push(
                Exchange::Text { which: Text::Filename, handle: self@.handle, answer: filename@ },
            ),
    {
        runtime.text(Text::Filename, self.0.raw())
    }

    /// The number of CSS variables found in the styles.
    pub fn css_vars_count<E: Engine>(&self, runtime: &mut Compiler<E>) -> (count: usize)
        requires
            old(runtime).wf(),
            old(runtime).holds(self@),
        ensures
            final(runtime).wf(),
            final(runtime).ledger() == old(runtime).ledger(),
            final(runtime).log() == old(runtime).log().push(
                Exchange::Number {
                    which: Number::CssVarCount,
                    handle: self@.handle,
                    answer: count,
                },
            ),
    {
        runtime.number(Number::CssVarCount, self.0.raw())
    }

    /// The CSS variables found in the styles: the expressions bound with
    /// `v-bind()`, in the engine's order.
    pub fn css_vars<E: Engine>(&self, runtime: &mut Compiler<E>) -> (vars: Vec<String>)
        requires
            old(runtime).wf(),
            old(runtime).holds(self@),
        ensures
            final(runtime).wf(),
            final(runtime).ledger() == old(runtime).ledger(),
            final(runtime).log() == old(runtime).log().push(
                Exchange::Number {
                    which: Number::CssVarCount,
                    handle: self@.handle,
                    answer: vars.len(),
                },
            ) + list_exchanges(TextAt::CssVar, self@.handle, texts(vars@)),
    {
        read_list(runtime, Number::CssVarCount, TextAt::CssVar, self.0.raw())
    }

    /// Whether the scoped styles use the slotted selector.
    pub fn slotted<E: Engine>(&self, runtime: &mut Compiler<E>) -> (slotted: bool)
        requires
            old(runtime).wf(),
            old(runtime).holds(self@),
        ensures
            final(runtime).wf(),
            final(runtime).ledger() == old(runtime).ledger(),
            final(runtime).log() == old(runtime).log().push(
                Exchange::Flag { which: Flag::Slotted, handle: self@.handle, answer: slotted },
            ),
    {
        runtime.flag(Flag::Slotted, self.0.raw())
    }

    /// The number of custom blocks.
    pub fn custom_blocks_count<E: Engine>(&self, runtime: &mut Compiler<E>) -> (count: usize)
        requires
            old(runtime).wf(),
            old(runtime).holds(self@),
        ensures
            final(runtime).wf(),
            final(runtime).ledger() == old(runtime).ledger(),
            final(runtime).log() == old(runtime).log().push(
                Exchange::Number {
                    which: Number::CustomBlockCount,
                    handle: self@.handle,
                    answer: count,
                },
            ),
    {
        runtime.number(Number::CustomBlockCount, self.0.raw())
    }

    /// The custom blocks, in source order. The list is fetched anew by every
    /// call: one view for each block that the engine hands out, each to be
    /// released on its own.
    pub fn custom_blocks<E: Engine>(&self, runtime: &mut Compiler<E>) -> (blocks: Vec<CustomBlock>)
        requires
            old(runtime).wf(),
            old(runtime).holds(self@),
        ensures
            final(runtime).wf(),
            final(runtime).ledger() == old(runtime).ledger().add(raws(blocks@).to_multiset()),
            forall|i: int|
                0 <= i < blocks@.len() ==> final(runtime).holds((#[trigger] blocks@[i])@),
            exists|answers: Seq<RawHandle>|
                #[trigger] children_listed(
                    old(runtime).log(),
                    final(runtime).log(),
                    Number::CustomBlockCount,
                    ChildAt::CustomBlock,
                    self@.handle,
                    answers,
                ) && raws(blocks@) == named(answers),
    {
        let fetched = children(
            runtime,
            Number::CustomBlockCount,
            ChildAt::CustomBlock,
            self.0.raw(),
        );
        let ghost handles = fetched@;
        let mut blocks: Vec<CustomBlock> = Vec::new();
        for handle in iter: fetched
            invariant
                handles == iter.seq(),
                blocks@.len() == iter.index(),
                forall|i: int|
                    0 <= i < blocks@.len() ==> (#[trigger] blocks@[i])@ == iter.seq()[i]@,
        {
            blocks.push(CustomBlock::from_handle(handle));
        }
        assert(raws(blocks@) =~= raws(handles));
        blocks
    }

    /// Compiles the script blocks of the component. `id` is the scope id of
    /// the component. Fails where the engine gives no result.
    pub fn compile_script<E: Engine>(
        &self,
        runtime: &mut Compiler<E>,
        id: &str,
        is_prod: bool,
    ) -> (output: Result<ScriptOutput>)
        requires
            old(runtime).wf(),
            old(runtime).holds(self@),
        ensures
            final(runtime).wf(),
            final(runtime).ledger() == gained(old(runtime).ledger(), handle_of(output)),
            final(runtime).log() == old(runtime).log().push(
                Exchange::CompileScript {
                    descriptor: self@.handle,
                    id: id@,
                    is_prod,
                    result: handle_of(output),
                },
            ),
            output matches Ok(compiled) ==> compiled@.handle.0 != 0 && final(runtime).holds(
                compiled@,
            ),
            output matches Err(error) ==> error.spec_kind() == ErrorKind::InvalidHandle
                && error.spec_message() == "compile_script returned invalid handle"@,
    {
        let raw = runtime.compile_script(self.0.raw(), id, is_prod);
        match Handle::new(raw, Ghost(runtime.name())) {
            Some(handle) => Ok(ScriptOutput::from_handle(handle)),
            None => Err(
                Error::new(ErrorKind::InvalidHandle, "compile_script returned invalid handle"),
            ),
        }
    }
}

} // verus!
