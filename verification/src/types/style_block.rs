//! The view of a style block.

use vstd::prelude::*;
use crate::compiler::Compiler;
use crate::engine::{Engine, Flag, Text};
use crate::protocol::{Exchange, Held};
use crate::raw::RawHandle;
use crate::types::attr_value::{AttrValue, AttrValueView};
use crate::types::custom_block::{attrs_read, get_block_attrs, get_block_loc, loc_exchanges};
use crate::types::handle::Handle;
use crate::types::source_location::SourceLocation;
use crate::types::string_map::{map_of, StringMap};
use crate::util::{absent_if_empty, shown};

verus! {

/// A style block of a parsed component.
pub struct StyleBlock(Handle);

impl View for StyleBlock {
    type V = Held;

    closed spec fn view(&self) -> Held {
        self.0@
    }
}

impl StyleBlock {
    /// The view over a handle that names a style block.
    pub(crate) fn from_handle(handle: Handle) -> (block: Self)
        ensures
            block@ == handle@,
    {
        StyleBlock(handle)
    }

    /// Gives the block back to the engine.
    pub fn release<E: Engine>(self, runtime: &mut Compiler<E>)
        requires
            old(runtime).wf(),
            old(runtime).holds(self@),
        ensures
            final(runtime).wf(),
            final(runtime).log() == old(runtime).log().push(
                Exchange::Free { handle: self@.handle },
            ),
            final(runtime).ledger() == old(runtime).ledger().remove(self@.handle),
    {
        self.0.release(runtime);
    }

    /// The style's source text.
    pub fn content<E: Engine>(&self, runtime: &mut Compiler<E>) -> (content: String)
        requires
            old(runtime).wf(),
            old(runtime).holds(self@),
        ensures
            final(runtime).wf(),
            final(runtime).ledger() == old(runtime).ledger(),
            final(runtime).log() == old(runtime).log().push(
                Exchange::Text {
                    which: Text::BlockContent,
                    handle: self@.handle,
                    answer: content@,
                },
            ),
    {
        runtime.text(Text::BlockContent, self.0.raw())
    }

    /// The style's language, such as `scss`; empty when it names none.
    pub fn lang<E: Engine>(&self, runtime: &mut Compiler<E>) -> (lang: String)
        requires
            old(runtime).wf(),
            old(runtime).holds(self@),
        ensures
            final(runtime).wf(),
            final(runtime).ledger() == old(runtime).ledger(),
            final(runtime).log() == old(runtime).log().push(
                Exchange::Text { which: Text::BlockLang, handle: self@.handle, answer: lang@ },
            ),
    {
        runtime.text(Text::BlockLang, self.0.raw())
    }

    /// The file that the block refers to with `src`, if it does. The engine
    /// answers with the empty string for "no such attribute", so an empty
    /// `src` reads as absent.
    pub fn src<E: Engine>(&self, runtime: &mut Compiler<E>) -> (src: Option<String>)
        requires
            old(runtime).wf(),
            old(runtime).holds(self@),
        ensures
            final(runtime).wf(),
            final(runtime).ledger() == old(runtime).ledger(),
            src matches Some(text) ==> text@.len() > 0,
            final(runtime).log() == old(runtime).log().push(
                Exchange::Text { which: Text::BlockSrc, handle: self@.handle, answer: shown(src) },
            ),
    {
        absent_if_empty(runtime.text(Text::BlockSrc, self.0.raw()))
    }

    /// Where the block stands in the source.
    pub fn loc<E: Engine>(&self, runtime: &mut Compiler<E>) -> (loc: SourceLocation)
        requires
            old(runtime).wf(),
            old(runtime).holds(self@),
        ensures
            final(runtime).wf(),
            final(runtime).ledger() == old(runtime).ledger(),
            final(runtime).log() == old(runtime).log() + loc_exchanges(self@.handle, loc),
    {
        get_block_loc(runtime, self.0.raw())
    }

    /// The attributes on the block's tag, by name.
    pub fn attrs<E: Engine>(&self, runtime: &mut Compiler<E>) -> (attrs: StringMap<AttrValue>)
        requires
            old(runtime).wf(),
            old(runtime).holds(self@),
        ensures
            final(runtime).wf(),
            final(runtime).ledger() == old(runtime).ledger(),
            attrs.wf(),
            exists|read: Seq<(Seq<char>, AttrValueView)>|
                #[trigger] attrs_read(old(runtime).log(), final(runtime).log(), self@.handle, read)
                    && attrs@ == map_of(read),
    {
        get_block_attrs(runtime, self.0.raw())
    }

    /// Whether the style is scoped.
    pub fn is_scoped<E: Engine>(&self, runtime: &mut Compiler<E>) -> (scoped: bool)
        requires
            old(runtime).wf(),
            old(runtime).holds(self@),
        ensures
            final(runtime).wf(),
            final(runtime).ledger() == old(runtime).ledger(),
            final(runtime).log() == old(runtime).log().push(
                Exchange::Flag { which: Flag::StyleIsScoped, handle: self@.handle, answer: scoped },
            ),
    {
        runtime.flag(Flag::StyleIsScoped, self.0.raw())
    }

    /// Whether the style uses CSS modules.
    pub fn has_module<E: Engine>(&self, runtime: &mut Compiler<E>) -> (module: bool)
        requires
            old(runtime).wf(),
            old(runtime).holds(self@),
        ensures
            final(runtime).wf(),
            final(runtime).ledger() == old(runtime).ledger(),
            final(runtime).log() == old(runtime).log().push(
                Exchange::Flag {
                    which: Flag::StyleHasModule,
                    handle: self@.handle,
                    answer: module,
                },
            ),
    {
        runtime.flag(Flag::StyleHasModule, self.0.raw())
    }

    /// The name given with the `module` attribute, if one is given. The name
    /// is asked for only where the style uses CSS modules. It is absent
    /// where `module` is a bare flag: the engine answers with the empty
    /// string then, so an empty name reads as absent too.
    pub fn module_name<E: Engine>(&self, runtime: &mut Compiler<E>) -> (name: Option<String>)
        requires
            old(runtime).wf(),
            old(runtime).holds(self@),
        ensures
            final(runtime).wf(),
            final(runtime).ledger() == old(runtime).ledger(),
            match name {
                Some(text) => text@.len() > 0 && final(runtime).log() == old(runtime).log().push(
                    Exchange::Flag {
                        which: Flag::StyleHasModule,
                        handle: self@.handle,
                        answer: true,
                    },
                ).push(
                    Exchange::Text {
                        which: Text::StyleModuleValue,
                        handle: self@.handle,
                        answer: text@,
                    },
                ),
                None => final(runtime).log() == old(runtime).log().push(
                    Exchange::Flag {
                        which: Flag::StyleHasModule,
                        handle: self@.handle,
                        answer: false,
                    },
                ) || final(runtime).log() == old(runtime).log().push(
                    Exchange::Flag {
                        which: Flag::StyleHasModule,
                        handle: self@.handle,
                        answer: true,
                    },
                ).push(
                    Exchange::Text {
                        which: Text::StyleModuleValue,
                        handle: self@.handle,
                        answer: Seq::empty(),
                    },
                ),
            },
    {
        if !self.has_module(runtime) {
            return None;
        }
        absent_if_empty(runtime.text(Text::StyleModuleValue, self.0.raw()))
    }
}

} // verus!
