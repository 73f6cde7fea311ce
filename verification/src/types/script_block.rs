//! The view of a script block.

use vstd::prelude::*;
use crate::compiler::Compiler;
use crate::engine::{ChildAt, Engine, Flag, Number, Text, TextAt};
use crate::protocol::{Exchange, Held};
use crate::raw::RawHandle;
use crate::types::attr_value::{AttrValue, AttrValueView};
use crate::types::custom_block::{attrs_read, get_block_attrs, get_block_loc, loc_exchanges};
use crate::types::handle::Handle;
use crate::types::import_binding::{ImportBinding, ImportBindingView};
use crate::types::source_location::SourceLocation;
use crate::types::string_map::{lemma_map_of_push, map_of, StringMap};
use crate::util::{absent_if_empty, list_exchanges, read_list, shown, texts};

verus! {

/// A script block of a parsed component.
pub struct ScriptBlock(Handle);

impl View for ScriptBlock {
    type V = Held;

    closed spec fn view(&self) -> Held {
        self.0@
    }
}

/// What the engine said of one import: the local name, the handle of the
/// import's metadata, and, if that handle names an object, what was read
/// from it.
pub struct ImportRead {
    /// The local name.
    pub name: Seq<char>,
    /// The handle that the engine issued for the metadata, or the sentinel.
    pub handle: RawHandle,
    /// The metadata that was read from the handle.
    pub binding: ImportBindingView,
}

/// The exchanges that read the import at `index` of `block`: its name and the
/// handle of its metadata; then, unless that is the sentinel, the four fields
/// of the metadata, and at once the release of the handle.
pub open spec fn import_exchanges(
    block: RawHandle,
    index: usize,
    read: ImportRead,
) -> Seq<Exchange> {
    let asked = seq![
        Exchange::TextAt { which: TextAt::ImportKey, handle: block, index, answer: read.name },
        Exchange::ChildAt {
            which: ChildAt::ImportBinding,
            handle: block,
            index,
            result: read.handle,
        },
    ];
    if read.handle.0 == 0 {
        asked
    } else {
        asked + seq![
            Exchange::Flag {
                which: Flag::ImportIsType,
                handle: read.handle,
                answer: read.binding.is_type,
            },
            Exchange::Text {
                which: Text::ImportImported,
                handle: read.handle,
                answer: read.binding.imported,
            },
            Exchange::Text {
                which: Text::ImportSource,
                handle: read.handle,
                answer: read.binding.source,
            },
            Exchange::Flag {
                which: Flag::ImportIsFromSetup,
                handle: read.handle,
                answer: read.binding.is_from_setup,
            },
            Exchange::Free { handle: read.handle },
        ]
    }
}

/// The exchanges that read the imports `reads` of `block`, first to last.
pub open spec fn imports_exchanges(block: RawHandle, reads: Seq<ImportRead>) -> Seq<Exchange>
    decreases reads.len(),
{
    if reads.len() == 0 {
        Seq::empty()
    } else {
        imports_exchanges(block, reads.drop_last()) + import_exchanges(
            block,
            (reads.len() - 1) as usize,
            reads.last(),
        )
    }
}

/// The entries that `reads` give: one for each import whose metadata handle
/// names an object, in the order of the reads.
pub open spec fn imports_written(reads: Seq<ImportRead>) -> Seq<(Seq<char>, ImportBindingView)>
    decreases reads.len(),
{
    if reads.len() == 0 {
        Seq::empty()
    } else if reads.last().handle.0 != 0 {
        imports_written(reads.drop_last()).push((reads.last().name, reads.last().binding))
    } else {
        imports_written(reads.drop_last())
    }
}

/// What was read from the metadata of an import, by its view; a placeholder
/// where nothing was read.
pub open spec fn binding_read(binding: Option<ImportBinding>) -> ImportBindingView {
    match binding {
        Some(binding) => binding@,
        None => ImportBindingView {
            is_type: false,
            imported: Seq::empty(),
            source: Seq::empty(),
            is_from_setup: false,
        },
    }
}

/// Whether `after` is `before`, followed by the count of the imports of
/// `block` and by the reading of each of them, with the answers `reads`.
pub open spec fn imports_read(
    before: Seq<Exchange>,
    after: Seq<Exchange>,
    block: RawHandle,
    reads: Seq<ImportRead>,
) -> bool {
    &&& reads.len() <= usize::MAX
    &&& after == before.push(
        Exchange::Number {
            which: Number::ImportCount,
            handle: block,
            answer: reads.len() as usize,
        },
    ) + imports_exchanges(block, reads)
}

/// The exchanges that read the binding at `index` of `block`: the name of
/// the variable, then its binding type.
pub open spec fn binding_exchanges(
    block: RawHandle,
    index: usize,
    name: Seq<char>,
    kind: Seq<char>,
) -> Seq<Exchange> {
    seq![
        Exchange::TextAt { which: TextAt::BindingKey, handle: block, index, answer: name },
        Exchange::TextAt { which: TextAt::BindingValue, handle: block, index, answer: kind },
    ]
}

/// The exchanges that read the bindings `read` of `block`, first to last.
pub open spec fn bindings_exchanges(
    block: RawHandle,
    read: Seq<(Seq<char>, Seq<char>)>,
) -> Seq<Exchange>
    decreases read.len(),
{
    if read.len() == 0 {
        Seq::empty()
    } else {
        bindings_exchanges(block, read.drop_last()) + binding_exchanges(
            block,
            (read.len() - 1) as usize,
            read.last().0,
            read.last().1,
        )
    }
}

/// Whether `after` is `before`, followed by the count of the bindings of
/// `block` and by the reading of each of them, with the answers `read`.
pub open spec fn bindings_read(
    before: Seq<Exchange>,
    after: Seq<Exchange>,
    block: RawHandle,
    read: Seq<(Seq<char>, Seq<char>)>,
) -> bool {
    &&& read.len() <= usize::MAX
    &&& after == before.push(
        Exchange::Number {
            which: Number::BindingCount,
            handle: block,
            answer: read.len() as usize,
        },
    ) + bindings_exchanges(block, read)
}

impl ScriptBlock {
    /// The view over a handle that names a script block.
    pub(crate) fn from_handle(handle: Handle) -> (block: Self)
        ensures
            block@ == handle@,
    {
        ScriptBlock(handle)
    }

    /// Gives the block back to the engine.
    pub fn release<E: Engine>(self, runtime: &mut Compiler<E>)
        requires
            old(runtime).wf(),
            old(runtime).holds(self@),
        ensures
            final(runtime).wf(),
            final(runtime).log() == old(runtime).log().push(
                Exchange::Free { handle: self@.handle },
            ),
            final(runtime).ledger() == old(runtime).ledger().remove(self@.handle),
    {
        self.0.release(runtime);
    }

    /// The script's source text.
    pub fn content<E: Engine>(&self, runtime: &mut Compiler<E>) -> (content: String)
        requires
            old(runtime).wf(),
            old(runtime).holds(self@),
        ensures
            final(runtime).wf(),
            final(runtime).ledger() == old(runtime).ledger(),
            final(runtime).log() == old(runtime).log().push(
                Exchange::Text {
                    which: Text::BlockContent,
                    handle: self@.handle,
                    answer: content@,
                },
            ),
    {
        runtime.text(Text::BlockContent, self.0.raw())
    }

    /// The script's language, such as `ts`; empty when it names none.
    pub fn lang<E: Engine>(&self, runtime: &mut Compiler<E>) -> (lang: String)
        requires
            old(runtime).wf(),
            old(runtime).holds(self@),
        ensures
            final(runtime).wf(),
            final(runtime).ledger() == old(runtime).ledger(),
            final(runtime).log() == old(runtime).log().push(
                Exchange::Text { which: Text::BlockLang, handle: self@.handle, answer: lang@ },
            ),
    {
        runtime.text(Text::BlockLang, self.0.raw())
    }

    /// The file that the block refers to with `src`, if it does. The engine
    /// answers with the empty string for "no such attribute", so an empty
    /// `src` reads as absent.
    pub fn src<E: Engine>(&self, runtime: &mut Compiler<E>) -> (src: Option<String>)
        requires
            old(runtime).wf(),
            old(runtime).holds(self@),
        ensures
            final(runtime).wf(),
            final(runtime).ledger() == old(runtime).ledger(),
            src matches Some(text) ==> text@.len() > 0,
            final(runtime).log() == old(runtime).log().push(
                Exchange::Text { which: Text::BlockSrc, handle: self@.handle, answer: shown(src) },
            ),
    {
        absent_if_empty(runtime.text(Text::BlockSrc, self.0.raw()))
    }

    /// Where the block stands in the source.
    pub fn loc<E: Engine>(&self, runtime: &mut Compiler<E>) -> (loc: SourceLocation)
        requires
            old(runtime).wf(),
            old(runtime).holds(self@),
        ensures
            final(runtime).wf(),
            final(runtime).ledger() == old(runtime).ledger(),
            final(runtime).log() == old(runtime).log() + loc_exchanges(self@.handle, loc),
    {
        get_block_loc(runtime, self.0.raw())
    }

    /// The attributes on the block's tag, by name.
    pub fn attrs<E: Engine>(&self, runtime: &mut Compiler<E>) -> (attrs: StringMap<AttrValue>)
        requires
            old(runtime).wf(),
            old(runtime).holds(self@),
        ensures
            final(runtime).wf(),
            final(runtime).ledger() == old(runtime).ledger(),
            attrs.wf(),
            exists|read: Seq<(Seq<char>, AttrValueView)>|
                #[trigger] attrs_read(old(runtime).log(), final(runtime).log(), self@.handle, read)
                    && attrs@ == map_of(read),
    {
        get_block_attrs(runtime, self.0.raw())
    }

    /// Whether this is a setup script block.
    pub fn is_setup<E: Engine>(&self, runtime: &mut Compiler<E>) -> (setup: bool)
        requires
            old(runtime).wf(),
            old(runtime).holds(self@),
        ensures
            final(runtime).wf(),
            final(runtime).ledger() == old(runtime).ledger(),
            final(runtime).log() == old(runtime).log().push(
                Exchange::Flag { which: Flag::ScriptHasSetup, handle: self@.handle, answer: setup },
            ),
    {
        runtime.flag(Flag::ScriptHasSetup, self.0.raw())
    }

    /// The value of the `setup` attribute, if it has one. The value is asked
    /// for only where the block is a setup block. It is absent where `setup`
    /// is a bare flag: the engine answers with the empty string then, so an
    /// empty value reads as absent too.
    pub fn setup_value<E: Engine>(&self, runtime: &mut Compiler<E>) -> (value: Option<String>)
        requires
            old(runtime).wf(),
            old(runtime).holds(self@),
        ensures
            final(runtime).wf(),
            final(runtime).ledger() == old(runtime).ledger(),
            match value {
                Some(text) => text@.len() > 0 && final(runtime).log() == old(runtime).log().push(
                    Exchange::Flag {
                        which: Flag::ScriptHasSetup,
                        handle: self@.handle,
                        answer: true,
                    },
                ).push(
                    Exchange::Text {
                        which: Text::ScriptSetupValue,
                        handle: self@.handle,
                        answer: text@,
                    },
                ),
                None => final(runtime).log() == old(runtime).log().push(
                    Exchange::Flag {
                        which: Flag::ScriptHasSetup,
                        handle: self@.handle,
                        answer: false,
                    },
                ) || final(runtime).log() == old(runtime).log().push(
                    Exchange::Flag {
                        which: Flag::ScriptHasSetup,
                        handle: self@.handle,
                        answer: true,
                    },
                ).push(
                    Exchange::Text {
                        which: Text::ScriptSetupValue,
                        handle: self@.handle,
                        answer: Seq::empty(),
                    },
                ),
            },
    {
        if !self.is_setup(runtime) {
            return None;
        }
        absent_if_empty(runtime.text(Text::ScriptSetupValue, self.0.raw()))
    }

    /// The number of variable bindings in the block.
    pub fn bindings_count<E: Engine>(&self, runtime: &mut Compiler<E>) -> (count: usize)
        requires
            old(runtime).wf(),
            old(runtime).holds(self@),
        ensures
            final(runtime).wf(),
            final(runtime).ledger() == old(runtime).ledger(),
            final(runtime).log() == old(runtime).log().push(
                Exchange::Number {
                    which: Number::BindingCount,
                    handle: self@.handle,
                    answer: count,
                },
            ),
    {
        runtime.number(Number::BindingCount, self.0.raw())
    }

    /// The variable bindings of the block: for each variable its binding
    /// type, such as `setup-const`, `setup-ref` or `props`. Where a name
    /// occurs twice, the later binding stands.
    pub fn bindings<E: Engine>(&self, runtime: &mut Compiler<E>) -> (bindings: StringMap<String>)
        requires
            old(runtime).wf(),
            old(runtime).holds(self@),
        ensures
            final(runtime).wf(),
            final(runtime).ledger() == old(runtime).ledger(),
            bindings.wf(),
            exists|read: Seq<(Seq<char>, Seq<char>)>|
                #[trigger] bindings_read(
                    old(runtime).log(),
                    final(runtime).log(),
                    self@.handle,
                    read,
                ) && bindings@ == map_of(read),
    {
        let block = self.0.raw();
        let ghost before = runtime.log();
        let count: usize = runtime.number(Number::BindingCount, block);
        let ghost counted = runtime.log();
        let mut bindings: StringMap<String> = StringMap::new();
        let ghost mut read: Seq<(Seq<char>, Seq<char>)> = Seq::empty();
        let mut index: usize = 0;
        assert(runtime.log() =~= counted + bindings_exchanges(block, read));
        while index < count
            invariant
                index <= count,
                read.len() == index,
                block == self@.handle,
                runtime.wf(),
                runtime.has(block),
                runtime.ledger() == old(runtime).ledger(),
                counted == before.push(
                    Exchange::Number { which: Number::BindingCount, handle: block, answer: count },
                ),
                runtime.log() == counted + bindings_exchanges(block, read),
                bindings.wf(),
                bindings@ == map_of(read),
            decreases count - index,
        {
            let ghost log_before = runtime.log();
            let name = runtime.text_at(TextAt::BindingKey, block, index);
            let kind = runtime.text_at(TextAt::BindingValue, block, index);
            proof {
                let extended = read.push((name@, kind@));
                assert(extended.drop_last() =~= read);
                assert(runtime.log() =~= log_before + binding_exchanges(
                    block,
                    index,
                    name@,
                    kind@,
                ));
                assert(runtime.log() =~= counted + bindings_exchanges(block, extended));
                lemma_map_of_push(read, name@, kind@);
                read = extended;
            }
            bindings.insert(name, kind);
            index += 1;
        }
        proof {
            assert(bindings_read(before, runtime.log(), block, read));
        }
        bindings
    }

    /// The number of warnings in the block.
    pub fn warnings_count<E: Engine>(&self, runtime: &mut Compiler<E>) -> (count: usize)
        requires
            old(runtime).wf(),
            old(runtime).holds(self@),
        ensures
            final(runtime).wf(),
            final(runtime).ledger() == old(runtime).ledger(),
            final(runtime).log() == old(runtime).log().push(
                Exchange::Number {
                    which: Number::WarningCount,
                    handle: self@.handle,
                    answer: count,
                },
            ),
    {
        runtime.number(Number::WarningCount, self.0.raw())
    }

    /// The warnings of the block, in the engine's order.
    pub fn warnings<E: Engine>(&self, runtime: &mut Compiler<E>) -> (warnings: Vec<String>)
        requires
            old(runtime).wf(),
            old(runtime).holds(self@),
        ensures
            final(runtime).wf(),
            final(runtime).ledger() == old(runtime).ledger(),
            final(runtime).log() == old(runtime).log().push(
                Exchange::Number {
                    which: Number::WarningCount,
                    handle: self@.handle,
                    answer: warnings.len(),
                },
            ) + list_exchanges(TextAt::Warning, self@.handle, texts(warnings@)),
    {
        read_list(runtime, Number::WarningCount, TextAt::Warning, self.0.raw())
    }

    /// The number of dependencies of the block.
    pub fn deps_count<E: Engine>(&self, runtime: &mut Compiler<E>) -> (count: usize)
        requires
            old(runtime).wf(),
            old(runtime).holds(self@),
        ensures
            final(runtime).wf(),
            final(runtime).ledger() == old(runtime).ledger(),
            final(runtime).log() == old(runtime).log().push(
                Exchange::Number { which: Number::DepCount, handle: self@.handle, answer: count },
            ),
    {
        runtime.number(Number::DepCount, self.0.raw())
    }

    /// The dependencies of the block (the modules it imports), in the
    /// engine's order.
    pub fn deps<E: Engine>(&self, runtime: &mut Compiler<E>) -> (deps: Vec<String>)
        requires
            old(runtime).wf(),
            old(runtime).holds(self@),
        ensures
            final(runtime).wf(),
            final(runtime).ledger() == old(runtime).ledger(),
            final(runtime).log() == old(runtime).log().push(
                Exchange::Number {
                    which: Number::DepCount,
                    handle: self@.handle,
                    answer: deps.len(),
                },
            ) + list_exchanges(TextAt::Dep, self@.handle, texts(deps@)),
    {
        read_list(runtime, Number::DepCount, TextAt::Dep, self.0.raw())
    }

    /// The number of imports in the block.
    pub fn imports_count<E: Engine>(&self, runtime: &mut Compiler<E>) -> (count: usize)
        requires
            old(runtime).wf(),
            old(runtime).holds(self@),
        ensures
            final(runtime).wf(),
            final(runtime).ledger() == old(runtime).ledger(),
            final(runtime).log() == old(runtime).log().push(
                Exchange::Number {
                    which: Number::ImportCount,
                    handle: self@.handle,
                    answer: count,
                },
            ),
    {
        runtime.number(Number::ImportCount, self.0.raw())
    }

    /// Reads the import at `index`: its local name and its metadata, if the
    /// engine hands any out. The handle that the engine issued for the
    /// metadata is named for the proof only: it is released before this
    /// returns.
    fn read_import<E: Engine>(
        &self,
        runtime: &mut Compiler<E>,
        index: usize,
    ) -> (read: (String, Option<ImportBinding>, Ghost<RawHandle>))
        requires
            old(runtime).wf(),
            old(runtime).holds(self@),
        ensures
            final(runtime).wf(),
            final(runtime).ledger() == old(runtime).ledger(),
            read.1 is Some <==> read.2@.0 != 0,
            final(runtime).log() == old(runtime).log() + import_exchanges(
                self@.handle,
                index,
                ImportRead { name: read.0@, handle: read.2@, binding: binding_read(read.1) },
            ),
    {
        let block = self.0.raw();
        let ghost before = runtime.log();
        let name = runtime.text_at(TextAt::ImportKey, block, index);
        let raw = runtime.child_at(ChildAt::ImportBinding, block, index);
        match Handle::new(raw, Ghost(runtime.name())) {
            Some(handle) => {
                let is_type = runtime.flag(Flag::ImportIsType, handle.raw());
                let imported = runtime.text(Text::ImportImported, handle.raw());
                let source = runtime.text(Text::ImportSource, handle.raw());
                let is_from_setup = runtime.flag(Flag::ImportIsFromSetup, handle.raw());
                let binding = ImportBinding { is_type, imported, source, is_from_setup };
                handle.release(runtime);
                proof {
                    assert(runtime.log() =~= before + import_exchanges(
                        self@.handle,
                        index,
                        ImportRead { name: name@, handle: raw, binding: binding@ },
                    ));
                }
                (name, Some(binding), Ghost(raw))
            },
            None => {
                proof {
                    assert(runtime.log() =~= before + import_exchanges(
                        self@.handle,
                        index,
                        ImportRead { name: name@, handle: raw, binding: binding_read(None) },
                    ));
                }
                (name, None, Ghost(raw))
            },
        }
    }

    /// The imports of the block: for each local name, where it comes from.
    ///
    /// The metadata of each import lives in an object of its own. Its handle
    /// is held only while the four fields are copied out, and is released
    /// before the next import is looked at. An import whose metadata handle is
    /// the sentinel is left out. Where a name occurs twice, the later import
    /// stands.
    pub fn imports<E: Engine>(
        &self,
        runtime: &mut Compiler<E>,
    ) -> (imports: StringMap<ImportBinding>)
        requires
            old(runtime).wf(),
            old(runtime).holds(self@),
        ensures
            final(runtime).wf(),
            final(runtime).ledger() == old(runtime).ledger(),
            imports.wf(),
            exists|reads: Seq<ImportRead>|
                #[trigger] imports_read(
                    old(runtime).log(),
                    final(runtime).log(),
                    self@.handle,
                    reads,
                ) && imports@ == map_of(imports_written(reads)),
    {
        let ghost before = runtime.log();
        let count: usize = runtime.number(Number::ImportCount, self.0.raw());
        let ghost counted = runtime.log();
        let mut imports: StringMap<ImportBinding> = StringMap::new();
        let ghost mut reads: Seq<ImportRead> = Seq::empty();
        let mut index: usize = 0;
        assert(runtime.log() =~= counted + imports_exchanges(self@.handle, reads));
        while index < count
            invariant
                index <= count,
                reads.len() == index,
                runtime.wf(),
                runtime.holds(self@),
                runtime.ledger() == old(runtime).ledger(),
                counted == before.push(
                    Exchange::Number {
                        which: Number::ImportCount,
                        handle: self@.handle,
                        answer: count,
                    },
                ),
                runtime.log() == counted + imports_exchanges(self@.handle, reads),
                imports.wf(),
                imports@ == map_of(imports_written(reads)),
            decreases count - index,
        {
            let (name, binding, Ghost(handle)) = self.read_import(runtime, index);
            let ghost read = ImportRead {
                name: name@,
                handle,
                binding: binding_read(binding),
            };
            proof {
                let extended = reads.push(read);
                assert(extended.drop_last() =~= reads);
                assert(runtime.log() =~= counted + imports_exchanges(self@.handle, extended));
                lemma_map_of_push(imports_written(reads), read.name, read.binding);
                reads = extended;
            }
            match binding {
                Some(binding) => {
                    imports.insert(name, binding);
                },
                None => {},
            }
            index += 1;
        }
        proof {
            assert(imports_read(before, runtime.log(), self@.handle, reads));
        }
        imports
    }
}

} // verus!
