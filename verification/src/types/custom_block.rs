//! The view of a custom block, and what all kinds of block have in common.

use vstd::prelude::*;
use crate::compiler::Compiler;
use crate::engine::{Engine, FlagAt, Number, Text, TextAt};
use crate::protocol::{Exchange, Held};
use crate::raw::RawHandle;
use crate::types::attr_value::{AttrValue, AttrValueView};
use crate::types::handle::Handle;
use crate::types::source_location::{Position, SourceLocation};
use crate::types::string_map::{lemma_map_of_push, map_of, StringMap};
use crate::util::{absent_if_empty, shown};

verus! {

/// A custom block of a parsed component, such as `<i18n>` or `<docs>`.
pub struct CustomBlock(Handle);

impl View for CustomBlock {
    type V = Held;

    closed spec fn view(&self) -> Held {
        self.0@
    }
}

/// The six questions that read the location of `block`, in the order in which
/// they are asked, with the answers that make up `loc`.
pub open spec fn loc_exchanges(block: RawHandle, loc: SourceLocation) -> Seq<Exchange> {
    seq![
        Exchange::Number {
            which: Number::LocStartOffset,
            handle: block,
            answer: loc.start.offset,
        },
        Exchange::Number { which: Number::LocStartLine, handle: block, answer: loc.start.line },
        Exchange::Number {
            which: Number::LocStartColumn,
            handle: block,
            answer: loc.start.column,
        },
        Exchange::Number { which: Number::LocEndOffset, handle: block, answer: loc.end.offset },
        Exchange::Number { which: Number::LocEndLine, handle: block, answer: loc.end.line },
        Exchange::Number { which: Number::LocEndColumn, handle: block, answer: loc.end.column },
    ]
}

/// The exchanges that read the attribute at `index` of `block`: its name,
/// then whether it is a bare flag, and only if it is not, its value.
pub open spec fn attr_exchanges(
    block: RawHandle,
    index: usize,
    name: Seq<char>,
    value: AttrValueView,
) -> Seq<Exchange> {
    let asked = seq![
        Exchange::TextAt { which: TextAt::AttrKey, handle: block, index, answer: name },
        Exchange::FlagAt {
            which: FlagAt::AttrIsBool,
            handle: block,
            index,
            answer: value is Bool,
        },
    ];
    match value {
        AttrValueView::Bool(_) => asked,
        AttrValueView::String(text) => asked.push(
            Exchange::TextAt { which: TextAt::AttrValue, handle: block, index, answer: text },
        ),
    }
}

/// The exchanges that read the attributes `attrs` of `block`, first to last.
pub open spec fn attrs_exchanges(
    block: RawHandle,
    attrs: Seq<(Seq<char>, AttrValueView)>,
) -> Seq<Exchange>
    decreases attrs.len(),
{
    if attrs.len() == 0 {
        Seq::empty()
    } else {
        attrs_exchanges(block, attrs.drop_last()) + attr_exchanges(
            block,
            (attrs.len() - 1) as usize,
            attrs.last().0,
            attrs.last().1,
        )
    }
}

/// Whether `after` is `before`, followed by the count of the attributes of
/// `block` and by the reading of each of them, with the answers `attrs`: a
/// bare flag reads as a flag that is set.
pub open spec fn attrs_read(
    before: Seq<Exchange>,
    after: Seq<Exchange>,
    block: RawHandle,
    attrs: Seq<(Seq<char>, AttrValueView)>,
) -> bool {
    &&& attrs.len() <= usize::MAX
    &&& after == before.push(
        Exchange::Number { which: Number::AttrCount, handle: block, answer: attrs.len() as usize },
    ) + attrs_exchanges(block, attrs)
    &&& forall|i: int|
        0 <= i < attrs.len() ==> ((#[trigger] attrs[i]).1 is Bool ==> attrs[i].1
            == AttrValueView::Bool(true))
}

/// Reads the location of a held block.
pub(crate) fn get_block_loc<E: Engine>(
    runtime: &mut Compiler<E>,
    block: RawHandle,
) -> (loc: SourceLocation)
    requires
        old(runtime).wf(),
        old(runtime).has(block),
    ensures
        final(runtime).wf(),
        final(runtime).ledger() == old(runtime).ledger(),
        final(runtime).log() == old(runtime).log() + loc_exchanges(block, loc),
{
    let ghost before = runtime.log();
    let start_offset: usize = runtime.number(Number::LocStartOffset, block);
    let start_line: usize = runtime.number(Number::LocStartLine, block);
    let start_column: usize = runtime.number(Number::LocStartColumn, block);
    let end_offset: usize = runtime.number(Number::LocEndOffset, block);
    let end_line: usize = runtime.number(Number::LocEndLine, block);
    let end_column: usize = runtime.number(Number::LocEndColumn, block);
    let loc = SourceLocation {
        start: Position { offset: start_offset, line: start_line, column: start_column },
        end: Position { offset: end_offset, line: end_line, column: end_column },
    };
    assert(runtime.log() =~= before + loc_exchanges(block, loc));
    loc
}

/// Reads the attribute at `index` of a held block.
fn read_attr<E: Engine>(
    runtime: &mut Compiler<E>,
    block: RawHandle,
    index: usize,
) -> (attr: (String, AttrValue))
    requires
        old(runtime).wf(),
        old(runtime).has(block),
    ensures
        final(runtime).wf(),
        final(runtime).ledger() == old(runtime).ledger(),
        attr.1@ is Bool ==> attr.1@ == AttrValueView::Bool(true),
        final(runtime).log() == old(runtime).log() + attr_exchanges(
            block,
            index,
            attr.0@,
            attr.1@,
        ),
{
    let ghost before = runtime.log();
    let name = runtime.text_at(TextAt::AttrKey, block, index);
    let is_bool = runtime.flag_at(FlagAt::AttrIsBool, block, index);
    let value = if is_bool {
        AttrValue::Bool(true)
    } else {
        AttrValue::String(runtime.text_at(TextAt::AttrValue, block, index))
    };
    assert(runtime.log() =~= before + attr_exchanges(block, index, name@, value@));
    (name, value)
}

/// Reads the attributes of a held block into a map from name to value.
///
/// For each attribute the engine is first asked whether it is a bare flag;
/// its value is asked for only if it is not. Where a name occurs twice, the
/// later attribute stands.
pub(crate) fn get_block_attrs<E: Engine>(
    runtime: &mut Compiler<E>,
    block: RawHandle,
) -> (attrs: StringMap<AttrValue>)
    requires
        old(runtime).wf(),
        old(runtime).has(block),
    ensures
        final(runtime).wf(),
        final(runtime).ledger() == old(runtime).ledger(),
        attrs.wf(),
        exists|read: Seq<(Seq<char>, AttrValueView)>|
            #[trigger] attrs_read(old(runtime).log(), final(runtime).log(), block, read) && attrs@
                == map_of(read),
{
    let ghost before = runtime.log();
    let count: usize = runtime.number(Number::AttrCount, block);
    let ghost counted = runtime.log();
    let mut attrs: StringMap<AttrValue> = StringMap::new();
    let ghost mut read: Seq<(Seq<char>, AttrValueView)> = Seq::empty();
    let mut index: usize = 0;
    assert(runtime.log() =~= counted + attrs_exchanges(block, read));
    while index < count
        invariant
            index <= count,
            read.len() == index,
            runtime.wf(),
            runtime.has(block),
            runtime.ledger() == old(runtime).ledger(),
            counted == before.push(
                Exchange::Number { which: Number::AttrCount, handle: block, answer: count },
            ),
            runtime.log() == counted + attrs_exchanges(block, read),
            forall|i: int|
                0 <= i < read.len() ==> ((#[trigger] read[i]).1 is Bool ==> read[i].1
                    == AttrValueView::Bool(true)),
            attrs.wf(),
            attrs@ == map_of(read),
        decreases count - index,
    {
        let (name, value) = read_attr(runtime, block, index);
        proof {
            let extended = read.push((name@, value@));
            assert(extended.drop_last() =~= read);
            assert(runtime.log() =~= counted + attrs_exchanges(block, extended));
            lemma_map_of_push(read, name@, value@);
            read = extended;
        }
        attrs.insert(name, value);
        index += 1;
    }
    proof {
        assert(attrs_read(before, runtime.log(), block, read));
    }
    attrs
}

impl CustomBlock {
    /// The view over a handle that names a custom block.
    pub(crate) fn from_handle(handle: Handle) -> (block: Self)
        ensures
            block@ == handle@,
    {
        CustomBlock(handle)
    }

    /// Gives the block back to the engine.
    pub fn release<E: Engine>(self, runtime: &mut Compiler<E>)
        requires
            old(runtime).wf(),
            old(runtime).holds(self@),
        ensures
            final(runtime).wf(),
            final(runtime).log() == old(runtime).log().push(
                Exchange::Free { handle: self@.handle },
            ),
            final(runtime).ledger() == old(runtime).ledger().remove(self@.handle),
    {
        self.0.release(runtime);
    }

    /// The block's tag name, such as `i18n`.
    pub fn block_type<E: Engine>(&self, runtime: &mut Compiler<E>) -> (name: String)
        requires
            old(runtime).wf(),
            old(runtime).holds(self@),
        ensures
            final(runtime).wf(),
            final(runtime).ledger() == old(runtime).ledger(),
            final(runtime).log() == old(runtime).log().push(
                Exchange::Text {
                    which: Text::CustomBlockType,
                    handle: self@.handle,
                    answer: name@,
                },
            ),
    {
        runtime.text(Text::CustomBlockType, self.0.raw())
    }

    /// The block's content.
    pub fn content<E: Engine>(&self, runtime: &mut Compiler<E>) -> (content: String)
        requires
            old(runtime).wf(),
            old(runtime).holds(self@),
        ensures
            final(runtime).wf(),
            final(runtime).ledger() == old(runtime).ledger(),
            final(runtime).log() == old(runtime).log().push(
                Exchange::Text {
                    which: Text::BlockContent,
                    handle: self@.handle,
                    answer: content@,
                },
            ),
    {
        runtime.text(Text::BlockContent, self.0.raw())
    }

    /// The block's language; empty when it names none.
    pub fn lang<E: Engine>(&self, runtime: &mut Compiler<E>) -> (lang: String)
        requires
            old(runtime).wf(),
            old(runtime).holds(self@),
        ensures
            final(runtime).wf(),
            final(runtime).ledger() == old(runtime).ledger(),
            final(runtime).log() == old(runtime).log().push(
                Exchange::Text { which: Text::BlockLang, handle: self@.handle, answer: lang@ },
            ),
    {
        runtime.text(Text::BlockLang, self.0.raw())
    }

    /// The file that the block refers to with `src`, if it does. The engine
    /// answers with the empty string for "no such attribute", so an empty
    /// `src` reads as absent.
    pub fn src<E: Engine>(&self, runtime: &mut Compiler<E>) -> (src: Option<String>)
        requires
            old(runtime).wf(),
            old(runtime).holds(self@),
        ensures
            final(runtime).wf(),
            final(runtime).ledger() == old(runtime).ledger(),
            src matches Some(text) ==> text@.len() > 0,
            final(runtime).log() == old(runtime).log().push(
                Exchange::Text { which: Text::BlockSrc, handle: self@.handle, answer: shown(src) },
            ),
    {
        absent_if_empty(runtime.text(Text::BlockSrc, self.0.raw()))
    }

    /// Where the block stands in the source.
    pub fn loc<E: Engine>(&self, runtime: &mut Compiler<E>) -> (loc: SourceLocation)
        requires
            old(runtime).wf(),
            old(runtime).holds(self@),
        ensures
            final(runtime).wf(),
            final(runtime).ledger() == old(runtime).ledger(),
            final(runtime).log() == old(runtime).log() + loc_exchanges(self@.handle, loc),
    {
        get_block_loc(runtime, self.0.raw())
    }

    /// The attributes on the block's tag, by name.
    pub fn attrs<E: Engine>(&self, runtime: &mut Compiler<E>) -> (attrs: StringMap<AttrValue>)
        requires
            old(runtime).wf(),
            old(runtime).holds(self@),
        ensures
            final(runtime).wf(),
            final(runtime).ledger() == old(runtime).ledger(),
            attrs.wf(),
            exists|read: Seq<(Seq<char>, AttrValueView)>|
                #[trigger] attrs_read(old(runtime).log(), final(runtime).log(), self@.handle, read)
                    && attrs@ == map_of(read),
    {
        get_block_attrs(runtime, self.0.raw())
    }
}

} // verus!
