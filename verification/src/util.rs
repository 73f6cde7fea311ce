//! Conventions shared by the typed views.

use vstd::prelude::*;
use crate::compiler::Compiler;
use crate::engine::{Engine, Number, TextAt};
use crate::protocol::{Exchange, Held};
use crate::raw::RawHandle;

verus! {

/// The text that the engine gave where an accessor returned `value`: the
/// engine says "not present, or not text" with the empty string.
pub open spec fn shown(value: Option<String>) -> Seq<char> {
    match value {
        Some(text) => text@,
        None => Seq::empty(),
    }
}

/// The raw handle behind an optional view: the sentinel where there is none.
pub open spec fn raw_of<T: View<V = Held>>(object: Option<T>) -> RawHandle {
    match object {
        Some(object) => object@.handle,
        None => RawHandle(0),
    }
}

/// The texts that a list of strings holds.
pub open spec fn texts(list: Seq<String>) -> Seq<Seq<char>> {
    Seq::new(list.len(), |i: int| list[i]@)
}

/// The "value or absent" convention: the empty string stands for an absent
/// value, and is never handed out as a value. An attribute whose value is the
/// empty string can therefore not be told from an absent one.
pub fn absent_if_empty(text: String) -> (value: Option<String>)
    ensures
        value is None <==> text@.len() == 0,
        value matches Some(kept) ==> kept@ == text@,
        shown(value) == text@,
{
    if text.as_str().is_empty() {
        assert(text@ =~= Seq::empty());
        None
    } else {
        Some(text)
    }
}

/// The questions that read a list of texts off `handle`, item by item, with
/// the answers `items`.
pub open spec fn list_exchanges(
    which: TextAt,
    handle: RawHandle,
    items: Seq<Seq<char>>,
) -> Seq<Exchange> {
    Seq::new(
        items.len(),
        |i: int| Exchange::TextAt { which, handle, index: i as usize, answer: items[i] },
    )
}

/// Reads a list of texts off a held handle: asks for the count, then for each
/// item in turn.
pub(crate) fn read_list<E: Engine>(
    runtime: &mut Compiler<E>,
    count: Number,
    item: TextAt,
    handle: RawHandle,
) -> (list: Vec<String>)
    requires
        old(runtime).wf(),
        old(runtime).has(handle),
    ensures
        final(runtime).wf(),
        final(runtime).ledger() == old(runtime).ledger(),
        final(runtime).log() == old(runtime).log().push(
            Exchange::Number { which: count, handle, answer: list.len() },
        ) + list_exchanges(item, handle, texts(list@)),
{
    let ghost before = runtime.log();
    let length: usize = runtime.number(count, handle);
    let ghost counted = runtime.log();
    let mut list: Vec<String> = Vec::new();
    let mut index: usize = 0;
    assert(runtime.log() =~= counted + list_exchanges(item, handle, texts(list@)));
    while index < length
        invariant
            index <= length,
            list@.len() == index,
            runtime.wf(),
            runtime.has(handle),
            runtime.ledger() == old(runtime).ledger(),
            counted == before.push(Exchange::Number { which: count, handle, answer: length }),
            runtime.log() == counted + list_exchanges(item, handle, texts(list@)),
        decreases length - index,
    {
        let ghost so_far = list@;
        let text = runtime.text_at(item, handle, index);
        list.push(text);
        proof {
            assert(texts(list@) =~= texts(so_far).push(text@));
            assert(list_exchanges(item, handle, texts(list@)) =~= list_exchanges(
                item,
                handle,
                texts(so_far),
            ).push(Exchange::TextAt { which: item, handle, index, answer: text@ }));
            assert(runtime.log() =~= counted + list_exchanges(item, handle, texts(list@)));
        }
        index += 1;
    }
    list
}

} // verus!
