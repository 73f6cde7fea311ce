//! The model of a runtime's conversation with its engine, and the discipline
//! that the binding layer keeps in it.
//!
//! A runtime's *log* is the sequence of calls it has made into its engine, each
//! with the answer it got. Everything the contracts of this crate say about
//! the engine is said over that log: which call a function makes, in which
//! order, and what it returns for each possible answer.
//!
//! Some answers put a handle under a release obligation (it is *issued*); the
//! call that frees a handle *releases* it. The *ledger* of a runtime holds the
//! handles that its engine issued and that were not released since; a handle
//! in it is *held*, by that runtime and by no other. The
//! discipline is that every call which names a handle is made while that
//! handle is held. The laws at the end of this file follow from it: no handle
//! is released twice, the sentinel is never released, and no handle is used
//! after its release.

use vstd::multiset::Multiset;
use vstd::prelude::*;
use crate::engine::{Child, ChildAt, Flag, FlagAt, Number, Text, TextAt};
use crate::raw::RawHandle;

verus! {

/// One call into the engine together with its answer.
#[allow(inconsistent_fields)]
pub enum Exchange {
    /// A handle was freed.
    Free { handle: RawHandle },
    /// A component was parsed.
    Parse { source: Seq<char>, filename: Seq<char>, result: RawHandle },
    /// The scripts of a descriptor were compiled.
    CompileScript { descriptor: RawHandle, id: Seq<char>, is_prod: bool, result: RawHandle },
    /// A template was compiled.
    CompileTemplate {
        source: Seq<char>,
        filename: Seq<char>,
        id: Seq<char>,
        scoped: bool,
        bindings: RawHandle,
        result: RawHandle,
    },
    /// A style block was compiled.
    CompileStyle {
        source: Seq<char>,
        filename: Seq<char>,
        id: Seq<char>,
        scoped: bool,
        result: RawHandle,
    },
    /// A script result lent its bindings.
    Bindings { script_result: RawHandle, result: RawHandle },
    /// A yes/no question was answered.
    Flag { which: Flag, handle: RawHandle, answer: bool },
    /// A yes/no question about a list element was answered.
    FlagAt { which: FlagAt, handle: RawHandle, index: usize, answer: bool },
    /// A question was answered with a number.
    Number { which: Number, handle: RawHandle, answer: usize },
    /// A question was answered with text.
    Text { which: Text, handle: RawHandle, answer: Seq<char> },
    /// A question about a list element was answered with text.
    TextAt { which: TextAt, handle: RawHandle, index: usize, answer: Seq<char> },
    /// An object that belongs to another one was handed out.
    Child { which: Child, handle: RawHandle, result: RawHandle },
    /// One element of a list of objects was handed out.
    ChildAt { which: ChildAt, handle: RawHandle, index: usize, result: RawHandle },
}

impl Exchange {
    /// The handle that this exchange handed to the binding layer for keeps:
    /// the answer of a call that creates or hands out an object, unless it is
    /// the sentinel. Lent bindings are not issued.
    pub open spec fn issued(self) -> Option<RawHandle> {
        match self {
            Exchange::Parse { result, .. }
            | Exchange::CompileScript { result, .. }
            | Exchange::CompileTemplate { result, .. }
            | Exchange::CompileStyle { result, .. }
            | Exchange::Child { result, .. }
            | Exchange::ChildAt { result, .. } => if result.0 != 0 {
                Some(result)
            } else {
                None
            },
            _ => None,
        }
    }

    /// The handle that this exchange gave back to the engine.
    pub open spec fn released(self) -> Option<RawHandle> {
        match self {
            Exchange::Free { handle } => Some(handle),
            _ => None,
        }
    }

    /// The handle that the call reads or frees, and which must therefore be
    /// held when the call is made.
    pub open spec fn subject(self) -> Option<RawHandle> {
        match self {
            Exchange::Free { handle }
            | Exchange::Flag { handle, .. }
            | Exchange::FlagAt { handle, .. }
            | Exchange::Number { handle, .. }
            | Exchange::Text { handle, .. }
            | Exchange::TextAt { handle, .. }
            | Exchange::Child { handle, .. }
            | Exchange::ChildAt { handle, .. } => Some(handle),
            Exchange::CompileScript { descriptor, .. } => Some(descriptor),
            Exchange::Bindings { script_result, .. } => Some(script_result),
            Exchange::Parse { .. }
            | Exchange::CompileTemplate { .. }
            | Exchange::CompileStyle { .. } => None,
        }
    }
}

/// A handle as a view owns it: the number, and the runtime that issued it.
/// Two runtimes may issue the same number; the handles are different all
/// the same.
pub struct Held {
    /// The name of the runtime that issued the handle.
    pub runtime: int,
    /// The number that the engine gave.
    pub handle: RawHandle,
}

/// What a runtime holds: its name, and the handles that its engine issued
/// and that have not been released since, each as often as it is held.
#[verifier::ext_equal]
pub struct Ledger {
    /// The name of the runtime.
    pub owner: int,
    /// The handles that are held, by number.
    pub held: Multiset<RawHandle>,
}

impl Ledger {
    /// Whether the number `handle` is held.
    pub open spec fn has(self, handle: RawHandle) -> bool {
        self.held.count(handle) > 0
    }

    /// Whether `view` is held: it was issued by this runtime, and its number
    /// is held.
    pub open spec fn holds(self, view: Held) -> bool {
        view.runtime == self.owner && self.has(view.handle)
    }

    /// Whether nothing is held.
    pub open spec fn is_empty(self) -> bool {
        self.held == Multiset::<RawHandle>::empty()
    }

    /// The ledger with `handle` held once less.
    pub open spec fn remove(self, handle: RawHandle) -> Ledger {
        Ledger { owner: self.owner, held: self.held.remove(handle) }
    }

    /// The ledger with each of `handles` held once more for each time it
    /// occurs.
    pub open spec fn add(self, handles: Multiset<RawHandle>) -> Ledger {
        Ledger { owner: self.owner, held: self.held.add(handles) }
    }
}

/// The ledger with `handle` held once more, unless `handle` is the sentinel.
pub open spec fn gained(ledger: Ledger, handle: RawHandle) -> Ledger {
    if handle.0 != 0 {
        Ledger { owner: ledger.owner, held: ledger.held.insert(handle) }
    } else {
        ledger
    }
}

/// The ledger after one more exchange: a handle that is released goes out,
/// and a handle that is issued comes in.
pub open spec fn entered(ledger: Multiset<RawHandle>, exchange: Exchange) -> Multiset<RawHandle> {
    match exchange.released() {
        Some(handle) => ledger.remove(handle),
        None => match exchange.issued() {
            Some(handle) => ledger.insert(handle),
            None => ledger,
        },
    }
}

/// The handles that are held after `log`, by number, each as often as it is
/// held.
pub open spec fn ledger(log: Seq<Exchange>) -> Multiset<RawHandle>
    decreases log.len(),
{
    if log.len() == 0 {
        Multiset::empty()
    } else {
        entered(ledger(log.drop_last()), log.last())
    }
}

/// Whether `handle` is held after `log`: issued, and not released since.
pub open spec fn held(log: Seq<Exchange>, handle: RawHandle) -> bool {
    ledger(log).count(handle) > 0
}

/// Whether `bindings` is a handle that a held script result has lent in the
/// last exchange of `log`.
pub open spec fn lent(log: Seq<Exchange>, bindings: RawHandle) -> bool {
    &&& log.len() > 0
    &&& log.last() matches Exchange::Bindings { script_result, result }
    &&& result == bindings
    &&& held(log, script_result)
}

/// Whether the discipline allows `next` to follow `log`: the handle it names
/// is held, and bindings passed to the template compiler are the sentinel or
/// were lent just before.
pub open spec fn permitted(log: Seq<Exchange>, next: Exchange) -> bool {
    &&& next.subject() matches Some(handle) ==> held(log, handle)
    &&& next matches Exchange::CompileTemplate { bindings, .. } ==> bindings.0 == 0 || lent(
        log,
        bindings,
    )
}

/// Whether every exchange of `log` was permitted when it was made.
pub open spec fn disciplined(log: Seq<Exchange>) -> bool
    decreases log.len(),
{
    log.len() > 0 ==> disciplined(log.drop_last()) && permitted(log.drop_last(), log.last())
}

/// How often `handle` was issued in `log`.
pub open spec fn issue_count(log: Seq<Exchange>, handle: RawHandle) -> nat
    decreases log.len(),
{
    if log.len() == 0 {
        0
    } else {
        issue_count(log.drop_last(), handle) + if log.last().issued() == Some(handle) {
            1nat
        } else {
            0nat
        }
    }
}

/// How often `handle` was released in `log`.
pub open spec fn release_count(log: Seq<Exchange>, handle: RawHandle) -> nat
    decreases log.len(),
{
    if log.len() == 0 {
        0
    } else {
        release_count(log.drop_last(), handle) + if log.last().released() == Some(handle) {
            1nat
        } else {
            0nat
        }
    }
}

/// Whether `after` is `before` and one question more: the number `which` of
/// `handle`, answered with `answer`.
pub open spec fn number_asked(
    before: Seq<Exchange>,
    after: Seq<Exchange>,
    which: Number,
    handle: RawHandle,
    answer: usize,
) -> bool {
    after == before.push(Exchange::Number { which, handle, answer })
}

/// What one more exchange does to the ledger and to the discipline.
pub proof fn lemma_push(log: Seq<Exchange>, next: Exchange)
    ensures
        ledger(log.push(next)) == entered(ledger(log), next),
        disciplined(log.push(next)) == (disciplined(log) && permitted(log, next)),
{
    assert(log.push(next).drop_last() =~= log);
    assert(log.push(next).last() == next);
}

/// A prefix of a disciplined log is disciplined.
pub proof fn lemma_prefix_disciplined(log: Seq<Exchange>, n: int)
    requires
        disciplined(log),
        0 <= n <= log.len(),
    ensures
        disciplined(log.take(n)),
    decreases log.len(),
{
    if n < log.len() {
        lemma_prefix_disciplined(log.drop_last(), n);
        assert(log.drop_last().take(n) =~= log.take(n));
    } else {
        assert(log.take(n) =~= log);
    }
}

/// In a disciplined log the ledger holds each handle as often as it was
/// issued and not released: the releases never outnumber the issues.
pub proof fn lemma_ledger_counts(log: Seq<Exchange>, handle: RawHandle)
    requires
        disciplined(log),
    ensures
        ledger(log).count(handle) == issue_count(log, handle) - release_count(log, handle),
    decreases log.len(),
{
    if log.len() > 0 {
        lemma_ledger_counts(log.drop_last(), handle);
        if log.last().released() is Some {
            lemma_ledger_counts(log.drop_last(), log.last().released()->Some_0);
        }
    }
}

/// The sentinel is never issued.
pub proof fn lemma_sentinel_never_issued(log: Seq<Exchange>)
    ensures
        issue_count(log, RawHandle(0)) == 0,
    decreases log.len(),
{
    if log.len() > 0 {
        lemma_sentinel_never_issued(log.drop_last());
    }
}

/// No double release: at every point of a disciplined conversation, each
/// handle has been released at most as often as the engine issued it. A
/// handle that was issued once is released at most once.
pub proof fn law_no_double_release(log: Seq<Exchange>, n: int, handle: RawHandle)
    requires
        disciplined(log),
        0 <= n <= log.len(),
    ensures
        release_count(log.take(n), handle) <= issue_count(log.take(n), handle),
{
    lemma_prefix_disciplined(log, n);
    lemma_ledger_counts(log.take(n), handle);
}

/// A release is made only for a handle that is held: once all issues of a
/// handle have been released, the discipline permits no further release of
/// it until the engine issues it again.
pub proof fn law_release_needs_issue(log: Seq<Exchange>, handle: RawHandle)
    requires
        disciplined(log),
        release_count(log, handle) == issue_count(log, handle),
    ensures
        !permitted(log, Exchange::Free { handle }),
        !disciplined(log.push(Exchange::Free { handle })),
{
    lemma_ledger_counts(log, handle);
    lemma_push(log, Exchange::Free { handle });
}

/// Released exactly once: when the ledger is empty, as it must be when a
/// runtime is torn down, every handle has been released exactly as often as
/// it was issued. None was leaked and none was released too often.
pub proof fn law_empty_ledger_means_all_released(log: Seq<Exchange>, handle: RawHandle)
    requires
        disciplined(log),
        ledger(log) == Multiset::<RawHandle>::empty(),
    ensures
        release_count(log, handle) == issue_count(log, handle),
{
    lemma_ledger_counts(log, handle);
}

/// A view belongs to one runtime: what one runtime holds, no runtime of
/// another name holds, whatever numbers that one holds. A release or a
/// question for a view can therefore go to the runtime that issued it only,
/// and the teardown of one runtime takes nothing from another.
pub proof fn law_held_by_one_runtime(one: Ledger, other: Ledger, view: Held)
    requires
        one.owner != other.owner,
        one.holds(view),
    ensures
        !other.holds(view),
{
}

/// The sentinel is never released: a disciplined conversation holds no call
/// that frees it.
pub proof fn law_sentinel_never_released(log: Seq<Exchange>, i: int)
    requires
        disciplined(log),
        0 <= i < log.len(),
    ensures
        log[i].released() != Some(RawHandle(0)),
        release_count(log, RawHandle(0)) == 0,
{
    lemma_sentinel_never_issued(log);
    lemma_ledger_counts(log, RawHandle(0));
    lemma_sentinel_never_issued(log.take(i));
    lemma_prefix_disciplined(log, i);
    lemma_ledger_counts(log.take(i), RawHandle(0));
    lemma_prefix_disciplined(log, i + 1);
    assert(log.take(i + 1).drop_last() =~= log.take(i));
    assert(log.take(i + 1).last() == log[i]);
}

/// Lifetime containment: every call that names a handle is made while the
/// handle is held, that is, after it was issued and before the release that
/// answers that issue.
pub proof fn law_no_use_after_release(log: Seq<Exchange>, i: int, handle: RawHandle)
    requires
        disciplined(log),
        0 <= i < log.len(),
        log[i].subject() == Some(handle),
    ensures
        handle.0 != 0,
        release_count(log.take(i), handle) < issue_count(log.take(i), handle),
{
    lemma_prefix_disciplined(log, i + 1);
    assert(log.take(i + 1).drop_last() =~= log.take(i));
    assert(log.take(i + 1).last() == log[i]);
    lemma_prefix_disciplined(log, i);
    lemma_ledger_counts(log.take(i), handle);
    lemma_sentinel_never_issued(log.take(i));
}

/// Lent bindings do not outlive their owner: bindings that reach the template
/// compiler are the sentinel, or were lent by the call just before, by a
/// script result that is still held.
pub proof fn law_bindings_outlived_by_owner(log: Seq<Exchange>, i: int)
    requires
        disciplined(log),
        0 <= i < log.len(),
        log[i] is CompileTemplate,
    ensures
        log[i]->CompileTemplate_bindings.0 != 0 ==> {
            &&& i > 0
            &&& log[i - 1] matches Exchange::Bindings { script_result, result }
            &&& result == log[i]->CompileTemplate_bindings
            &&& release_count(log.take(i), script_result) < issue_count(
                log.take(i),
                script_result,
            )
        },
{
    lemma_prefix_disciplined(log, i + 1);
    assert(log.take(i + 1).drop_last() =~= log.take(i));
    assert(log.take(i + 1).last() == log[i]);
    lemma_prefix_disciplined(log, i);
    if i > 0 {
        assert(log.take(i).last() == log[i - 1]);
        if log[i]->CompileTemplate_bindings.0 != 0 {
            lemma_ledger_counts(log.take(i), log[i - 1]->Bindings_script_result);
        }
    }
}

} // verus!
