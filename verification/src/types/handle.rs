//! The ownership wrapper: a handle that is known to name an object, and the
//! obligation to release it.

use vstd::prelude::*;
use crate::compiler::Compiler;
use crate::engine::Engine;
use crate::protocol::{Exchange, Held};
use crate::raw::RawHandle;

verus! {

/// A handle that is not the sentinel, owned by whoever holds this value.
///
/// The value cannot be copied, and [`Handle::release`] consumes it: one
/// wrapper makes at most one release call. The wrapper bears the name of the
/// runtime that issued the handle. The runtime is passed to every operation,
/// and must be that one: its ledger holds no handle of another runtime.
pub struct Handle {
    raw: u64,
    owner: Ghost<int>,
}

impl View for Handle {
    type V = Held;

    closed spec fn view(&self) -> Held {
        Held { runtime: self.owner@, handle: RawHandle(self.raw) }
    }
}

impl Handle {
    #[verifier::type_invariant]
    spec fn names_an_object(self) -> bool {
        self.raw != 0
    }

    /// Wraps a raw handle that the runtime `owner` issued. The sentinel is not
    /// wrapped: there is nothing to own, and nothing will be released.
    pub(crate) fn new(raw: RawHandle, owner: Ghost<int>) -> (wrapped: Option<Handle>)
        ensures
            wrapped is Some <==> raw.0 != 0,
            wrapped matches Some(handle) ==> handle@ == (Held { runtime: owner@, handle: raw }),
    {
        if raw.0 != 0 {
            Some(Handle { raw: raw.0, owner })
        } else {
            None
        }
    }

    /// The raw value, for calls into the engine.
    pub(crate) fn raw(&self) -> (raw: RawHandle)
        ensures
            raw == self@.handle,
            raw.0 != 0,
    {
        proof {
            use_type_invariant(self);
        }
        RawHandle(self.raw)
    }

    /// Gives the object back to the engine. This is the only release call
    /// that the wrapper makes, and the wrapper is gone afterwards.
    pub(crate) fn release<E: Engine>(self, runtime: &mut Compiler<E>)
        requires
            old(runtime).wf(),
            old(runtime).holds(self@),
        ensures
            final(runtime).wf(),
            final(runtime).log() == old(runtime).log().push(
                Exchange::Free { handle: self@.handle },
            ),
            final(runtime).ledger() == old(runtime).ledger().remove(self@.handle),
    {
        runtime.free(self.raw());
    }
}

} // verus!
