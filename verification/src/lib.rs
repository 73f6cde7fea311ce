//! Safe bindings to a single-file-component compiler that runs inside an
//! embedded, single-threaded engine.
//!
//! The engine exposes its objects as raw handles and answers questions about
//! them one call at a time. This crate is the layer between that surface and
//! a caller who wants typed results: it owns the engine, keeps track of every
//! handle the engine issues, turns the engine's answers into values, and
//! releases what it was issued.
//!
//! # Layout
//!
//! - [`engine`] lists the engine's entry points as a trait. The crate is
//!   generic over it; the trait promises nothing about an answer.
//! - [`compiler`] holds [`Compiler`], the owner of one engine instance. Every
//!   call into the engine goes through it.
//! - [`types`] holds the typed views ([`ParseOutput`], [`Descriptor`], the
//!   blocks, the compilation results) and the plain values they hand out.
//! - [`protocol`] is the model that the contracts are written in, and states
//!   the laws of the layer.
//! - [`template`] is a small interface of its own: one-shot compilation of
//!   templates, text in and text out.
//!
//! # What is proved
//!
//! A compiler instance records, as ghost state, every call it makes into its
//! engine together with the answer. The contract of each operation says by
//! how much that log grows, call by call, and what the operation returns for
//! the answers that are in the log. It holds for every engine: nothing is
//! assumed about what an engine answers.
//!
//! From the log follows the ledger of the handles that are held. Every
//! operation that names a handle requires the instance to hold it, and every
//! operation keeps the log disciplined: no call is ever made on a handle that
//! is not held. Hence no handle is released twice, none is used after its
//! release, and the sentinel is never released.
//!
//! # Ownership
//!
//! A view owns one handle. It cannot be copied, and `release` consumes it, so
//! a view makes at most one release call. Views do not borrow the compiler:
//! the compiler is passed to each operation, and must be the one that handed
//! the view out. A view bears the name of its compiler, and a compiler holds
//! no view of another: two compilers share nothing. Text is copied out of
//! the engine before it is returned, so no string depends on a handle. A
//! compiler is torn down with [`Compiler::destroy`], which consumes it, after
//! all its views were released.

pub mod compiler;
pub mod engine;
pub mod protocol;
pub mod raw;
pub mod template;
pub mod types;
pub mod util;

pub use compiler::Compiler;
pub use engine::Engine;
pub use raw::RawHandle;
pub use types::{
    AttrValue, CustomBlock, Descriptor, Error, ErrorKind, Handle, ImportBinding, ParseOutput,
    Position, Result, ScriptBlock, ScriptOutput, SourceLocation, StringMap, StyleBlock,
    StyleOutput, TemplateBlock, TemplateOutput,
};
