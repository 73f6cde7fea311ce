//! The foreign function surface: every entry point the engine exposes.
//!
//! The engine is a single-threaded execution environment that hosts the
//! compiler. It hands out objects as raw handles and answers questions about
//! them. Nothing here is logic: the trait lists the entry points, grouped by
//! the shape of their arguments and of their answer, and the enums name the
//! individual questions.
//!
//! Text crosses this boundary by value: an answer is copied out of the engine
//! before it is returned, so no string can outlive the handle it was read from.

use vstd::prelude::*;
use crate::raw::RawHandle;

verus! {

/// A yes/no question about one object.
#[derive(Debug, Clone, Copy, PartialEq, Eq, Hash, Structural)]
pub enum Flag {
    /// Descriptor: is there a template block?
    HasTemplate,
    /// Descriptor: is there a plain script block?
    HasScript,
    /// Descriptor: is there a setup script block?
    HasScriptSetup,
    /// Descriptor: do the scoped styles use the slotted selector?
    Slotted,
    /// Script block: does it carry the setup attribute?
    ScriptHasSetup,
    /// Style block: is it scoped?
    StyleIsScoped,
    /// Style block: does it use CSS modules?
    StyleHasModule,
    /// Import binding: is the import type-only?
    ImportIsType,
    /// Import binding: was the import site inside the setup block?
    ImportIsFromSetup,
}

/// A yes/no question about one element of a list that an object holds.
#[derive(Debug, Clone, Copy, PartialEq, Eq, Hash, Structural)]
pub enum FlagAt {
    /// Block: is the attribute at this index a bare flag, without a value?
    AttrIsBool,
}

/// A question about one object that is answered with a number.
#[derive(Debug, Clone, Copy, PartialEq, Eq, Hash, Structural)]
pub enum Number {
    /// Parse result: how many parse errors were reported.
    ParseErrorCount,
    /// Template result: how many compile errors were reported.
    TemplateErrorCount,
    /// Descriptor: how many style blocks.
    StyleCount,
    /// Descriptor: how many custom blocks.
    CustomBlockCount,
    /// Descriptor: how many CSS variables.
    CssVarCount,
    /// Block: how many attributes.
    AttrCount,
    /// Script block: how many variable bindings.
    BindingCount,
    /// Script block: how many imports.
    ImportCount,
    /// Script block: how many warnings.
    WarningCount,
    /// Script block: how many dependencies.
    DepCount,
    /// Block: byte offset at which it starts.
    LocStartOffset,
    /// Block: line on which it starts.
    LocStartLine,
    /// Block: column at which it starts.
    LocStartColumn,
    /// Block: byte offset at which it ends.
    LocEndOffset,
    /// Block: line on which it ends.
    LocEndLine,
    /// Block: column at which it ends.
    LocEndColumn,
}

/// A question about one object that is answered with text.
#[derive(Debug, Clone, Copy, PartialEq, Eq, Hash, Structural)]
pub enum Text {
    /// Descriptor: the component's whole source.
    Source,
    /// Descriptor: the file name given to the parser.
    Filename,
    /// Block: its content.
    BlockContent,
    /// Block: its `lang` attribute; empty when there is none.
    BlockLang,
    /// Block: its `src` attribute; empty when there is none.
    BlockSrc,
    /// Custom block: its tag name.
    CustomBlockType,
    /// Script block: the value of `setup`; empty when it has none.
    ScriptSetupValue,
    /// Style block: the value of `module`; empty when it has none.
    StyleModuleValue,
    /// Import binding: the imported symbol's name.
    ImportImported,
    /// Import binding: the module imported from.
    ImportSource,
    /// Script result: the compiled script.
    ScriptContent,
    /// Template result: the compiled render function.
    TemplateCode,
    /// Style result: the compiled CSS.
    StyleCode,
}

/// A question about one element of a list, answered with text.
#[derive(Debug, Clone, Copy, PartialEq, Eq, Hash, Structural)]
pub enum TextAt {
    /// Parse result: the message of one parse error.
    ParseErrorMessage,
    /// Descriptor: one CSS variable.
    CssVar,
    /// Block: the name of one attribute.
    AttrKey,
    /// Block: the value of one attribute.
    AttrValue,
    /// Script block: the name of one bound variable.
    BindingKey,
    /// Script block: the binding type of one bound variable.
    BindingValue,
    /// Script block: the local name of one import.
    ImportKey,
    /// Script block: one warning.
    Warning,
    /// Script block: one dependency.
    Dep,
}

/// A request for an object that belongs to another one. The answer is a fresh
/// handle that the caller must release, or the sentinel when there is no such
/// object.
#[derive(Debug, Clone, Copy, PartialEq, Eq, Hash, Structural)]
pub enum Child {
    /// Parse result: its descriptor.
    Descriptor,
    /// Descriptor: its template block.
    Template,
    /// Descriptor: its plain script block.
    Script,
    /// Descriptor: its setup script block.
    ScriptSetup,
}

/// A request for one element of a list of objects. The answer is a fresh
/// handle that the caller must release, or the sentinel.
#[derive(Debug, Clone, Copy, PartialEq, Eq, Hash, Structural)]
pub enum ChildAt {
    /// Descriptor: one style block.
    Style,
    /// Descriptor: one custom block.
    CustomBlock,
    /// Script block: the metadata of one import.
    ImportBinding,
}

/// One instance of the engine.
///
/// Every method is one entry point. None of them promises anything about its
/// answer: whatever the binding layer does with an answer is verified for
/// every value of it.
///
/// What an entry point demands of its caller is said in words here. The
/// binding layer meets these demands by the discipline of its log: it makes
/// a call that names a handle only while it holds that handle.
///
/// - A handle that is passed in was issued by this instance and has not been
///   freed since. Handles of another instance must never be passed.
/// - Text that is passed in is valid for the duration of the call only.
///
/// An index need not be in range: the engine answers an index beyond the
/// list with the empty string, or with the sentinel.
///
/// An instance keeps mutable state of its own (a heap, the handle table) and
/// is not made for concurrent access. It may be moved to another thread
/// between calls; it must never be called from two threads at once. Every
/// method takes the instance exclusively, so two calls cannot overlap. To
/// compile in parallel, create one instance per thread.
pub trait Engine: Sized {
    /// Starts an engine and loads the compiler into it. `None` when the engine
    /// could not be initialised.
    fn create() -> Option<Self>;

    /// Shuts the engine down and releases all its resources. Every handle it
    /// ever issued dangles afterwards.
    fn destroy(self);

    /// Removes an object from the handle table. The handle, and every string
    /// that was read from it, is invalid afterwards. Must not be called twice
    /// for the same live handle.
    fn free_handle(&mut self, handle: RawHandle);

    /// Parses a component. The answer is a parse result, also when the source
    /// is malformed: the errors are read from the result. The caller frees
    /// the answer.
    fn parse(&mut self, source: &str, filename: &str) -> RawHandle;

    /// Compiles the script blocks of a descriptor. The answer is a script
    /// result, which the caller frees.
    fn compile_script(&mut self, descriptor: RawHandle, id: &str, is_prod: bool) -> RawHandle;

    /// Compiles a template. `bindings` is a bindings handle whose script
    /// result has not been freed, or the sentinel for "no optimisation
    /// hints". The answer is a template result, which the caller frees.
    fn compile_template(
        &mut self,
        source: &str,
        filename: &str,
        id: &str,
        scoped: bool,
        bindings: RawHandle,
    ) -> RawHandle;

    /// Compiles a style block. The answer is a style result, which the caller
    /// frees.
    fn compile_style(&mut self, source: &str, filename: &str, id: &str, scoped: bool) -> RawHandle;

    /// The bindings of a script result. The answer is lent, not given: it
    /// stays valid as long as the script result does, and is never freed on
    /// its own. It is the sentinel where there are no bindings.
    fn bindings(&mut self, script_result: RawHandle) -> RawHandle;

    /// Answers a yes/no question about an object.
    fn flag(&mut self, which: Flag, handle: RawHandle) -> bool;

    /// Answers a yes/no question about a list element.
    fn flag_at(&mut self, which: FlagAt, handle: RawHandle, index: usize) -> bool;

    /// Answers a question with a number.
    fn number(&mut self, which: Number, handle: RawHandle) -> usize;

    /// Answers a question with text. The empty string stands for "no such
    /// value".
    fn text(&mut self, which: Text, handle: RawHandle) -> String;

    /// Answers a question about a list element with text.
    fn text_at(&mut self, which: TextAt, handle: RawHandle, index: usize) -> String;

    /// Hands out an object that belongs to `handle`: a fresh handle, which
    /// the caller frees, or the sentinel where there is no such object.
    fn child(&mut self, which: Child, handle: RawHandle) -> RawHandle;

    /// Hands out one element of a list of objects that belongs to `handle`:
    /// a fresh handle, which the caller frees, or the sentinel.
    fn child_at(&mut self, which: ChildAt, handle: RawHandle, index: usize) -> RawHandle;
}

} // verus!
