//! A runtime may be handed from one owner to the next; it answers the same.

use libvue_compiler_sfc::engine::{Child, ChildAt, Flag, FlagAt, Number, Text, TextAt};
use libvue_compiler_sfc::{Compiler, Engine, ParseOutput, RawHandle};

/// An engine whose every answer depends on all the calls made so far.
struct Counter {
    calls: u64,
    held: Vec<u64>,
}

impl Counter {
    fn tick(&mut self) -> u64 {
        self.calls += 1;
        self.calls
    }

    fn issue(&mut self) -> RawHandle {
        let handle = self.tick();
        self.held.push(handle);
        RawHandle(handle)
    }

    fn check(&self, handle: RawHandle) {
        assert!(self.held.contains(&handle.0), "handle {} is not held", handle.0);
    }
}

impl Engine for Counter {
    fn create() -> Option<Self> {
        Some(Counter { calls: 0, held: Vec::new() })
    }

    fn destroy(self) {
        assert!(self.held.is_empty(), "handles are still held");
    }

    fn free_handle(&mut self, handle: RawHandle) {
        self.check(handle);
        self.held.retain(|held| *held != handle.0);
        self.tick();
    }

    fn parse(&mut self, _source: &str, _filename: &str) -> RawHandle {
        self.issue()
    }

    fn compile_script(&mut self, descriptor: RawHandle, _id: &str, _is_prod: bool) -> RawHandle {
        self.check(descriptor);
        self.issue()
    }

    fn compile_template(
        &mut self,
        _source: &str,
        _filename: &str,
        _id: &str,
        _scoped: bool,
        _bindings: RawHandle,
    ) -> RawHandle {
        self.issue()
    }

    fn compile_style(&mut self, _source: &str, _filename: &str, _id: &str, _scoped: bool) -> RawHandle {
        self.issue()
    }

    fn bindings(&mut self, script_result: RawHandle) -> RawHandle {
        self.check(script_result);
        RawHandle(0)
    }

    fn flag(&mut self, _which: Flag, handle: RawHandle) -> bool {
        self.check(handle);
        self.tick() % 2 == 0
    }

    fn flag_at(&mut self, _which: FlagAt, handle: RawHandle, index: usize) -> bool {
        self.check(handle);
        (self.tick() + index as u64) % 2 == 0
    }

    fn number(&mut self, _which: Number, handle: RawHandle) -> usize {
        self.check(handle);
        (self.tick() % 3) as usize
    }

    fn text(&mut self, which: Text, handle: RawHandle) -> String {
        self.check(handle);
        format!("{:?} of {} at call {}", which, handle.0, self.tick())
    }

    fn text_at(&mut self, which: TextAt, handle: RawHandle, index: usize) -> String {
        self.check(handle);
        format!("{:?} {} of {} at call {}", which, index, handle.0, self.tick())
    }

    fn child(&mut self, _which: Child, handle: RawHandle) -> RawHandle {
        self.check(handle);
        self.issue()
    }

    fn child_at(&mut self, _which: ChildAt, handle: RawHandle, _index: usize) -> RawHandle {
        self.check(handle);
        self.issue()
    }
}

fn start() -> (Compiler<Counter>, ParseOutput, Vec<String>) {
    let mut compiler = Compiler::<Counter>::new().expect("Compiler should initialize");
    let result = compiler.parse("<template/>", "A.vue").expect("Parse should succeed");
    let seen = vec![format!("errors: {}", result.has_errors(&mut compiler))];
    (compiler, result, seen)
}

fn finish(mut compiler: Compiler<Counter>, result: ParseOutput, mut seen: Vec<String>) -> Vec<String> {
    seen.extend(result.errors(&mut compiler));
    if let Some(descriptor) = result.descriptor(&mut compiler) {
        seen.push(descriptor.filename(&mut compiler));
        seen.push(format!("scoped: {}", descriptor.has_scoped_style(&mut compiler)));
        for style in descriptor.styles(&mut compiler) {
            seen.push(style.content(&mut compiler));
            seen.push(format!("{:?}", style.loc(&mut compiler)));
            style.release(&mut compiler);
        }
        descriptor.release(&mut compiler);
    }
    result.release(&mut compiler);
    compiler.destroy();
    seen
}

/// Accepts only what may be handed to another thread.
fn movable<T: Send>(value: T) -> Box<T> {
    Box::new(value)
}

#[test]
fn a_runtime_and_its_views_may_be_handed_over() {
    let (compiler, result, seen) = start();
    let in_place = finish(compiler, result, seen);

    let (compiler, result, seen) = start();
    let compiler = movable(compiler);
    let result = movable(result);
    let moved = finish(*compiler, *result, seen);

    assert!(!in_place.is_empty());
    assert_eq!(moved, in_place);
}

#[test]
fn two_runtimes_work_side_by_side() {
    let (first, first_result, first_seen) = start();
    let (second, second_result, second_seen) = start();

    let second_outcome = finish(second, second_result, second_seen);
    let first_outcome = finish(first, first_result, first_seen);

    assert_eq!(first_outcome, second_outcome);
}
