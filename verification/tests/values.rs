//! The plain values of the library, and one-shot template compilation.

use libvue_compiler_sfc::template::{
    batch_request, batch_result, compile_batch, compile_template, decimal_text, find_nul,
    template_result, CompileError, TemplateCompiler, TemplateEngine,
};
use libvue_compiler_sfc::util::absent_if_empty;
use libvue_compiler_sfc::{
    AttrValue, Error, ErrorKind, ImportBinding, Position, RawHandle, SourceLocation, StringMap,
};

#[test]
fn zero_is_the_invalid_handle() {
    assert!(!RawHandle(0).is_valid());
    assert!(!RawHandle::invalid().is_valid());
    assert!(!RawHandle::default().is_valid());
    assert_eq!(RawHandle::invalid(), RawHandle(0));
    assert_eq!(RawHandle::default(), RawHandle(0));
}

#[test]
fn every_other_handle_is_valid() {
    assert!(RawHandle(1).is_valid());
    assert!(RawHandle(42).is_valid());
    assert!(RawHandle(u64::MAX).is_valid());
}

#[test]
fn handles_convert_to_and_from_numbers() {
    assert_eq!(RawHandle::from(7), RawHandle(7));
    assert_eq!(u64::from(RawHandle(7)), 7);
    assert_eq!(u64::from(RawHandle::from(u64::MAX)), u64::MAX);
    let copy = RawHandle(3);
    assert_eq!(copy, copy.clone());
    assert_ne!(RawHandle(3), RawHandle(4));
}

#[test]
fn an_error_has_a_kind_and_a_message() {
    let error = Error::new(ErrorKind::InvalidHandle, "Parse returned invalid handle");
    assert_eq!(error.kind(), ErrorKind::InvalidHandle);
    assert_eq!(error.message(), "Parse returned invalid handle");
    assert_eq!(error.to_string(), "Parse returned invalid handle");
    let other = Error::new(ErrorKind::EngineInitFailed, "");
    assert_eq!(other.kind(), ErrorKind::EngineInitFailed);
    assert_eq!(other.message(), "");
}

#[test]
fn the_empty_string_stands_for_absent() {
    assert_eq!(absent_if_empty(String::new()), None);
    assert_eq!(absent_if_empty("ts".to_string()), Some("ts".to_string()));
    assert_eq!(absent_if_empty(" ".to_string()), Some(" ".to_string()));
}

#[test]
fn a_new_map_is_empty() {
    let map: StringMap<String> = StringMap::new();
    assert!(map.is_empty());
    assert_eq!(map.len(), 0);
    assert_eq!(map.get("lang"), None);
    assert!(!map.contains_key("lang"));
    assert!(map.into_entries().is_empty());
}

#[test]
fn a_map_keeps_the_last_value_of_a_name() {
    let mut map: StringMap<AttrValue> = StringMap::new();
    map.insert("lang".to_string(), AttrValue::String("ts".to_string()));
    map.insert("scoped".to_string(), AttrValue::Bool(true));
    map.insert("lang".to_string(), AttrValue::String("tsx".to_string()));

    assert_eq!(map.len(), 2);
    assert!(!map.is_empty());
    assert_eq!(map.get("lang"), Some(&AttrValue::String("tsx".to_string())));
    assert_eq!(map.get("scoped"), Some(&AttrValue::Bool(true)));
    assert_eq!(map.get("Lang"), None);
    assert!(map.contains_key("scoped"));
    let mut entries = map.into_entries();
    entries.sort_by(|a, b| a.0.cmp(&b.0));
    assert_eq!(
        entries,
        vec![
            ("lang".to_string(), AttrValue::String("tsx".to_string())),
            ("scoped".to_string(), AttrValue::Bool(true)),
        ]
    );
}

#[test]
fn a_map_holds_the_empty_name() {
    let mut map: StringMap<String> = StringMap::new();
    map.insert(String::new(), "nameless".to_string());
    assert_eq!(map.len(), 1);
    assert_eq!(map.get(""), Some(&"nameless".to_string()));
}

#[test]
fn plain_values_compare_by_their_fields() {
    let start = Position { offset: 10, line: 1, column: 11 };
    let end = Position { offset: 36, line: 3, column: 1 };
    assert_eq!(SourceLocation { start, end }, SourceLocation { start, end });
    assert_ne!(start, end);
    assert_ne!(AttrValue::Bool(true), AttrValue::String("true".to_string()));
    let binding = ImportBinding {
        is_type: false,
        imported: "ref".to_string(),
        source: "vue".to_string(),
        is_from_setup: true,
    };
    let copy = binding.clone();
    assert_eq!(copy.imported, "ref");
    assert_eq!(copy.source, "vue");
    assert!(!copy.is_type);
    assert!(copy.is_from_setup);
}

#[test]
fn numbers_are_written_in_decimal() {
    assert_eq!(decimal_text(0), "0");
    assert_eq!(decimal_text(9), "9");
    assert_eq!(decimal_text(10), "10");
    assert_eq!(decimal_text(407), "407");
    assert_eq!(decimal_text(1_234_567_890), "1234567890");
    assert_eq!(decimal_text(usize::MAX), usize::MAX.to_string());
}

#[test]
fn the_first_nul_is_found() {
    assert_eq!(find_nul(""), None);
    assert_eq!(find_nul("<div/>"), None);
    assert_eq!(find_nul("\0"), Some(0));
    assert_eq!(find_nul("ab\0cd\0"), Some(2));
    assert_eq!(find_nul("é\0"), Some(2));
}

/// An engine that answers from a closure, and counts its calls.
struct Scripted<F: FnMut(&str) -> Option<String>> {
    answer: F,
    calls: usize,
}

impl<F: FnMut(&str) -> Option<String>> TemplateEngine for Scripted<F> {
    fn compile_template(&mut self, template: &str) -> Option<String> {
        self.calls += 1;
        (self.answer)(template)
    }

    fn compile_batch(&mut self, templates_json: &str) -> Option<String> {
        self.calls += 1;
        (self.answer)(templates_json)
    }
}

fn message(error: CompileError) -> String {
    error.0
}

/// A compiler around an engine that answers from `answer`.
fn scripted<F: FnMut(&str) -> Option<String>>(answer: F) -> TemplateCompiler<Scripted<F>> {
    TemplateCompiler::new(Scripted { answer, calls: 0 })
}

#[test]
fn a_template_is_compiled_to_code() {
    let mut compiler = scripted(|t: &str| Some(format!("render({})", t)));
    let code = compile_template(&mut compiler, "<div/>").expect("code");
    assert_eq!(code, "render(<div/>)");
    let again = compile_template(&mut compiler, "<p/>").expect("code");
    assert_eq!(again, "render(<p/>)");
    assert_eq!(compiler.into_engine().calls, 2);
}

#[test]
fn a_template_with_a_nul_is_refused() {
    let mut compiler = scripted(|_: &str| Some(String::new()));
    let error = compile_template(&mut compiler, "<div>\0</div>").expect_err("an error");
    assert_eq!(
        message(error),
        "Invalid template string: nul byte found in provided data at position: 5"
    );
    let error = compile_template(&mut compiler, "\0").expect_err("an error");
    assert_eq!(
        message(error),
        "Invalid template string: nul byte found in provided data at position: 0"
    );
    assert_eq!(compiler.into_engine().calls, 0);
}

#[test]
fn no_answer_to_a_template_is_an_error() {
    let mut compiler = scripted(|_: &str| None);
    let error = compile_template(&mut compiler, "<div/>").expect_err("an error");
    assert_eq!(error.to_string(), "Compilation returned null");
    assert_eq!(message(error), "Compilation returned null");
}

#[test]
fn the_error_of_the_compiler_is_handed_on() {
    let mut compiler = scripted(|_: &str| Some("ERROR: Invalid end tag.".to_string()));
    let error = compile_template(&mut compiler, "</div>").expect_err("an error");
    assert_eq!(message(error), "Invalid end tag.");
}

#[test]
fn a_marked_answer_is_the_error_of_the_compiler() {
    let error = template_result(Some("ERROR: Element is missing end tag.".to_string()))
        .expect_err("an error");
    assert_eq!(message(error), "Element is missing end tag.");
    let empty = template_result(Some("ERROR: ".to_string())).expect_err("an error");
    assert_eq!(message(empty), "");
    let unicode = template_result(Some("ERROR: é".to_string())).expect_err("an error");
    assert_eq!(message(unicode), "é");
}

#[test]
fn an_unmarked_answer_is_code() {
    assert_eq!(template_result(Some("ERROR:".to_string())).expect("code"), "ERROR:");
    assert_eq!(template_result(Some("error: x".to_string())).expect("code"), "error: x");
    assert_eq!(template_result(Some(" ERROR: x".to_string())).expect("code"), " ERROR: x");
    assert_eq!(template_result(Some(String::new())).expect("code"), "");
    assert_eq!(message(template_result(None).expect_err("an error")), "Compilation returned null");
}

#[test]
fn a_batch_is_sent_as_a_json_array() {
    assert_eq!(batch_request(&[]).expect("a request"), "[]");
    assert_eq!(batch_request(&["<div/>"]).expect("a request"), "[\"<div/>\"]");
    assert_eq!(
        batch_request(&["a \"b\"", "c\nd", "\0"]).expect("a request"),
        "[\"a \\\"b\\\"\",\"c\\nd\",\"\\u0000\"]"
    );
}

#[test]
fn the_results_of_a_batch_are_read_from_a_json_array() {
    let results =
        batch_result(Some("[\"render1\", \"render \\\"2\\\"\"]".to_string())).expect("results");
    assert_eq!(results, vec!["render1".to_string(), "render \"2\"".to_string()]);
    assert_eq!(batch_result(Some("[]".to_string())).expect("results"), Vec::<String>::new());
}

#[test]
fn an_answer_that_is_no_list_of_strings_is_an_error() {
    let error = batch_result(Some("{\"a\": 1}".to_string())).expect_err("an error");
    assert!(message(error).starts_with("Failed to parse results: "));
    let error = batch_result(Some("[1, 2]".to_string())).expect_err("an error");
    assert!(message(error).starts_with("Failed to parse results: "));
    let error = batch_result(Some("<div/>".to_string())).expect_err("an error");
    assert!(message(error).starts_with("Failed to parse results: "));
    let error = batch_result(None).expect_err("an error");
    assert_eq!(message(error), "Batch compilation returned null");
}

#[test]
fn a_batch_is_compiled_in_one_call() {
    let mut compiler = scripted(|json: &str| {
        let templates: Vec<String> = serde_json::from_str(json).expect("a list of templates");
        let compiled: Vec<String> = templates.iter().map(|t| format!("render({})", t)).collect();
        Some(serde_json::to_string(&compiled).expect("a json array"))
    });

    let results = compile_batch(&mut compiler, &["<a/>", "<b>\"</b>", "\0"]).expect("results");

    assert_eq!(
        results,
        vec![
            "render(<a/>)".to_string(),
            "render(<b>\"</b>)".to_string(),
            "render(\0)".to_string(),
        ]
    );
    assert_eq!(compiler.into_engine().calls, 1);
}

#[test]
fn a_batch_without_an_answer_is_an_error() {
    let mut compiler = scripted(|_: &str| None);
    let error = compile_batch(&mut compiler, &["<a/>"]).expect_err("an error");
    assert_eq!(message(error), "Batch compilation returned null");
    let mut compiler = scripted(|_: &str| Some("not json".to_string()));
    let error = compile_batch(&mut compiler, &["<a/>"]).expect_err("an error");
    assert!(message(error).starts_with("Failed to parse results: "));
}
