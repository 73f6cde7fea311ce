//! One-shot template compilation: text in, text out.
//!
//! This is the small interface to an engine that offers the template
//! compiler alone. No handles are involved: the engine takes a template, or a
//! batch of templates as a JSON array, and answers with text. A failure of
//! the compiler comes back as text too, behind the marker `ERROR: `.

use vstd::prelude::*;
use vstd::utf8::encode_utf8;
use crate::util::texts;

verus! {

/// An engine that compiles templates from text to text.
///
/// Neither method promises anything about its answer: what this module makes
/// of an answer is verified for every value of it. `None` stands for "the
/// engine gave nothing back".
pub trait TemplateEngine {
    /// Compiles one template. `template` holds no NUL.
    fn compile_template(&mut self, template: &str) -> Option<String>;

    /// Compiles a batch of templates, given as a JSON array of strings. The
    /// answer is a JSON array of the results. `templates_json` holds no NUL.
    fn compile_batch(&mut self, templates_json: &str) -> Option<String>;
}

/// One call into a template engine together with its answer.
pub enum TemplateExchange {
    /// One template was passed.
    Template { template: Seq<char>, reply: Option<Seq<char>> },
    /// A batch of templates was passed, as a JSON array.
    Batch { request: Seq<char>, reply: Option<Seq<char>> },
}

/// A template engine, and the record of every call made into it.
pub struct TemplateCompiler<E: TemplateEngine> {
    engine: E,
    log: Ghost<Seq<TemplateExchange>>,
}

impl<E: TemplateEngine> TemplateCompiler<E> {
    /// Every call made into the engine so far, with its answer, oldest first.
    pub closed spec fn log(&self) -> Seq<TemplateExchange> {
        self.log@
    }

    /// The engine that this compiler holds, as the calls so far have left it.
    pub closed spec fn engine(&self) -> E {
        self.engine
    }

    /// A compiler around `engine`, with no call made yet.
    pub fn new(engine: E) -> (compiler: Self)
        ensures
            compiler.log() == Seq::<TemplateExchange>::empty(),
            compiler.engine() == engine,
    {
        TemplateCompiler { engine, log: Ghost(Seq::empty()) }
    }

    /// Gives the engine back: the one that the compiler was made around, as
    /// the calls made through the compiler have left it. The record of the
    /// calls ends with the compiler.
    pub fn into_engine(self) -> (engine: E)
        ensures
            engine == self.engine(),
    {
        self.engine
    }

    /// Passes one template to the engine.
    fn ask_template(&mut self, template: &str) -> (reply: Option<String>)
        ensures
            final(self).log() == old(self).log().push(
                TemplateExchange::Template { template: template@, reply: reply_text(reply) },
            ),
    {
        let reply = self.engine.compile_template(template);
        self.log = Ghost(
            self.log@.push(
                TemplateExchange::Template { template: template@, reply: reply_text(reply) },
            ),
        );
        reply
    }

    /// Passes a batch of templates to the engine.
    fn ask_batch(&mut self, request: &str) -> (reply: Option<String>)
        ensures
            final(self).log() == old(self).log().push(
                TemplateExchange::Batch { request: request@, reply: reply_text(reply) },
            ),
    {
        let reply = self.engine.compile_batch(request);
        self.log = Ghost(
            self.log@.push(
                TemplateExchange::Batch { request: request@, reply: reply_text(reply) },
            ),
        );
        reply
    }
}

/// An answer by its text.
pub open spec fn reply_text(reply: Option<String>) -> Option<Seq<char>> {
    match reply {
        Some(text) => Some(text@),
        None => None,
    }
}

/// An error of one-shot compilation, with its message.
#[derive(Debug)]
pub struct CompileError(pub String);

impl CompileError {
    /// The message, as an owned string.
    pub fn to_string(&self) -> (message: String)
        ensures
            message@ == self.0@,
    {
        self.0.clone()
    }
}

/// What `serde_json::to_string` gives for a list of strings: the JSON array
/// that holds them.
pub uninterp spec fn json_of_strings(strings: Seq<Seq<char>>) -> Seq<char>;

/// What `serde_json::from_str` reads from a text as a list of strings:
/// the strings, or nothing where the text is no JSON array of strings.
pub uninterp spec fn strings_of_json(text: Seq<char>) -> Option<Seq<Seq<char>>>;

/// The texts that a list of string slices holds.
pub open spec fn slice_texts(list: Seq<&str>) -> Seq<Seq<char>> {
    Seq::new(list.len(), |i: int| list[i]@)
}

/// Calls `serde_json::to_string` on the list. Three things are claimed of it,
/// each as the source of `serde_json` shows it for a list of strings: the
/// call succeeds (it writes into a byte vector, and fails only where the
/// writer does); the text depends on the strings alone, and is the one that
/// `json_of_strings` names; and the text holds no NUL byte (every byte below
/// 0x20 is written as an escape). The error, which cannot arise, would be
/// handed on as the text that its `Display` gives.
#[verifier::external_body]
fn encode_strings(strings: &[&str]) -> (encoded: Result<String, String>)
    ensures
        encoded is Ok,
        encoded matches Ok(text) ==> text@ == json_of_strings(slice_texts(strings@)),
        encoded matches Ok(text) ==> nul_free(encode_utf8(text@)),
{
    match serde_json::to_string(strings) {
        Ok(text) => Ok(text),
        Err(error) => Err(error.to_string()),
    }
}

/// Calls `serde_json::from_str` for a list of strings. The outcome depends on
/// the text alone, and is the one that `strings_of_json` names: the list
/// that was read, or nothing where reading failed. The error is handed on
/// as the text that its `Display` gives; nothing is claimed about that text.
#[verifier::external_body]
fn decode_strings(text: &str) -> (decoded: Result<Vec<String>, String>)
    ensures
        match decoded {
            Ok(list) => strings_of_json(text@) == Some(texts(list@)),
            Err(_) => strings_of_json(text@) is None,
        },
{
    match serde_json::from_str(text) {
        Ok(list) => Ok(list),
        Err(error) => Err(error.to_string()),
    }
}

/// Whether `text` begins with `prefix`.
pub open spec fn starts_with(text: Seq<char>, prefix: Seq<char>) -> bool {
    text.len() >= prefix.len() && text.subrange(0, prefix.len() as int) == prefix
}

/// Whether `position` is the place of the first NUL byte in `bytes`.
pub open spec fn first_nul_at(bytes: Seq<u8>, position: int) -> bool {
    &&& 0 <= position < bytes.len()
    &&& bytes[position] == 0
    &&& forall|i: int| 0 <= i < position ==> bytes[i] != 0
}

/// Whether `bytes` hold no NUL byte.
pub open spec fn nul_free(bytes: Seq<u8>) -> bool {
    forall|i: int| 0 <= i < bytes.len() ==> bytes[i] != 0
}

/// The decimal digits of `n`.
pub open spec fn decimal(n: nat) -> Seq<char>
    decreases n,
{
    if n < 10 {
        seq![digit(n)]
    } else {
        decimal(n / 10).push(digit(n % 10))
    }
}

/// The digit for a number below ten.
pub open spec fn digit(n: nat) -> char {
    if n == 0 {
        '0'
    } else if n == 1 {
        '1'
    } else if n == 2 {
        '2'
    } else if n == 3 {
        '3'
    } else if n == 4 {
        '4'
    } else if n == 5 {
        '5'
    } else if n == 6 {
        '6'
    } else if n == 7 {
        '7'
    } else if n == 8 {
        '8'
    } else {
        '9'
    }
}

/// The message for a text that cannot be passed to the engine because it
/// holds a NUL byte at `position`: `prefix`, then the place of the byte.
pub open spec fn nul_message(prefix: Seq<char>, position: int) -> Seq<char> {
    prefix + "nul byte found in provided data at position: "@ + decimal(position as nat)
}

/// The place of the first NUL byte in `text`, if there is one.
pub fn find_nul(text: &str) -> (position: Option<usize>)
    ensures
        match position {
            Some(at) => first_nul_at(encode_utf8(text@), at as int),
            None => nul_free(encode_utf8(text@)),
        },
{
    let bytes = text.as_bytes();
    let mut at: usize = 0;
    while at < bytes.len()
        invariant
            at <= bytes@.len(),
            bytes@ == encode_utf8(text@),
            forall|i: int| 0 <= i < at ==> bytes@[i] != 0,
        decreases bytes@.len() - at,
    {
        if bytes[at] == 0 {
            return Some(at);
        }
        at += 1;
    }
    None
}

/// The digit for a number below ten, as text.
fn digit_text(n: usize) -> (text: &'static str)
    requires
        n < 10,
    ensures
        text@ == seq![digit(n as nat)],
{
    proof {
        reveal_strlit("0");
        reveal_strlit("1");
        reveal_strlit("2");
        reveal_strlit("3");
        reveal_strlit("4");
        reveal_strlit("5");
        reveal_strlit("6");
        reveal_strlit("7");
        reveal_strlit("8");
        reveal_strlit("9");
    }
    let text = if n == 0 {
        "0"
    } else if n == 1 {
        "1"
    } else if n == 2 {
        "2"
    } else if n == 3 {
        "3"
    } else if n == 4 {
        "4"
    } else if n == 5 {
        "5"
    } else if n == 6 {
        "6"
    } else if n == 7 {
        "7"
    } else if n == 8 {
        "8"
    } else {
        "9"
    };
    assert(text@ =~= seq![digit(n as nat)]);
    text
}

/// A number in decimal digits.
pub fn decimal_text(n: usize) -> (text: String)
    ensures
        text@ == decimal(n as nat),
    decreases n,
{
    if n < 10 {
        digit_text(n).to_owned()
    } else {
        let mut text = decimal_text(n / 10);
        text.append(digit_text(n % 10));
        assert(text@ =~= decimal(n as nat));
        text
    }
}

/// The error for a text that holds a NUL byte at `position`.
fn nul_error(prefix: &str, position: usize) -> (error: CompileError)
    ensures
        error.0@ == nul_message(prefix@, position as int),
{
    let mut message = prefix.to_owned();
    message.append("nul byte found in provided data at position: ");
    message.append(decimal_text(position).as_str());
    CompileError(message)
}

/// What the answer to a single template means, by its text: the compiled
/// code, or the message of an error. No answer is an error; an answer behind
/// the marker `ERROR: ` is the compiler's error, and its message is what
/// follows the marker; any other answer is the code.
pub open spec fn template_outcome(reply: Option<Seq<char>>) -> Result<Seq<char>, Seq<char>> {
    match reply {
        None => Err("Compilation returned null"@),
        Some(text) => if starts_with(text, "ERROR: "@) {
            Err(text.skip(7))
        } else {
            Ok(text)
        },
    }
}

/// An outcome by its text.
pub open spec fn outcome_text(
    outcome: Result<String, CompileError>,
) -> Result<Seq<char>, Seq<char>> {
    match outcome {
        Ok(code) => Ok(code@),
        Err(error) => Err(error.0@),
    }
}

/// Whether `text` begins with the marker `ERROR: `.
fn is_error_reply(text: &str) -> (marked: bool)
    ensures
        marked == starts_with(text@, "ERROR: "@),
{
    proof {
        reveal_strlit("ERROR: ");
    }
    let marker = "ERROR: ";
    if text.unicode_len() < 7 {
        return false;
    }
    let mut at: usize = 0;
    while at < 7
        invariant
            at <= 7,
            marker@ == "ERROR: "@,
            marker@.len() == 7,
            text@.len() >= 7,
            forall|i: int| 0 <= i < at ==> text@[i] == marker@[i],
        decreases 7 - at,
    {
        if text.get_char(at) != marker.get_char(at) {
            assert(text@.subrange(0, 7)[at as int] != marker@[at as int]);
            return false;
        }
        at += 1;
    }
    assert(text@.subrange(0, 7) =~= marker@);
    true
}

/// Reads the answer to a single template.
pub fn template_result(reply: Option<String>) -> (outcome: Result<String, CompileError>)
    ensures
        outcome_text(outcome) == template_outcome(reply_text(reply)),
{
    match reply {
        None => Err(CompileError("Compilation returned null".to_owned())),
        Some(text) => {
            if is_error_reply(text.as_str()) {
                proof {
                    reveal_strlit("ERROR: ");
                }
                let length = text.as_str().unicode_len();
                let message = text.as_str().substring_char(7, length).to_owned();
                assert(message@ =~= text@.skip(7));
                Err(CompileError(message))
            } else {
                Ok(text)
            }
        },
    }
}

/// Whether `after` is `before` and one call more: `template` was passed, and
/// `outcome` is what the answer means.
pub open spec fn template_compiled(
    before: Seq<TemplateExchange>,
    after: Seq<TemplateExchange>,
    template: Seq<char>,
    outcome: Result<Seq<char>, Seq<char>>,
) -> bool {
    &&& after.len() == before.len() + 1
    &&& after.drop_last() == before
    &&& after.last() matches TemplateExchange::Template { template: passed, reply }
    &&& passed == template
    &&& outcome == template_outcome(reply)
}

/// Compiles one template.
///
/// A template that holds a NUL byte cannot be passed to the engine: it is
/// refused, with the place of the byte, and the engine is not called. Any
/// other template is passed on as it is, and the outcome is read from the
/// answer: see [`template_result`].
pub fn compile_template<E: TemplateEngine>(
    compiler: &mut TemplateCompiler<E>,
    template: &str,
) -> (outcome: Result<String, CompileError>)
    ensures
        forall|at: int|
            first_nul_at(encode_utf8(template@), at) ==> final(compiler).log() == old(
                compiler,
            ).log() && outcome_text(outcome) == Err::<Seq<char>, Seq<char>>(
                #[trigger] nul_message("Invalid template string: "@, at),
            ),
        nul_free(encode_utf8(template@)) ==> template_compiled(
            old(compiler).log(),
            final(compiler).log(),
            template@,
            outcome_text(outcome),
        ),
{
    match find_nul(template) {
        Some(position) => Err(nul_error("Invalid template string: ", position)),
        None => {
            let reply = compiler.ask_template(template);
            let outcome = template_result(reply);
            assert(compiler.log().drop_last() =~= old(compiler).log());
            outcome
        },
    }
}

/// Encodes a batch of templates for the engine: as the JSON array of the
/// templates. Every batch can be encoded, one whose templates hold NUL bytes
/// too: the array holds them as escapes, and holds no NUL byte itself.
///
/// The encoder is not known to fail on a list of strings, nor to write a NUL
/// byte. Should it ever do either, the batch is refused: with `JSON error: `
/// and what the encoder says, or with `Invalid JSON: ` and the place of the
/// byte.
pub fn batch_request(templates: &[&str]) -> (request: Result<String, CompileError>)
    ensures
        request is Ok,
        request matches Ok(json) ==> json@ == json_of_strings(slice_texts(templates@)),
        request matches Ok(json) ==> nul_free(encode_utf8(json@)),
{
    match encode_strings(templates) {
        Err(error) => {
            let mut message = "JSON error: ".to_owned();
            message.append(error.as_str());
            Err(CompileError(message))
        },
        Ok(json) => match find_nul(json.as_str()) {
            Some(position) => Err(nul_error("Invalid JSON: ", position)),
            None => Ok(json),
        },
    }
}

/// Whether `outcome` is what the answer `reply` to a batch means: no answer
/// is an error; an answer that is no JSON array of strings is an error that
/// begins with `Failed to parse results: `; any other answer is the list of
/// results that it holds.
pub open spec fn batch_read(
    reply: Option<Seq<char>>,
    outcome: Result<Vec<String>, CompileError>,
) -> bool {
    match reply {
        None => outcome matches Err(error) && error.0@ == "Batch compilation returned null"@,
        Some(text) => match strings_of_json(text) {
            Some(results) => outcome matches Ok(list) && texts(list@) == results,
            None => outcome matches Err(error) && starts_with(
                error.0@,
                "Failed to parse results: "@,
            ),
        },
    }
}

/// Reads the answer to a batch: the results, in the order of the templates.
///
/// Where the decoder fails, the error is `Failed to parse results: ` and what
/// the decoder says.
pub fn batch_result(reply: Option<String>) -> (outcome: Result<Vec<String>, CompileError>)
    ensures
        batch_read(reply_text(reply), outcome),
{
    match reply {
        None => Err(CompileError("Batch compilation returned null".to_owned())),
        Some(text) => match decode_strings(text.as_str()) {
            Ok(list) => Ok(list),
            Err(error) => {
                let mut message = "Failed to parse results: ".to_owned();
                let ghost prefix = message@;
                message.append(error.as_str());
                assert(message@.subrange(0, prefix.len() as int) =~= prefix);
                Err(CompileError(message))
            },
        },
    }
}

/// Whether `after` is `before` and one call more: the JSON array of
/// `templates` was passed, and `outcome` is what the answer means.
pub open spec fn batch_compiled(
    before: Seq<TemplateExchange>,
    after: Seq<TemplateExchange>,
    templates: Seq<Seq<char>>,
    outcome: Result<Vec<String>, CompileError>,
) -> bool {
    &&& after.len() == before.len() + 1
    &&& after.drop_last() == before
    &&& after.last() matches TemplateExchange::Batch { request, reply }
    &&& request == json_of_strings(templates)
    &&& nul_free(encode_utf8(request))
    &&& batch_read(reply, outcome)
}

/// Compiles a batch of templates in one call to the engine.
///
/// The engine is called once, for every batch: it is passed the JSON array
/// of the templates, as [`batch_request`] encodes it, and the outcome is what
/// [`batch_result`] reads from the answer.
pub fn compile_batch<E: TemplateEngine>(
    compiler: &mut TemplateCompiler<E>,
    templates: &[&str],
) -> (outcome: Result<Vec<String>, CompileError>)
    ensures
        batch_compiled(
            old(compiler).log(),
            final(compiler).log(),
            slice_texts(templates@),
            outcome,
        ),
{
    match batch_request(templates) {
        Err(error) => Err(error),
        Ok(json) => {
            let reply = compiler.ask_batch(json.as_str());
            let outcome = batch_result(reply);
            assert(compiler.log().drop_last() =~= old(compiler).log());
            outcome
        },
    }
}

} // verus!
