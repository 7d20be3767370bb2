//! Validation and formatting of the questions document's JSON text.
//!
//! Parsing and serialization are serde_json's; this module states what those
//! calls return and proves the save operation against that. The semantics of
//! a JSON text is abstracted as its canonical model, `json_sem`: two texts
//! have the same model exactly when they parse to deep-equal values.

use vstd::prelude::*;
use vstd::string::StringExecFns;

use crate::errors::StoreError;

verus! {

#[verifier::external_type_specification]
#[verifier::external_body]
pub struct ExValue(serde_json::Value);

#[verifier::external_type_specification]
#[verifier::external_body]
pub struct ExError(serde_json::Error);

/// The canonical model of a JSON text: `None` when the text is not
/// syntactically valid JSON as the parser accepts it (well-formedness, up to
/// the parser's nesting limit), otherwise an abstract rendering of the value
/// it denotes, equal for two texts exactly when they parse to deep-equal
/// values.
pub uninterp spec fn json_sem(s: Seq<char>) -> Option<Seq<char>>;

/// The canonical model of a parsed value, in the same rendering as
/// `json_sem`.
pub uninterp spec fn json_model(v: serde_json::Value) -> Seq<char>;

/// The pretty-printed text that serialization produces for a value of a
/// given model.
pub uninterp spec fn pretty_of(m: Seq<char>) -> Seq<char>;

/// Whether a text is syntactically valid JSON.
pub open spec fn json_ok(s: Seq<char>) -> bool {
    json_sem(s) is Some
}

/// Relies on serde_json::from_str::<Value>: it succeeds exactly on
/// syntactically valid JSON text, and what it parses is a function of the
/// text alone. A parsed value is nested no deeper than the parser's own
/// limit, so pretty-printing it yields text the parser accepts again, with
/// the same model.
#[verifier::external_body]
fn parse_json(s: &str) -> (r: Result<serde_json::Value, serde_json::Error>)
    ensures
        r is Ok <==> json_ok(s@),
        (r matches Ok(v) ==> json_model(v) == json_sem(s@).unwrap()),
        (r matches Ok(v) ==> json_sem(pretty_of(json_model(v))) == Some(json_model(v))),
{
    serde_json::from_str::<serde_json::Value>(s)
}

/// Relies on the Display impl of serde_json::Error for the human-readable
/// message of a parse failure.
#[verifier::external_body]
fn parse_error_message(e: &serde_json::Error) -> String {
    format!("{}", e)
}

/// Relies on serde_json::to_string_pretty on a Value: serializing a Value
/// cannot fail (every object key is a String and every number is finite),
/// and the output is a function of the value alone.
#[verifier::external_body]
fn to_pretty(v: &serde_json::Value) -> (r: Result<String, serde_json::Error>)
    ensures
        r is Ok,
        (r matches Ok(s) ==> s@ == pretty_of(json_model(*v))),
{
    serde_json::to_string_pretty(v)
}

/// What a successful save hands back to the caller: the validated,
/// pretty-printed text to write at the resolved path, and the confirmation
/// message for the front end.
#[derive(Debug)]
pub struct SavePlan {
    pub contents: String,
    pub confirmation: String,
}

/// Validates `questions_json` and produces the save plan for the document at
/// `path`. Exactly the syntactically valid JSON texts are accepted; an
/// invalid one is rejected with a parse error and nothing to write, so an
/// existing file's contents stay as they were. The text to write is the
/// pretty-printed form of the parsed value and still denotes the same value.
pub fn save_questions(questions_json: &str, path: &str) -> (r: Result<SavePlan, StoreError>)
    ensures
        r is Ok <==> json_ok(questions_json@),
        (r matches Ok(p) ==> p.contents@ == pretty_of(json_sem(questions_json@).unwrap())),
        (r matches Ok(p) ==> json_sem(p.contents@) == json_sem(questions_json@)),
        (r matches Ok(p) ==> p.confirmation@ == "Questions saved successfully to "@ + path@),
        (r matches Err(e) ==> e is JsonParse),
{
    let parsed = match parse_json(questions_json) {
        Ok(v) => v,
        Err(e) => {
            return Err(StoreError::JsonParse(parse_error_message(&e)));
        },
    };
    let pretty = to_pretty(&parsed).unwrap();
    let mut confirmation: String = "Questions saved successfully to ".to_owned();
    confirmation.append(path);
    Ok(SavePlan { contents: pretty, confirmation })
}

} // verus!
