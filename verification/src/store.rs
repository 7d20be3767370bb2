//! Lazy initialization of the questions document and the read operation.
//!
//! Both are decisions over the observed state of the resolved path (the
//! existing file's contents, if any) and of the bundled default (its
//! contents, if any); the caller probes the filesystem and performs the
//! writes the decision asks for.

use vstd::prelude::*;

use crate::json::{json_ok, json_sem};

verus! {

/// The minimal empty document, written when neither an existing file nor a
/// bundled default is available.
pub open spec fn empty_document_view() -> Seq<char> {
    "{\"questions\": [], \"version\": \"1.0.0\", \"lastUpdated\": \"\"}"@
}

/// Builds the minimal empty document.
pub fn empty_document() -> (r: String)
    ensures
        r@ == empty_document_view(),
{
    "{\"questions\": [], \"version\": \"1.0.0\", \"lastUpdated\": \"\"}".to_owned()
}

/// The contents of the document file once initialization has made it
/// present: an existing file is kept as it is; otherwise the bundled default
/// is copied; otherwise the minimal empty document is written.
pub open spec fn contents_after_init(
    existing: Option<Seq<char>>,
    bundled: Option<Seq<char>>,
) -> Seq<char> {
    match existing {
        Some(f) => f,
        None => match bundled {
            Some(b) => b,
            None => empty_document_view(),
        },
    }
}

/// What initialization asks the caller to do at the resolved path.
#[derive(Debug)]
pub enum InitAction {
    /// The file already exists: touch nothing.
    Keep,
    /// The file is absent: write these contents.
    Write(String),
}

/// Decides initialization from what is at the resolved path (`existing`) and
/// what the bundled default holds (`bundled`). An existing file is kept
/// untouched; an absent one gets the bundled default, or the minimal empty
/// document when no default is available. A missing bundled default is an
/// expected variance, never an error.
pub fn init_questions(existing: Option<String>, bundled: Option<String>) -> (r: InitAction)
    ensures
        r is Keep <==> existing is Some,
        (r matches InitAction::Write(c) ==> c@ == contents_after_init(
            existing.deep_view(),
            bundled.deep_view(),
        )),
{
    match existing {
        Some(_) => InitAction::Keep,
        None => match bundled {
            Some(b) => InitAction::Write(b),
            None => InitAction::Write(empty_document()),
        },
    }
}

/// What a read asks the caller to do: first write `write_first` at the
/// resolved path if it says so (the initialization step), then hand
/// `contents` back to the front end verbatim.
#[derive(Debug)]
pub struct ReadPlan {
    pub write_first: Option<String>,
    pub contents: String,
}

/// Decides the read: ensure the file is present (an absent file is first
/// initialized exactly as `init_questions` decides), then return the file's
/// contents unmodified, so any formatting written earlier is preserved.
pub fn read_questions(existing: Option<String>, bundled: Option<String>) -> (r: ReadPlan)
    ensures
        r.contents@ == contents_after_init(existing.deep_view(), bundled.deep_view()),
        r.write_first is Some <==> existing is None,
        (r.write_first matches Some(w) ==> w@ == r.contents@),
{
    match existing {
        Some(f) => ReadPlan { write_first: None, contents: f },
        None => {
            let c = match bundled {
                Some(b) => b,
                None => empty_document(),
            };
            let copy = c.clone();
            ReadPlan { write_first: Some(copy), contents: c }
        },
    }
}

/// Idempotent initialization: once one initialization has made the file
/// present, a second initialization keeps it and never changes its contents,
/// whatever bundled default either run saw.
pub proof fn lemma_init_idempotent(
    existing: Option<Seq<char>>,
    first_bundled: Option<Seq<char>>,
    second_bundled: Option<Seq<char>>,
)
    ensures
        contents_after_init(Some(contents_after_init(existing, first_bundled)), second_bundled)
            == contents_after_init(existing, first_bundled),
{
}

/// Save/read round trip: a successful save writes a text whose JSON model
/// equals its input's, and a read that then finds that file returns it
/// verbatim, so the text a read returns still parses to a value deep-equal
/// to the saved input's.
pub proof fn lemma_save_read_round_trip(
    input: Seq<char>,
    written: Seq<char>,
    bundled: Option<Seq<char>>,
)
    requires
        json_ok(input),
        json_sem(written) == json_sem(input),
    ensures
        contents_after_init(Some(written), bundled) == written,
        json_sem(contents_after_init(Some(written), bundled)) == json_sem(input),
{
}

} // verus!
