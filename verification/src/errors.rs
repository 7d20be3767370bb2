//! The failure taxonomy of the store. Every failure carries the original
//! message of the condition it reports, so the front end can surface it.

use vstd::prelude::*;

verus! {

/// One error kind per way a store operation can fail.
#[derive(Debug)]
pub enum StoreError {
    /// The per-user data directory could not be determined.
    PathResolution(String),
    /// The per-user data directory could not be created.
    DirectoryCreate(String),
    /// The text handed to a save was not syntactically valid JSON.
    JsonParse(String),
    /// The document file could not be written or copied.
    FileWrite(String),
    /// The document file could not be read.
    FileRead(String),
}

impl StoreError {
    /// The message carried by the error, whatever its kind.
    pub open spec fn message_view(&self) -> Seq<char> {
        match self {
            StoreError::PathResolution(m) => m@,
            StoreError::DirectoryCreate(m) => m@,
            StoreError::JsonParse(m) => m@,
            StoreError::FileWrite(m) => m@,
            StoreError::FileRead(m) => m@,
        }
    }

    /// Returns the carried message.
    pub fn message(&self) -> (r: String)
        ensures
            r@ == self.message_view(),
    {
        match self {
            StoreError::PathResolution(m) => m.clone(),
            StoreError::DirectoryCreate(m) => m.clone(),
            StoreError::JsonParse(m) => m.clone(),
            StoreError::FileWrite(m) => m.clone(),
            StoreError::FileRead(m) => m.clone(),
        }
    }
}

} // verus!
