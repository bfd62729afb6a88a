use vstd::prelude::*;

verus! {

/// SQLSTATE that the backend reports for a foreign-key violation.
pub const FOREIGN_KEY_VIOLATION: &'static str = "23503";

/// The failures of a store operation.
#[derive(Debug)]
pub enum DBError {
    /// A malformed identifier, or one that refers to no stored question.
    InvalidUUID(String),
    /// Any other failure of the backing storage.
    Other(String),
}

/// What the backend said when a statement failed: the SQLSTATE code, where
/// the failure came from the database itself, and its message.
#[derive(Debug)]
pub struct BackendFailure {
    pub code: Option<String>,
    pub message: String,
}

/// The SQLSTATE of a foreign-key violation, as a sequence of characters.
pub open spec fn foreign_key_violation_code() -> Seq<char> {
    seq!['2', '3', '5', '0', '3']
}

/// Whether a failure is the backend rejecting a reference to a row that
/// does not exist.
pub open spec fn is_foreign_key_violation(f: BackendFailure) -> bool {
    f.code matches Some(c) && c@ == foreign_key_violation_code()
}

/// A failure of any statement but the insertion of an answer is a storage
/// error.
pub fn storage_failure(f: BackendFailure) -> (r: DBError)
    ensures
        r == DBError::Other(f.message),
{
    DBError::Other(f.message)
}

/// A failure of the insertion of an answer: a foreign-key violation means
/// that the question it names does not exist, which is the caller's fault;
/// anything else is a storage error.
pub fn answer_insert_failure(f: BackendFailure) -> (r: DBError)
    ensures
        is_foreign_key_violation(f) ==> r == DBError::InvalidUUID(f.message),
        !is_foreign_key_violation(f) ==> r == DBError::Other(f.message),
{
    let expected = FOREIGN_KEY_VIOLATION.to_string();
    proof {
        reveal_strlit("23503");
        assert(expected@ =~= foreign_key_violation_code());
    }
    let fk = match &f.code {
        Some(c) => *c == expected,
        None => false,
    };
    if fk {
        DBError::InvalidUUID(f.message)
    } else {
        DBError::Other(f.message)
    }
}

} // verus!
