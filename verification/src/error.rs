//! Errors of the ticket store and of the HTTP interface, and how one
//! becomes the other.
use vstd::prelude::*;
use vstd::string::*;
use vstd::std_specs::convert::FromSpecImpl;
use crate::data::TicketId;
use crate::text::{json_string, json_string_literal, uuid_text};

verus! {

/// What the database reported about a failed statement, as plain values.
#[derive(Debug, PartialEq, Eq)]
pub struct DatabaseFailure {
    /// The SQLSTATE code, when the server sent one.
    pub code: Option<String>,
    /// The name of the violated constraint, when the server named one.
    pub constraint: Option<String>,
}

/// A failed database call: the server's report when the failure came from
/// the database itself, and the driver's message.
#[derive(Debug, PartialEq, Eq)]
pub struct DbFailure {
    pub database: Option<DatabaseFailure>,
    pub message: String,
}

/// SQLSTATE `23514` (check_violation) and `23502` (not_null_violation): the
/// payload broke a column constraint.
pub open spec fn is_constraint_code(code: Seq<char>) -> bool {
    code == "23514"@ || code == "23502"@
}

/// The constraint a failure reports as violated by the payload, if it is such
/// a failure: the named constraint, or `unknown` when the server named none.
pub open spec fn violated_constraint(f: DbFailure) -> Option<Seq<char>> {
    match f.database {
        Some(db) => match db.code {
            Some(code) => if is_constraint_code(code@) {
                match db.constraint {
                    Some(c) => Some(c@),
                    None => Some("unknown"@),
                }
            } else {
                None
            },
            None => None,
        },
        None => None,
    }
}

/// `e` is how a store reports the database failure `f`.
pub open spec fn classifies(f: DbFailure, e: StoreError) -> bool {
    match violated_constraint(f) {
        Some(c) => e matches StoreError::Constraint(x) && x@ == c,
        None => e == StoreError::DbDriverInternal(f),
    }
}

/// Why a store operation failed.
#[derive(Debug, PartialEq, Eq)]
pub enum StoreError {
    NotFound(TicketId),
    Constraint(String),
    DbDriverInternal(DbFailure),
}

/// The text of a store error.
pub open spec fn store_error_text(e: StoreError) -> Seq<char> {
    match e {
        StoreError::NotFound(id) => "ticket not found for id: "@ + uuid_text(id@ as nat),
        StoreError::Constraint(c) => "request violates constraint `"@ + c@ + "`"@,
        StoreError::DbDriverInternal(f) => f.message@,
    }
}

fn is_constraint_code_exec(code: &String) -> (r: bool)
    ensures
        r == is_constraint_code(code@),
{
    *code == String::from_str("23514") || *code == String::from_str("23502")
}

impl StoreError {
    /// Classifies a database failure: a violated column constraint is the
    /// caller's fault and becomes `Constraint`; anything else stays a driver
    /// failure.
    pub fn from_db(failure: DbFailure) -> (r: StoreError)
        ensures
            classifies(failure, r),
    {
        let violated: Option<String> = match &failure.database {
            Some(db) => match &db.code {
                Some(code) => {
                    if is_constraint_code_exec(code) {
                        match &db.constraint {
                            Some(c) => Some(c.clone()),
                            None => Some(String::from_str("unknown")),
                        }
                    } else {
                        None
                    }
                },
                None => None,
            },
            None => None,
        };
        match violated {
            Some(c) => StoreError::Constraint(c),
            None => StoreError::DbDriverInternal(failure),
        }
    }

    /// The error as text.
    pub fn message(&self) -> (r: String)
        ensures
            r@ == store_error_text(*self),
    {
        match self {
            StoreError::NotFound(id) => {
                let mut s = String::from_str("ticket not found for id: ");
                s.append(id.text().as_str());
                s
            },
            StoreError::Constraint(c) => {
                let mut s = String::from_str("request violates constraint `");
                s.append(c.as_str());
                s.append("`");
                s
            },
            StoreError::DbDriverInternal(f) => f.message.clone(),
        }
    }
}

/// An error as the HTTP interface reports it.
#[derive(Debug, PartialEq, Eq)]
pub enum ApiError {
    /// No ticket has this identifier.
    NotFound(TicketId),
    /// The request broke a constraint of the store.
    Constraint(String),
    /// Anything else; the text is the cause, kept for the log.
    Internal(String),
}

/// The status code answered for an error.
pub open spec fn api_status(e: ApiError) -> u16 {
    match e {
        ApiError::NotFound(_) => 404,
        ApiError::Constraint(_) => 422,
        ApiError::Internal(_) => 500,
    }
}

/// Law: a missing ticket is answered 404 (Not Found), a broken constraint
/// 422 (Unprocessable Entity), anything else 500 (Internal Server Error);
/// only internal errors are server faults.
pub proof fn lemma_api_status(e: ApiError)
    ensures
        (api_status(e) == 404) == (e is NotFound),
        (api_status(e) == 422) == (e is Constraint),
        (api_status(e) == 500) == (e is Internal),
        (500 <= api_status(e) < 600) == (e is Internal),
{
}

/// Law: the two codes that mark a payload's fault are SQLSTATE `23514`
/// (check_violation) and `23502` (not_null_violation), and no others.
pub proof fn lemma_constraint_codes(code: Seq<char>)
    ensures
        is_constraint_code(code) == (code == seq!['2', '3', '5', '1', '4'] || code == seq![
            '2',
            '3',
            '5',
            '0',
            '2',
        ]),
{
    reveal_strlit("23514");
    reveal_strlit("23502");
    assert("23514"@ =~= seq!['2', '3', '5', '1', '4']);
    assert("23502"@ =~= seq!['2', '3', '5', '0', '2']);
}

/// The text of an error.
pub open spec fn api_error_text(e: ApiError) -> Seq<char> {
    match e {
        ApiError::NotFound(id) => "ticket "@ + uuid_text(id@ as nat) + " not found"@,
        ApiError::Constraint(c) => "request violates constraint `"@ + c@ + "`"@,
        ApiError::Internal(m) => m@,
    }
}

/// The message a client sees: the error's text, except that internal errors
/// are not disclosed.
pub open spec fn public_message(e: ApiError) -> Seq<char> {
    match e {
        ApiError::Internal(_) => "internal server error"@,
        _ => api_error_text(e),
    }
}

/// The JSON body answered for an error: an object whose only member `error`
/// holds the public message.
pub open spec fn error_body(e: ApiError) -> Seq<char> {
    "{\"error\":"@ + json_string_literal(public_message(e)) + "}"@
}

/// How a store error surfaces at the HTTP interface.
pub open spec fn api_error_of(e: StoreError) -> ApiError {
    match e {
        StoreError::NotFound(id) => ApiError::NotFound(id),
        StoreError::Constraint(c) => ApiError::Constraint(c),
        StoreError::DbDriverInternal(f) => ApiError::Internal(f.message),
    }
}

/// `a` reports the store error `e`: the same variant, the same identifier,
/// the same text.
pub open spec fn reports(e: StoreError, a: ApiError) -> bool {
    match e {
        StoreError::NotFound(id) => a == ApiError::NotFound(id),
        StoreError::Constraint(c) => a matches ApiError::Constraint(x) && x@ == c@,
        StoreError::DbDriverInternal(f) => a matches ApiError::Internal(m) && m@ == f.message@,
    }
}

impl ApiError {
    /// The error of the HTTP interface for a store error.
    pub fn from_store(e: StoreError) -> (r: ApiError)
        ensures
            r == api_error_of(e),
    {
        match e {
            StoreError::NotFound(id) => ApiError::NotFound(id),
            StoreError::Constraint(c) => ApiError::Constraint(c),
            StoreError::DbDriverInternal(f) => ApiError::Internal(f.message),
        }
    }

    /// The error of the HTTP interface for a store error that is shared (as a
    /// cache loader's error is).
    pub fn from_store_ref(e: &StoreError) -> (r: ApiError)
        ensures
            reports(*e, r),
    {
        match e {
            StoreError::NotFound(id) => ApiError::NotFound(*id),
            StoreError::Constraint(c) => ApiError::Constraint(c.clone()),
            StoreError::DbDriverInternal(f) => ApiError::Internal(f.message.clone()),
        }
    }

    /// The HTTP status code of the answer.
    pub fn status(&self) -> (r: u16)
        ensures
            r == api_status(*self),
    {
        match self {
            ApiError::NotFound(_) => 404,
            ApiError::Constraint(_) => 422,
            ApiError::Internal(_) => 500,
        }
    }

    /// The error as text.
    pub fn message(&self) -> (r: String)
        ensures
            r@ == api_error_text(*self),
    {
        match self {
            ApiError::NotFound(id) => {
                let mut s = String::from_str("ticket ");
                s.append(id.text().as_str());
                s.append(" not found");
                s
            },
            ApiError::Constraint(c) => {
                let mut s = String::from_str("request violates constraint `");
                s.append(c.as_str());
                s.append("`");
                s
            },
            ApiError::Internal(m) => m.clone(),
        }
    }

    /// The message a client sees.
    pub fn public_message(&self) -> (r: String)
        ensures
            r@ == public_message(*self),
    {
        match self {
            ApiError::Internal(_) => String::from_str("internal server error"),
            _ => self.message(),
        }
    }

    /// The JSON body of the answer.
    pub fn body(&self) -> (r: String)
        ensures
            r@ == error_body(*self),
    {
        let message = self.public_message();
        let quoted = json_string(message.as_str());
        let mut s = String::from_str("{\"error\":");
        match quoted {
            Ok(q) => s.append(q.as_str()),
            Err(_) => {},
        }
        s.append("}");
        s
    }
}

impl From<StoreError> for ApiError {
    fn from(e: StoreError) -> (r: ApiError) {
        ApiError::from_store(e)
    }
}

impl FromSpecImpl<StoreError> for ApiError {
    open spec fn obeys_from_spec() -> bool {
        true
    }

    open spec fn from_spec(e: StoreError) -> ApiError {
        api_error_of(e)
    }
}

} // verus!
