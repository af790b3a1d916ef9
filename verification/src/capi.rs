//! Status codes, handles and errors behind the C interface.
use vstd::prelude::*;
use vstd::std_specs::convert::FromSpecImpl;
use crate::db::{database_error_text, holds_utf8_failure, DatabaseError, DatabaseErrorV};
use crate::error::{error_text, holds_utf8_error, ElucidatorError, ElucidatorErrorV};
use crate::text::{decimal, push_decimal, push_str};

verus! {

/// The kinds of database a session can hold.
#[allow(non_camel_case_types)]
#[derive(Clone, Copy, Debug, PartialEq, Eq, Structural)]
pub enum DatabaseKind {
    ELUCIDATOR_RTREE,
}

/// The outcome of a call through the C interface.
#[allow(non_camel_case_types)]
#[derive(Clone, Copy, Debug, PartialEq, Eq, Structural)]
pub enum ElucidatorStatus {
    ELUCIDATOR_OK,
    ELUCIDATOR_ERROR,
}

impl ElucidatorStatus {
    pub fn ok() -> (s: Self)
        ensures
            s == ElucidatorStatus::ELUCIDATOR_OK,
    {
        ElucidatorStatus::ELUCIDATOR_OK
    }

    pub fn err() -> (s: Self)
        ensures
            s == ElucidatorStatus::ELUCIDATOR_ERROR,
    {
        ElucidatorStatus::ELUCIDATOR_ERROR
    }
}

/// A handle: a number that names an object kept on the Rust side.
pub trait Handle {
    spec fn spec_id(&self) -> u32;

    spec fn handle_kind() -> Seq<char>;

    /// The handle with this number.
    fn from_id(id: u32) -> (h: Self) where Self: Sized
        ensures
            h.spec_id() == id,
    ;

    fn id(&self) -> (r: u32)
        ensures
            r == self.spec_id(),
    ;

    /// The name of the handle's type.
    fn htype() -> (s: String)
        ensures
            s@ == Self::handle_kind(),
    ;
}

/// Names an error kept for the C caller.
#[derive(Clone, Copy, Debug, PartialEq, Eq, Hash, Structural)]
pub struct ErrorHandle {
    pub hdl: u32,
}

/// Names a session kept for the C caller.
#[derive(Clone, Copy, Debug, PartialEq, Eq, Hash, Structural)]
pub struct SessionHandle {
    pub hdl: u32,
}

impl Handle for ErrorHandle {
    open spec fn spec_id(&self) -> u32 {
        self.hdl
    }

    open spec fn handle_kind() -> Seq<char> {
        "ErrorHandle"@
    }

    fn from_id(id: u32) -> (h: Self) {
        ErrorHandle { hdl: id }
    }

    fn id(&self) -> (r: u32) {
        self.hdl
    }

    fn htype() -> (s: String) {
        "ErrorHandle".to_owned()
    }
}

impl Handle for SessionHandle {
    open spec fn spec_id(&self) -> u32 {
        self.hdl
    }

    open spec fn handle_kind() -> Seq<char> {
        "SessionHandle"@
    }

    fn from_id(id: u32) -> (h: Self) {
        SessionHandle { hdl: id }
    }

    fn id(&self) -> (r: u32) {
        self.hdl
    }

    fn htype() -> (s: String) {
        "SessionHandle".to_owned()
    }
}

/// The errors reported through the C interface.
#[derive(Debug)]
pub enum ApiError {
    Eluci(ElucidatorError),
    Database(DatabaseError),
    HandleNotFound { address: String, id: u32, handle_type: String },
    DesignationNotFound { session: u32, designation: String },
}

pub enum ApiErrorV {
    Eluci(ElucidatorErrorV),
    Database(DatabaseErrorV),
    HandleNotFound { address: Seq<char>, id: u32, handle_type: Seq<char> },
    DesignationNotFound { session: u32, designation: Seq<char> },
}

impl View for ApiError {
    type V = ApiErrorV;

    open spec fn view(&self) -> ApiErrorV {
        match self {
            ApiError::Eluci(e) => ApiErrorV::Eluci(e@),
            ApiError::Database(e) => ApiErrorV::Database(e@),
            ApiError::HandleNotFound { address, id, handle_type } => ApiErrorV::HandleNotFound {
                address: address@,
                id: *id,
                handle_type: handle_type@,
            },
            ApiError::DesignationNotFound { session, designation } => ApiErrorV::DesignationNotFound {
                session: *session,
                designation: designation@,
            },
        }
    }
}

/// How an interface error is written.
pub open spec fn api_error_text(e: ApiErrorV) -> Seq<char> {
    match e {
        ApiErrorV::Eluci(e) => "ElucidatorError: "@ + error_text(e),
        ApiErrorV::Database(e) => "Elucidator Database Error: "@ + database_error_text(e),
        ApiErrorV::HandleNotFound { address, id, handle_type } => "Handle "@ + decimal(id as nat)
            + " not found: type "@ + handle_type + " at address "@ + address,
        ApiErrorV::DesignationNotFound { session, designation } => "Cannot find designation "@
            + designation + " in session "@ + decimal(session as nat),
    }
}

pub open spec fn api_holds_utf8_failure(e: ApiErrorV) -> bool {
    match e {
        ApiErrorV::Eluci(e) => holds_utf8_error(e),
        ApiErrorV::Database(e) => holds_utf8_failure(e),
        _ => false,
    }
}

impl ApiError {
    /// The error as text; a UTF-8 failure inside is written as std writes it.
    pub fn to_display_string(&self) -> (s: String)
        ensures
            !api_holds_utf8_failure(self@) ==> s@ == api_error_text(self@),
    {
        let mut s = String::new();
        match self {
            ApiError::Eluci(e) => {
                push_str(&mut s, "ElucidatorError: ");
                let t = e.to_display_string();
                push_str(&mut s, t.as_str());
            },
            ApiError::Database(e) => {
                push_str(&mut s, "Elucidator Database Error: ");
                let t = e.to_display_string();
                push_str(&mut s, t.as_str());
            },
            ApiError::HandleNotFound { address, id, handle_type } => {
                push_str(&mut s, "Handle ");
                push_decimal(&mut s, *id as u64);
                push_str(&mut s, " not found: type ");
                push_str(&mut s, handle_type.as_str());
                push_str(&mut s, " at address ");
                push_str(&mut s, address.as_str());
            },
            ApiError::DesignationNotFound { session, designation } => {
                push_str(&mut s, "Cannot find designation ");
                push_str(&mut s, designation.as_str());
                push_str(&mut s, " in session ");
                push_decimal(&mut s, *session as u64);
            },
        }
        s
    }
}

impl From<ElucidatorError> for ApiError {
    fn from(error: ElucidatorError) -> (r: Self) {
        ApiError::Eluci(error)
    }
}

impl FromSpecImpl<ElucidatorError> for ApiError {
    open spec fn obeys_from_spec() -> bool {
        true
    }

    open spec fn from_spec(v: ElucidatorError) -> Self {
        ApiError::Eluci(v)
    }
}

impl From<DatabaseError> for ApiError {
    fn from(error: DatabaseError) -> (r: Self) {
        ApiError::Database(error)
    }
}

impl FromSpecImpl<DatabaseError> for ApiError {
    open spec fn obeys_from_spec() -> bool {
        true
    }

    open spec fn from_spec(v: DatabaseError) -> Self {
        ApiError::Database(v)
    }
}

/// The error for a handle that names nothing, with the address where the handle was read.
pub fn not_found_from<T: Handle>(hdl: &T, address: &str) -> (r: ApiError)
    ensures
        r@ == (ApiErrorV::HandleNotFound { address: address@, id: hdl.spec_id(), handle_type: T::handle_kind() }),
{
    ApiError::HandleNotFound { address: address.to_owned(), id: hdl.id(), handle_type: T::htype() }
}

} // verus!
