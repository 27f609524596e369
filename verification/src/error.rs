//! HTTP statuses and the error value that every route answers with.
use vstd::prelude::*;

verus! {

/// The HTTP statuses that the server's routes produce.
#[derive(Clone, Copy, Debug, PartialEq, Eq, Structural)]
pub enum Status {
    /// 200 OK
    Success,
    Created,
    AlreadyReported,
    Unauthorized,
    Forbidden,
    NotFound,
    PayloadTooLarge,
    UnprocessableEntity,
    InternalServerError,
}

/// Numeric code of a status.
pub open spec fn status_code(s: Status) -> u16 {
    match s {
        Status::Success => 200,
        Status::Created => 201,
        Status::AlreadyReported => 208,
        Status::Unauthorized => 401,
        Status::Forbidden => 403,
        Status::NotFound => 404,
        Status::PayloadTooLarge => 413,
        Status::UnprocessableEntity => 422,
        Status::InternalServerError => 500,
    }
}

/// Reason phrase of a status.
pub open spec fn status_reason(s: Status) -> Seq<char> {
    match s {
        Status::Success => "OK"@,
        Status::Created => "Created"@,
        Status::AlreadyReported => "Already Reported"@,
        Status::Unauthorized => "Unauthorized"@,
        Status::Forbidden => "Forbidden"@,
        Status::NotFound => "Not Found"@,
        Status::PayloadTooLarge => "Payload Too Large"@,
        Status::UnprocessableEntity => "Unprocessable Entity"@,
        Status::InternalServerError => "Internal Server Error"@,
    }
}

impl Status {
    /// The numeric HTTP code.
    pub fn code(&self) -> (r: u16)
        ensures
            r == status_code(*self),
    {
        match self {
            Status::Success => 200,
            Status::Created => 201,
            Status::AlreadyReported => 208,
            Status::Unauthorized => 401,
            Status::Forbidden => 403,
            Status::NotFound => 404,
            Status::PayloadTooLarge => 413,
            Status::UnprocessableEntity => 422,
            Status::InternalServerError => 500,
        }
    }

    /// The reason phrase.
    pub fn reason(&self) -> (r: &'static str)
        ensures
            r@ == status_reason(*self),
    {
        match self {
            Status::Success => "OK",
            Status::Created => "Created",
            Status::AlreadyReported => "Already Reported",
            Status::Unauthorized => "Unauthorized",
            Status::Forbidden => "Forbidden",
            Status::NotFound => "Not Found",
            Status::PayloadTooLarge => "Payload Too Large",
            Status::UnprocessableEntity => "Unprocessable Entity",
            Status::InternalServerError => "Internal Server Error",
        }
    }
}

/// An error answered by a route: an optional status (500 when absent), a
/// message kept for the logs, and an optional message shown to the client.
pub struct WebError {
    pub status: Option<Status>,
    pub private_error: String,
    pub public_error: Option<String>,
}

/// The status a client sees for an error.
pub open spec fn shown_status(e: WebError) -> Status {
    match e.status {
        Some(s) => s,
        None => Status::InternalServerError,
    }
}

/// The message a client sees for an error: its public message if it has
/// one, else the reason phrase of its status.
pub open spec fn shown_message(e: WebError) -> Seq<char> {
    match e.public_error {
        Some(m) => m@,
        None => status_reason(shown_status(e)),
    }
}

/// `e` is the "not found" answer for a missing item named `name`: status
/// 404, and the name as both its private and its public message.
pub open spec fn is_not_found(e: WebError, name: Seq<char>) -> bool {
    &&& e.status == Some(Status::NotFound)
    &&& e.private_error@ == name
    &&& e.public_error matches Some(p) && p@ == name
}

/// `e` refuses with `status`, keeping `msg` private: the client sees only
/// the status's reason phrase.
pub open spec fn is_refusal(e: WebError, status: Status, msg: Seq<char>) -> bool {
    &&& e.status == Some(status)
    &&& e.private_error@ == msg
    &&& e.public_error is None
}

/// `e` is an internal error: no status (so 500), nothing public.
pub open spec fn is_internal(e: WebError) -> bool {
    &&& e.status is None
    &&& e.public_error is None
}

impl WebError {
    /// An error with a private message only and no status.
    pub fn new(error: String) -> (r: WebError)
        ensures
            r.status is None,
            r.private_error@ == error@,
            r.public_error is None,
    {
        WebError { status: None, private_error: error, public_error: None }
    }

    /// The same error with the given status.
    pub fn with_status(self, status: Status) -> (r: WebError)
        ensures
            r.status == Some(status),
            r.private_error == self.private_error,
            r.public_error == self.public_error,
    {
        WebError { status: Some(status), private_error: self.private_error, public_error: self.public_error }
    }

    /// An error with a status whose message is shown to the client.
    pub fn err_msg(status: Status, msg: String) -> (r: WebError)
        ensures
            r.status == Some(status),
            r.private_error@ == msg@,
            r.public_error matches Some(p) && p@ == msg@,
    {
        let public = msg.clone();
        WebError { status: Some(status), private_error: msg, public_error: Some(public) }
    }

    /// The "not found" answer for a missing item, which shows its name.
    pub fn not_found(name: String) -> (r: WebError)
        ensures
            is_not_found(r, name@),
    {
        WebError::err_msg(Status::NotFound, name)
    }

    /// A refusal with the given status whose message stays private.
    pub fn refused(msg: &str, status: Status) -> (r: WebError)
        ensures
            is_refusal(r, status, msg@),
    {
        WebError::new(String::from_str(msg)).with_status(status)
    }

    /// The status a client sees.
    pub fn response_status(&self) -> (r: Status)
        ensures
            r == shown_status(*self),
    {
        match self.status {
            Some(s) => s,
            None => Status::InternalServerError,
        }
    }

    /// The message a client sees.
    pub fn public_message(&self) -> (r: String)
        ensures
            r@ == shown_message(*self),
    {
        match &self.public_error {
            Some(m) => m.clone(),
            None => {
                let s = self.response_status();
                String::from_str(s.reason())
            },
        }
    }
}

} // verus!
