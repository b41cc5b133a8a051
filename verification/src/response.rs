//! The uniform envelope in which every command reports success or failure.

use vstd::prelude::*;
use vstd::string::StringExecFns;

verus! {

/// The code of a command that did what it was asked.
pub const CODE_SUCCESS: i32 = 0;

/// The code of a command that failed.
pub const CODE_ERROR: i32 = -1;

/// The answer of a command: a code, the data if there are any, a message.
#[derive(Debug, Clone)]
pub struct Response<T> {
    pub code: i32,
    pub data: Option<T>,
    pub message: String,
}

impl<T> Response<T> {
    /// The answer of a command that succeeded with `data`.
    pub fn success(data: T) -> (r: Self)
        ensures
            r.code == CODE_SUCCESS,
            r.data == Some(data),
            r.message@ == "success"@,
    {
        Self { code: 0, data: Some(data), message: String::from_str("success") }
    }

    /// The answer of a command that failed for the reason `msg`.
    pub fn error(msg: &str) -> (r: Self)
        ensures
            r.code == CODE_ERROR,
            r.data is None,
            r.message@ == msg@,
    {
        Self { code: -1, data: None, message: String::from_str(msg) }
    }

    /// An answer with a code of the caller's choice.
    pub fn new(code: i32, data: Option<T>, msg: &str) -> (r: Self)
        ensures
            r.code == code,
            r.data == data,
            r.message@ == msg@,
    {
        Self { code, data, message: String::from_str(msg) }
    }
}

/// Calls `format!` with the `{:?}` form of `err`. Nothing is claimed of the
/// text: it is whatever the `Debug` impl of `E` writes.
#[verifier::external_body]
fn debug_text<E: std::fmt::Debug>(err: &E) -> (text: String) {
    format!("{:?}", err)
}

/// The answer for the outcome of a command: success with the data, or an
/// error whose message is the `Debug` form of the failure. It is `Ok` in
/// both cases.
pub fn wrap_result<T, E: std::fmt::Debug>(result: Result<T, E>) -> (r: Result<
    Response<T>,
    Response<E>,
>)
    ensures
        r is Ok,
        match result {
            Ok(data) => r->Ok_0.code == CODE_SUCCESS && r->Ok_0.data == Some(data)
                && r->Ok_0.message@ == "success"@,
            Err(_) => r->Ok_0.code == CODE_ERROR && r->Ok_0.data is None,
        },
{
    match result {
        Ok(data) => Ok(Response::success(data)),
        Err(err) => {
            let msg = debug_text(&err);
            Ok(Response::error(msg.as_str()))
        },
    }
}

/// Whether `r` is the answer for the outcome `result`, the message of a
/// failure being what its `Display` impl writes.
pub open spec fn answers<T, E: std::fmt::Display>(r: Response<T>, result: Result<T, E>) -> bool {
    match result {
        Ok(data) => r.code == CODE_SUCCESS && r.data == Some(data) && r.message@ == "success"@,
        Err(e) => r.code == CODE_ERROR && r.data is None
            && vstd::string::to_string_from_display_ensures::<E>(&e, r.message),
    }
}

impl<T, E: std::fmt::Display> From<Result<T, E>> for Response<T> {
    fn from(result: Result<T, E>) -> (r: Self)
        ensures
            answers(r, result),
    {
        match result {
            Ok(data) => Response::success(data),
            Err(e) => Response { code: CODE_ERROR, data: None, message: e.to_string() },
        }
    }
}

impl<T, E: std::fmt::Display> vstd::std_specs::convert::FromSpecImpl<Result<T, E>> for Response<T> {
    open spec fn obeys_from_spec() -> bool {
        false
    }

    open spec fn from_spec(result: Result<T, E>) -> Self {
        arbitrary()
    }
}

} // verus!
