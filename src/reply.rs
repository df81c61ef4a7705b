use crate::constants::{get_string_value, message_of, CODE_SUCCESS};
use vstd::prelude::*;

verus! {

/// The envelope that the transport layer sends back: a code, its message and,
/// on success, a payload.
pub struct Reply<T> {
    pub code: u16,
    pub msg: String,
    pub data: Option<T>,
}

impl<T> Reply<T> {
    pub fn success(data: T) -> (r: Self)
        ensures
            r.code == CODE_SUCCESS,
            r.msg@ == message_of(CODE_SUCCESS),
            r.data == Some(data),
    {
        Reply { code: CODE_SUCCESS, msg: get_string_value(CODE_SUCCESS).to_owned(), data: Some(data) }
    }

    pub fn error(code: u16) -> (r: Self)
        ensures
            r.code == code,
            r.msg@ == message_of(code),
            r.data is None,
    {
        Reply { code, msg: get_string_value(code).to_owned(), data: None }
    }
}

} // verus!
