use vstd::prelude::*;

verus! {

pub const CODE_SUCCESS: u16 = 0;
pub const CODE_FAILURE: u16 = 9999;
pub const CODE_PARAMETER_ERROR: u16 = 10000;
pub const CODE_ACCOUNT_ALREADY_EXISTS: u16 = 10001;
pub const CODE_ACCOUNT_NOT_EXISTS: u16 = 10002;
pub const CODE_WRONG_ACCOUNT_OR_PASSWORD: u16 = 10003;
pub const CODE_DATE_OPERATION_ERROR: u16 = 10004;
pub const CODE_INTERNAL_SERVER_ERROR: u16 = 10005;

pub const MESSAGE_SUCCESS: &'static str = "success";
pub const MESSAGE_FAILURE: &'static str = "failure";
pub const MESSAGE_PARAMETER_ERROR: &'static str = "parameter error";
pub const MESSAGE_ACCOUNT_ALREADY_EXISTS: &'static str = "account already exists";
pub const MESSAGE_ACCOUNT_NOT_EXISTS: &'static str = "account not exists";
pub const MESSAGE_WRONG_ACCOUNT_OR_PASSWORD: &'static str = "wrong account or password";
pub const MESSAGE_DATE_OPERATION_ERROR: &'static str = "database operation error";
pub const MESSAGE_INTERNAL_SERVER_ERROR: &'static str = "internal server error";
pub const MESSAGE_UNKNOWN: &'static str = "unknown";

/// The fixed text that describes each reply code; codes outside the
/// taxonomy read as "unknown".
pub open spec fn message_of(code: u16) -> Seq<char> {
    if code == CODE_SUCCESS {
        MESSAGE_SUCCESS@
    } else if code == CODE_FAILURE {
        MESSAGE_FAILURE@
    } else if code == CODE_PARAMETER_ERROR {
        MESSAGE_PARAMETER_ERROR@
    } else if code == CODE_ACCOUNT_ALREADY_EXISTS {
        MESSAGE_ACCOUNT_ALREADY_EXISTS@
    } else if code == CODE_ACCOUNT_NOT_EXISTS {
        MESSAGE_ACCOUNT_NOT_EXISTS@
    } else if code == CODE_WRONG_ACCOUNT_OR_PASSWORD {
        MESSAGE_WRONG_ACCOUNT_OR_PASSWORD@
    } else if code == CODE_DATE_OPERATION_ERROR {
        MESSAGE_DATE_OPERATION_ERROR@
    } else if code == CODE_INTERNAL_SERVER_ERROR {
        MESSAGE_INTERNAL_SERVER_ERROR@
    } else {
        MESSAGE_UNKNOWN@
    }
}

/// Looks up the message of a reply code.
pub fn get_string_value(n: u16) -> (r: &'static str)
    ensures
        r@ == message_of(n),
{
    if n == CODE_SUCCESS {
        MESSAGE_SUCCESS
    } else if n == CODE_FAILURE {
        MESSAGE_FAILURE
    } else if n == CODE_PARAMETER_ERROR {
        MESSAGE_PARAMETER_ERROR
    } else if n == CODE_ACCOUNT_ALREADY_EXISTS {
        MESSAGE_ACCOUNT_ALREADY_EXISTS
    } else if n == CODE_ACCOUNT_NOT_EXISTS {
        MESSAGE_ACCOUNT_NOT_EXISTS
    } else if n == CODE_WRONG_ACCOUNT_OR_PASSWORD {
        MESSAGE_WRONG_ACCOUNT_OR_PASSWORD
    } else if n == CODE_DATE_OPERATION_ERROR {
        MESSAGE_DATE_OPERATION_ERROR
    } else if n == CODE_INTERNAL_SERVER_ERROR {
        MESSAGE_INTERNAL_SERVER_ERROR
    } else {
        MESSAGE_UNKNOWN
    }
}

} // verus!
