//! What the contact form decides before it sends a message: a mobile number
//! that is not in the format is told to the visitor, and nothing is sent.

use crate::formats::{is_valid_phone, phone_format};
use crate::models::contact::text_of;
use vstd::prelude::*;
use vstd::string::StringExecFns;

verus! {

/// What the form shows under a mobile number that is not in the format.
pub const PHONE_FORMAT_NOTICE: &'static str =
    "올바른 휴대폰 번호를 입력해주세요 (예: 010-1234-5678)";

/// What the form shows when the visitor submits with `phone` as typed:
/// nothing where the number is in the format, the notice where it is not.
pub open spec fn phone_notice(phone: Seq<char>) -> Option<Seq<char>> {
    if phone_format(phone) {
        None
    } else {
        Some(PHONE_FORMAT_NOTICE@)
    }
}

/// Decides on a click on the button that submits the form with `phone` as
/// typed. `None` lets the message be sent; a notice is shown in place of
/// sending.
pub fn on_submit(phone: &str) -> (notice: Option<String>)
    ensures
        text_of(notice) == phone_notice(phone@),
{
    if is_valid_phone(phone) {
        None
    } else {
        Some(String::from_str(PHONE_FORMAT_NOTICE))
    }
}

} // verus!
