//! Who sent a message.
use super::basic_type::Sex;
use vstd::prelude::*;

verus! {

/// The sender of a message, as the backend reports them.
#[derive(Debug, Clone)]
pub struct Sender {
    pub user_id: i64,
    pub nickname: String,
    pub sex: Sex,
    pub age: i32,
}

} // verus!
