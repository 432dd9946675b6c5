//! The record of irreversible host actions a script has requested.

use vstd::prelude::*;

verus! {

/// One request to log a character into the game world: the irreversible,
/// at-most-once action of the auto-login pattern.
pub struct LoginRequest {
    pub account: String,
    pub character_id: u32,
    pub character_name: String,
}

/// Mathematical abstraction of [`LoginRequest`].
pub struct LoginModel {
    pub account: Seq<char>,
    pub character_id: u32,
    pub character_name: Seq<char>,
}

impl View for LoginRequest {
    type V = LoginModel;

    open spec fn view(&self) -> LoginModel {
        LoginModel {
            account: self.account@,
            character_id: self.character_id,
            character_name: self.character_name@,
        }
    }
}

impl DeepView for LoginRequest {
    type V = LoginModel;

    open spec fn deep_view(&self) -> LoginModel {
        self.view()
    }
}

} // verus!
