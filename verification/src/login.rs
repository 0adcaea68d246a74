//! The login form: the user types a name and starts chatting under it.
use vstd::prelude::*;

verus! {

/// What the login form shows and does for the name typed so far.
#[derive(Debug)]
pub struct LoginView {
    /// Whether the "Start Chatting!" button is disabled.
    pub start_disabled: bool,
    /// The name that pressing the button stores as the chat's user name;
    /// `None` where the button is disabled.
    pub start_as: Option<String>,
}

/// The login form for the name `username` typed so far: the button is
/// disabled while the name is empty, and pressing it starts the chat under
/// the name exactly as typed.
pub fn login(username: &str) -> (form: LoginView)
    ensures
        form.start_disabled == (username@.len() == 0),
        form.start_as is Some <==> username@.len() > 0,
        form.start_as matches Some(name) ==> name@ == username@,
{
    if username.is_empty() {
        LoginView { start_disabled: true, start_as: None }
    } else {
        LoginView { start_disabled: false, start_as: Some(username.to_owned()) }
    }
}

} // verus!
