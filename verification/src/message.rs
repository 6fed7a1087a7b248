//! What a client sends to sign in or to change a password.

use vstd::prelude::*;

verus! {

/// The credentials of a sign-in.
#[derive(Debug)]
pub struct LoginInfo {
    pub email: String,
    pub password: String,
}

impl Clone for LoginInfo {
    fn clone(&self) -> (copy: Self)
        ensures
            copy == *self,
    {
        LoginInfo { email: self.email.clone(), password: self.password.clone() }
    }
}

impl Default for LoginInfo {
    fn default() -> (info: Self)
        ensures
            info.email@.len() == 0,
            info.password@.len() == 0,
    {
        LoginInfo { email: String::new(), password: String::new() }
    }
}

/// The old and the new password of a password change.
#[derive(Debug)]
pub struct ChangePasswordInfo {
    pub old_password: String,
    pub new_password: String,
}

impl Clone for ChangePasswordInfo {
    fn clone(&self) -> (copy: Self)
        ensures
            copy == *self,
    {
        ChangePasswordInfo {
            old_password: self.old_password.clone(),
            new_password: self.new_password.clone(),
        }
    }
}

impl Default for ChangePasswordInfo {
    fn default() -> (info: Self)
        ensures
            info.old_password@.len() == 0,
            info.new_password@.len() == 0,
    {
        ChangePasswordInfo { old_password: String::new(), new_password: String::new() }
    }
}

/// Settings that a client may send; none are defined.
#[derive(Clone, Copy, Debug)]
pub struct Settings {}

} // verus!
