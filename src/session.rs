//! Who is logged in on a session.
use vstd::prelude::*;

verus! {

/// The identity a client gave: a user name and, once sent, a password.
#[derive(Debug)]
pub struct SessionInformations {
    username: String,
    password: Option<String>,
}

impl SessionInformations {
    /// The user name.
    pub closed spec fn username_view(&self) -> Seq<char> {
        self.username@
    }

    /// The password, if one was given.
    pub closed spec fn password_view(&self) -> Option<Seq<char>> {
        match self.password {
            Some(p) => Some(p@),
            None => None,
        }
    }

    pub fn new(username: String, password: Option<String>) -> (r: SessionInformations)
        ensures
            r.username_view() == username@,
            r.password_view() == (match password {
                Some(p) => Some(p@),
                None => None::<Seq<char>>,
            }),
    {
        SessionInformations { username, password }
    }

    pub fn get_username(&self) -> (r: &str)
        ensures
            r@ == self.username_view(),
    {
        self.username.as_str()
    }

    pub fn get_password(&self) -> (r: Option<&str>)
        ensures
            match r {
                Some(p) => self.password_view() == Some(p@),
                None => self.password_view() is None,
            },
    {
        match &self.password {
            Some(pass) => Some(pass.as_str()),
            None => None,
        }
    }

    pub fn set_password(&mut self, password: String)
        ensures
            final(self).username_view() == old(self).username_view(),
            final(self).password_view() == Some(password@),
    {
        self.password = Some(password);
    }
}

} // verus!
