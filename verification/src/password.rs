use vstd::prelude::*;
use crate::errors::UserStoreError;

verus! {

/// A login password, validated to hold at least eight characters. It is
/// used only at the moment of signup or login and never persisted by the
/// relational directory, which stores a one-way digest instead.
#[derive(Debug, Eq)]
pub struct Password(String);

impl View for Password {
    type V = Seq<char>;

    closed spec fn view(&self) -> Seq<char> {
        self.0@
    }
}

impl Clone for Password {
    fn clone(&self) -> (r: Self)
        ensures
            r@ == self@,
    {
        Password(self.0.clone())
    }
}

impl PartialEq for Password {
    fn eq(&self, other: &Self) -> (r: bool) {
        self.0 == other.0
    }
}

impl vstd::std_specs::cmp::PartialEqSpecImpl for Password {
    open spec fn obeys_eq_spec() -> bool {
        true
    }

    open spec fn eq_spec(&self, other: &Self) -> bool {
        self@ == other@
    }
}

impl Password {
    /// Whether a character sequence is an acceptable password.
    pub open spec fn spec_valid(s: Seq<char>) -> bool {
        s.len() >= 8
    }

    /// Accepts exactly the strings of at least eight characters.
    pub fn parse(password: &str) -> (r: Result<Self, UserStoreError>)
        ensures
            Self::spec_valid(password@) ==> (r matches Ok(p) && p@ == password@),
            !Self::spec_valid(password@) ==> r == Err::<Self, _>(UserStoreError::InvalidCredentials),
    {
        if password.unicode_len() >= 8 {
            Ok(Password(password.to_owned()))
        } else {
            Err(UserStoreError::InvalidCredentials)
        }
    }

    /// The password's characters, for hashing or comparison.
    pub fn as_ref(&self) -> (r: &str)
        ensures
            r@ == self@,
    {
        self.0.as_str()
    }
}

} // verus!
