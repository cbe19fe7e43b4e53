use vstd::prelude::*;
use crate::errors::UserStoreError;

verus! {

/// Whether a character sequence is an acceptable email address.
///
/// Names the verdict of `validator::ValidateEmail::validate_email` on a
/// string holding exactly these characters: that verdict depends on the
/// characters alone.
pub uninterp spec fn email_ok(s: Seq<char>) -> bool;

/// Relies on validator's `ValidateEmail::validate_email` for `&str`: it
/// checks the address shape of the string and nothing else.
#[verifier::external_body]
fn validate_email_str(email: &str) -> (r: bool)
    ensures
        r == email_ok(email@),
{
    validator::ValidateEmail::validate_email(&email)
}

/// A validated email address; equality and the view go by its characters.
#[derive(Debug, Eq, Hash)]
pub struct Email(String);

impl View for Email {
    type V = Seq<char>;

    closed spec fn view(&self) -> Seq<char> {
        self.0@
    }
}

impl Clone for Email {
    fn clone(&self) -> (r: Self)
        ensures
            r@ == self@,
    {
        Email(self.0.clone())
    }
}

impl PartialEq for Email {
    fn eq(&self, other: &Self) -> (r: bool) {
        self.0 == other.0
    }
}

impl vstd::std_specs::cmp::PartialEqSpecImpl for Email {
    open spec fn obeys_eq_spec() -> bool {
        true
    }

    open spec fn eq_spec(&self, other: &Self) -> bool {
        self@ == other@
    }
}

impl Email {
    /// Accepts exactly the strings whose shape the address validator accepts.
    pub fn parse(email: &str) -> (r: Result<Self, UserStoreError>)
        ensures
            email_ok(email@) ==> (r matches Ok(e) && e@ == email@),
            !email_ok(email@) ==> r == Err::<Self, _>(UserStoreError::InvalidEmail),
    {
        if validate_email_str(email) {
            Ok(Email(email.to_owned()))
        } else {
            Err(UserStoreError::InvalidEmail)
        }
    }

    /// The address as a string slice.
    pub fn as_ref(&self) -> (r: &str)
        ensures
            r@ == self@,
    {
        self.0.as_str()
    }
}

} // verus!
