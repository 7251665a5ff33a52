use vstd::prelude::*;
use crate::user::User;

verus! {

/// Named result of the outside e-mail check: whether a string of characters
/// has the shape of a valid e-mail address.
pub uninterp spec fn is_email(s: Seq<char>) -> bool;

/// Relies on validator's `ValidateEmail` for `&str`, the HTML5 address
/// shape check; the result depends on the characters alone.
#[verifier::external_body]
fn email_shape_ok(s: &str) -> (r: bool)
    ensures
        r == is_email(s@),
{
    validator::ValidateEmail::validate_email(&s)
}

/// A user candidate is acceptable when the name has at least 3 characters,
/// the e-mail has a valid address shape, and the age lies in [1, 120].
pub open spec fn valid_user(name: Seq<char>, email: Seq<char>, age: int) -> bool {
    name.len() >= 3 && is_email(email) && 1 <= age <= 120
}

/// The outcome of validation: for each field, `Some` reason exactly when
/// that field violates its constraint.
#[derive(Debug)]
pub struct ValidationErrors {
    pub name: Option<String>,
    pub email: Option<String>,
    pub age: Option<String>,
}

/// `v` reports exactly the fields of a candidate with the given `name`,
/// `email` and `age` that violate their constraints, each with its reason.
pub open spec fn validation_of(v: ValidationErrors, name: Seq<char>, email: Seq<char>, age: int) -> bool {
    &&& (v.name is Some <==> name.len() < 3)
    &&& (v.email is Some <==> !is_email(email))
    &&& (v.age is Some <==> !(1 <= age <= 120))
    &&& (v.name is Some ==> v.name->0@ == "Name must be at least 3 characters"@)
    &&& (v.email is Some ==> v.email->0@ == "Email must be a valid email address"@)
    &&& (v.age is Some ==> v.age->0@ == "Age must be between 1 and 120"@)
}

impl ValidationErrors {
    /// No field failed.
    pub open spec fn spec_ok(self) -> bool {
        self.name is None && self.email is None && self.age is None
    }

    /// The reasons of the failed fields, each on a line of its own, in
    /// field order.
    pub open spec fn spec_summary(self) -> Seq<char> {
        (if self.name is Some {
            self.name->0@ + "\n"@
        } else {
            Seq::<char>::empty()
        }) + (if self.email is Some {
            self.email->0@ + "\n"@
        } else {
            Seq::<char>::empty()
        }) + (if self.age is Some {
            self.age->0@ + "\n"@
        } else {
            Seq::<char>::empty()
        })
    }

    /// Renders the failed fields' reasons, one per line.
    pub fn summary(&self) -> (r: String)
        ensures
            r@ == self.spec_summary(),
    {
        let mut out = String::from_str("");
        if let Some(m) = &self.name {
            out.append(m.as_str());
            out.append("\n");
        }
        if let Some(m) = &self.email {
            out.append(m.as_str());
            out.append("\n");
        }
        if let Some(m) = &self.age {
            out.append(m.as_str());
            out.append("\n");
        }
        proof {
            reveal_strlit("");
            assert(out@ =~= self.spec_summary());
        }
        out
    }

    pub fn is_ok(&self) -> (r: bool)
        ensures
            r == self.spec_ok(),
    {
        self.name.is_none() && self.email.is_none() && self.age.is_none()
    }
}

/// Checks the three field constraints independently, collecting every
/// failure rather than stopping at the first, and reports exactly the set
/// of violated fields, each with its reason.
pub fn validate(user: &User) -> (r: ValidationErrors)
    ensures
        validation_of(r, user.name@, user.email@, user.age as int),
        r.spec_ok() <==> valid_user(user.name@, user.email@, user.age as int),
{
    let name_err = if user.name.as_str().unicode_len() < 3 {
        Some(String::from_str("Name must be at least 3 characters"))
    } else {
        None
    };
    let email_err = if !email_shape_ok(user.email.as_str()) {
        Some(String::from_str("Email must be a valid email address"))
    } else {
        None
    };
    let age_err = if user.age < 1 || user.age > 120 {
        Some(String::from_str("Age must be between 1 and 120"))
    } else {
        None
    };
    ValidationErrors { name: name_err, email: email_err, age: age_err }
}

} // verus!
