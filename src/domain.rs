//! Validated subscriber values: a name, an email address and the pair of them.

use crate::subscriptions::FormData;
use crate::validation::{is_valid_email, is_valid_name, is_valid_name_spec, validate_email};
use vstd::prelude::*;

verus! {

/// Why the input of a subscription was refused.
#[derive(Clone, Copy, Debug, PartialEq, Eq, Structural)]
pub enum ValidationError {
    MissingBoth,
    MissingName,
    MissingEmail,
    InvalidName,
    InvalidEmail,
}

/// The message shown to a caller for each refusal.
pub open spec fn message_of(e: ValidationError) -> Seq<char> {
    match e {
        ValidationError::MissingBoth => "missing both name and email"@,
        ValidationError::MissingName => "missing the name"@,
        ValidationError::MissingEmail => "missing the email"@,
        ValidationError::InvalidName => "has an invalid name"@,
        ValidationError::InvalidEmail => "has an invalid email"@,
    }
}

impl ValidationError {
    /// The human-readable message for this refusal.
    pub fn message(&self) -> (r: String)
        ensures
            r@ == message_of(*self),
    {
        match self {
            ValidationError::MissingBoth => String::from_str("missing both name and email"),
            ValidationError::MissingName => String::from_str("missing the name"),
            ValidationError::MissingEmail => String::from_str("missing the email"),
            ValidationError::InvalidName => String::from_str("has an invalid name"),
            ValidationError::InvalidEmail => String::from_str("has an invalid email"),
        }
    }
}

/// A subscriber name that meets the name rules; built only by `parse`.
#[derive(Debug)]
pub struct SubscriberName {
    name: String,
}

impl View for SubscriberName {
    type V = Seq<char>;

    closed spec fn view(&self) -> Seq<char> {
        self.name@
    }
}

impl SubscriberName {
    #[verifier::type_invariant]
    spec fn holds_valid_name(&self) -> bool {
        is_valid_name_spec(self.name@)
    }

    /// Accepts `raw` unchanged if it is a valid name, else `InvalidName`.
    pub fn parse(raw: String) -> (r: Result<SubscriberName, ValidationError>)
        ensures
            r is Ok <==> is_valid_name_spec(raw@),
            r matches Ok(n) ==> n@ == raw@,
            r matches Err(e) ==> e == ValidationError::InvalidName,
    {
        if is_valid_name(raw.as_str()) {
            Ok(SubscriberName { name: raw })
        } else {
            Err(ValidationError::InvalidName)
        }
    }

    /// The name as text.
    pub fn as_ref(&self) -> (r: &str)
        ensures
            r@ == self@,
            is_valid_name_spec(r@),
    {
        proof {
            use_type_invariant(self);
        }
        self.name.as_str()
    }
}

/// An email address that reads `local@domain.tld`; built only by `parse`.
#[derive(Debug)]
pub struct SubscriberEmail {
    email: String,
}

impl View for SubscriberEmail {
    type V = Seq<char>;

    closed spec fn view(&self) -> Seq<char> {
        self.email@
    }
}

impl SubscriberEmail {
    #[verifier::type_invariant]
    spec fn holds_valid_email(&self) -> bool {
        is_valid_email(self.email@)
    }

    /// Accepts `raw` unchanged if it is a valid address, else `InvalidEmail`.
    pub fn parse(raw: String) -> (r: Result<SubscriberEmail, ValidationError>)
        ensures
            r is Ok <==> is_valid_email(raw@),
            r matches Ok(e) ==> e@ == raw@,
            r matches Err(e) ==> e == ValidationError::InvalidEmail,
    {
        if validate_email(raw.as_str()) {
            Ok(SubscriberEmail { email: raw })
        } else {
            Err(ValidationError::InvalidEmail)
        }
    }

    /// The address as text.
    pub fn as_ref(&self) -> (r: &str)
        ensures
            r@ == self@,
            is_valid_email(r@),
    {
        proof {
            use_type_invariant(self);
        }
        self.email.as_str()
    }
}

/// A subscriber whose name and email address have both been validated.
#[derive(Debug)]
pub struct NewSubscriber {
    pub email: SubscriberEmail,
    pub name: SubscriberName,
}

impl TryFrom<FormData> for NewSubscriber {
    type Error = ValidationError;

    /// Parses the name, then the email address, of `value`.
    fn try_from(value: FormData) -> (r: Result<NewSubscriber, ValidationError>)
        ensures
            r is Ok <==> is_valid_name_spec(value.name@) && is_valid_email(value.email@),
            r matches Ok(s) ==> s.name@ == value.name@ && s.email@ == value.email@,
            r matches Err(e) ==> e == if !is_valid_name_spec(value.name@) {
                ValidationError::InvalidName
            } else {
                ValidationError::InvalidEmail
            },
    {
        let name = match SubscriberName::parse(value.name) {
            Ok(n) => n,
            Err(e) => return Err(e),
        };
        let email = match SubscriberEmail::parse(value.email) {
            Ok(m) => m,
            Err(e) => return Err(e),
        };
        Ok(NewSubscriber { email, name })
    }
}

impl vstd::std_specs::convert::TryFromSpecImpl<FormData> for NewSubscriber {
    /// What `try_from` returns is stated by its own `ensures`.
    open spec fn obeys_try_from_spec() -> bool {
        false
    }

    open spec fn try_from_spec(v: FormData) -> Result<NewSubscriber, ValidationError> {
        arbitrary()
    }
}

} // verus!
