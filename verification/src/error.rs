//! The closed set of failures that a controller reports.
use vstd::prelude::*;

verus! {

/// Why an operation on a controller failed.
#[derive(Debug, Clone, PartialEq, Eq)]
pub enum MotorError {
    /// Redundant sources of one quantity disagree, or one of them failed.
    Incoherent,
    /// The backend has no register of this name.
    MissingRegister(String),
    /// Any other failure of the backend, with its own description.
    Backend(String),
    /// A limit whose lower bound is not at most its upper bound.
    InvalidConfig,
}

/// A backend cannot supply or accept the named register (multi-axis layer).
#[derive(Debug, Clone, PartialEq, Eq)]
pub struct MissingRegisterErrror(pub String);

/// A backend cannot supply or accept the named register (single-axis layer).
#[derive(Debug, Clone, PartialEq, Eq)]
pub struct MissingResisterErrror(pub String);

/// `r` is the failure that the backend has no register called `name`.
pub open spec fn is_missing<V>(r: Result<V, MotorError>, name: Seq<char>) -> bool {
    r matches Err(MotorError::MissingRegister(missing)) && missing@ == name
}

/// The text shown for a missing register called `name`.
pub open spec fn missing_register_text(name: Seq<char>) -> Seq<char> {
    "(missing register \""@ + name + "\")"@
}

/// The text shown for incoherent sources.
pub open spec fn incoherent_text() -> Seq<char> {
    "(incoherent values)"@
}

/// The text shown for a rejected limit.
pub open spec fn invalid_config_text() -> Seq<char> {
    "min must be less than max"@
}

/// `format!` with the register's name between the two fixed parts: the
/// result is their concatenation, character for character.
#[verifier::external_body]
fn format_missing_register(name: &String) -> (r: String)
    ensures
        r@ == missing_register_text(name@),
{
    format!("(missing register \"{name}\")")
}

impl MissingRegisterErrror {
    /// The diagnostic text, naming the register.
    pub fn message(&self) -> (r: String)
        ensures
            r@ == missing_register_text(self.0@),
    {
        format_missing_register(&self.0)
    }

    /// This failure as a [`MotorError`].
    pub fn into_error(self) -> (r: MotorError)
        ensures
            r == MotorError::MissingRegister(self.0),
    {
        MotorError::MissingRegister(self.0)
    }
}

impl MissingResisterErrror {
    /// The diagnostic text, naming the register.
    pub fn message(&self) -> (r: String)
        ensures
            r@ == missing_register_text(self.0@),
    {
        format_missing_register(&self.0)
    }

    /// This failure as a [`MotorError`].
    pub fn into_error(self) -> (r: MotorError)
        ensures
            r == MotorError::MissingRegister(self.0),
    {
        MotorError::MissingRegister(self.0)
    }
}

impl MotorError {
    /// What `message` returns, as a sequence of characters.
    pub open spec fn text(self) -> Seq<char> {
        match self {
            MotorError::Incoherent => incoherent_text(),
            MotorError::MissingRegister(name) => missing_register_text(name@),
            MotorError::Backend(description) => description@,
            MotorError::InvalidConfig => invalid_config_text(),
        }
    }

    /// The diagnostic text of this failure.
    pub fn message(&self) -> (r: String)
        ensures
            r@ == self.text(),
    {
        match self {
            MotorError::Incoherent => "(incoherent values)".to_owned(),
            MotorError::MissingRegister(name) => format_missing_register(name),
            MotorError::Backend(description) => description.clone(),
            MotorError::InvalidConfig => "min must be less than max".to_owned(),
        }
    }
}

} // verus!
