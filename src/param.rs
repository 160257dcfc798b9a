use vstd::prelude::*;

use crate::error::ParamError;

verus! {

/// The most characters an animal selector may have.
pub const MAX_SELECTOR_CHARS: u64 = 24;

/// The `animal` query parameter of a fact request.
#[derive(Debug)]
pub struct Param {
    pub animal: Option<String>,
}

/// Relies on `validator::validate_required`: true exactly when a value is present.
#[verifier::external_body]
fn required(v: &Option<String>) -> (r: bool)
    ensures
        r == v is Some,
{
    validator::validate_required(v)
}

/// Relies on `validator::validate_length` with only a maximum: for a `&str` it
/// counts characters and accepts a count of at most `max`.
#[verifier::external_body]
fn at_most_chars(s: &str, max: u64) -> (r: bool)
    ensures
        r == (s@.len() <= max),
{
    validator::validate_length(s, None, Some(max), None)
}

impl Param {
    /// The characters of the parameter, if one was given.
    pub open spec fn raw(&self) -> Option<Seq<char>> {
        match self.animal {
            Some(s) => Some(s@),
            None => None,
        }
    }

    /// Why the parameter is rejected, if it is.
    pub open spec fn rejection(&self) -> Option<ParamError> {
        match self.raw() {
            None => Some(ParamError::Missing),
            Some(s) => if s.len() > MAX_SELECTOR_CHARS {
                Some(ParamError::TooLong)
            } else {
                None
            },
        }
    }

    pub fn new(animal: Option<String>) -> (r: Param)
        ensures
            r.animal == animal,
    {
        Param { animal }
    }

    /// Checks that the parameter is present and at most
    /// `MAX_SELECTOR_CHARS` characters long.
    pub fn validate(&self) -> (r: Result<(), ParamError>)
        ensures
            r is Ok <==> self.rejection() is None,
            r matches Err(e) ==> self.rejection() == Some(e),
    {
        if !required(&self.animal) {
            return Err(ParamError::Missing);
        }
        match &self.animal {
            Some(s) => {
                if at_most_chars(s.as_str(), MAX_SELECTOR_CHARS) {
                    Ok(())
                } else {
                    Err(ParamError::TooLong)
                }
            },
            None => Err(ParamError::Missing),
        }
    }
}

} // verus!
