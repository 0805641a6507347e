//! The named parameters of the process, read once when it starts.

use crate::error::app_error::{is_failure, is_text, AppError, ErrorKind};
use crate::pairs::{first_value, values_by_name};
use vstd::prelude::*;

verus! {

/// The parameters that the process was started with, each a name and a
/// value. Where a name occurs twice, its first value counts.
pub struct Parameters {
    entries: Vec<(String, String)>,
}

impl View for Parameters {
    type V = Map<Seq<char>, Seq<char>>;

    closed spec fn view(&self) -> Map<Seq<char>, Seq<char>> {
        values_by_name(self.entries@)
    }
}

/// The description of the error for a parameter that was not given.
pub open spec fn undefined_text(parameter: Seq<char>) -> Seq<char> {
    parameter + " is not defined in the environment."@
}

/// Keeps the variables that the process found in its environment.
pub fn init(variables: Vec<(String, String)>) -> (parameters: Parameters)
    ensures
        parameters@ == values_by_name(variables@),
{
    Parameters { entries: variables }
}

/// The value of a parameter. One that was not given is a
/// `ConfigurationError` that names it.
pub fn get(parameters: &Parameters, parameter: &str) -> (result: Result<String, AppError>)
    ensures
        if parameters@.contains_key(parameter@) {
            is_text(result, parameters@[parameter@])
        } else {
            is_failure(result, ErrorKind::ConfigurationError, undefined_text(parameter@))
        },
{
    match first_value(&parameters.entries, parameter) {
        Some(value) => Ok(value),
        None => {
            let detail = String::from_str(parameter).concat(" is not defined in the environment.");
            Err(AppError::ConfigurationError(detail))
        },
    }
}

} // verus!
