//! The engine's error taxonomy. Every error is fatal to a run: the caller
//! reports the message and stops. No variant is ever recovered from, and the
//! library never panics in its place.

use vstd::prelude::*;

verus! {

/// An error of the materialization engine.
///
/// - `EmptyChoices`: a select or multi-select parameter was declared with no
///   choice list; a configuration bug in the template, caught before any
///   prompting.
/// - `BadPattern`: an exclusion glob did not compile.
/// - `AlreadyExists`: the target directory exists and neither force nor
///   append was asked for.
/// - `InvalidChoice`: a selection index fell outside the choice list.
/// - `Render`: the templating evaluator rejected a template.
#[derive(Debug)]
pub enum ScaffoldError {
    EmptyChoices { parameter: String },
    BadPattern { message: String },
    AlreadyExists { path: String },
    InvalidChoice { parameter: String },
    Render { message: String },
}

/// The human-readable text that `message` returns for an error.
pub open spec fn message_spec(e: ScaffoldError) -> Seq<char> {
    match e {
        ScaffoldError::EmptyChoices { parameter } =>
            "cannot make a select parameter with empty values: "@ + parameter@,
        ScaffoldError::BadPattern { message } =>
            "cannot compile exclusion pattern: "@ + message@,
        ScaffoldError::AlreadyExists { path } =>
            "cannot create because it already exists: "@ + path@,
        ScaffoldError::InvalidChoice { parameter } =>
            "selection is out of range for parameter: "@ + parameter@,
        ScaffoldError::Render { message } =>
            "cannot render template: "@ + message@,
    }
}

impl ScaffoldError {
    /// One line of human-readable text describing the error.
    pub fn message(&self) -> (r: String)
        ensures
            r@ == message_spec(*self),
    {
        match self {
            ScaffoldError::EmptyChoices { parameter } => {
                let mut s = "cannot make a select parameter with empty values: ".to_owned();
                s.append(parameter.as_str());
                s
            },
            ScaffoldError::BadPattern { message } => {
                let mut s = "cannot compile exclusion pattern: ".to_owned();
                s.append(message.as_str());
                s
            },
            ScaffoldError::AlreadyExists { path } => {
                let mut s = "cannot create because it already exists: ".to_owned();
                s.append(path.as_str());
                s
            },
            ScaffoldError::InvalidChoice { parameter } => {
                let mut s = "selection is out of range for parameter: ".to_owned();
                s.append(parameter.as_str());
                s
            },
            ScaffoldError::Render { message } => {
                let mut s = "cannot render template: ".to_owned();
                s.append(message.as_str());
                s
            },
        }
    }
}

} // verus!
