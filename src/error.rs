//! Errors that the library reports.
use vstd::prelude::*;

verus! {

/// A recoverable failure of event dispatch.
#[derive(Clone, Debug)]
pub enum Error {
    /// A pointer event name that no known pointer event has.
    UnknownPointerEvent(String),
}

impl Error {
    /// A description of the error.
    pub fn to_string(&self) -> (r: String)
        ensures
            self matches Error::UnknownPointerEvent(name) ==> r@ == "unknown pointer event: "@
                + name@,
    {
        match self {
            Error::UnknownPointerEvent(name) => {
                let mut text = "unknown pointer event: ".to_owned();
                text.append(name.as_str());
                text
            },
        }
    }
}

} // verus!
