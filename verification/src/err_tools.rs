use vstd::prelude::*;
use vstd::string::StringExecFns;

verus! {

/// A simple error type carrying a human-readable message.
#[derive(Debug)]
pub struct ErrorX {
    details: String,
}

impl View for ErrorX {
    type V = Seq<char>;

    closed spec fn view(&self) -> Seq<char> {
        self.details@
    }
}

impl ErrorX {
    /// Builds an error out of the given message.
    pub fn new(msg: &str) -> (e: ErrorX)
        ensures
            e@ == msg@,
    {
        ErrorX { details: String::from_str(msg) }
    }

    /// Builds a boxed error out of the given message.
    pub fn new_box(msg: &str) -> (e: Box<ErrorX>)
        ensures
            e@ == msg@,
    {
        Box::new(ErrorX::new(msg))
    }

    /// The message this error carries.
    pub fn description(&self) -> (r: &str)
        ensures
            r@ == self@,
    {
        self.details.as_str()
    }
}

} // verus!
