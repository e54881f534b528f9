use vstd::prelude::*;

verus! {

/// The one failure kind of this library: an I/O failure with a description.
#[derive(Debug)]
pub struct Error(pub String);

impl Error {
    /// The description carried by the error.
    pub fn message(&self) -> (r: &str)
        ensures
            r@ == self.0@,
    {
        self.0.as_str()
    }
}

} // verus!
