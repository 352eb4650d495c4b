use vstd::prelude::*;

verus! {

/// The two ways an access can fail: it would run past the end of the store.
#[derive(Clone, Copy, Debug, PartialEq, Eq, Structural)]
pub enum Error {
    /// A read would move the read cursor past the end of the store.
    ReadOverflow,
    /// A write would move the write cursor past the end of the store.
    WriteOverflow,
}

impl Error {
    /// A sentence that says what went wrong.
    pub fn description(&self) -> (r: &'static str)
        ensures
            *self == Error::ReadOverflow ==> r@ == "buffer overflow for read"@,
            *self == Error::WriteOverflow ==> r@ == "buffer overflow for write"@,
    {
        match self {
            Error::ReadOverflow => "buffer overflow for read",
            Error::WriteOverflow => "buffer overflow for write",
        }
    }
}

} // verus!
