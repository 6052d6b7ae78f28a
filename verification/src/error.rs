//! The error taxonomy of the acquisition routines.

use vstd::prelude::*;
use vstd::string::StringExecFns;

verus! {

/// An acquisition or presentation failure.
///
/// Platform-layer failures (display, surface, or context creation, making a
/// context current, presenting a frame) are kept apart from failures to
/// resolve a raw window or display handle. An enumeration that matches no
/// configuration at all is reported as its own recoverable variant rather
/// than aborting.
#[derive(Debug, PartialEq, Eq)]
pub enum Error {
    /// The window system or driver reported a failure; the payload describes it.
    Platform(String),
    /// A raw window or display handle could not be resolved.
    Handle(String),
    /// No configuration matched the template.
    NoConfigs,
}

impl Error {
    /// The rendered form of this error.
    pub open spec fn spec_message(self) -> Seq<char> {
        match self {
            Error::Platform(m) => "platform error: "@ + m@,
            Error::Handle(m) => "handle error: "@ + m@,
            Error::NoConfigs => "no matching configurations"@,
        }
    }

    /// Render this error as one line of text.
    pub fn message(&self) -> (r: String)
        ensures
            r@ == self.spec_message(),
    {
        match self {
            Error::Platform(m) => {
                let mut s = String::from_str("platform error: ");
                s.append(m.as_str());
                proof {
                    assert(s@ =~= self.spec_message());
                }
                s
            },
            Error::Handle(m) => {
                let mut s = String::from_str("handle error: ");
                s.append(m.as_str());
                proof {
                    assert(s@ =~= self.spec_message());
                }
                s
            },
            Error::NoConfigs => String::from_str("no matching configurations"),
        }
    }
}

} // verus!
