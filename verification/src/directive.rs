//! Per-test directives: ignore and expected-panic configuration.

use vstd::prelude::*;

verus! {

/// The value, if any, of an ignore directive: not ignored, ignored with no
/// reason, or ignored with a reason.
#[derive(Debug, Clone, Copy, PartialEq, Eq, Hash)]
pub enum Ignore {
    NoIgnore,
    Ignore(Option<&'static str>),
}

impl Ignore {
    /// Whether the directive asks for the test to be skipped.
    pub fn ignore(&self) -> (r: bool)
        ensures
            r == (*self is Ignore),
    {
        match self {
            Ignore::NoIgnore => false,
            Ignore::Ignore(_) => true,
        }
    }

    /// The reason the directive carries, if any.
    pub fn message(&self) -> (r: Option<&'static str>)
        ensures
            match *self {
                Ignore::NoIgnore => r is None,
                Ignore::Ignore(message) => r == message,
            },
    {
        match *self {
            Ignore::NoIgnore => None,
            Ignore::Ignore(message) => message,
        }
    }
}

impl From<bool> for Ignore {
    /// `false` is not ignored; `true` is ignored with no reason.
    fn from(value: bool) -> (r: Ignore)
    {
        if value {
            Ignore::Ignore(None)
        } else {
            Ignore::NoIgnore
        }
    }
}

impl vstd::std_specs::convert::FromSpecImpl<bool> for Ignore {
    open spec fn obeys_from_spec() -> bool {
        true
    }

    open spec fn from_spec(v: bool) -> Ignore {
        if v {
            Ignore::Ignore(None)
        } else {
            Ignore::NoIgnore
        }
    }
}

impl From<&'static str> for Ignore {
    /// Ignored, with the given reason.
    fn from(value: &'static str) -> (r: Ignore)
    {
        Ignore::Ignore(Some(value))
    }
}

impl vstd::std_specs::convert::FromSpecImpl<&'static str> for Ignore {
    open spec fn obeys_from_spec() -> bool {
        true
    }

    open spec fn from_spec(v: &'static str) -> Ignore {
        Ignore::Ignore(Some(v))
    }
}

impl From<String> for Ignore {
    /// Ignored, with the given reason; the reason is promoted to a
    /// process-lifetime string.
    fn from(value: String) -> (r: Ignore)
        ensures
            match r {
                Ignore::Ignore(Some(m)) => m@ == value@,
                _ => false,
            },
    {
        Ignore::Ignore(Some(leak_string(value)))
    }
}

impl vstd::std_specs::convert::FromSpecImpl<String> for Ignore {
    open spec fn obeys_from_spec() -> bool {
        false
    }

    open spec fn from_spec(v: String) -> Ignore {
        arbitrary()
    }
}

/// The value, if any, of an expected-panic directive: no expectation, must
/// panic with any message, or must panic with a message containing the
/// given substring.
#[derive(Debug, Clone, Copy, PartialEq, Eq, Hash)]
pub enum ShouldPanic {
    No,
    Yes,
    YesWithMessage(&'static str),
}

impl From<bool> for ShouldPanic {
    /// `false` is no expectation; `true` must panic with any message.
    fn from(value: bool) -> (r: ShouldPanic)
    {
        if value {
            ShouldPanic::Yes
        } else {
            ShouldPanic::No
        }
    }
}

impl vstd::std_specs::convert::FromSpecImpl<bool> for ShouldPanic {
    open spec fn obeys_from_spec() -> bool {
        true
    }

    open spec fn from_spec(v: bool) -> ShouldPanic {
        if v {
            ShouldPanic::Yes
        } else {
            ShouldPanic::No
        }
    }
}

impl From<&'static str> for ShouldPanic {
    /// Must panic with a message containing the given substring.
    fn from(value: &'static str) -> (r: ShouldPanic)
    {
        ShouldPanic::YesWithMessage(value)
    }
}

impl vstd::std_specs::convert::FromSpecImpl<&'static str> for ShouldPanic {
    open spec fn obeys_from_spec() -> bool {
        true
    }

    open spec fn from_spec(v: &'static str) -> ShouldPanic {
        ShouldPanic::YesWithMessage(v)
    }
}

impl From<String> for ShouldPanic {
    /// Must panic with a message containing the given substring; the
    /// substring is promoted to a process-lifetime string.
    fn from(value: String) -> (r: ShouldPanic)
        ensures
            match r {
                ShouldPanic::YesWithMessage(m) => m@ == value@,
                _ => false,
            },
    {
        ShouldPanic::YesWithMessage(leak_string(value))
    }
}

impl vstd::std_specs::convert::FromSpecImpl<String> for ShouldPanic {
    open spec fn obeys_from_spec() -> bool {
        false
    }

    open spec fn from_spec(v: String) -> ShouldPanic {
        arbitrary()
    }
}

/// Promotes a string to a value that lives for the rest of the process, so
/// that directive messages outlive the registration pass.
///
/// Relies on `Box::leak`: the leaked reference holds exactly the characters
/// of the boxed string.
#[verifier::external_body]
pub fn leak_string(string: String) -> (r: &'static str)
    ensures
        r@ == string@,
{
    Box::leak(string.into_boxed_str())
}

} // verus!
