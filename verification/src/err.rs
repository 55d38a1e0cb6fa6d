//! Errors of the driver core.

use vstd::prelude::*;
use vstd::string::StringExecFns;

verus! {

/// Driver-level failures of the connection layer.
#[derive(Debug)]
pub enum Driver {
    /// The session saw an unrecoverable failure, or its token space ran out;
    /// every later operation fails fast.
    ConnectionBroken,
    /// The session is locked by an active changefeed.
    ConnectionLocked,
    /// The token counter reached its last value.
    TokenExhausted,
    /// A single-result query returned no rows.
    NotFound,
    /// Any other driver-level failure, with a message.
    Other(String),
}

/// Mathematical model of a [`Driver`] error.
pub enum DriverV {
    ConnectionBroken,
    ConnectionLocked,
    TokenExhausted,
    NotFound,
    Other(Seq<char>),
}

/// An error of the library: either a driver failure or a failed conversion
/// of a caller value into the wire format, carried lazily inside a term.
#[derive(Debug)]
pub enum Error {
    Driver(Driver),
    Conversion(String),
}

/// Mathematical model of an [`Error`].
pub enum ErrorV {
    Driver(DriverV),
    Conversion(Seq<char>),
}

impl View for Driver {
    type V = DriverV;

    open spec fn view(&self) -> DriverV {
        match self {
            Driver::ConnectionBroken => DriverV::ConnectionBroken,
            Driver::ConnectionLocked => DriverV::ConnectionLocked,
            Driver::TokenExhausted => DriverV::TokenExhausted,
            Driver::NotFound => DriverV::NotFound,
            Driver::Other(s) => DriverV::Other(s@),
        }
    }
}

impl View for Error {
    type V = ErrorV;

    open spec fn view(&self) -> ErrorV {
        match self {
            Error::Driver(d) => ErrorV::Driver(d@),
            Error::Conversion(s) => ErrorV::Conversion(s@),
        }
    }
}

impl Clone for Driver {
    fn clone(&self) -> (r: Self)
        ensures
            r@ == self@,
    {
        match self {
            Driver::ConnectionBroken => Driver::ConnectionBroken,
            Driver::ConnectionLocked => Driver::ConnectionLocked,
            Driver::TokenExhausted => Driver::TokenExhausted,
            Driver::NotFound => Driver::NotFound,
            Driver::Other(s) => Driver::Other(s.clone()),
        }
    }
}

impl Clone for Error {
    fn clone(&self) -> (r: Self)
        ensures
            r@ == self@,
    {
        match self {
            Error::Driver(d) => Error::Driver(d.clone()),
            Error::Conversion(s) => Error::Conversion(s.clone()),
        }
    }
}

impl Error {
    /// A short text for the error, for callers that print it.
    pub fn message(&self) -> (r: String)
        ensures
            self@ == ErrorV::Driver(DriverV::ConnectionBroken) ==> r@ == "connection broken"@,
            self@ == ErrorV::Driver(DriverV::ConnectionLocked) ==> r@
                == "connection locked by a changefeed"@,
            self@ == ErrorV::Driver(DriverV::TokenExhausted) ==> r@ == "token space exhausted"@,
            self@ == ErrorV::Driver(DriverV::NotFound) ==> r@ == "not found"@,
            self@ matches ErrorV::Driver(DriverV::Other(m)) ==> r@ == m,
            self@ matches ErrorV::Conversion(m) ==> r@ == m,
    {
        match self {
            Error::Driver(Driver::ConnectionBroken) => String::from_str("connection broken"),
            Error::Driver(Driver::ConnectionLocked) => String::from_str(
                "connection locked by a changefeed",
            ),
            Error::Driver(Driver::TokenExhausted) => String::from_str("token space exhausted"),
            Error::Driver(Driver::NotFound) => String::from_str("not found"),
            Error::Driver(Driver::Other(s)) => s.clone(),
            Error::Conversion(s) => s.clone(),
        }
    }
}

} // verus!
