//! What can go wrong while the adapter starts or runs.

use crate::driver::DriverError;
use crate::taxonomy::TaxError;
use vstd::prelude::*;
use vstd::std_specs::convert::FromSpecImpl;

verus! {

/// The error of the adapter.
#[derive(Debug, PartialEq, Eq)]
pub enum Error {
    /// The registry or one of its channels failed.
    TaxonomyError(TaxError),
    /// The driver failed.
    OpenzwaveError(DriverError),
    /// The adapter's own storage could not be reached.
    UnknownError,
}

/// What lies behind an [`Error`].
#[derive(Debug, PartialEq, Eq)]
pub enum Cause<'a> {
    Taxonomy(&'a TaxError),
    Openzwave(&'a DriverError),
}

impl From<TaxError> for Error {
    fn from(err: TaxError) -> (error: Self) {
        Error::TaxonomyError(err)
    }
}

impl FromSpecImpl<TaxError> for Error {
    open spec fn obeys_from_spec() -> bool {
        true
    }

    open spec fn from_spec(err: TaxError) -> Self {
        Error::TaxonomyError(err)
    }
}

impl From<()> for Error {
    fn from(unit: ()) -> (error: Self) {
        Error::UnknownError
    }
}

impl FromSpecImpl<()> for Error {
    open spec fn obeys_from_spec() -> bool {
        true
    }

    open spec fn from_spec(unit: ()) -> Self {
        Error::UnknownError
    }
}

impl From<DriverError> for Error {
    fn from(error: DriverError) -> (wrapped: Self) {
        Error::OpenzwaveError(error)
    }
}

impl FromSpecImpl<DriverError> for Error {
    open spec fn obeys_from_spec() -> bool {
        true
    }

    open spec fn from_spec(error: DriverError) -> Self {
        Error::OpenzwaveError(error)
    }
}

impl Error {
    /// Which part failed, in two words.
    pub open spec fn description_of(&self) -> Seq<char> {
        match self {
            Error::TaxonomyError(_) => "Taxonomy Error"@,
            Error::OpenzwaveError(_) => "Openzwave Error"@,
            Error::UnknownError => "Unknown error"@,
        }
    }

    /// Which part failed, in two words.
    pub fn description(&self) -> (text: &'static str)
        ensures
            text@ == self.description_of(),
    {
        match self {
            Error::TaxonomyError(_) => "Taxonomy Error",
            Error::OpenzwaveError(_) => "Openzwave Error",
            Error::UnknownError => "Unknown error",
        }
    }

    /// The description, followed by the account of the error that this
    /// error wraps, where it wraps one.
    pub open spec fn message_of(&self) -> Seq<char> {
        match self {
            Error::TaxonomyError(err) => self.description_of() + ": "@ + err.message_of(),
            Error::OpenzwaveError(err) => self.description_of() + ": "@ + err.message_of(),
            Error::UnknownError => self.description_of(),
        }
    }

    /// The error in words: its description, followed by the account of the
    /// error that it wraps, where it wraps one.
    pub fn message(&self) -> (text: String)
        ensures
            text@ == self.message_of(),
    {
        let mut text = String::from_str(self.description());
        match self {
            Error::TaxonomyError(err) => {
                text.append(": ");
                text.append(err.message().as_str());
            },
            Error::OpenzwaveError(err) => {
                text.append(": ");
                text.append(err.message().as_str());
            },
            Error::UnknownError => {},
        }
        text
    }

    /// The error of the registry or of the driver that this error wraps.
    pub fn cause(&self) -> (cause: Option<Cause<'_>>)
        ensures
            match self {
                Error::TaxonomyError(err) => cause == Some(Cause::Taxonomy(err)),
                Error::OpenzwaveError(err) => cause == Some(Cause::Openzwave(err)),
                Error::UnknownError => cause is None,
            },
    {
        match self {
            Error::TaxonomyError(err) => Some(Cause::Taxonomy(err)),
            Error::OpenzwaveError(err) => Some(Cause::Openzwave(err)),
            Error::UnknownError => None,
        }
    }
}

} // verus!
