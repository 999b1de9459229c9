//! What a request to the service can fail with, and what the client is told.

use vstd::prelude::*;
use vstd::std_specs::convert::FromSpecImpl;
use vstd::string::StringExecFns;
use crate::city::settings::error::Error as SettingsError;
use crate::city::GenerateError;

verus! {

/// What is wrong with what the client sent.
#[derive(Debug)]
pub enum InputError {
    /// The settings are wrong.
    BadSettingsStructure(SettingsError),
    /// A distribution cannot be sampled.
    BadDistribution(GenerateError),
}

/// Why a request failed.
#[derive(Debug)]
pub enum Error {
    /// Too many requests are being served.
    Overloaded,
    /// What the client sent is wrong.
    Input(InputError),
    /// The service itself failed.
    Server,
    /// The request is not of the form that the service takes.
    Submission,
}

/// The body of the reply to a failed request.
pub struct ErrorJson {
    pub error: String,
}

impl InputError {
    /// What the client is told about its input.
    pub open spec fn message_text(self) -> Seq<char> {
        match self {
            InputError::BadSettingsStructure(err) =>
                "There was an error with the settings, this is likely a problem with your script, specifically: "@
                + err.message_text(),
            InputError::BadDistribution(err) => "There was a random number sampling issue: "@
                + err.message_text(),
        }
    }

    /// What the client is told about its input.
    pub fn message(&self) -> (r: String)
        ensures
            r@ == self.message_text(),
    {
        match self {
            Self::BadSettingsStructure(err) => {
                let mut r = String::from_str(
                    "There was an error with the settings, this is likely a problem with your script, specifically: ",
                );
                r.append(err.message().as_str());
                r
            },
            Self::BadDistribution(err) => {
                let mut r = String::from_str("There was a random number sampling issue: ");
                r.append(err.message().as_str());
                r
            },
        }
    }
}

impl From<SettingsError> for Error {
    fn from(error: SettingsError) -> (r: Self) {
        Self::Input(InputError::BadSettingsStructure(error))
    }
}

impl FromSpecImpl<SettingsError> for Error {
    open spec fn obeys_from_spec() -> bool {
        true
    }

    /// Wrong settings are wrong input.
    open spec fn from_spec(error: SettingsError) -> Self {
        Error::Input(InputError::BadSettingsStructure(error))
    }
}

impl From<GenerateError> for Error {
    fn from(error: GenerateError) -> (r: Self) {
        match error {
            GenerateError::UnknownDistribution(_) | GenerateError::DistributionInverted { .. } =>
                Self::Input(InputError::BadDistribution(error)),
            GenerateError::StatsRequest(_) => Self::Server,
        }
    }
}

impl FromSpecImpl<GenerateError> for Error {
    open spec fn obeys_from_spec() -> bool {
        true
    }

    /// A distribution that cannot be sampled is wrong input; a failed request
    /// to the sampler is a failure of the service.
    open spec fn from_spec(error: GenerateError) -> Self {
        match error {
            GenerateError::StatsRequest(_) => Error::Server,
            _ => Error::Input(InputError::BadDistribution(error)),
        }
    }
}

impl Error {
    /// What the client is told about the failure.
    pub open spec fn message_text(self) -> Seq<char> {
        match self {
            Error::Overloaded => "Server is overloaded, please try again later."@,
            Error::Input(err) => err.message_text(),
            Error::Server =>
                "There is something wrong with our equipment at the moment, we recommend you stand by and try again in a few hours"@,
            Error::Submission =>
                "If you're using a website to do this, then this is a problem for the developers, please contact them to get it fixed. Otherwise, there was a problem with the JSON you submitted, please submit a POST request to the /generate endpoint with the JSON body {cityscript: <script>}"@,
        }
    }

    /// The HTTP status of the reply: 500 where the service is at fault, 400
    /// where the client is.
    pub open spec fn status_code(self) -> u16 {
        match self {
            Error::Overloaded | Error::Server => 500,
            Error::Input(_) | Error::Submission => 400,
        }
    }

    /// What the client is told about the failure.
    pub fn message(&self) -> (r: String)
        ensures
            r@ == self.message_text(),
    {
        match self {
            Error::Overloaded => String::from_str("Server is overloaded, please try again later."),
            Error::Input(err) => err.message(),
            Error::Server => String::from_str(
                "There is something wrong with our equipment at the moment, we recommend you stand by and try again in a few hours",
            ),
            Error::Submission => String::from_str(
                "If you're using a website to do this, then this is a problem for the developers, please contact them to get it fixed. Otherwise, there was a problem with the JSON you submitted, please submit a POST request to the /generate endpoint with the JSON body {cityscript: <script>}",
            ),
        }
    }

    /// The HTTP status of the reply.
    pub fn status(&self) -> (r: u16)
        ensures
            r == self.status_code(),
    {
        match self {
            Error::Overloaded | Error::Server => 500,
            Error::Input(_) | Error::Submission => 400,
        }
    }

    /// The body of the reply.
    pub fn into_response(&self) -> (r: ErrorJson)
        ensures
            r.error@ == self.message_text(),
    {
        ErrorJson::new(self.message())
    }
}

impl ErrorJson {
    /// A reply body with the given message.
    pub fn new(message: String) -> (r: Self)
        ensures
            r.error == message,
    {
        Self { error: message }
    }
}

} // verus!
