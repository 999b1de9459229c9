//! The values that settings can hold.

use vstd::prelude::*;
use vstd::std_specs::convert::{FromSpecImpl, TryFromSpecImpl};

verus! {

/// The value of a setting: text, a whole number, a fixed-point number or a
/// truth value.
pub enum Setting {
    String(String),
    Uint(u32),
    Float(i64),
    Bool(bool),
}

/// Why a setting could not be read as a value.
pub enum Error {
    /// The setting holds a value of another type.
    WrongType,
}

impl TryFrom<&Setting> for String {
    type Error = Error;

    fn try_from(from: &Setting) -> (r: Result<Self, Error>) {
        if let Setting::String(string) = from {
            Ok(string.clone())
        } else {
            Err(Error::WrongType)
        }
    }
}

impl TryFromSpecImpl<&Setting> for String {
    open spec fn obeys_try_from_spec() -> bool {
        true
    }

    open spec fn try_from_spec(from: &Setting) -> Result<Self, Error> {
        match *from {
            Setting::String(string) => Ok(string),
            _ => Err(Error::WrongType),
        }
    }
}

impl TryFrom<&Setting> for u32 {
    type Error = Error;

    fn try_from(from: &Setting) -> (r: Result<Self, Error>) {
        if let Setting::Uint(integer) = from {
            Ok(*integer)
        } else {
            Err(Error::WrongType)
        }
    }
}

impl TryFromSpecImpl<&Setting> for u32 {
    open spec fn obeys_try_from_spec() -> bool {
        true
    }

    open spec fn try_from_spec(from: &Setting) -> Result<Self, Error> {
        match *from {
            Setting::Uint(integer) => Ok(integer),
            _ => Err(Error::WrongType),
        }
    }
}

impl TryFrom<&Setting> for i64 {
    type Error = Error;

    fn try_from(from: &Setting) -> (r: Result<Self, Error>) {
        if let Setting::Float(float) = from {
            Ok(*float)
        } else {
            Err(Error::WrongType)
        }
    }
}

impl TryFromSpecImpl<&Setting> for i64 {
    open spec fn obeys_try_from_spec() -> bool {
        true
    }

    open spec fn try_from_spec(from: &Setting) -> Result<Self, Error> {
        match *from {
            Setting::Float(float) => Ok(float),
            _ => Err(Error::WrongType),
        }
    }
}

impl TryFrom<&Setting> for bool {
    type Error = Error;

    fn try_from(from: &Setting) -> (r: Result<Self, Error>) {
        if let Setting::Bool(boolean) = from {
            Ok(*boolean)
        } else {
            Err(Error::WrongType)
        }
    }
}

impl TryFromSpecImpl<&Setting> for bool {
    open spec fn obeys_try_from_spec() -> bool {
        true
    }

    open spec fn try_from_spec(from: &Setting) -> Result<Self, Error> {
        match *from {
            Setting::Bool(boolean) => Ok(boolean),
            _ => Err(Error::WrongType),
        }
    }
}

impl From<String> for Setting {
    fn from(from: String) -> (r: Self) {
        Self::String(from)
    }
}

impl FromSpecImpl<String> for Setting {
    open spec fn obeys_from_spec() -> bool {
        true
    }

    open spec fn from_spec(from: String) -> Self {
        Setting::String(from)
    }
}

impl From<u32> for Setting {
    fn from(from: u32) -> (r: Self) {
        Self::Uint(from)
    }
}

impl FromSpecImpl<u32> for Setting {
    open spec fn obeys_from_spec() -> bool {
        true
    }

    open spec fn from_spec(from: u32) -> Self {
        Setting::Uint(from)
    }
}

impl From<i64> for Setting {
    fn from(from: i64) -> (r: Self) {
        Self::Float(from)
    }
}

impl FromSpecImpl<i64> for Setting {
    open spec fn obeys_from_spec() -> bool {
        true
    }

    open spec fn from_spec(from: i64) -> Self {
        Setting::Float(from)
    }
}

impl From<bool> for Setting {
    fn from(from: bool) -> (r: Self) {
        Self::Bool(from)
    }
}

impl FromSpecImpl<bool> for Setting {
    open spec fn obeys_from_spec() -> bool {
        true
    }

    open spec fn from_spec(from: bool) -> Self {
        Setting::Bool(from)
    }
}

} // verus!
