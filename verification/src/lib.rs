//! Typed reading of environment variables.
//!
//! An environment variable is always a string, or absent, or not valid
//! Unicode; application code wants typed values with structured errors.
//! The retrieval functions here turn the raw outcome of one environment
//! lookup (a [`Raw`] value, produced by the caller's platform glue) into a
//! typed value, distinguishing "not set", "not valid text" and "not
//! parseable". The process environment itself is never touched here: every
//! function is a pure function of the key and the looked-up raw value.

use vstd::prelude::*;

pub mod custom;
pub mod parse;

pub use custom::Custom;

verus! {

use crate::parse::Parse;
use crate::parse::result_deep_view;

/// The raw outcome of looking one variable up in the process environment.
///
/// Fetching this value is the caller's business (it is the single point of
/// contact with the operating system); everything after the lookup is done
/// by the functions of this crate.
pub enum Raw {
    /// The variable is not set.
    Absent,
    /// The variable is set but its bytes are not valid Unicode.
    NonUnicode,
    /// The variable is set to this text.
    Present(String),
}

/// Error from reading the env var.
#[derive(Debug)]
pub struct Error<T> {
    /// The environment variable name.
    pub key: &'static str,
    /// The reason for the error.
    pub reason: T,
}

impl<T: DeepView> DeepView for Error<T> {
    type V = Error<<T as DeepView>::V>;

    open spec fn deep_view(&self) -> Error<<T as DeepView>::V> {
        Error { key: self.key, reason: self.reason.deep_view() }
    }
}

impl<T> Error<T> {
    /// Create a new [`Error`].
    pub fn new(key: &'static str, reason: T) -> (r: Error<T>)
        ensures
            r.key == key,
            r.reason == reason,
    {
        Error { key, reason }
    }

    /// Map the reason to change the error type.
    pub fn map_reason<U, F>(self, map: F) -> (r: Error<U>) where F: FnOnce(T) -> U
        requires
            call_requires(map, (self.reason,)),
        ensures
            r.key == self.key,
            call_ensures(map, (self.reason,), r.reason),
    {
        let Error { key, reason } = self;
        let reason = (map)(reason);
        Error { key, reason }
    }
}

/// Error while processing the value.
#[derive(Debug)]
pub enum ValueError<T> {
    /// The value was not a valid unicode.
    NonUnicode,
    /// The value could not be parsed from a string.
    Parse(T),
}

impl<T: DeepView> DeepView for ValueError<T> {
    type V = ValueError<<T as DeepView>::V>;

    open spec fn deep_view(&self) -> ValueError<<T as DeepView>::V> {
        match self {
            ValueError::NonUnicode => ValueError::NonUnicode,
            ValueError::Parse(e) => ValueError::Parse(e.deep_view()),
        }
    }
}

/// Error while processing a required variable.
#[derive(Debug)]
pub enum MustError<T> {
    /// The variable was not set.
    NotSet,
    /// The value couldn't be processed.
    Value(ValueError<T>),
}

impl<T: DeepView> DeepView for MustError<T> {
    type V = MustError<<T as DeepView>::V>;

    open spec fn deep_view(&self) -> MustError<<T as DeepView>::V> {
        match self {
            MustError::NotSet => MustError::NotSet,
            MustError::Value(e) => MustError::Value(e.deep_view()),
        }
    }
}

/// Error while processing a variable or parsing its default.
#[derive(Debug)]
pub enum OrParseError<T> {
    /// The value couldn't be processed.
    Value(ValueError<T>),
    /// The default could not be properly parsed.
    ParseDefault(T),
}

impl<T: DeepView> DeepView for OrParseError<T> {
    type V = OrParseError<<T as DeepView>::V>;

    open spec fn deep_view(&self) -> OrParseError<<T as DeepView>::V> {
        match self {
            OrParseError::Value(e) => OrParseError::Value(e.deep_view()),
            OrParseError::ParseDefault(e) => OrParseError::ParseDefault(e.deep_view()),
        }
    }
}

/// What an optional retrieval of `key` yields, given the raw outcome `raw`
/// of looking `key` up: no value when the variable is absent, the parsed
/// value when its text parses, and the narrowest applicable error
/// otherwise, always carrying the queried key.
pub open spec fn spec_maybe<T: Parse>(key: &'static str, raw: Raw) -> Result<
    Option<<T as DeepView>::V>,
    Error<ValueError<<T::Err as DeepView>::V>>,
> {
    match raw {
        Raw::Absent => Ok(None),
        Raw::NonUnicode => Err(Error { key, reason: ValueError::NonUnicode }),
        Raw::Present(s) => match T::spec_from_str(s@) {
            Ok(v) => Ok(Some(v)),
            Err(e) => Err(Error { key, reason: ValueError::Parse(e) }),
        },
    }
}

/// What a required retrieval of `key` yields: as the optional one, except
/// that an absent variable is the error `NotSet` and any value error is
/// re-classified under `MustError::Value`, preserving the key.
pub open spec fn spec_must<T: Parse>(key: &'static str, raw: Raw) -> Result<
    <T as DeepView>::V,
    Error<MustError<<T::Err as DeepView>::V>>,
> {
    match spec_maybe::<T>(key, raw) {
        Ok(Some(v)) => Ok(v),
        Ok(None) => Err(Error { key, reason: MustError::NotSet }),
        Err(e) => Err(Error { key: e.key, reason: MustError::Value(e.reason) }),
    }
}

/// What a retrieval of `key` with the fallback value `default` yields: as
/// the optional one, except that an absent variable yields `default`.
pub open spec fn spec_or<T: Parse>(key: &'static str, raw: Raw, default: T) -> Result<
    <T as DeepView>::V,
    Error<ValueError<<T::Err as DeepView>::V>>,
> {
    match spec_maybe::<T>(key, raw) {
        Ok(Some(v)) => Ok(v),
        Ok(None) => Ok(default.deep_view()),
        Err(e) => Err(e),
    }
}

/// What a retrieval of `key` with the textual fallback `default` yields:
/// any error of the optional retrieval re-classified under
/// `OrParseError::Value`; an absent variable yields the parse of `default`,
/// whose failure is the distinct error `ParseDefault`.
pub open spec fn spec_or_parse<T: Parse>(key: &'static str, raw: Raw, default: Seq<char>) -> Result<
    <T as DeepView>::V,
    Error<OrParseError<<T::Err as DeepView>::V>>,
> {
    match spec_maybe::<T>(key, raw) {
        Ok(Some(v)) => Ok(v),
        Ok(None) => match T::spec_from_str(default) {
            Ok(v) => Ok(v),
            Err(e) => Err(Error { key, reason: OrParseError::ParseDefault(e) }),
        },
        Err(e) => Err(Error { key: e.key, reason: OrParseError::Value(e.reason) }),
    }
}

/// Get the value of environment variable `key`, looked up as `raw`, and
/// parse it into the type `T` if the variable is set.
/// If the variable is not set - returns [`None`].
/// Returns an error if the value is an invalid unicode or if the value
/// could not be parsed.
pub fn maybe<T: Parse>(key: &'static str, raw: &Raw) -> (r: Result<
    Option<T>,
    Error<ValueError<T::Err>>,
>)
    ensures
        result_deep_view(r) == spec_maybe::<T>(key, *raw),
{
    match raw {
        Raw::Absent => Ok(None),
        Raw::NonUnicode => Err(Error::new(key, ValueError::NonUnicode)),
        Raw::Present(s) => match T::from_str(s.as_str()) {
            Ok(v) => Ok(Some(v)),
            Err(e) => Err(Error::new(key, ValueError::Parse(e))),
        },
    }
}

/// Get the value of environment variable `key`, looked up as `raw`, and
/// parse it into the type `T` if the variable is set.
/// Returns an error if the value is not set, is an invalid unicode or if
/// the value could not be parsed.
pub fn must<T: Parse>(key: &'static str, raw: &Raw) -> (r: Result<
    T,
    Error<MustError<T::Err>>,
>)
    ensures
        result_deep_view(r) == spec_must::<T>(key, *raw),
{
    match maybe::<T>(key, raw) {
        Ok(Some(val)) => Ok(val),
        Ok(None) => Err(Error::new(key, MustError::NotSet)),
        Err(err) => {
            let wrap = |reason: ValueError<T::Err>| -> (res: MustError<T::Err>)
                ensures
                    res == MustError::Value(reason),
                { MustError::Value(reason) };
            Err(err.map_reason(wrap))
        },
    }
}

/// Get the value of environment variable `key`, looked up as `raw`, and
/// parse it into the type `T` if the variable is set.
/// If the variable is not set - returns the `default` argument.
/// Returns an error if the value is an invalid unicode or if the value
/// could not be parsed.
pub fn or<T: Parse>(key: &'static str, raw: &Raw, default: T) -> (r: Result<
    T,
    Error<ValueError<T::Err>>,
>)
    ensures
        result_deep_view(r) == spec_or::<T>(key, *raw, default),
{
    match maybe::<T>(key, raw) {
        Ok(Some(val)) => Ok(val),
        Ok(None) => Ok(default),
        Err(err) => Err(err),
    }
}

/// Get the value of environment variable `key`, looked up as `raw`, and
/// parse it into the type `T` if the variable is set.
/// If the variable is not set - returns the result of calling the `default`
/// argument; `default` is invoked only in that case.
/// Returns an error if the value is an invalid unicode or if the value
/// could not be parsed.
pub fn or_else<T: Parse, F: FnOnce() -> T>(key: &'static str, raw: &Raw, default: F) -> (r: Result<
    T,
    Error<ValueError<T::Err>>,
>)
    requires
        raw is Absent ==> call_requires(default, ()),
    ensures
        raw is Absent ==> (r matches Ok(v) && call_ensures(default, (), v)),
        !(raw is Absent) ==> (match spec_maybe::<T>(key, *raw) {
            Ok(opt) => opt matches Some(v) && r matches Ok(x) && x.deep_view() == v,
            Err(e) => r matches Err(x) && x.deep_view() == e,
        }),
{
    match maybe::<T>(key, raw) {
        Ok(Some(val)) => Ok(val),
        Ok(None) => Ok(default()),
        Err(err) => Err(err),
    }
}

/// Get the value of environment variable `key`, looked up as `raw`, and
/// parse it into the type `T` if the variable is set.
/// If the variable is not set - returns the result of parsing the `default`
/// argument.
/// Returns an error if the variable value is an invalid unicode or if the
/// value could not be parsed, or if the default could not be parsed.
pub fn or_parse<T: Parse>(key: &'static str, raw: &Raw, default: &str) -> (r: Result<
    T,
    Error<OrParseError<T::Err>>,
>)
    ensures
        result_deep_view(r) == spec_or_parse::<T>(key, *raw, default@),
{
    let val = match maybe::<T>(key, raw) {
        Ok(val) => val,
        Err(err) => {
            let wrap = |reason: ValueError<T::Err>| -> (res: OrParseError<T::Err>)
                ensures
                    res == OrParseError::Value(reason),
                { OrParseError::Value(reason) };
            return Err(err.map_reason(wrap));
        },
    };
    if let Some(val) = val {
        return Ok(val);
    }
    match T::from_str(default) {
        Ok(val) => Ok(val),
        Err(err) => Err(Error::new(key, OrParseError::ParseDefault(err))),
    }
}

/// An absent variable is no error for the optional retrieval; it is the
/// error `NotSet` for the required one; `or` yields the ready fallback
/// unchanged; `or_parse` yields the parse of the textual fallback, whose
/// failure is the distinct error `ParseDefault`. Every error carries the
/// queried key.
pub proof fn law_absent<T: Parse>(key: &'static str, default: T, default_text: Seq<char>)
    ensures
        spec_maybe::<T>(key, Raw::Absent) matches Ok(v) && v is None,
        spec_must::<T>(key, Raw::Absent) matches Err(e) && e.key == key && e.reason is NotSet,
        spec_or::<T>(key, Raw::Absent, default) matches Ok(v) && v == default.deep_view(),
        T::spec_from_str(default_text) matches Ok(v) ==> (spec_or_parse::<T>(
            key,
            Raw::Absent,
            default_text,
        ) matches Ok(w) && w == v),
        T::spec_from_str(default_text) matches Err(e) ==> (spec_or_parse::<T>(
            key,
            Raw::Absent,
            default_text,
        ) matches Err(err) && err.key == key && err.reason == OrParseError::ParseDefault(e)),
{
}

/// A set variable whose text parses yields the parsed value from every
/// retrieval function, any supplied default ignored.
pub proof fn law_present_parsed<T: Parse>(
    key: &'static str,
    s: String,
    default: T,
    default_text: Seq<char>,
)
    ensures
        T::spec_from_str(s@) matches Ok(v) ==> (spec_maybe::<T>(key, Raw::Present(s)) matches Ok(o)
            && o == Some(v)),
        T::spec_from_str(s@) matches Ok(v) ==> (spec_must::<T>(key, Raw::Present(s)) matches Ok(w)
            && w == v),
        T::spec_from_str(s@) matches Ok(v) ==> (spec_or::<T>(
            key,
            Raw::Present(s),
            default,
        ) matches Ok(w) && w == v),
        T::spec_from_str(s@) matches Ok(v) ==> (spec_or_parse::<T>(
            key,
            Raw::Present(s),
            default_text,
        ) matches Ok(w) && w == v),
{
}

/// A set variable whose text does not parse fails every retrieval function
/// with a Parse-classified reason wrapping the conversion error, and the
/// error carries the queried key.
pub proof fn law_parse_error<T: Parse>(
    key: &'static str,
    s: String,
    default: T,
    default_text: Seq<char>,
)
    ensures
        T::spec_from_str(s@) matches Err(e) ==> (spec_maybe::<T>(key, Raw::Present(s)) matches Err(
            err,
        ) && err.key == key && err.reason == ValueError::Parse(e)),
        T::spec_from_str(s@) matches Err(e) ==> (spec_must::<T>(key, Raw::Present(s)) matches Err(
            err,
        ) && err.key == key && err.reason == MustError::Value(ValueError::Parse(e))),
        T::spec_from_str(s@) matches Err(e) ==> (spec_or::<T>(
            key,
            Raw::Present(s),
            default,
        ) matches Err(err) && err.key == key && err.reason == ValueError::Parse(e)),
        T::spec_from_str(s@) matches Err(e) ==> (spec_or_parse::<T>(
            key,
            Raw::Present(s),
            default_text,
        ) matches Err(err) && err.key == key && err.reason == OrParseError::Value(
            ValueError::Parse(e),
        )),
{
}

/// Retrieval has no state: under an unchanged environment, two results of
/// the same retrieval — each as the retrieval function's contract describes
/// it — are equal, for `maybe`, `must` and `or` alike.
pub proof fn law_idempotent<T: Parse>(
    key: &'static str,
    raw: Raw,
    default: T,
    first_maybe: Result<Option<T>, Error<ValueError<T::Err>>>,
    second_maybe: Result<Option<T>, Error<ValueError<T::Err>>>,
    first_must: Result<T, Error<MustError<T::Err>>>,
    second_must: Result<T, Error<MustError<T::Err>>>,
    first_or: Result<T, Error<ValueError<T::Err>>>,
    second_or: Result<T, Error<ValueError<T::Err>>>,
)
    requires
        result_deep_view(first_maybe) == spec_maybe::<T>(key, raw),
        result_deep_view(second_maybe) == spec_maybe::<T>(key, raw),
        result_deep_view(first_must) == spec_must::<T>(key, raw),
        result_deep_view(second_must) == spec_must::<T>(key, raw),
        result_deep_view(first_or) == spec_or::<T>(key, raw, default),
        result_deep_view(second_or) == spec_or::<T>(key, raw, default),
    ensures
        result_deep_view(first_maybe) == result_deep_view(second_maybe),
        result_deep_view(first_must) == result_deep_view(second_must),
        result_deep_view(first_or) == result_deep_view(second_or),
{
}

}
