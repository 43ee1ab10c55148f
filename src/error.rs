//! Errors of transformer construction and of URL transformation.
use vstd::prelude::*;

verus! {

/// A transformer could not be built from its configuration.
#[derive(Debug)]
pub enum ReplaceConfigError {
    /// A pattern does not compile, or a search with it failed.
    Regex,
    /// A custom transformer lacks the named option.
    MissingOption(String),
    /// A custom transformer, named here, has no new domain.
    InvalidReplacer(String),
}

/// A URL could not be transformed.
#[derive(Debug)]
pub enum ReplaceError {
    /// The URL does not parse, or the rewritten one does not.
    Url,
    /// The URL has no host.
    UrlHost,
    /// The transformation gave back the URL it was given.
    UrlNotModified(String),
    /// The URL lacks the query parameter that the transformation reads.
    NoQueryParams,
    /// A percent-encoded value does not decode to UTF-8.
    Utf8Decode,
    /// The pattern matched without the named capture group.
    MissingGroup(String),
    /// A configuration error surfaced while transforming.
    Config(ReplaceConfigError),
}

/// Mathematical counterpart of [`ReplaceConfigError`].
pub enum ConfigFault {
    Regex,
    MissingOption(Seq<char>),
    InvalidReplacer(Seq<char>),
}

/// Mathematical counterpart of [`ReplaceError`].
pub enum ReplaceFault {
    Url,
    UrlHost,
    UrlNotModified(Seq<char>),
    NoQueryParams,
    Utf8Decode,
    MissingGroup(Seq<char>),
    Config(ConfigFault),
}

impl View for ReplaceConfigError {
    type V = ConfigFault;

    open spec fn view(&self) -> ConfigFault {
        match self {
            ReplaceConfigError::Regex => ConfigFault::Regex,
            ReplaceConfigError::MissingOption(s) => ConfigFault::MissingOption(s@),
            ReplaceConfigError::InvalidReplacer(s) => ConfigFault::InvalidReplacer(s@),
        }
    }
}

impl View for ReplaceError {
    type V = ReplaceFault;

    open spec fn view(&self) -> ReplaceFault {
        match self {
            ReplaceError::Url => ReplaceFault::Url,
            ReplaceError::UrlHost => ReplaceFault::UrlHost,
            ReplaceError::UrlNotModified(s) => ReplaceFault::UrlNotModified(s@),
            ReplaceError::NoQueryParams => ReplaceFault::NoQueryParams,
            ReplaceError::Utf8Decode => ReplaceFault::Utf8Decode,
            ReplaceError::MissingGroup(s) => ReplaceFault::MissingGroup(s@),
            ReplaceError::Config(c) => ReplaceFault::Config(c@),
        }
    }
}

/// A transformation's outcome, seen through the views.
pub open spec fn outcome_view(r: Result<String, ReplaceError>) -> Result<Seq<char>, ReplaceFault> {
    match r {
        Ok(s) => Ok(s@),
        Err(e) => Err(e@),
    }
}

} // verus!
