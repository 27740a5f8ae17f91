//! The failures the trading loop can meet.

use vstd::prelude::*;
use vstd::string::StringExecFns;

verus! {

#[derive(Debug)]
pub enum Error {
    IoError(String),
    /// The network request itself failed.
    RequestError(String),
    JsonError(String),
    /// The venue answered with a refusal.
    ApiError(String),
    /// Fatal: the configuration cannot be used.
    ConfigError(String),
    NotificationError(String),
    /// The strategy could not compute a decision.
    StrategyError(String),
    RiskError(String),
    ParseError(String),
    TimeError(String),
    UnknownError(String),
    /// The strategy was given fewer candles than its long window needs.
    InsufficientData { required: usize, available: usize },
    /// The entry order was filled but its stop-loss could not be placed: the
    /// position is open and unprotected.
    ProtectiveOrderFailed { symbol: String, cause: Box<Error> },
}

/// How loudly a failure is to be reported.
#[derive(Clone, Copy, Debug, PartialEq, Eq, Structural)]
pub enum Severity {
    Info,
    Error,
    Critical,
}

impl Error {
    pub fn notification(msg: &str) -> (r: Error)
        ensures
            r matches Error::NotificationError(m) && m@ == msg@,
    {
        Error::NotificationError(String::from_str(msg))
    }

    pub fn strategy(msg: &str) -> (r: Error)
        ensures
            r matches Error::StrategyError(m) && m@ == msg@,
    {
        Error::StrategyError(String::from_str(msg))
    }

    pub fn config(msg: &str) -> (r: Error)
        ensures
            r matches Error::ConfigError(m) && m@ == msg@,
    {
        Error::ConfigError(String::from_str(msg))
    }

    /// The words that introduce each kind of failure in its message.
    pub open spec fn spec_prefix(self) -> Seq<char> {
        match self {
            Error::IoError(_) => "IO error: "@,
            Error::RequestError(_) => "HTTP request error: "@,
            Error::JsonError(_) => "JSON serialization error: "@,
            Error::ApiError(_) => "API error: "@,
            Error::ConfigError(_) => "Configuration error: "@,
            Error::NotificationError(_) => "Notification error: "@,
            Error::StrategyError(_) => "Strategy error: "@,
            Error::RiskError(_) => "Risk check failed: "@,
            Error::ParseError(_) => "Parse failed: "@,
            Error::TimeError(_) => "Time error: "@,
            Error::UnknownError(_) => "Unknown error: "@,
            Error::InsufficientData { .. } => "Insufficient data"@,
            Error::ProtectiveOrderFailed { .. } => "Protective order failed after entry: "@,
        }
    }

    /// The whole message: the prefix, then the detail. The detail of an
    /// unprotected position names the symbol and then gives the message of
    /// the failure that caused it.
    pub open spec fn spec_message(self) -> Seq<char>
        decreases self,
    {
        match self {
            Error::IoError(m) => self.spec_prefix() + m@,
            Error::RequestError(m) => self.spec_prefix() + m@,
            Error::JsonError(m) => self.spec_prefix() + m@,
            Error::ApiError(m) => self.spec_prefix() + m@,
            Error::ConfigError(m) => self.spec_prefix() + m@,
            Error::NotificationError(m) => self.spec_prefix() + m@,
            Error::StrategyError(m) => self.spec_prefix() + m@,
            Error::RiskError(m) => self.spec_prefix() + m@,
            Error::ParseError(m) => self.spec_prefix() + m@,
            Error::TimeError(m) => self.spec_prefix() + m@,
            Error::UnknownError(m) => self.spec_prefix() + m@,
            Error::InsufficientData { .. } => self.spec_prefix(),
            Error::ProtectiveOrderFailed { symbol, cause } => self.spec_prefix() + symbol@ + ": "@
                + cause.spec_message(),
        }
    }

    /// The message of this failure, for a log line or an alert.
    pub fn to_string(&self) -> (r: String)
        ensures
            r@ == self.spec_message(),
        decreases self,
    {
        match self {
            Error::IoError(m) => String::from_str("IO error: ").concat(m.as_str()),
            Error::RequestError(m) => String::from_str("HTTP request error: ").concat(m.as_str()),
            Error::JsonError(m) => String::from_str("JSON serialization error: ").concat(
                m.as_str(),
            ),
            Error::ApiError(m) => String::from_str("API error: ").concat(m.as_str()),
            Error::ConfigError(m) => String::from_str("Configuration error: ").concat(m.as_str()),
            Error::NotificationError(m) => String::from_str("Notification error: ").concat(
                m.as_str(),
            ),
            Error::StrategyError(m) => String::from_str("Strategy error: ").concat(m.as_str()),
            Error::RiskError(m) => String::from_str("Risk check failed: ").concat(m.as_str()),
            Error::ParseError(m) => String::from_str("Parse failed: ").concat(m.as_str()),
            Error::TimeError(m) => String::from_str("Time error: ").concat(m.as_str()),
            Error::UnknownError(m) => String::from_str("Unknown error: ").concat(m.as_str()),
            Error::InsufficientData { .. } => {
                String::from_str("Insufficient data")
            },
            Error::ProtectiveOrderFailed { symbol, cause } => {
                let inner = cause.to_string();
                String::from_str("Protective order failed after entry: ").concat(
                    symbol.as_str(),
                ).concat(": ").concat(inner.as_str())
            },
        }
    }

    /// An unprotected position is the gravest failure; every other failure is
    /// an ordinary error.
    pub fn severity(&self) -> (r: Severity)
        ensures
            r == self.spec_severity(),
    {
        match self {
            Error::ProtectiveOrderFailed { .. } => Severity::Critical,
            _ => Severity::Error,
        }
    }

    pub open spec fn spec_severity(self) -> Severity {
        match self {
            Error::ProtectiveOrderFailed { .. } => Severity::Critical,
            _ => Severity::Error,
        }
    }
}

impl From<String> for Error {
    /// A bare message is a failure of no particular kind.
    fn from(err: String) -> (r: Error) {
        Error::UnknownError(err)
    }
}

impl vstd::std_specs::convert::FromSpecImpl<String> for Error {
    open spec fn obeys_from_spec() -> bool {
        true
    }

    open spec fn from_spec(err: String) -> Error {
        Error::UnknownError(err)
    }
}

} // verus!
