use vstd::prelude::*;
use vstd::string::StringExecFns;

verus! {

/// Failures of the shipping pipeline, carried as plain values.
#[derive(Debug, Clone, PartialEq, Eq)]
pub enum Error {
    /// The consumer end of the event channel is gone.
    ChannelError,
    FileNotFound(String),
    InvalidOutput(String),
    /// Connect or write failure on the transport.
    IOError(String),
    JsonSerializerError(String),
    LogError(String),
    NotInitialized(String),
    /// Handshake failure of the encrypted transport.
    TLSError(String),
    ValueSerializerError(String),
}

/// Name of the variant of `e`.
pub open spec fn kind_name(e: Error) -> Seq<char> {
    match e {
        Error::ChannelError => "ChannelError"@,
        Error::FileNotFound(_) => "FileNotFound"@,
        Error::InvalidOutput(_) => "InvalidOutput"@,
        Error::IOError(_) => "IOError"@,
        Error::JsonSerializerError(_) => "JsonSerializerError"@,
        Error::LogError(_) => "LogError"@,
        Error::NotInitialized(_) => "NotInitialized"@,
        Error::TLSError(_) => "TLSError"@,
        Error::ValueSerializerError(_) => "ValueSerializerError"@,
    }
}

/// Text of `e`: the variant's name, then `": "` and the detail when there is one.
pub open spec fn error_text(e: Error) -> Seq<char> {
    match e {
        Error::ChannelError => kind_name(e),
        Error::FileNotFound(m) => kind_name(e) + ": "@ + m@,
        Error::InvalidOutput(m) => kind_name(e) + ": "@ + m@,
        Error::IOError(m) => kind_name(e) + ": "@ + m@,
        Error::JsonSerializerError(m) => kind_name(e) + ": "@ + m@,
        Error::LogError(m) => kind_name(e) + ": "@ + m@,
        Error::NotInitialized(m) => kind_name(e) + ": "@ + m@,
        Error::TLSError(m) => kind_name(e) + ": "@ + m@,
        Error::ValueSerializerError(m) => kind_name(e) + ": "@ + m@,
    }
}

impl Error {
    /// The failure as one line of text.
    pub fn to_text(&self) -> (r: String)
        ensures
            r@ == error_text(*self),
    {
        let name = String::from_str(self.kind());
        match self {
            Error::ChannelError => name,
            Error::FileNotFound(m) | Error::InvalidOutput(m) | Error::IOError(m)
            | Error::JsonSerializerError(m) | Error::LogError(m) | Error::NotInitialized(m)
            | Error::TLSError(m) | Error::ValueSerializerError(m) => name.concat(": ").concat(m.as_str()),
        }
    }

    /// Name of the variant, as printed before the detail.
    pub fn kind(&self) -> (r: &'static str)
        ensures
            r@ == kind_name(*self),
    {
        match self {
            Error::ChannelError => "ChannelError",
            Error::FileNotFound(_) => "FileNotFound",
            Error::InvalidOutput(_) => "InvalidOutput",
            Error::IOError(_) => "IOError",
            Error::JsonSerializerError(_) => "JsonSerializerError",
            Error::LogError(_) => "LogError",
            Error::NotInitialized(_) => "NotInitialized",
            Error::TLSError(_) => "TLSError",
            Error::ValueSerializerError(_) => "ValueSerializerError",
        }
    }

    /// True when the failure happened on the way to the collector.
    pub fn is_transport(&self) -> (r: bool)
        ensures
            r == (self is IOError || self is TLSError),
    {
        match self {
            Error::IOError(_) | Error::TLSError(_) => true,
            _ => false,
        }
    }
}

pub type Result<S> = core::result::Result<S, Error>;

} // verus!
