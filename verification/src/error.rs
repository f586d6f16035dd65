//! Error taxonomy: analysis errors, collector errors, and API errors.
//!
//! Channel errors are fatal to the component they strike; configuration
//! errors are rejected before any component starts; data errors are
//! recoverable and only drop the offending event or fragment.

use vstd::prelude::*;

verus! {

/// Errors that can occur while analyzing traffic.
#[derive(Debug)]
pub enum HuginnError {
    /// Network analysis error
    NetworkAnalysis(String),
    /// Invalid traffic data
    InvalidData(String),
    /// Configuration error
    Configuration(String),
    /// IO error, by its rendered message
    Io(String),
    /// Serialization error, by its rendered message
    Serialization(String),
    /// Unknown error
    Unknown(String),
}

/// The rendered message of an analysis error.
pub open spec fn huginn_error_text(e: HuginnError) -> Seq<char> {
    match e {
        HuginnError::NetworkAnalysis(m) => "Network analysis error: "@ + m@,
        HuginnError::InvalidData(m) => "Invalid traffic data: "@ + m@,
        HuginnError::Configuration(m) => "Configuration error: "@ + m@,
        HuginnError::Io(m) => "IO error: "@ + m@,
        HuginnError::Serialization(m) => "Serialization error: "@ + m@,
        HuginnError::Unknown(m) => "Unknown error: "@ + m@,
    }
}

impl HuginnError {
    /// Create a new network analysis error.
    pub fn network_analysis(msg: String) -> (r: Self)
        ensures
            r == HuginnError::NetworkAnalysis(msg),
    {
        HuginnError::NetworkAnalysis(msg)
    }

    /// Create a new invalid data error.
    pub fn invalid_data(msg: String) -> (r: Self)
        ensures
            r == HuginnError::InvalidData(msg),
    {
        HuginnError::InvalidData(msg)
    }

    /// Create a new configuration error.
    pub fn configuration(msg: String) -> (r: Self)
        ensures
            r == HuginnError::Configuration(msg),
    {
        HuginnError::Configuration(msg)
    }

    /// Render the error as its message.
    pub fn message(&self) -> (r: String)
        ensures
            r@ == huginn_error_text(*self),
    {
        let (prefix, m): (&str, &String) = match self {
            HuginnError::NetworkAnalysis(m) => ("Network analysis error: ", m),
            HuginnError::InvalidData(m) => ("Invalid traffic data: ", m),
            HuginnError::Configuration(m) => ("Configuration error: ", m),
            HuginnError::Io(m) => ("IO error: ", m),
            HuginnError::Serialization(m) => ("Serialization error: ", m),
            HuginnError::Unknown(m) => ("Unknown error: ", m),
        };
        let mut s = prefix.to_owned();
        s.append(m.as_str());
        s
    }
}

impl Clone for HuginnError {
    fn clone(&self) -> (r: Self)
        ensures
            r == *self,
    {
        match self {
            HuginnError::NetworkAnalysis(m) => HuginnError::NetworkAnalysis(m.clone()),
            HuginnError::InvalidData(m) => HuginnError::InvalidData(m.clone()),
            HuginnError::Configuration(m) => HuginnError::Configuration(m.clone()),
            HuginnError::Io(m) => HuginnError::Io(m.clone()),
            HuginnError::Serialization(m) => HuginnError::Serialization(m.clone()),
            HuginnError::Unknown(m) => HuginnError::Unknown(m.clone()),
        }
    }
}

/// Errors that can occur while collecting traffic.
#[derive(Debug)]
pub enum CollectorError {
    /// Network collection error
    Collection(String),
    /// Configuration error
    Configuration(String),
    /// Channel error
    Channel(String),
    /// Analysis error from the core
    Core(HuginnError),
    /// IO error, by its rendered message
    Io(String),
    /// Join error, by its rendered message
    Join(String),
    /// Unknown error
    Unknown(String),
}

/// The rendered message of a collector error.
pub open spec fn collector_error_text(e: CollectorError) -> Seq<char> {
    match e {
        CollectorError::Collection(m) => "Network collection error: "@ + m@,
        CollectorError::Configuration(m) => "Configuration error: "@ + m@,
        CollectorError::Channel(m) => "Channel error: "@ + m@,
        CollectorError::Core(inner) => "Huginn core error: "@ + huginn_error_text(inner),
        CollectorError::Io(m) => "IO error: "@ + m@,
        CollectorError::Join(m) => "Join error: "@ + m@,
        CollectorError::Unknown(m) => "Unknown error: "@ + m@,
    }
}

impl CollectorError {
    /// Create a new collection error.
    pub fn collection(msg: String) -> (r: Self)
        ensures
            r == CollectorError::Collection(msg),
    {
        CollectorError::Collection(msg)
    }

    /// Create a new configuration error.
    pub fn configuration(msg: String) -> (r: Self)
        ensures
            r == CollectorError::Configuration(msg),
    {
        CollectorError::Configuration(msg)
    }

    /// Create a new channel error.
    pub fn channel(msg: String) -> (r: Self)
        ensures
            r == CollectorError::Channel(msg),
    {
        CollectorError::Channel(msg)
    }

    /// Render the error as its message.
    pub fn message(&self) -> (r: String)
        ensures
            r@ == collector_error_text(*self),
    {
        match self {
            CollectorError::Core(inner) => {
                let mut s = "Huginn core error: ".to_owned();
                let im = inner.message();
                s.append(im.as_str());
                s
            },
            CollectorError::Collection(m) => {
                let mut s = "Network collection error: ".to_owned();
                s.append(m.as_str());
                s
            },
            CollectorError::Configuration(m) => {
                let mut s = "Configuration error: ".to_owned();
                s.append(m.as_str());
                s
            },
            CollectorError::Channel(m) => {
                let mut s = "Channel error: ".to_owned();
                s.append(m.as_str());
                s
            },
            CollectorError::Io(m) => {
                let mut s = "IO error: ".to_owned();
                s.append(m.as_str());
                s
            },
            CollectorError::Join(m) => {
                let mut s = "Join error: ".to_owned();
                s.append(m.as_str());
                s
            },
            CollectorError::Unknown(m) => {
                let mut s = "Unknown error: ".to_owned();
                s.append(m.as_str());
                s
            },
        }
    }
}

/// Errors that can occur in the API layer.
#[derive(Debug)]
pub enum ApiError {
    /// Collection error
    Collection(CollectorError),
    /// Core error
    Core(HuginnError),
    /// Serialization error, by its rendered message
    Serialization(String),
    /// IO error, by its rendered message
    Io(String),
    /// Configuration error
    Configuration(String),
    /// Not found
    NotFound(String),
    /// Bad request
    BadRequest(String),
    /// Internal server error
    Internal(String),
}

/// The rendered message of an API error.
pub open spec fn api_error_text(e: ApiError) -> Seq<char> {
    match e {
        ApiError::Collection(inner) => "Collection error: "@ + collector_error_text(inner),
        ApiError::Core(inner) => "Core error: "@ + huginn_error_text(inner),
        ApiError::Serialization(m) => "Serialization error: "@ + m@,
        ApiError::Io(m) => "IO error: "@ + m@,
        ApiError::Configuration(m) => "Configuration error: "@ + m@,
        ApiError::NotFound(m) => "Not found: "@ + m@,
        ApiError::BadRequest(m) => "Bad request: "@ + m@,
        ApiError::Internal(m) => "Internal server error: "@ + m@,
    }
}

impl ApiError {
    /// Create a new configuration error.
    pub fn configuration(msg: String) -> (r: Self)
        ensures
            r == ApiError::Configuration(msg),
    {
        ApiError::Configuration(msg)
    }

    /// Create a new not found error.
    pub fn not_found(msg: String) -> (r: Self)
        ensures
            r == ApiError::NotFound(msg),
    {
        ApiError::NotFound(msg)
    }

    /// Create a new bad request error.
    pub fn bad_request(msg: String) -> (r: Self)
        ensures
            r == ApiError::BadRequest(msg),
    {
        ApiError::BadRequest(msg)
    }

    /// Create a new internal server error.
    pub fn internal(msg: String) -> (r: Self)
        ensures
            r == ApiError::Internal(msg),
    {
        ApiError::Internal(msg)
    }

    /// The HTTP status code for this error.
    pub fn status_code(&self) -> (r: u16)
        ensures
            r == (match *self {
                ApiError::NotFound(_) => 404u16,
                ApiError::BadRequest(_) => 400u16,
                ApiError::Configuration(_) => 400u16,
                ApiError::Serialization(_) => 400u16,
                _ => 500u16,
            }),
    {
        match self {
            ApiError::NotFound(_) => 404,
            ApiError::BadRequest(_) => 400,
            ApiError::Configuration(_) => 400,
            ApiError::Serialization(_) => 400,
            _ => 500,
        }
    }

    /// Render the error as its message.
    pub fn message(&self) -> (r: String)
        ensures
            r@ == api_error_text(*self),
    {
        match self {
            ApiError::Collection(inner) => {
                let mut s = "Collection error: ".to_owned();
                let im = inner.message();
                s.append(im.as_str());
                s
            },
            ApiError::Core(inner) => {
                let mut s = "Core error: ".to_owned();
                let im = inner.message();
                s.append(im.as_str());
                s
            },
            ApiError::Serialization(m) => {
                let mut s = "Serialization error: ".to_owned();
                s.append(m.as_str());
                s
            },
            ApiError::Io(m) => {
                let mut s = "IO error: ".to_owned();
                s.append(m.as_str());
                s
            },
            ApiError::Configuration(m) => {
                let mut s = "Configuration error: ".to_owned();
                s.append(m.as_str());
                s
            },
            ApiError::NotFound(m) => {
                let mut s = "Not found: ".to_owned();
                s.append(m.as_str());
                s
            },
            ApiError::BadRequest(m) => {
                let mut s = "Bad request: ".to_owned();
                s.append(m.as_str());
                s
            },
            ApiError::Internal(m) => {
                let mut s = "Internal server error: ".to_owned();
                s.append(m.as_str());
                s
            },
        }
    }
}

} // verus!
