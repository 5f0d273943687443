//! What can go wrong while the series are built, fed and read.

use vstd::prelude::*;

verus! {

/// What the collector library answered when it refused a request.
#[derive(Debug, PartialEq, Eq)]
pub enum CollectorFault {
    /// A collector with the same descriptor is registered already.
    AlreadyRegistered,
    /// The number of label values differs from the number of label names.
    InconsistentCardinality {
        /// The number of label names.
        expect: usize,
        /// The number of label values.
        got: usize,
    },
    /// A refusal that comes with a message only.
    Message(String),
    /// Writing failed.
    Io,
}

/// Why the exposition text could not be produced.
#[derive(Debug, PartialEq, Eq)]
pub enum EncodingFault {
    /// A gathered family has no type that the text format can name.
    Untyped,
    /// The encoder refused the gathered series.
    Collector(CollectorFault),
    /// The encoder's output is not UTF-8.
    InvalidUtf8,
}

/// The errors of this library.
#[derive(Debug, PartialEq, Eq)]
pub enum MetricsError {
    /// The bucket sequence is empty.
    EmptyBuckets,
    /// The bound at `index` is not above the bound before it.
    UnorderedBuckets {
        /// The first place at which the sequence does not rise.
        index: usize,
    },
    /// The collector library makes no series, or no histogram, from the
    /// configuration.
    Series(CollectorFault),
    /// The registry refused a series.
    Registration(CollectorFault),
    /// The exposition text could not be produced.
    Encoding(EncodingFault),
}

/// The class of an error.
#[derive(Clone, Copy, Debug, PartialEq, Eq, Structural)]
pub enum ErrorKind {
    /// The configuration is not one to build from.
    Configuration,
    /// The registry refused a series.
    Registration,
    /// The exposition text could not be produced.
    Encoding,
}

impl MetricsError {
    /// The class of this error.
    pub open spec fn spec_kind(&self) -> ErrorKind {
        match self {
            MetricsError::EmptyBuckets => ErrorKind::Configuration,
            MetricsError::UnorderedBuckets { .. } => ErrorKind::Configuration,
            MetricsError::Series(_) => ErrorKind::Configuration,
            MetricsError::Registration(_) => ErrorKind::Registration,
            MetricsError::Encoding(_) => ErrorKind::Encoding,
        }
    }

    /// The class of this error.
    #[verifier::when_used_as_spec(spec_kind)]
    pub fn kind(&self) -> (k: ErrorKind)
        ensures
            k == self.spec_kind(),
    {
        match self {
            MetricsError::EmptyBuckets => ErrorKind::Configuration,
            MetricsError::UnorderedBuckets { .. } => ErrorKind::Configuration,
            MetricsError::Series(_) => ErrorKind::Configuration,
            MetricsError::Registration(_) => ErrorKind::Registration,
            MetricsError::Encoding(_) => ErrorKind::Encoding,
        }
    }
}

} // verus!
