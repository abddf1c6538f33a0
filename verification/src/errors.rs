use vstd::prelude::*;

verus! {

/// The advanced option that was used while the extended backend capability
/// was disabled.
#[derive(Debug, Clone, Copy, PartialEq, Eq, Structural)]
pub enum GatedOption {
    Capacity,
    TimeToLive,
}

/// The way a function signature failed the synthesizer's requirements.
#[derive(Debug, Clone, Copy, PartialEq, Eq, Structural)]
pub enum SignatureFault {
    /// The first parameter is a receiver (`self` in some form).
    Receiver,
    /// A parameter binds by something other than a plain identifier.
    NonIdentifierPattern,
}

/// A generation-time failure. All of these are detected before any wrapper
/// code is produced; none is ever observed at runtime by a user of the
/// generated artifact.
#[derive(Debug, Clone, Copy, PartialEq, Eq, Structural)]
pub enum GenError {
    /// Capacity and a custom hasher were both configured.
    ConfigurationConflict,
    /// The function signature cannot be memoized.
    UnsupportedSignature(SignatureFault),
    /// An advanced option was used without the extended backend capability.
    FeatureGating(GatedOption),
}

/// The diagnostic text attached to a generation-time failure.
pub open spec fn message_spec(e: GenError) -> Seq<char> {
    match e {
        GenError::ConfigurationConflict => "Cannot use LRU cache and a custom hasher at the same time"@,
        GenError::UnsupportedSignature(SignatureFault::Receiver) => "Cannot memoize methods!"@,
        GenError::UnsupportedSignature(SignatureFault::NonIdentifierPattern) => "Cannot memoize arbitrary patterns!"@,
        GenError::FeatureGating(GatedOption::Capacity) => "memoize error: Capacity specified, but the feature 'full' is not enabled! To fix this, compile with `--features=full`."@,
        GenError::FeatureGating(GatedOption::TimeToLive) => "memoize error: TimeToLive specified, but the feature 'full' is not enabled! To fix this, compile with `--features=full`."@,
    }
}

impl GenError {
    /// The diagnostic text for this failure, as it is attached to the
    /// invocation site at build time.
    pub fn message(&self) -> (m: &'static str)
        ensures
            m@ == message_spec(*self),
    {
        match self {
            GenError::ConfigurationConflict => "Cannot use LRU cache and a custom hasher at the same time",
            GenError::UnsupportedSignature(SignatureFault::Receiver) => "Cannot memoize methods!",
            GenError::UnsupportedSignature(SignatureFault::NonIdentifierPattern) => "Cannot memoize arbitrary patterns!",
            GenError::FeatureGating(GatedOption::Capacity) => "memoize error: Capacity specified, but the feature 'full' is not enabled! To fix this, compile with `--features=full`.",
            GenError::FeatureGating(GatedOption::TimeToLive) => "memoize error: TimeToLive specified, but the feature 'full' is not enabled! To fix this, compile with `--features=full`.",
        }
    }
}

} // verus!
