//! The error values of the library. Their messages are written where they are
//! shown to the user.
use vstd::prelude::*;

verus! {

/// Database failures.
#[derive(Debug)]
pub enum JourneyDbError {
    ConnectionError(String),
    RecordNotFound(String),
    Unknown(String),
    FailedTransactionError(String),
}

/// Failures while turning stored records into transfer objects.
#[derive(Debug)]
pub enum ConversionError {
    /// A stored address is not a valid URL; holds the parser's message.
    FailedParseUrl(String),
}

/// Failures reported by the Jellyfin indexer.
#[derive(Debug)]
pub enum JellyfinIndexerError {
    ApiEntryRetrievalError(Option<String>),
}

/// Failures reported by the Jellyfin provider.
#[derive(Debug)]
pub enum JellyfinProviderError {
    ApiEntryRetrievalError(Option<String>),
    FailedBuildConfigError(String),
}

/// Failures while indexing a provider's library.
#[derive(Debug)]
pub enum IndexerError {
    FailedParseUrlError(String),
    ApiEntryRetrievalError(Option<String>),
    FailedDbInsertError(String),
    FailedMsgSendError(String),
    FailedTransactionError(String),
    MissingVariantError,
    MissingServerIdError,
    MissingUserIdError,
    MissingUrlError,
    JellyfinIndexerError(JellyfinIndexerError),
    JourneyDbError(JourneyDbError),
}

/// Failures of a provider.
#[derive(Debug)]
pub enum ProviderError {
    NotImplError,
    TooManyCredentialsError,
    NoCredentialsError(String),
    MissingVariantError,
    MissingServerIdError,
    MissingUserIdError,
    MissingUrlError,
    MissingAuthSchemaError,
    FailedUuidParseError(String),
    FailedPasswordAuthError(String),
    FailedCreateEntryError(String),
    FailedRemoveEntryError(String),
    SaveTokenError(String),
    FailedDbInsertError(String),
    FailedDbRemoveError(String),
    FailedConvModelError(String),
    FailedParseUrlError(String),
    JellyfinProviderError(JellyfinProviderError),
    JourneyDbError(JourneyDbError),
}

/// Failures of the progress tracker.
#[derive(Debug)]
pub enum ProgressTrackerError {
    FailedCommSendError(String),
    FailedCommAskError(String),
}

/// Failures of the task runner.
#[derive(Debug)]
pub enum IndexerRunnerError {
    FailedRegisterTaskError(String),
    FailedTaskError(String),
    KilledRunnerError(String),
    IndexerError(IndexerError),
    ProgressTrackerError(ProgressTrackerError),
    JourneyDbError(JourneyDbError),
}

/// Failures of the indexer manager.
#[derive(Debug)]
pub enum IndexerManagerError {
    NoSuchCommError(String),
    NoSuchTaskError(String),
    IndexerError(IndexerError),
    IndexerRunnerError(IndexerRunnerError),
}

/// Failures of the provider manager.
#[derive(Debug)]
pub enum ProviderManagerError {
    UnknownProviderError,
    NoProviderError,
    RegisterError,
    ProviderInUseError,
    DeregisterError,
    FailedDbStreamError(String),
    FailedIndexingError,
    NotAuthenticatedError(String),
    ProviderError(ProviderError),
    IndexerError(IndexerError),
    IndexerManagerError(IndexerManagerError),
    JourneyDbError(JourneyDbError),
}

/// Failures of the provider procedures offered to the user interface.
#[derive(Debug)]
pub enum ProviderApiError {
    FailedChannelSendError(String),
    ProviderManagerError(ProviderManagerError),
    ProviderError(ProviderError),
    IndexerManagerError(IndexerManagerError),
    ProgressTrackerError(ProgressTrackerError),
}

/// Failures while choosing a credential store.
#[derive(Debug)]
pub enum KeyringError {
    /// An argument was not valid: the argument, and what it must be.
    Invalid(String, String),
    /// The store does not exist on this platform; holds the reason.
    NotSupportedByStore(String),
}

} // verus!
