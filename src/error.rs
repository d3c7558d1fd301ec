use vstd::prelude::*;

verus! {

/// A configuration value that failed its check at startup.
#[derive(Clone, Copy, Debug, PartialEq, Eq)]
pub enum ConfigArg {
    TargetUrl,
    ListenHost,
    ListenPort,
    CacheTtl,
    Command,
}

/// Every failure the proxy reports, each with what it knows of the cause.
#[derive(Debug)]
pub enum ProxyError {
    /// A startup parameter is missing or malformed.
    ConfigurationError(ConfigArg),
    /// The credential command could not be started.
    SubprocessSpawnFailed(String),
    /// The credential command ran and exited unsuccessfully; `status` is its
    /// exit code (absent when it was stopped by a signal).
    SubprocessFailed { status: Option<i32>, output: Vec<u8> },
    /// The credential command printed something that is not UTF-8 text.
    InvalidCredentialOutput,
    /// The target URL is not an absolute URI with scheme and authority.
    InvalidTargetUrl,
    /// The token holds bytes that an HTTP header value may not contain.
    HeaderEncodingError,
    /// The upstream did not answer within the forwarding bound.
    UpstreamTimeout,
    /// The upstream could not be reached; the text describes the cause.
    UpstreamUnreachable(String),
}

} // verus!
