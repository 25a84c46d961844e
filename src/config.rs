//! How a resource is configured, and the settings its actor runs with.
use vstd::prelude::*;

use crate::error::UrlResourceError;
use crate::locator::Locator;

verus! {

/// The time-to-live applied when the configuration names none: fifteen minutes.
pub const DEFAULT_CACHE_TTL_MILLIS: u64 = 900_000;

/// The longest a fetch operation may run, in milliseconds, when the
/// configuration names no bound: thirty seconds.
pub const DEFAULT_FETCH_MAX_WAIT_MILLIS: u64 = 30_000;

/// The command-queue capacity applied when the configuration names none.
pub const DEFAULT_MPSC_CHANNEL_SIZE: usize = 8;

/// How a resource is configured: where it lives, how long a fetched result
/// is kept, whether its content is hashed, and which runtime serves it.
#[derive(Debug)]
pub struct UrlResource {
    pub url: Locator,
    /// A fetched result is refetched once it is older than this many
    /// milliseconds.
    pub cache_ttl_millis: Option<u64>,
    /// A fetch operation that runs longer than this many milliseconds is
    /// abandoned and fails as timed out.
    pub fetch_max_wait_millis: Option<u64>,
    pub hash: Option<UrlResourceHash>,
    pub provider: UrlResourceProvider,
}

/// The digest computed over fetched content.
#[derive(Clone, Copy, Debug, PartialEq, Eq)]
pub enum UrlResourceHash {
    Sha256,
}

/// The runtime that serves a resource.
#[derive(Debug)]
#[non_exhaustive]
pub enum UrlResourceProvider {
    Tokio(TokioUrlResourceProvider),
}

/// The options of the tokio runtime provider.
#[derive(Debug)]
pub struct TokioUrlResourceProvider {
    pub mpsc_channel_size: Option<usize>,
}

/// The kind of a [`UrlResourceProvider`], without its options.
#[derive(Clone, Copy, Debug, PartialEq, Eq)]
pub enum UrlResourceProviderKind {
    Tokio,
}

impl UrlResourceProviderKind {
    pub open spec fn spec_name(self) -> Seq<char> {
        match self {
            UrlResourceProviderKind::Tokio => "tokio"@,
        }
    }

    /// The snake-case name of the kind.
    pub fn as_str(&self) -> (r: &'static str)
        ensures
            r@ == self.spec_name(),
    {
        match self {
            UrlResourceProviderKind::Tokio => "tokio",
        }
    }
}

impl UrlResourceProvider {
    pub open spec fn spec_kind(&self) -> UrlResourceProviderKind {
        match self {
            UrlResourceProvider::Tokio(_) => UrlResourceProviderKind::Tokio,
        }
    }

    pub fn kind(&self) -> (r: UrlResourceProviderKind)
        ensures
            r == self.spec_kind(),
    {
        match self {
            UrlResourceProvider::Tokio(_) => UrlResourceProviderKind::Tokio,
        }
    }
}

/// What a resource actor runs with, once the defaults are applied.
#[derive(Clone, Debug)]
pub struct ResourceSettings {
    pub url: Locator,
    pub ttl_millis: u64,
    pub fetch_max_wait_millis: u64,
    pub hash: Option<UrlResourceHash>,
    pub channel_size: usize,
}

impl UrlResource {
    /// The time-to-live the configuration asks for, or the default.
    pub open spec fn spec_ttl_millis(&self) -> u64 {
        match self.cache_ttl_millis {
            Some(t) => t,
            None => DEFAULT_CACHE_TTL_MILLIS,
        }
    }

    /// The bound on a fetch operation the configuration asks for, or the
    /// default.
    pub open spec fn spec_fetch_max_wait_millis(&self) -> u64 {
        match self.fetch_max_wait_millis {
            Some(t) => t,
            None => DEFAULT_FETCH_MAX_WAIT_MILLIS,
        }
    }

    /// The command-queue capacity the configuration asks for, or the default.
    pub open spec fn spec_channel_size(&self) -> usize {
        match self.provider {
            UrlResourceProvider::Tokio(p) => match p.mpsc_channel_size {
                Some(n) => n,
                None => DEFAULT_MPSC_CHANNEL_SIZE,
            },
        }
    }

    /// Applies the defaults. A command queue must hold at least one
    /// command, so a capacity of zero is a failed precondition.
    pub fn settings(self) -> (r: Result<ResourceSettings, UrlResourceError>)
        ensures
            self.spec_channel_size() == 0 <==> r is Err,
            r matches Err(e) ==> e matches UrlResourceError::FailedPrecondition { message }
                && message@ == "Command queue capacity must be at least one"@,
            r matches Ok(s) ==> {
                &&& s.url == self.url
                &&& s.ttl_millis == self.spec_ttl_millis()
                &&& s.fetch_max_wait_millis == self.spec_fetch_max_wait_millis()
                &&& s.hash == self.hash
                &&& s.channel_size == self.spec_channel_size()
            },
    {
        let channel_size = match &self.provider {
            UrlResourceProvider::Tokio(p) => match p.mpsc_channel_size {
                Some(n) => n,
                None => DEFAULT_MPSC_CHANNEL_SIZE,
            },
        };
        if channel_size == 0 {
            return Err(
                UrlResourceError::new_failed_precondition(
                    String::from_str("Command queue capacity must be at least one"),
                ),
            );
        }
        let ttl_millis = match self.cache_ttl_millis {
            Some(t) => t,
            None => DEFAULT_CACHE_TTL_MILLIS,
        };
        let fetch_max_wait_millis = match self.fetch_max_wait_millis {
            Some(t) => t,
            None => DEFAULT_FETCH_MAX_WAIT_MILLIS,
        };
        Ok(
            ResourceSettings {
                url: self.url,
                ttl_millis,
                fetch_max_wait_millis,
                hash: self.hash,
                channel_size,
            },
        )
    }
}

} // verus!
