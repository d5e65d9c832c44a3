//! The values that are fixed when the process starts.

use crate::chunker::TEXT_MESSAGE_LENGTH;
use crate::error::ErrorKind;
use vstd::prelude::*;

verus! {

/// The pause between two polling cycles, in seconds.
pub const POLL_INTERVAL_SECS: u64 = 60;

/// The configuration of a polling process.
pub struct Config {
    poll_interval_secs: u64,
    chunk_max_length: usize,
    notification_endpoint: Option<String>,
}

/// A [`Config`] as contracts see it. Notifications are enabled exactly when
/// an endpoint is present.
pub struct ConfigView {
    pub poll_interval_secs: u64,
    pub chunk_max_length: usize,
    pub notification_endpoint: Option<Seq<char>>,
}

impl ConfigView {
    /// The configuration with the fixed interval and fragment length, and
    /// with notifications disabled.
    pub open spec fn standard() -> ConfigView {
        ConfigView {
            poll_interval_secs: POLL_INTERVAL_SECS,
            chunk_max_length: TEXT_MESSAGE_LENGTH,
            notification_endpoint: None,
        }
    }
}

/// The endpoint that a configuration ends up with: the given one where
/// notifications are enabled, none where they are not.
pub open spec fn effective_endpoint(notify: bool, endpoint: Option<String>) -> Option<Seq<char>> {
    match endpoint {
        Some(reference) if notify => Some(reference@),
        _ => None,
    }
}

impl View for Config {
    type V = ConfigView;

    closed spec fn view(&self) -> ConfigView {
        ConfigView {
            poll_interval_secs: self.poll_interval_secs,
            chunk_max_length: self.chunk_max_length,
            notification_endpoint: match self.notification_endpoint {
                Some(reference) => Some(reference@),
                None => None,
            },
        }
    }
}

impl Config {
    /// Validates the values supplied at startup.
    ///
    /// The only invalid combination is enabled notifications without an
    /// endpoint; it is reported as [`ErrorKind::Configuration`]. With
    /// notifications disabled an endpoint is not required, and one that is
    /// given is not kept.
    pub fn new(
        poll_interval_secs: u64,
        chunk_max_length: usize,
        notify: bool,
        endpoint: Option<String>,
    ) -> (result: Result<Config, ErrorKind>)
        ensures
            result is Err <==> notify && endpoint is None,
            result matches Err(kind) ==> kind == ErrorKind::Configuration,
            result matches Ok(config) ==> config@ == (ConfigView {
                poll_interval_secs,
                chunk_max_length,
                notification_endpoint: effective_endpoint(notify, endpoint),
            }),
    {
        if notify {
            match endpoint {
                Some(reference) => Ok(
                    Config {
                        poll_interval_secs,
                        chunk_max_length,
                        notification_endpoint: Some(reference),
                    },
                ),
                None => Err(ErrorKind::Configuration),
            }
        } else {
            Ok(Config { poll_interval_secs, chunk_max_length, notification_endpoint: None })
        }
    }

    /// The pause between two cycles, in seconds.
    pub fn poll_interval_secs(&self) -> (seconds: u64)
        ensures
            seconds == self@.poll_interval_secs,
    {
        self.poll_interval_secs
    }

    /// The longest fragment of a notification, in characters.
    pub fn chunk_max_length(&self) -> (max_length: usize)
        ensures
            max_length == self@.chunk_max_length,
    {
        self.chunk_max_length
    }

    /// A copy of the endpoint that notifications go to, if they are enabled.
    pub fn notification_endpoint(&self) -> (endpoint: Option<String>)
        ensures
            endpoint matches Some(reference) ==> self@.notification_endpoint == Some(reference@),
            endpoint is None ==> self@.notification_endpoint is None,
    {
        match &self.notification_endpoint {
            Some(reference) => Some(reference.clone()),
            None => None,
        }
    }

    /// Whether a changed condensed forecast is forwarded to the notifier.
    pub fn notifies(&self) -> (enabled: bool)
        ensures
            enabled == (self@.notification_endpoint is Some),
    {
        self.notification_endpoint.is_some()
    }
}

impl Default for Config {
    /// A poll every [`POLL_INTERVAL_SECS`] seconds, fragments of
    /// [`TEXT_MESSAGE_LENGTH`] characters, notifications disabled.
    fn default() -> (config: Config)
        ensures
            config@ == ConfigView::standard(),
    {
        Config {
            poll_interval_secs: POLL_INTERVAL_SECS,
            chunk_max_length: TEXT_MESSAGE_LENGTH,
            notification_endpoint: None,
        }
    }
}

} // verus!
