//! The stream router: decides, per log event, which stream a line goes
//! to, applies the per-severity prefix, and writes the line.

use crate::severity::{at_least_as_severe, Severity};
use crate::sink;
use vstd::prelude::*;
use vstd::string::StringExecFns;

verus! {

/// One of the two process-wide output streams.
#[derive(Clone, Copy, Debug, PartialEq, Eq)]
pub enum Stream {
    /// The default / standard output channel (non-error).
    Primary,
    /// The diagnostic / error output channel.
    Error,
}

/// The router's one configuration flag, fixed at construction.
///
/// With `always_error_on_warn_info` set, warnings and info lines go to
/// the error stream (warnings with a `warn: ` prefix); without it, both
/// go to the primary stream, unprefixed.
#[derive(Clone, Copy, Debug, PartialEq, Eq)]
pub struct RouterConfig {
    pub always_error_on_warn_info: bool,
}

/// The configuration that routes info and warn lines to the primary
/// stream.
pub open spec fn primary_warn_info() -> RouterConfig {
    RouterConfig { always_error_on_warn_info: false }
}

/// The configuration that routes info and warn lines to the error
/// stream.
pub open spec fn error_warn_info() -> RouterConfig {
    RouterConfig { always_error_on_warn_info: true }
}

/// One fully formatted line, together with the stream it is routed to.
#[derive(Debug, PartialEq, Eq)]
pub struct RoutedLine {
    pub stream: Stream,
    /// The exact text written, trailing line terminator included.
    pub line: String,
}

/// The stream an enabled event of severity `s` is routed to.
pub open spec fn stream_for(config: RouterConfig, s: Severity) -> Stream {
    match s {
        Severity::Error => Stream::Error,
        Severity::Warn => if config.always_error_on_warn_info {
            Stream::Error
        } else {
            Stream::Primary
        },
        Severity::Info => if config.always_error_on_warn_info {
            Stream::Error
        } else {
            Stream::Primary
        },
        Severity::Debug => Stream::Error,
        Severity::Trace => Stream::Error,
    }
}

/// The prefix put before the message text of an enabled event of
/// severity `s`.
pub open spec fn prefix_for(config: RouterConfig, s: Severity) -> Seq<char> {
    match s {
        Severity::Error => "error: "@,
        Severity::Warn => if config.always_error_on_warn_info {
            "warn: "@
        } else {
            Seq::<char>::empty()
        },
        Severity::Info => Seq::<char>::empty(),
        Severity::Debug => "debug: "@,
        Severity::Trace => "trace: "@,
    }
}

/// The exact text written for an enabled event: prefix, message, and
/// one trailing line terminator.
pub open spec fn line_for(config: RouterConfig, s: Severity, message: Seq<char>) -> Seq<char> {
    prefix_for(config, s) + message + "\n"@
}

/// What routing an event of severity `s` with text `message` returns,
/// under `config` and `threshold`: a routed line exactly when the event
/// is enabled, and then with the stream and text the routing rule gives.
pub open spec fn routing_of(
    config: RouterConfig,
    threshold: Severity,
    s: Severity,
    message: Seq<char>,
    r: Option<RoutedLine>,
) -> bool {
    &&& r is Some <==> at_least_as_severe(s, threshold)
    &&& r matches Some(l) ==> l.stream == stream_for(config, s) && l.line@ == line_for(
        config,
        s,
        message,
    )
}

/// The stream router: one immutable configuration flag plus the
/// process-wide minimum severity threshold, both fixed at
/// initialization. Each call is handled independently; the router
/// keeps no other state.
#[derive(Clone, Copy, Debug, PartialEq, Eq)]
pub struct StreamRouter {
    pub config: RouterConfig,
    pub threshold: Severity,
}

impl StreamRouter {
    /// True iff `s` is at least as severe as the router's threshold.
    /// Pure: no side effects.
    pub fn is_enabled(&self, s: Severity) -> (r: bool)
        ensures
            r == at_least_as_severe(s, self.threshold),
    {
        s.ordinal() <= self.threshold.ordinal()
    }

    /// Decides the event's stream and formats its line, without
    /// writing: `None` exactly when the event's severity is below the
    /// threshold, otherwise the routed line the routing rule gives.
    pub fn route(&self, s: Severity, message: &str) -> (r: Option<RoutedLine>)
        ensures
            routing_of(self.config, self.threshold, s, message@, r),
    {
        if !self.is_enabled(s) {
            return None;
        }
        let mut line = String::new();
        let stream: Stream;
        match s {
            Severity::Error => {
                line.append("error: ");
                stream = Stream::Error;
            },
            Severity::Warn => {
                if self.config.always_error_on_warn_info {
                    line.append("warn: ");
                    stream = Stream::Error;
                } else {
                    stream = Stream::Primary;
                }
            },
            Severity::Info => {
                stream = if self.config.always_error_on_warn_info {
                    Stream::Error
                } else {
                    Stream::Primary
                };
            },
            Severity::Debug => {
                line.append("debug: ");
                stream = Stream::Error;
            },
            Severity::Trace => {
                line.append("trace: ");
                stream = Stream::Error;
            },
        }
        line.append(message);
        line.append("\n");
        proof {
            assert(line@ =~= line_for(self.config, s, message@));
        }
        Some(RoutedLine { stream, line })
    }

    /// Routes the event and, if it is enabled, writes its line to its
    /// stream; a dropped event writes nothing to either stream. Returns
    /// the routed line, if any, as `route` gives it. A failed write is
    /// discarded: logging never fails the caller.
    pub fn emit(&self, s: Severity, message: &str) -> (r: Option<RoutedLine>)
        ensures
            routing_of(self.config, self.threshold, s, message@, r),
    {
        let routed = self.route(s, message);
        match &routed {
            Some(l) => match l.stream {
                Stream::Primary => sink::write_primary(l.line.as_str()),
                Stream::Error => sink::write_error(l.line.as_str()),
            },
            None => {},
        }
        routed
    }

    /// Best-effort flush of both output streams. Advisory only:
    /// failures are discarded, and the router's state — and with it
    /// every later routing decision — is untouched (the receiver is
    /// borrowed immutably).
    pub fn flush(&self) {
        sink::flush_primary();
        sink::flush_error();
    }
}

/// An event of severity `Error` is enabled under every threshold, and
/// is routed to the error stream with the `error: ` prefix under every
/// configuration.
pub proof fn lemma_error_always_to_error_stream(
    config: RouterConfig,
    threshold: Severity,
    message: Seq<char>,
)
    ensures
        at_least_as_severe(Severity::Error, threshold),
        stream_for(config, Severity::Error) == Stream::Error,
        line_for(config, Severity::Error, message) == "error: "@ + message + "\n"@,
{
}

} // verus!
