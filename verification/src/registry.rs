//! The process-wide registration cell: at most one router is active,
//! set exactly once at startup by one of the two initialization entry
//! points.

use crate::router::{
    error_warn_info, primary_warn_info, routing_of, RoutedLine, RouterConfig, StreamRouter,
};
use crate::severity::{at_least_as_severe, Severity};
use vstd::prelude::*;

verus! {

/// A configuration error at startup. Registering a second router after
/// one is already active is a programming error in the host, not a
/// runtime condition to recover from.
#[derive(Clone, Copy, Debug, PartialEq, Eq)]
pub enum InitError {
    AlreadyRegistered,
}

/// The explicit configuration cell that stands for the process-wide
/// "one active logging backend" registration. It starts empty and is
/// filled at most once.
#[derive(Clone, Copy, Debug, PartialEq, Eq)]
pub struct Registry {
    pub active: Option<StreamRouter>,
}

/// How one registration attempt relates the cell before the call
/// (`pre`), the cell after it (`post`) and the attempt's result: an
/// empty cell is filled with the given router and the attempt succeeds;
/// a filled cell is left untouched and the attempt reports the
/// configuration error.
pub open spec fn init_outcome(
    pre: Registry,
    config: RouterConfig,
    threshold: Severity,
    post: Registry,
    result: Result<(), InitError>,
) -> bool {
    if pre.active is None {
        &&& post.active == Some((StreamRouter { config, threshold }))
        &&& result is Ok
    } else {
        &&& post == pre
        &&& result == Err::<(), InitError>(InitError::AlreadyRegistered)
    }
}

impl Registry {
    /// An empty cell: no router registered yet, every event dropped.
    pub fn new() -> (r: Registry)
        ensures
            r.active is None,
    {
        Registry { active: None }
    }

    /// True iff a router is registered and `s` is at least as severe
    /// as its threshold. With no router registered nothing is enabled.
    pub fn is_enabled(&self, s: Severity) -> (r: bool)
        ensures
            r == (self.active matches Some(rt) && at_least_as_severe(s, rt.threshold)),
    {
        match &self.active {
            Some(rt) => rt.is_enabled(s),
            None => false,
        }
    }

    /// Hands the event to the registered router, which writes the
    /// routed line, if any, to its stream and returns it. With no
    /// router registered the event is dropped and nothing is written.
    pub fn emit(&self, s: Severity, message: &str) -> (r: Option<RoutedLine>)
        ensures
            self.active matches Some(rt) ==> routing_of(rt.config, rt.threshold, s, message@, r),
            self.active is None ==> r is None,
    {
        match &self.active {
            Some(rt) => rt.emit(s, message),
            None => None,
        }
    }

    /// Best-effort flush of the registered router's streams; advisory
    /// only, and a no-op with no router registered.
    pub fn flush(&self) {
        match &self.active {
            Some(rt) => rt.flush(),
            None => {},
        }
    }
}

/// Registers the configuration that routes info and warn lines to the
/// primary stream, with the given threshold, as the sole active router.
/// Fails with the configuration error, and changes nothing, if a router
/// is already registered.
pub fn init_with_level(registry: &mut Registry, threshold: Severity) -> (r: Result<(), InitError>)
    ensures
        init_outcome(*old(registry), primary_warn_info(), threshold, *final(registry), r),
{
    register(registry, RouterConfig { always_error_on_warn_info: false }, threshold)
}

/// Registers the configuration that routes info and warn lines to the
/// error stream, with the given threshold, as the sole active router.
/// Fails with the configuration error, and changes nothing, if a router
/// is already registered.
pub fn init_stderr_with_level(
    registry: &mut Registry,
    threshold: Severity,
) -> (r: Result<(), InitError>)
    ensures
        init_outcome(*old(registry), error_warn_info(), threshold, *final(registry), r),
{
    register(registry, RouterConfig { always_error_on_warn_info: true }, threshold)
}

/// One registration attempt on the cell.
fn register(registry: &mut Registry, config: RouterConfig, threshold: Severity) -> (r: Result<
    (),
    InitError,
>)
    ensures
        init_outcome(*old(registry), config, threshold, *final(registry), r),
{
    match &registry.active {
        Some(_) => Err(InitError::AlreadyRegistered),
        None => {
            registry.active = Some(StreamRouter { config, threshold });
            Ok(())
        },
    }
}

/// Registration is one-shot: after a first registration fills an empty
/// cell, any second attempt — whatever configuration and threshold it
/// carries — reports the configuration error, and the first-registered
/// router remains the active one.
pub proof fn lemma_second_registration_rejected(
    reg0: Registry,
    reg1: Registry,
    reg2: Registry,
    c1: RouterConfig,
    c2: RouterConfig,
    t1: Severity,
    t2: Severity,
    r1: Result<(), InitError>,
    r2: Result<(), InitError>,
)
    requires
        reg0.active is None,
        init_outcome(reg0, c1, t1, reg1, r1),
        init_outcome(reg1, c2, t2, reg2, r2),
    ensures
        r1 is Ok,
        r2 == Err::<(), InitError>(InitError::AlreadyRegistered),
        reg2.active == Some((StreamRouter { config: c1, threshold: t1 })),
{
}

} // verus!
