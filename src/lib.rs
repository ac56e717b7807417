//! Carries the creator's tracing context into every thread that it spawns.
//!
//! The library holds the decisions of a thread-creation interposer: whether a
//! spawn can go straight to the platform's primitive, what travels to the new
//! thread when it cannot, how the new thread's first code restores the
//! captured context around the real work, and when a looked-up symbol is
//! usable. The foreign entry point itself lives with the caller.
pub mod context;
pub mod launch;
pub mod quasi_arc;
pub mod resolver;

pub use context::has_active_span;
pub use launch::{
    intercept, package_unsent, plan_spawn, run_launch, settle_create, LaunchPackage, SpawnPlan,
};
pub use quasi_arc::QuasiArc;
pub use resolver::{resolve_lookup, ResolveError, ResolvedEntryPoint};
