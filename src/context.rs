//! The execution context of opentelemetry, as the rest of the library sees it.
use opentelemetry::trace::TraceContextExt;
use opentelemetry::{Context, ContextGuard};
use vstd::prelude::*;

verus! {

/// The context handle of opentelemetry, carried through the library unopened.
#[verifier::external_type_specification]
#[verifier::external_body]
pub struct ExContext(Context);

/// The scope guard of opentelemetry: while it lives, its context is the
/// calling thread's current one; dropping it restores the previous one.
#[verifier::external_type_specification]
#[verifier::external_body]
pub struct ExContextGuard(ContextGuard);

/// Relies on `Context::current`: a clone of the calling thread's current
/// context. What it holds depends on the thread's state, so nothing is stated.
pub assume_specification[ Context::current ]() -> Context;

/// Relies on `Context::attach`: makes `cx` current on the calling thread until
/// the returned guard is dropped.
pub assume_specification[ Context::attach ](cx: Context) -> ContextGuard;

/// Relies on `TraceContextExt::has_active_span` for `Context`: whether the
/// context carries a span. The answer is read from the context alone; the
/// library states nothing of it and takes it as an argument where it decides.
#[verifier::external_body]
pub fn has_active_span(cx: &Context) -> (r: bool) {
    cx.has_active_span()
}

} // verus!
