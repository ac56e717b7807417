//! What a spawn carries to its new thread, and how the new thread unpacks it.
use crate::context::has_active_span;
use opentelemetry::Context;
use vstd::prelude::*;

verus! {

/// The single-owner bundle that crosses the thread-creation boundary: the
/// caller's entry point, its argument, and the creator's captured context.
///
/// It is neither `Clone` nor `Copy`; `into_parts` is the one way to take it
/// apart, so each package is consumed at most once.
pub struct LaunchPackage<E, A> {
    entry: E,
    arg: A,
    ctx: Context,
}

impl<E, A> LaunchPackage<E, A> {
    /// The entry point that the new thread runs.
    pub closed spec fn entry(&self) -> E {
        self.entry
    }

    /// The argument handed to the entry point.
    pub closed spec fn arg(&self) -> A {
        self.arg
    }

    /// The context captured on the creator's thread.
    pub closed spec fn context(&self) -> Context {
        self.ctx
    }

    /// Bundles an entry point, its argument and a context snapshot.
    pub fn new(entry: E, arg: A, ctx: Context) -> (r: Self)
        ensures
            r.entry() == entry,
            r.arg() == arg,
            r.context() == ctx,
    {
        LaunchPackage { entry, arg, ctx }
    }

    /// Takes the package apart, giving up the package itself.
    pub fn into_parts(self) -> (r: (E, A, Context))
        ensures
            r.0 == self.entry(),
            r.1 == self.arg(),
            r.2 == self.context(),
    {
        let LaunchPackage { entry, arg, ctx } = self;
        (entry, arg, ctx)
    }
}

/// How one thread creation is to be carried out.
pub enum SpawnPlan<E, A> {
    /// No context is active: call the platform primitive with the caller's own
    /// entry point and argument.
    Direct(E, A),
    /// A context is active: call the platform primitive with the trampoline as
    /// entry point and this package as its argument.
    Wrapped(LaunchPackage<E, A>),
}

/// Whether `r` is the plan for spawning `entry(arg)` from the context `ctx`,
/// where `active` tells whether that context is active: the caller's own
/// entry point and argument when it is not, and otherwise a package of the
/// entry point, the argument and exactly that context.
pub open spec fn is_plan_for<E, A>(
    r: SpawnPlan<E, A>,
    entry: E,
    arg: A,
    ctx: Context,
    active: bool,
) -> bool {
    if active {
        r matches SpawnPlan::Wrapped(p) && p.entry() == entry && p.arg() == arg && p.context()
            == ctx
    } else {
        r == SpawnPlan::<E, A>::Direct(entry, arg)
    }
}

/// The context that a plan carries to its new thread, if it carries one.
pub open spec fn carried_context<E, A>(r: SpawnPlan<E, A>) -> Option<Context> {
    match r {
        SpawnPlan::Wrapped(p) => Some(p.context()),
        SpawnPlan::Direct(..) => None,
    }
}

/// Spawns stay apart: when any number of spawns are planned, each from its
/// own active context and those contexts pairwise different, every plan
/// carries exactly its own creator's context, and no two plans carry the
/// same one.
pub proof fn lemma_spawns_isolated<E, A>(
    plans: Seq<SpawnPlan<E, A>>,
    entries: Seq<E>,
    args: Seq<A>,
    ctxs: Seq<Context>,
)
    requires
        plans.len() == entries.len(),
        plans.len() == args.len(),
        plans.len() == ctxs.len(),
        forall|i: int|
            0 <= i < plans.len() ==> is_plan_for(#[trigger] plans[i], entries[i], args[i], ctxs[i], true),
        forall|i: int, j: int|
            0 <= i < ctxs.len() && 0 <= j < ctxs.len() && i != j ==> ctxs[i] != ctxs[j],
    ensures
        forall|i: int|
            0 <= i < plans.len() ==> carried_context(#[trigger] plans[i]) == Some(ctxs[i]),
        forall|i: int, j: int|
            0 <= i < plans.len() && 0 <= j < plans.len() && i != j ==> carried_context(plans[i])
                != carried_context(plans[j]),
{
    assert forall|i: int| 0 <= i < plans.len() implies carried_context(
        #[trigger] plans[i],
    ) == Some(ctxs[i]) by {
        assert(is_plan_for(plans[i], entries[i], args[i], ctxs[i], true));
    }
}

/// Decides how to spawn `entry(arg)` given the creator's context `ctx` and
/// whether it is active. Only an active context costs a package; otherwise
/// the caller's entry point and argument go through untouched.
pub fn plan_spawn<E, A>(entry: E, arg: A, ctx: Context, active: bool) -> (r: SpawnPlan<E, A>)
    ensures
        is_plan_for(r, entry, arg, ctx, active),
{
    if active {
        SpawnPlan::Wrapped(LaunchPackage::new(entry, arg, ctx))
    } else {
        SpawnPlan::Direct(entry, arg)
    }
}

/// Captures the calling thread's current context and plans the spawn of
/// `entry(arg)` from it. A context counts as active when it carries a span;
/// one that holds only other values takes the direct path. Whatever the
/// context is, the entry point and the argument reach the plan unchanged.
pub fn intercept<E, A>(entry: E, arg: A) -> (r: SpawnPlan<E, A>)
    ensures
        r matches SpawnPlan::Direct(e, a) ==> e == entry && a == arg,
        r matches SpawnPlan::Wrapped(p) ==> p.entry() == entry && p.arg() == arg,
{
    let ctx = Context::current();
    let active = has_active_span(&ctx);
    plan_spawn(entry, arg, ctx, active)
}

/// The new thread's first code: consumes the package, makes its context
/// current for exactly the call of the entry point, and returns what the
/// entry point returned, unchanged. The context is left again before this
/// function returns, and also when the call unwinds.
pub fn run_launch<E: FnOnce(A) -> R, A, R>(pkg: LaunchPackage<E, A>) -> (r: R)
    requires
        call_requires(pkg.entry(), (pkg.arg(),)),
    ensures
        call_ensures(pkg.entry(), (pkg.arg(),), r),
{
    let (entry, arg, ctx) = pkg.into_parts();
    let r = {
        let _scope = ctx.attach();
        entry(arg)
    };
    r
}

/// Whether a creation call that returned `rc` left its package with the
/// creator: any code but zero means no thread was made, so nothing took the
/// package over.
pub fn package_unsent(rc: i32) -> (r: bool)
    ensures
        r == (rc != 0),
{
    rc != 0
}

/// Finishes a creation call whose underlying result code is `rc`. A package
/// whose ownership never reached a new thread comes back as `unsent` and is
/// released here; the code is passed on exactly as it came.
pub fn settle_create<E, A>(rc: i32, unsent: Option<LaunchPackage<E, A>>) -> (r: i32)
    ensures
        r == rc,
{
    if let Some(pkg) = unsent {
        let _ = pkg.into_parts();
    }
    rc
}

} // verus!
