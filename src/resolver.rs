//! Accepting the address of the platform's own thread-creation function.
use vstd::prelude::*;

verus! {

/// A usable address of the platform's original thread-creation function.
/// It is never null.
pub struct ResolvedEntryPoint {
    addr: usize,
}

/// Why the original thread-creation function could not be used.
#[derive(Debug, PartialEq, Eq, Structural)]
pub enum ResolveError {
    /// The symbol lookup found nothing.
    NotFound,
}

impl ResolvedEntryPoint {
    /// The resolved address.
    pub closed spec fn address(&self) -> usize {
        self.addr
    }

    /// Every resolved entry point has a non-null address.
    #[verifier::type_invariant]
    spec fn wf(&self) -> bool {
        self.addr != 0
    }

    /// Returns the resolved address, which is never null.
    pub fn addr(&self) -> (r: usize)
        ensures
            r == self.address(),
            r != 0,
    {
        proof {
            use_type_invariant(self);
        }
        self.addr
    }
}

/// Turns the outcome of a symbol lookup into a resolved entry point. A null
/// address means the original function is missing: that is an error, never
/// a silent stand-in, since every later thread creation would depend on it.
pub fn resolve_lookup(addr: usize) -> (r: Result<ResolvedEntryPoint, ResolveError>)
    ensures
        addr == 0 <==> r == Err::<ResolvedEntryPoint, ResolveError>(ResolveError::NotFound),
        addr != 0 ==> r is Ok,
        r matches Ok(e) ==> e.address() == addr,
{
    if addr == 0 {
        Err(ResolveError::NotFound)
    } else {
        Ok(ResolvedEntryPoint { addr })
    }
}

} // verus!
