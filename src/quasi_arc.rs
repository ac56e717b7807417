//! A shared handle whose value outlives its origin only through clones.
use std::mem::ManuallyDrop;
use std::sync::{Arc, Weak};
use vstd::prelude::*;
use vstd::rwlock::{RwLock, RwLockPredicate};

verus! {

/// The storage of a `std::sync::Weak`, kept opaque.
#[verifier::external_body]
#[verifier::reject_recursive_types(T)]
struct WeakCell<T> {
    inner: Weak<T>,
}

/// A weak reference together with the value it was made from.
#[verifier::reject_recursive_types(T)]
struct WeakRef<T> {
    cell: WeakCell<T>,
    target: Ghost<T>,
}

/// Relies on `Arc::downgrade`: a weak reference to the allocation of `a`,
/// which holds the value `**a`.
#[verifier::external_body]
fn downgrade<T>(a: &Arc<T>) -> (r: WeakRef<T>)
    ensures
        r.target@ == **a,
{
    WeakRef { cell: WeakCell { inner: Arc::downgrade(a) }, target: Ghost(**a) }
}

/// Relies on `Weak::upgrade`: while the value is alive, a new strong reference
/// to the allocation the weak reference was made from; `None` once the last
/// strong reference is gone.
#[verifier::external_body]
fn upgrade<T>(w: &WeakRef<T>) -> (r: Option<Arc<T>>)
    ensures
        r matches Some(a) ==> *a == w.target@,
{
    w.cell.inner.upgrade()
}

/// The strong reference that the first clone takes over, or that `cancel`
/// releases. While it waits here nothing drops it.
type Seed<T> = Option<ManuallyDrop<Arc<T>>>;

/// What the seed slot may hold: nothing, or a reference to `data`.
struct SeedOf<T> {
    data: T,
}

impl<T> RwLockPredicate<Seed<T>> for SeedOf<T> {
    closed spec fn inv(self, v: Seed<T>) -> bool {
        v matches Some(m) ==> *m@ == self.data
    }
}

#[verifier::reject_recursive_types(T)]
struct Shared<T> {
    seed: RwLock<Seed<T>, SeedOf<T>>,
    weak: WeakRef<T>,
}

/// A handle on a value that is released either by `try_cancel` before any
/// clone was taken, or when the last clone goes away.
///
/// The handle made by `new` is the origin. It never keeps the value alive by
/// itself: once clones exist, the value lives exactly as long as they do. If
/// neither a clone nor a cancel ever happens, the value is never released.
#[verifier::reject_recursive_types(T)]
pub struct QuasiArc<T> {
    shared: Arc<Shared<T>>,
    held: Option<Arc<T>>,
    origin: bool,
}

impl<T> QuasiArc<T> {
    #[verifier::type_invariant]
    spec fn wf(&self) -> bool {
        &&& self.shared.seed.pred() == SeedOf { data: self.shared.weak.target@ }
        &&& self.held matches Some(a) ==> *a == self.shared.weak.target@
    }

    /// The value given to `new`, shared by the origin and all its clones.
    pub closed spec fn value(&self) -> T {
        self.shared.weak.target@
    }

    /// Whether this is the handle made by `new`.
    pub closed spec fn is_origin(&self) -> bool {
        self.origin
    }

    /// Whether this handle keeps the value alive.
    pub closed spec fn holds(&self) -> bool {
        self.held is Some
    }

    /// Makes the origin handle of `data`. It holds no strong reference.
    pub fn new(data: T) -> (r: Self)
        ensures
            r.value() == data,
            r.is_origin(),
            !r.holds(),
    {
        let strong = Arc::new(data);
        let weak = downgrade(&strong);
        let seed = RwLock::new(Some(ManuallyDrop::new(strong)), Ghost(SeedOf { data: weak.target@ }));
        QuasiArc { shared: Arc::new(Shared { seed, weak }), held: None, origin: true }
    }

    /// Releases the value if no clone was ever taken, and returns `Ok(())`;
    /// otherwise leaves it to the clones and returns `Err(())`. Either way
    /// this handle is gone.
    pub fn try_cancel(self) -> (r: Result<(), ()>) {
        let (slot, handle) = self.shared.seed.acquire_write();
        handle.release_write(None);
        match slot {
            Some(seed) => {
                ManuallyDrop::into_inner(seed);
                Ok(())
            },
            None => Err(()),
        }
    }

    /// Releases the value if no clone was ever taken. Once clones exist they
    /// alone decide when the value goes, and this only gives up the handle.
    pub fn cancel(self) {
        let _ = self.try_cancel();
    }

    /// A strong reference to the value while it is alive, through any handle,
    /// the origin included; `None` once the value was released. Through a
    /// handle that keeps the value alive it is always there.
    pub fn get(&self) -> (r: Option<Arc<T>>)
        ensures
            r matches Some(a) ==> *a == self.value(),
            self.holds() ==> r is Some,
    {
        proof {
            use_type_invariant(self);
        }
        match &self.held {
            Some(a) => Some(Arc::clone(a)),
            None => upgrade(&self.shared.weak),
        }
    }
}

impl<T> Clone for QuasiArc<T> {
    /// Makes a handle on the same value. The first clone takes over the
    /// origin's pending reference; later ones share the value while any clone
    /// still holds it.
    fn clone(&self) -> (r: Self)
        ensures
            r.value() == self.value(),
            !r.is_origin(),
            self.holds() ==> r.holds(),
    {
        proof {
            use_type_invariant(self);
        }
        let held = match &self.held {
            Some(a) => Some(Arc::clone(a)),
            None => {
                let (slot, handle) = self.shared.seed.acquire_write();
                handle.release_write(None);
                match slot {
                    Some(seed) => Some(ManuallyDrop::into_inner(seed)),
                    None => upgrade(&self.shared.weak),
                }
            },
        };
        QuasiArc { shared: Arc::clone(&self.shared), held, origin: false }
    }
}

} // verus!
