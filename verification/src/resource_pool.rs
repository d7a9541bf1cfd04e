//! A pool of shared resources that a host lends to plugins.  A resource is
//! stored once and handed out again by a small integer handle: the handle
//! of the first resource is 0, of the next 1, and so on, until the pool is
//! cleared.
use vstd::prelude::*;
use vstd::std_specs::convert::FromSpec;
use vstd::std_specs::convert::FromSpecImpl;
use vstd::std_specs::convert::IntoSpec;

verus! {

/// What may be kept in a pool: any value that can be cloned and sent to
/// another thread, and owns no borrowed data.
pub trait Resource: Clone + Send + 'static {}

impl<T: Clone + Send + 'static> Resource for T {}

/// A handle names a resource of a pool by its index.
pub trait ResourceHandle: From<u32> + Into<u32> {}

/// One stored resource, its type erased.
///
/// The value is kept as a `Box<dyn Any + Send>`, a type Verus cannot
/// declare; only the two functions below touch it.
#[verifier::external_body]
pub struct ResourceSlot {
    value: Box<dyn std::any::Any + Send>,
}

/// Boxes `resource` as a type-erased slot (`Box::new` and the unsizing
/// coercion to `dyn Any + Send`).  Nothing is stated of the slot: its
/// content is only ever read back through `slot_downcast`.
#[verifier::external_body]
fn slot_new<T: Resource>(resource: T) -> ResourceSlot {
    ResourceSlot { value: Box::new(resource) }
}

/// `Any::downcast_ref::<T>` on the slot's value, then `Option::cloned`:
/// a clone of the stored value where it has type `T`, else `None`.  Which
/// type a slot holds cannot be stated here, so no clause is given.
#[verifier::external_body]
fn slot_downcast<T: Resource>(slot: &ResourceSlot) -> Option<T> {
    slot.value.downcast_ref::<T>().cloned()
}

/// The resources of a pool, in the order in which they were added; the
/// resource at position `i` has handle `i`.
pub struct ResourcePool {
    resources: Vec<ResourceSlot>,
}

impl View for ResourcePool {
    type V = Seq<ResourceSlot>;

    closed spec fn view(&self) -> Seq<ResourceSlot> {
        self.resources@
    }
}

/// The handle that a pool gives out for the resource at `index`, where the
/// handle type says how it is made from an index.
pub open spec fn handle_for<H: ResourceHandle>(index: u32, h: H) -> bool {
    <H as FromSpec<u32>>::obeys_from_spec() ==> h == <H as FromSpec<u32>>::from_spec(index)
}

/// Whether `handle` surely names no resource of a pool that holds `len`
/// resources.
pub open spec fn handle_past_end<H: ResourceHandle>(handle: H, len: nat) -> bool {
    &&& <H as IntoSpec<u32>>::obeys_into_spec()
    &&& handle.into_spec() >= len
}

/// The handles a pool gives out name the positions they were given for:
/// a handle made for index `i` reads back as `i`.
pub proof fn lemma_rope_handle_round_trip(index: u32, handle: RopeHandle)
    requires
        handle_for(index, handle),
    ensures
        <RopeHandle as IntoSpec<u32>>::obeys_into_spec(),
        <RopeHandle as IntoSpec<u32>>::into_spec(handle) == index,
{
}

/// After `clear` a pool starts over, whatever the handle type: it holds no
/// resource, so `get` finds nothing for any handle of it, and the next
/// `add` makes its handle from index 0.
pub proof fn lemma_clear_starts_over<H: ResourceHandle>(cleared: ResourcePool, next: H)
    requires
        cleared@.len() == 0,
        handle_for(cleared@.len() as u32, next),
    ensures
        cleared@ == Seq::<ResourceSlot>::empty(),
        handle_for(0u32, next),
        <H as FromSpec<u32>>::obeys_from_spec() ==> next == <H as FromSpec<u32>>::from_spec(0u32),
{
    assert(cleared@ =~= Seq::<ResourceSlot>::empty());
}

impl ResourcePool {
    /// An empty pool.
    pub fn new() -> (pool: ResourcePool)
        ensures
            pool@.len() == 0,
    {
        ResourcePool { resources: Vec::new() }
    }

    /// Releases every resource; the next one added gets handle 0 again.
    pub fn clear(&mut self)
        ensures
            final(self)@.len() == 0,
    {
        self.resources.clear();
    }

    /// Stores `resource` after the others and returns its handle, which is
    /// the number of resources the pool held before.
    pub fn add<T: Resource, H: ResourceHandle>(&mut self, resource: T) -> (handle: H)
        requires
            old(self)@.len() <= u32::MAX,
        ensures
            final(self)@.len() == old(self)@.len() + 1,
            final(self)@.take(old(self)@.len() as int) == old(self)@,
            handle_for(old(self)@.len() as u32, handle),
    {
        let index = self.resources.len() as u32;
        self.resources.push(slot_new(resource));
        proof {
            assert(self.resources@.take(index as int) =~= old(self).resources@);
        }
        H::from(index)
    }

    /// A clone of the resource that `handle` names, if there is one and it
    /// has type `T`; `None` for a handle past the last resource, and for
    /// every handle of an empty pool.  The pool is left as it was.
    pub fn get<T: Resource, H: ResourceHandle>(&mut self, handle: H) -> (found: Option<T>)
        ensures
            final(self)@ == old(self)@,
            old(self)@.len() == 0 ==> found is None,
            handle_past_end(handle, old(self)@.len()) ==> found is None,
    {
        let index: u32 = handle.into();
        let i = index as usize;
        if i < self.resources.len() {
            slot_downcast(&self.resources[i])
        } else {
            None
        }
    }
}

/// The handle of a text buffer lent to a plugin.
pub struct RopeHandle(pub u32);

/// The handle of a language lent to a plugin.
pub struct LanguageHandle(pub u32);

impl From<u32> for RopeHandle {
    fn from(index: u32) -> (handle: RopeHandle) {
        RopeHandle(index)
    }
}

impl FromSpecImpl<u32> for RopeHandle {
    open spec fn obeys_from_spec() -> bool {
        true
    }

    open spec fn from_spec(v: u32) -> RopeHandle {
        RopeHandle(v)
    }
}

impl From<RopeHandle> for u32 {
    fn from(handle: RopeHandle) -> (index: u32) {
        handle.0
    }
}

impl FromSpecImpl<RopeHandle> for u32 {
    open spec fn obeys_from_spec() -> bool {
        true
    }

    open spec fn from_spec(v: RopeHandle) -> u32 {
        v.0
    }
}

impl ResourceHandle for RopeHandle {}

impl From<u32> for LanguageHandle {
    fn from(index: u32) -> (handle: LanguageHandle) {
        LanguageHandle(index)
    }
}

impl FromSpecImpl<u32> for LanguageHandle {
    open spec fn obeys_from_spec() -> bool {
        true
    }

    open spec fn from_spec(v: u32) -> LanguageHandle {
        LanguageHandle(v)
    }
}

impl From<LanguageHandle> for u32 {
    fn from(handle: LanguageHandle) -> (index: u32) {
        handle.0
    }
}

impl FromSpecImpl<LanguageHandle> for u32 {
    open spec fn obeys_from_spec() -> bool {
        true
    }

    open spec fn from_spec(v: LanguageHandle) -> u32 {
        v.0
    }
}

impl ResourceHandle for LanguageHandle {}

} // verus!
