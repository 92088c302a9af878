use vstd::prelude::*;

verus! {

/// A borrowed reference to one foreign result object, valid only for the
/// duration of the callback that delivered it. The foreign object itself is
/// opaque; the bridge reads nothing of it but its identity, so a reference
/// is modelled as that identity.
#[derive(Clone, Copy, PartialEq, Eq, Structural, Debug)]
pub struct ObjectRef {
    pub id: u64,
}

/// An owned handle to one foreign result object: its lifetime is independent
/// of the callback call stack that produced it. [`Item::acquire`] stands for
/// the owned-handle adapter, the reference-count extension the foreign
/// engine requires before the delivering callback returns; the handle itself
/// is a plain model value.
#[derive(PartialEq, Eq, Structural, Debug)]
pub struct Item {
    pub id: u64,
}

impl Item {
    /// The owned-handle adapter: converts a borrowed, call-scoped reference
    /// into an independently owned handle to the same object.
    pub fn acquire(obj: ObjectRef) -> (r: Item)
        ensures
            r.id == obj.id,
    {
        Item { id: obj.id }
    }
}

/// Why a delivery could not reach the consumer.
#[derive(Clone, Copy, PartialEq, Eq, Structural, Debug)]
pub enum DeliveryError {
    /// A delivered slot was empty where an object reference was expected.
    NullReference,
    /// The consumer's receiving end of the channel no longer exists.
    ConsumerGone,
}

/// Status code returned to the foreign engine when a callback succeeds.
pub const WBEM_NO_ERROR: i32 = 0;

/// Status code returned to the foreign engine when a delivered slot is empty.
pub const E_POINTER: i32 = -2147467261;

/// The `set_status` flag value that signals that no more results will come.
pub const WBEM_STATUS_COMPLETE: i32 = 0;

} // verus!
