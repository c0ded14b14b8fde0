//! The extended capability register blocks this crate understands, and the
//! closed variant that tags which block a capability-list entry resolves to.

pub mod debug;
pub mod xhci_extended_message_interrupt;

use vstd::prelude::*;

use crate::accessor::Mapper;
use crate::accessor::Single;
use crate::extended_capabilities::xhci_extended_message_interrupt::XhciExtendedMessageInterrupt;

verus! {

/// Tags exactly which concrete register block a capability-list entry
/// resolves to; each variant owns one instance of its block. A capability's
/// kind never changes after construction.
pub enum ExtendedCapability<M: Mapper + Clone> {
    /// Debug Capability.
    Debug(debug::Debug<M>),
    /// xHCI Extended Message Interrupt Capability.
    XhciExtendedMessageInterrupt(Single<XhciExtendedMessageInterrupt, M>),
}

impl<M: Mapper + Clone> From<debug::Debug<M>> for ExtendedCapability<M> {
    /// Tags a Debug Capability block; total and infallible.
    fn from(d: debug::Debug<M>) -> Self {
        ExtendedCapability::Debug(d)
    }
}

impl<M: Mapper + Clone> vstd::std_specs::convert::FromSpecImpl<debug::Debug<M>> for ExtendedCapability<M> {
    open spec fn obeys_from_spec() -> bool {
        true
    }

    open spec fn from_spec(d: debug::Debug<M>) -> Self {
        ExtendedCapability::Debug(d)
    }
}

impl<M: Mapper + Clone> From<Single<XhciExtendedMessageInterrupt, M>> for ExtendedCapability<M> {
    /// Tags a message interrupt block accessor; total and infallible.
    fn from(x: Single<XhciExtendedMessageInterrupt, M>) -> Self {
        ExtendedCapability::XhciExtendedMessageInterrupt(x)
    }
}

impl<M: Mapper + Clone> vstd::std_specs::convert::FromSpecImpl<Single<XhciExtendedMessageInterrupt, M>> for ExtendedCapability<M> {
    open spec fn obeys_from_spec() -> bool {
        true
    }

    open spec fn from_spec(x: Single<XhciExtendedMessageInterrupt, M>) -> Self {
        ExtendedCapability::XhciExtendedMessageInterrupt(x)
    }
}

} // verus!
