//! Core synchronization and resolution machinery for building a
//! request/response style API over a callback-driven transport.
//!
//! The crate provides four cooperating pieces:
//! - a single-flight lock ([`Excluder`] / [`ResultWaiter`]) that serializes one
//!   in-flight correlated operation per resource and delivers its eventual
//!   result (or a timeout) to the task that initiated it;
//! - a subscription broadcaster ([`Notifier`] / [`NotifierReceiver`]) that fans
//!   callback values out to any number of live subscribers with
//!   reference-counted activation and deactivation;
//! - a sequence terminator ([`StreamUntil`]) that cuts a primary stream short
//!   when an event stream signals termination;
//! - a resolution cache ([`CachedWeak`]) plus a resource tree ([`GattTree`])
//!   that map stable identifier paths onto live, possibly invalidated
//!   resource entries.
//!
//! All waiting, timing and wake-up plumbing is event-driven: the functions
//! here take the current instant and the observed events as plain values and
//! decide the next state and action, so that an asynchronous shell can drive
//! them.

use vstd::prelude::*;

pub mod ids;
pub mod errors;
pub mod excluder;
pub mod notifier;
pub mod stream_until;
pub mod cache;
pub mod tree;
pub mod device;
pub mod service;
pub mod characteristic;
pub mod descriptor;

pub use ids::{Uuid, DeviceId};
pub use errors::{AttError, BluetoothStatusCode, ErrorKind, NativeError, Error};
pub use excluder::{Excluder, ResultWaiter, LockMark, LockStep};
pub use notifier::{Notifier, NotifierReceiver, Subscription, RecvStep};
pub use stream_until::{StreamUntil, PrimaryPoll, EventPoll, StreamStep};
pub use cache::{CachedWeak, CacheOutcome};
pub use tree::{GattTree, GattConnection, ConnectionSlot, Slot, ServiceInner, CharacteristicInner, DescriptorInner};
pub use device::{Device, ServicesChanged, GlobalEvent, PairStep, PairInitial, ServicesStep};
pub use service::Service;
pub use characteristic::Characteristic;
pub use descriptor::Descriptor;

verus! {

/// Convenience alias for a result with [`Error`].
pub type Result<T, E = Error> = core::result::Result<T, E>;

} // verus!
