//! A remote device: its connection handle, resolved against the resource
//! tree through the resolution cache, and the decision rules of the pairing
//! flow.

use vstd::prelude::*;
use vstd::pervasive::unreached;
use crate::ids::DeviceId;
use crate::errors::{Error, ErrorKind};
use crate::cache::{CachedWeak, CacheOutcome};
use crate::tree::{GattTree, GattConnection};
use crate::service::Service;

verus! {

/// The platform's value for a device that is not bonded.
pub const BOND_NONE: i32 = 10;

/// The platform's value for a device whose bonding is in progress.
pub const BOND_BONDING: i32 = 11;

/// The platform's value for a bonded device.
pub const BOND_BONDED: i32 = 12;

/// A device-wide event delivered by the transport callback.
#[derive(Clone, Copy, PartialEq, Eq, Structural, Debug)]
pub enum GlobalEvent {
    BondStateChanged { dev: DeviceId, prev_state: i32, new_state: i32 },
}

/// What a pairing flow should do with one observed event.
#[derive(Clone, Copy, PartialEq, Eq, Structural, Debug)]
pub enum PairStep {
    Paired,
    Failed,
    Disconnected,
    KeepWaiting,
}

/// How a pairing flow should begin, given the device's current bond state.
#[derive(Clone, Copy, PartialEq, Eq, Structural, Debug)]
pub enum PairInitial {
    AlreadyPaired,
    Bonding,
    NeedBond,
}

/// A Bluetooth LE device.
#[derive(Clone, Copy, Debug)]
pub struct Device {
    pub id: DeviceId,
    pub connection: CachedWeak,
}

/// How the pairing flow begins: a bonded device is already paired, a bonding
/// one is waited on, any other needs a bond request first.
pub open spec fn pair_initial_decision(bond_state: i32) -> PairInitial {
    if bond_state == BOND_BONDED {
        PairInitial::AlreadyPaired
    } else if bond_state == BOND_BONDING {
        PairInitial::Bonding
    } else {
        PairInitial::NeedBond
    }
}

/// What one event tells a pairing flow for `self_id`: events of other devices
/// are ignored; reaching the bonded state finishes the pairing; falling back
/// to no bond fails it when bonding was in progress, and means the
/// connection is gone when the device had been bonded; anything else keeps
/// the flow waiting.
pub open spec fn pair_event_decision(self_id: DeviceId, event: GlobalEvent) -> PairStep {
    match event {
        GlobalEvent::BondStateChanged { dev, prev_state, new_state } => {
            if dev != self_id {
                PairStep::KeepWaiting
            } else if new_state == BOND_BONDED {
                PairStep::Paired
            } else if new_state == BOND_NONE && prev_state == BOND_BONDING {
                PairStep::Failed
            } else if new_state == BOND_NONE && prev_state == BOND_BONDED {
                PairStep::Disconnected
            } else {
                PairStep::KeepWaiting
            }
        },
    }
}

/// Decides how a pairing flow begins; see [`pair_initial_decision`].
pub fn pair_initial_step(bond_state: i32) -> (r: PairInitial)
    ensures
        r == pair_initial_decision(bond_state),
{
    if bond_state == BOND_BONDED {
        PairInitial::AlreadyPaired
    } else if bond_state == BOND_BONDING {
        PairInitial::Bonding
    } else {
        PairInitial::NeedBond
    }
}

/// Decides what a pairing flow does with one observed event; see
/// [`pair_event_decision`].
pub fn pair_event_step(self_id: DeviceId, event: &GlobalEvent) -> (r: PairStep)
    ensures
        r == pair_event_decision(self_id, *event),
{
    match event {
        GlobalEvent::BondStateChanged { dev, prev_state, new_state } => {
            if dev.addr != self_id.addr {
                PairStep::KeepWaiting
            } else if *new_state == BOND_BONDED {
                PairStep::Paired
            } else if *new_state == BOND_NONE && *prev_state == BOND_BONDING {
                PairStep::Failed
            } else if *new_state == BOND_NONE && *prev_state == BOND_BONDED {
                PairStep::Disconnected
            } else {
                PairStep::KeepWaiting
            }
        },
    }
}

/// The error a pairing flow reports when bonding fell through.
pub fn pair_failure_error() -> (r: Error)
    ensures
        r.kind == ErrorKind::NotAuthorized,
        r.source is None,
        r.message@ == "pairing process failed"@,
{
    Error::new(ErrorKind::NotAuthorized, None, "pairing process failed")
}

/// What a request for the device's services answers without further work:
/// the handles themselves when service discovery has already completed, or
/// the word that discovery must run first.
#[derive(Debug)]
pub enum ServicesStep {
    Ready(Vec<Service>),
    NeedsDiscovery,
}

impl Device {
    /// A device handle for the given identifier, with an unresolved
    /// connection cache.
    pub fn new(id: DeviceId) -> (r: Self)
        ensures
            r.id == id,
            r.connection.cached is None,
    {
        Device { id, connection: CachedWeak::new() }
    }

    /// This device's unique identifier.
    pub fn id(&self) -> (r: DeviceId)
        ensures
            r == self.id,
    {
        self.id
    }

    /// Resolves this device's connection against the resource tree: from the
    /// cache while the cached entry is still the live one, through the
    /// lookup otherwise. Fails with `NotConnected` exactly when no
    /// connection is registered.
    pub fn get_connection<'a>(&mut self, tree: &'a GattTree) -> (r: Result<&'a GattConnection, Error>)
        requires
            tree.wf(),
        ensures
            final(self).id == old(self).id,
            r is Ok <==> tree.has_conn(old(self).id),
            r matches Ok(c) ==> exists|i: int| 0 <= i < tree.connections@.len()
                && tree.connections@[i].dev == old(self).id
                && *c == tree.connections@[i].conn
                && final(self).connection.cached == Some(c.epoch),
            r matches Err(e) ==> e.kind == ErrorKind::NotConnected && e.source is None
                && final(self).connection == old(self).connection,
    {
        let live: Option<u64> = match tree.find_connection(self.id) {
            Some(c) => Some(c.epoch),
            None => None,
        };
        let outcome = self.connection.get_or_find(live);
        match outcome {
            CacheOutcome::Gone => Err(Error::from_kind(ErrorKind::NotConnected)),
            _ => match tree.find_connection(self.id) {
                Some(c) => Ok(c),
                None => unreached(),
            },
        }
    }

    /// The connection status of this device: whether a connection is
    /// registered for it.
    pub fn is_connected(&mut self, tree: &GattTree) -> (r: bool)
        requires
            tree.wf(),
        ensures
            final(self).id == old(self).id,
            r == tree.has_conn(old(self).id),
    {
        match self.get_connection(tree) {
            Ok(_) => true,
            Err(_) => false,
        }
    }

    /// The previously discovered services of this device, as handles on
    /// their paths. Fails with `NotConnected` exactly when no connection is
    /// registered.
    pub fn collect_discovered_services(&mut self, tree: &GattTree) -> (r: Result<
        Vec<Service>,
        Error,
    >)
        requires
            tree.wf(),
        ensures
            final(self).id == old(self).id,
            r is Ok <==> tree.has_conn(old(self).id),
            r matches Ok(v) ==> exists|i: int| 0 <= i < tree.connections@.len()
                && tree.connections@[i].dev == old(self).id
                && v@.len() == tree.connections@[i].conn.services@.len()
                && (forall|y: int| 0 <= y < v@.len() ==> (#[trigger] v@[y]).dev_id == old(
                    self,
                ).id && v@[y].service_id == tree.connections@[i].conn.services@[y].id),
            r matches Err(e) ==> e.kind == ErrorKind::NotConnected,
    {
        let id = self.id;
        let conn = match self.get_connection(tree) {
            Ok(c) => c,
            Err(e) => {
                return Err(e);
            },
        };
        let n = conn.services.len();
        let mut out: Vec<Service> = Vec::new();
        let mut x: usize = 0;
        while x < n
            invariant
                n == conn.services@.len(),
                x <= n,
                out@.len() == x,
                forall|y: int| 0 <= y < x ==> (#[trigger] out@[y]).dev_id == id
                    && out@[y].service_id == conn.services@[y].id,
            decreases n - x,
        {
            out.push(Service::new(id, conn.services[x].id));
            x = x + 1;
        }
        Ok(out)
    }

    /// Answers a request for this device's services: the handles when
    /// service discovery has already completed — its lock then holds a last
    /// value — or the word that discovery must run first. Fails with
    /// `NotConnected` exactly when no connection is registered.
    pub fn services_step(&mut self, tree: &GattTree) -> (r: Result<ServicesStep, Error>)
        requires
            tree.wf(),
        ensures
            final(self).id == old(self).id,
            r is Ok <==> tree.has_conn(old(self).id),
            r matches Err(e) ==> e.kind == ErrorKind::NotConnected,
            r matches Ok(step) ==> exists|i: int| 0 <= i < tree.connections@.len()
                && tree.connections@[i].dev == old(self).id
                && ((step is NeedsDiscovery) <==> tree.connections@[
                i
            ].conn.discover_services.last_val is None),
    {
        let id = self.id;
        let discovered = match self.get_connection(tree) {
            Ok(c) => c.discover_services.last_value().is_some(),
            Err(e) => {
                return Err(e);
            },
        };
        if discovered {
            match self.collect_discovered_services(tree) {
                Ok(v) => Ok(ServicesStep::Ready(v)),
                Err(_) => unreached(),
            }
        } else {
            Ok(ServicesStep::NeedsDiscovery)
        }
    }
}

/// A services changed notification.
#[derive(Clone, Copy, PartialEq, Eq, Structural, Debug)]
pub struct ServicesChanged {
    pub dev_id: DeviceId,
}

impl ServicesChanged {
    /// Check if `service` is currently invalidated: whether the path it
    /// stands on no longer has an entry in the resource tree.
    pub fn was_invalidated(&self, tree: &GattTree, service: &Service) -> (r: bool)
        requires
            tree.wf(),
        ensures
            r == !tree.has_service(self.dev_id, service.service_id),
    {
        match tree.find_service(self.dev_id, service.uuid()) {
            Some(_) => false,
            None => true,
        }
    }
}

} // verus!
