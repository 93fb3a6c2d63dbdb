use gatt_core::cache::{CachedWeak, CacheOutcome};
use gatt_core::tree::{
    GattTree, GattConnection, ServiceInner, CharacteristicInner, DescriptorInner, Slot,
};
use gatt_core::ids::{Uuid, DeviceId};
use gatt_core::errors::ErrorKind;
use gatt_core::device::{Device, ServicesChanged, ServicesStep};
use gatt_core::service::Service;
use gatt_core::characteristic::Characteristic;
use gatt_core::descriptor::Descriptor;

fn dev() -> DeviceId {
    DeviceId::from_addr(0xAA_BB_CC_DD_EE_FF)
}

fn svc_id() -> Uuid {
    Uuid::from_u128(0x1800)
}

fn chr_id() -> Uuid {
    Uuid::from_u128(0x2A00)
}

fn dsc_id() -> Uuid {
    Uuid::from_u128(0x2902)
}

/// Registers one connection with one service, one characteristic and one
/// descriptor, with fresh epochs from the tree.
fn register_sample(tree: &mut GattTree) {
    let e1 = tree.issue_epoch();
    let e2 = tree.issue_epoch();
    let e3 = tree.issue_epoch();
    let e4 = tree.issue_epoch();
    let descs = vec![Slot { id: dsc_id(), inner: DescriptorInner::new(e4, 5000) }];
    let chars = vec![Slot { id: chr_id(), inner: CharacteristicInner::new(e3, 5000, 8, descs) }];
    let services = vec![Slot { id: svc_id(), inner: ServiceInner::new(e2, true, chars) }];
    let conn = GattConnection::new(e1, 5000, 8, services);
    tree.register_connection(dev(), conn);
}

/// One connection with one service, one characteristic and one descriptor.
fn sample_tree() -> GattTree {
    let mut tree = GattTree::new();
    register_sample(&mut tree);
    tree
}

#[test]
fn fallback_runs_per_attempt_until_the_path_is_live_again() {
    let mut cache = CachedWeak::new();
    // Dead path: every attempt runs the fallback and fails.
    assert_eq!(cache.get_or_find(None), CacheOutcome::Gone);
    assert_eq!(cache.get_or_find(None), CacheOutcome::Gone);
    // Live path: the first attempt resolves through the fallback and caches.
    assert_eq!(cache.get_or_find(Some(5)), CacheOutcome::Resolved);
    // The next attempt answers from the cache without the fallback.
    assert_eq!(cache.get_or_find(Some(5)), CacheOutcome::Hit);
    // A replaced entry misses again, once.
    assert_eq!(cache.get_or_find(Some(7)), CacheOutcome::Resolved);
    assert_eq!(cache.get_or_find(Some(7)), CacheOutcome::Hit);
}

#[test]
fn resolution_retries_after_the_strong_entry_is_gone() {
    let mut tree = sample_tree();
    let mut service = Service::new(dev(), svc_id());
    assert!(service.get_inner(&tree).is_ok());
    // The owning entry is torn down elsewhere.
    assert!(tree.deregister_connection(dev()));
    // Every subsequent access re-invokes the lookup and fails typed.
    let e = service.get_inner(&tree).unwrap_err();
    assert_eq!(e.kind(), ErrorKind::NotConnected);
    let e = service.get_inner(&tree).unwrap_err();
    assert_eq!(e.kind(), ErrorKind::NotConnected);
    // Re-registration makes re-resolution succeed and re-cache.
    let epoch_before = service.inner;
    register_sample(&mut tree);
    assert!(service.get_inner(&tree).is_ok());
    assert_ne!(service.inner, epoch_before);
    // The next access does not need the fallback any more: still fine.
    assert!(service.get_inner(&tree).is_ok());
}

#[test]
fn tree_lookups_follow_the_paths() {
    let tree = sample_tree();
    assert!(tree.find_connection(dev()).is_some());
    assert!(tree.find_connection(DeviceId::from_addr(1)).is_none());
    assert!(tree.find_service(dev(), svc_id()).is_some());
    assert!(tree.find_service(dev(), Uuid::from_u128(0xDEAD)).is_none());
    assert!(tree.find_characteristic(dev(), svc_id(), chr_id()).is_some());
    assert!(tree.find_characteristic(dev(), svc_id(), Uuid::from_u128(0xDEAD)).is_none());
    assert!(tree.find_descriptor(dev(), svc_id(), chr_id(), dsc_id()).is_some());
    assert!(tree.find_descriptor(dev(), svc_id(), chr_id(), Uuid::from_u128(0xDEAD)).is_none());
}

#[test]
fn deregistration_makes_the_paths_invalid() {
    let mut tree = sample_tree();
    assert!(tree.deregister_connection(dev()));
    assert!(tree.find_connection(dev()).is_none());
    assert!(tree.find_service(dev(), svc_id()).is_none());
    // Deregistering again reports that nothing was registered.
    assert!(!tree.deregister_connection(dev()));
}

#[test]
fn missing_paths_are_typed_by_connection_state() {
    let mut tree = sample_tree();
    // Connection present, entry absent: a service change took the entry.
    let mut other = Service::new(dev(), Uuid::from_u128(0xDEAD));
    assert_eq!(other.get_inner(&tree).unwrap_err().kind(), ErrorKind::ServiceChanged);
    assert_eq!(tree.settle_wait(None::<i16>, dev()).unwrap_err().kind(), ErrorKind::ServiceChanged);
    assert_eq!(tree.settle_wait(Some(-40i16), dev()).unwrap(), -40);
    // No connection at all.
    tree.deregister_connection(dev());
    assert_eq!(other.get_inner(&tree).unwrap_err().kind(), ErrorKind::NotConnected);
    assert_eq!(tree.settle_wait(None::<i16>, dev()).unwrap_err().kind(), ErrorKind::NotConnected);
}

#[test]
fn services_changed_reports_invalidation() {
    let mut tree = sample_tree();
    let service = Service::new(dev(), svc_id());
    let changed = ServicesChanged { dev_id: dev() };
    assert!(!changed.was_invalidated(&tree, &service));
    tree.deregister_connection(dev());
    assert!(changed.was_invalidated(&tree, &service));
}

#[test]
fn device_connection_and_services() {
    let tree = sample_tree();
    let mut device = Device::new(dev());
    assert!(device.is_connected(&tree));
    assert_eq!(device.id(), dev());
    // No discovery completed yet: the services request asks for one.
    match device.services_step(&tree).unwrap() {
        ServicesStep::NeedsDiscovery => (),
        ServicesStep::Ready(_) => panic!("no discovery has completed"),
    }
    // The discovery completion arrives from the callback side.
    let mut tree = tree;
    tree.connection_mut(dev()).unwrap().discover_services.unlock(Ok(()));
    match device.services_step(&tree).unwrap() {
        ServicesStep::Ready(services) => {
            assert_eq!(services.len(), 1);
            assert_eq!(services[0].uuid(), svc_id());
        },
        ServicesStep::NeedsDiscovery => panic!("discovery has completed"),
    }
    let listed = device.collect_discovered_services(&tree).unwrap();
    assert_eq!(listed.len(), 1);
    assert_eq!(listed[0].uuid(), svc_id());
}

#[test]
fn service_lists_and_filters_characteristics() {
    let tree = sample_tree();
    let mut service = Service::new(dev(), svc_id());
    assert_eq!(service.uuid(), svc_id());
    assert!(service.is_primary(&tree).unwrap());
    let chars = service.characteristics(&tree).unwrap();
    assert_eq!(chars.len(), 1);
    assert_eq!(chars[0].uuid(), chr_id());
    let hit = service.discover_characteristics_with_uuid(&tree, chr_id()).unwrap();
    assert_eq!(hit.len(), 1);
    let miss = service.discover_characteristics_with_uuid(&tree, Uuid::from_u128(0xDEAD)).unwrap();
    assert_eq!(miss.len(), 0);
}

#[test]
fn characteristic_value_follows_the_read_lock() {
    let mut tree = sample_tree();
    let mut chr = Characteristic::new(dev(), svc_id(), chr_id());
    assert_eq!(chr.uuid(), chr_id());
    // Nothing read yet.
    assert_eq!(chr.value(&tree).unwrap_err().kind(), ErrorKind::NotReady);
    // A read completion arrives from the callback side.
    tree.characteristic_mut(dev(), svc_id(), chr_id()).unwrap().read.unlock(Ok(vec![1, 2, 3]));
    assert_eq!(chr.value(&tree).unwrap(), vec![1, 2, 3]);
    // The connection goes away: the path fails typed, not with a stale value.
    tree.deregister_connection(dev());
    assert_eq!(chr.value(&tree).unwrap_err().kind(), ErrorKind::NotConnected);
}

#[test]
fn characteristic_notifications_report_their_state() {
    let mut tree = sample_tree();
    let mut chr = Characteristic::new(dev(), svc_id(), chr_id());
    assert!(!chr.is_notifying(&tree).unwrap());
    {
        let inner = tree.characteristic_mut(dev(), svc_id(), chr_id()).unwrap();
        let _receiver = inner.notify.subscribe_activate();
        inner.notify.notify(vec![9]);
    }
    assert!(chr.is_notifying(&tree).unwrap());
}

#[test]
fn max_write_len_tracks_the_transfer_unit() {
    let mut tree = sample_tree();
    let chr = Characteristic::new(dev(), svc_id(), chr_id());
    // Until a change is received, the default transfer unit of 23 applies.
    assert_eq!(chr.max_write_len(&tree).unwrap(), 18);
    tree.connection_mut(dev()).unwrap().mtu_changed_received.unlock(247);
    assert_eq!(chr.max_write_len(&tree).unwrap(), 242);
    assert!(Characteristic::check_write_len(242, 242).is_ok());
    let e = Characteristic::check_write_len(243, 242).unwrap_err();
    assert_eq!(e.kind(), ErrorKind::InvalidParameter);
    tree.deregister_connection(dev());
    assert_eq!(chr.max_write_len(&tree).unwrap_err().kind(), ErrorKind::NotConnected);
}

#[test]
fn descriptor_value_follows_the_read_lock() {
    let mut tree = sample_tree();
    let mut dsc = Descriptor::new(dev(), svc_id(), chr_id(), dsc_id());
    assert_eq!(dsc.uuid(), dsc_id());
    assert_eq!(dsc.value(&tree).unwrap_err().kind(), ErrorKind::NotReady);
    tree.descriptor_mut(dev(), svc_id(), chr_id(), dsc_id()).unwrap().read.unlock(Ok(vec![0, 1]));
    assert_eq!(dsc.value(&tree).unwrap(), vec![0, 1]);
    let listed = Characteristic::new(dev(), svc_id(), chr_id()).descriptors(&tree).unwrap();
    assert_eq!(listed.len(), 1);
    assert_eq!(listed[0].uuid(), dsc_id());
}

#[test]
fn deregistration_tears_every_lock_down() {
    let mut tree = sample_tree();
    // Lock the characteristic's read lock and store values around the tree.
    {
        let inner = tree.characteristic_mut(dev(), svc_id(), chr_id()).unwrap();
        let _waiter = inner.read.acquire();
        inner.read.unlock(Ok(vec![1]));
        let _w2 = inner.read.acquire();
    }
    tree.connection_mut(dev()).unwrap().read_rssi.unlock(Ok(-44));
    // Teardown must leave nothing pending and nothing stored.
    assert!(tree.deregister_connection(dev()));
    assert!(tree.find_connection(dev()).is_none());
}
