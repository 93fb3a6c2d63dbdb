//! The resource tree: the process-wide table mapping a connection identifier
//! to the resources discovered on it — services, their characteristics, and
//! their descriptors — each entry bundling the single-flight locks and the
//! subscription broadcaster for the operations on it.
//!
//! Every entry carries an epoch minted by the tree, so that a [`crate::CachedWeak`]
//! reference can tell a live entry from a replaced one. Deregistering a
//! connection shuts every lock and broadcaster under it down, so that every
//! pending waiter resolves to "no result" and every subscriber sees its
//! stream end, rather than hanging.

use vstd::prelude::*;
use crate::ids::{Uuid, DeviceId};
use crate::errors::{Error, ErrorKind};
use crate::excluder::Excluder;
use crate::notifier::Notifier;

verus! {

/// A keyed slot of one of the tree's tables.
#[derive(Debug)]
pub struct Slot<I> {
    pub id: Uuid,
    pub inner: I,
}

/// The per-descriptor resources: one single-flight lock per operation
/// category.
#[derive(Debug)]
pub struct DescriptorInner {
    pub epoch: u64,
    pub read: Excluder<Result<Vec<u8>, Error>>,
    pub write: Excluder<Result<(), Error>>,
}

/// The per-characteristic resources: one single-flight lock per operation
/// category, the notification broadcaster, and the descriptor table.
#[derive(Debug)]
pub struct CharacteristicInner {
    pub epoch: u64,
    pub read: Excluder<Result<Vec<u8>, Error>>,
    pub write: Excluder<Result<(), Error>>,
    pub notify: Notifier<Vec<u8>>,
    pub descs: Vec<Slot<DescriptorInner>>,
}

/// The per-service resources: whether the service is a primary one, and the
/// characteristic table.
#[derive(Debug)]
pub struct ServiceInner {
    pub epoch: u64,
    pub primary: bool,
    pub chars: Vec<Slot<CharacteristicInner>>,
}

/// The per-connection resources: the service table and the connection-wide
/// locks and broadcaster.
#[derive(Debug)]
pub struct GattConnection {
    pub epoch: u64,
    pub services: Vec<Slot<ServiceInner>>,
    pub discover_services: Excluder<Result<(), Error>>,
    pub read_rssi: Excluder<Result<i16, Error>>,
    pub mtu_changed_received: Excluder<usize>,
    pub services_changes: Notifier<()>,
}

/// One registered connection, keyed by its device identifier.
#[derive(Debug)]
pub struct ConnectionSlot {
    pub dev: DeviceId,
    pub conn: GattConnection,
}

/// The table of registered connections.
#[derive(Debug)]
pub struct GattTree {
    pub next_epoch: u64,
    pub connections: Vec<ConnectionSlot>,
}

/// Whether a keyed table holds an entry with the given identifier.
pub open spec fn has_id<I>(s: Seq<Slot<I>>, id: Uuid) -> bool {
    exists|k: int| 0 <= k < s.len() && s[k].id == id
}

/// Finds the first entry with the given identifier in a keyed table.
fn find_idx<I>(slots: &Vec<Slot<I>>, id: Uuid) -> (r: Option<usize>)
    ensures
        r matches Some(k) ==> k < slots@.len() && slots@[k as int].id == id,
        r is None <==> !has_id(slots@, id),
{
    let mut k: usize = 0;
    while k < slots.len()
        invariant
            k <= slots@.len(),
            forall|x: int| 0 <= x < k ==> slots@[x].id != id,
        decreases slots@.len() - k,
    {
        if slots[k].id.bits == id.bits {
            return Some(k);
        }
        k = k + 1;
    }
    None
}

/// An excluder as a constructor leaves it: unlocked, with no last value, the
/// given default timeout and a zero generation counter.
pub open spec fn fresh_excluder<T>(e: Excluder<T>, timeout_ms: u64) -> bool {
    e.current is None && e.last_val is None && e.timeout_ms == timeout_ms && e.next_id == 0
}

impl DescriptorInner {
    /// A fresh descriptor entry whose locks carry the given default timeout.
    pub fn new(epoch: u64, timeout_ms: u64) -> (r: Self)
        ensures
            r.epoch == epoch,
            fresh_excluder(r.read, timeout_ms),
            fresh_excluder(r.write, timeout_ms),
    {
        DescriptorInner { epoch, read: Excluder::new(timeout_ms), write: Excluder::new(timeout_ms) }
    }
}

/// An excluder after being torn down: force-unlocked, its last value gone,
/// its configuration and generation counter kept.
pub open spec fn closed_excluder<T>(pre: Excluder<T>) -> Excluder<T> {
    Excluder { current: None, last_val: None, timeout_ms: pre.timeout_ms, next_id: pre.next_id }
}

/// A notifier after being torn down: its live subscription state, if any,
/// carries the terminal sentinel; everything else is kept.
pub open spec fn notifier_closed<T>(pre: Notifier<T>, post: Notifier<T>) -> bool {
    &&& post.capacity == pre.capacity
    &&& post.next_epoch == pre.next_epoch
    &&& post.starts == pre.starts
    &&& post.stops == pre.stops
    &&& (pre.state is None ==> post.state is None)
    &&& (pre.state is Some ==> (post.state matches Some(s2)
        && s2.epoch == pre.state->Some_0.epoch && s2.holders == pre.state->Some_0.holders
        && s2.history@ == pre.state->Some_0.history@ && s2.ended))
}

/// A descriptor entry after teardown: both locks closed, the epoch kept.
pub open spec fn desc_shut(pre: DescriptorInner, post: DescriptorInner) -> bool {
    &&& post.epoch == pre.epoch
    &&& post.read == closed_excluder(pre.read)
    &&& post.write == closed_excluder(pre.write)
}

/// A characteristic entry after teardown: its locks closed, its broadcaster
/// ended, and every descriptor entry under it torn down.
pub open spec fn char_shut(pre: CharacteristicInner, post: CharacteristicInner) -> bool {
    &&& post.epoch == pre.epoch
    &&& post.read == closed_excluder(pre.read)
    &&& post.write == closed_excluder(pre.write)
    &&& notifier_closed(pre.notify, post.notify)
    &&& post.descs@.len() == pre.descs@.len()
    &&& descs_prefix_shut(pre.descs@, post.descs@, pre.descs@.len() as int)
}

/// A service entry after teardown: every characteristic entry under it torn
/// down.
pub open spec fn svc_shut(pre: ServiceInner, post: ServiceInner) -> bool {
    &&& post.epoch == pre.epoch
    &&& post.primary == pre.primary
    &&& post.chars@.len() == pre.chars@.len()
    &&& chars_prefix_shut(pre.chars@, post.chars@, pre.chars@.len() as int)
}

/// A connection after teardown: its own locks closed, its broadcaster ended,
/// and every service entry under it torn down.
pub open spec fn conn_shut(pre: GattConnection, post: GattConnection) -> bool {
    &&& post.epoch == pre.epoch
    &&& post.discover_services == closed_excluder(pre.discover_services)
    &&& post.read_rssi == closed_excluder(pre.read_rssi)
    &&& post.mtu_changed_received == closed_excluder(pre.mtu_changed_received)
    &&& notifier_closed(pre.services_changes, post.services_changes)
    &&& post.services@.len() == pre.services@.len()
    &&& services_prefix_shut(pre.services@, post.services@, pre.services@.len() as int)
}

/// The first `x` descriptor entries of `post` are the corresponding entries
/// of `pre` torn down.
pub open spec fn descs_prefix_shut(
    pre: Seq<Slot<DescriptorInner>>,
    post: Seq<Slot<DescriptorInner>>,
    x: int,
) -> bool
    decreases x,
{
    x <= 0 || (descs_prefix_shut(pre, post, x - 1) && post[x - 1].id == pre[x - 1].id
        && desc_shut(pre[x - 1].inner, post[x - 1].inner))
}

/// Whether the first `x` descriptor entries of `post` are torn-down copies of
/// `pre` depends only on those entries.
pub proof fn lemma_descs_prefix_shut_same(
    pre: Seq<Slot<DescriptorInner>>,
    post1: Seq<Slot<DescriptorInner>>,
    post2: Seq<Slot<DescriptorInner>>,
    x: int,
)
    requires
        descs_prefix_shut(pre, post1, x),
        forall|y: int| 0 <= y < x ==> post2[y] == post1[y],
    ensures
        descs_prefix_shut(pre, post2, x),
    decreases x,
{
    if x > 0 {
        lemma_descs_prefix_shut_same(pre, post1, post2, x - 1);
    }
}

/// The torn-down prefix covers each of its entries.
pub proof fn lemma_descs_prefix_shut_at(
    pre: Seq<Slot<DescriptorInner>>,
    post: Seq<Slot<DescriptorInner>>,
    x: int,
    y: int,
)
    requires
        descs_prefix_shut(pre, post, x),
        0 <= y < x,
    ensures
        post[y].id == pre[y].id,
        desc_shut(pre[y].inner, post[y].inner),
    decreases x,
{
    if y < x - 1 {
        lemma_descs_prefix_shut_at(pre, post, x - 1, y);
    }
}

/// The first `x` characteristic entries of `post` are the corresponding
/// entries of `pre` torn down.
pub open spec fn chars_prefix_shut(
    pre: Seq<Slot<CharacteristicInner>>,
    post: Seq<Slot<CharacteristicInner>>,
    x: int,
) -> bool
    decreases x,
{
    x <= 0 || (chars_prefix_shut(pre, post, x - 1) && post[x - 1].id == pre[x - 1].id
        && char_shut(pre[x - 1].inner, post[x - 1].inner))
}

/// Whether the first `x` characteristic entries of `post` are torn-down
/// copies of `pre` depends only on those entries.
pub proof fn lemma_chars_prefix_shut_same(
    pre: Seq<Slot<CharacteristicInner>>,
    post1: Seq<Slot<CharacteristicInner>>,
    post2: Seq<Slot<CharacteristicInner>>,
    x: int,
)
    requires
        chars_prefix_shut(pre, post1, x),
        forall|y: int| 0 <= y < x ==> post2[y] == post1[y],
    ensures
        chars_prefix_shut(pre, post2, x),
    decreases x,
{
    if x > 0 {
        lemma_chars_prefix_shut_same(pre, post1, post2, x - 1);
    }
}

/// The torn-down prefix covers each of its entries.
pub proof fn lemma_chars_prefix_shut_at(
    pre: Seq<Slot<CharacteristicInner>>,
    post: Seq<Slot<CharacteristicInner>>,
    x: int,
    y: int,
)
    requires
        chars_prefix_shut(pre, post, x),
        0 <= y < x,
    ensures
        post[y].id == pre[y].id,
        char_shut(pre[y].inner, post[y].inner),
    decreases x,
{
    if y < x - 1 {
        lemma_chars_prefix_shut_at(pre, post, x - 1, y);
    }
}

/// The first `x` service entries of `post` are the corresponding entries of
/// `pre` torn down.
pub open spec fn services_prefix_shut(
    pre: Seq<Slot<ServiceInner>>,
    post: Seq<Slot<ServiceInner>>,
    x: int,
) -> bool
    decreases x,
{
    x <= 0 || (services_prefix_shut(pre, post, x - 1) && post[x - 1].id == pre[x - 1].id
        && svc_shut(pre[x - 1].inner, post[x - 1].inner))
}

/// Whether the first `x` service entries of `post` are torn-down copies of
/// `pre` depends only on those entries.
pub proof fn lemma_services_prefix_shut_same(
    pre: Seq<Slot<ServiceInner>>,
    post1: Seq<Slot<ServiceInner>>,
    post2: Seq<Slot<ServiceInner>>,
    x: int,
)
    requires
        services_prefix_shut(pre, post1, x),
        forall|y: int| 0 <= y < x ==> post2[y] == post1[y],
    ensures
        services_prefix_shut(pre, post2, x),
    decreases x,
{
    if x > 0 {
        lemma_services_prefix_shut_same(pre, post1, post2, x - 1);
    }
}

/// The torn-down prefix covers each of its entries.
pub proof fn lemma_services_prefix_shut_at(
    pre: Seq<Slot<ServiceInner>>,
    post: Seq<Slot<ServiceInner>>,
    x: int,
    y: int,
)
    requires
        services_prefix_shut(pre, post, x),
        0 <= y < x,
    ensures
        post[y].id == pre[y].id,
        svc_shut(pre[y].inner, post[y].inner),
    decreases x,
{
    if y < x - 1 {
        lemma_services_prefix_shut_at(pre, post, x - 1, y);
    }
}

impl DescriptorInner {
    /// Tears the descriptor entry down: closes both locks, so every pending
    /// waiter resolves to "no result".
    pub fn shutdown(&mut self)
        ensures
            desc_shut(*old(self), *final(self)),
    {
        self.read.close();
        self.write.close();
    }
}

impl CharacteristicInner {
    /// Tears the characteristic entry down: closes its locks, ends its
    /// notification stream, and tears every descriptor entry down.
    pub fn shutdown(&mut self)
        ensures
            char_shut(*old(self), *final(self)),
    {
        let ghost orig = *self;
        self.read.close();
        self.write.close();
        self.notify.close();
        let n = self.descs.len();
        let mut x: usize = 0;
        while x < n
            invariant
                n == self.descs@.len(),
                n == orig.descs@.len(),
                x <= n,
                self.epoch == orig.epoch,
                self.read == closed_excluder(orig.read),
                self.write == closed_excluder(orig.write),
                notifier_closed(orig.notify, self.notify),
                forall|y: int| x <= y < n ==> self.descs@[y] == orig.descs@[y],
                descs_prefix_shut(orig.descs@, self.descs@, x as int),
            decreases n - x,
        {
            let ghost prev = self.descs@;
            let d = &mut self.descs[x];
            d.inner.shutdown();
            proof {
                assert(prev[x as int] == orig.descs@[x as int]);
                lemma_descs_prefix_shut_same(orig.descs@, prev, self.descs@, x as int);
                assert(descs_prefix_shut(orig.descs@, self.descs@, x + 1));
            }
            x = x + 1;
        }
    }
}

impl ServiceInner {
    /// Tears the service entry down: tears every characteristic entry down.
    pub fn shutdown(&mut self)
        ensures
            svc_shut(*old(self), *final(self)),
    {
        let ghost orig = *self;
        let n = self.chars.len();
        let mut x: usize = 0;
        while x < n
            invariant
                n == self.chars@.len(),
                n == orig.chars@.len(),
                x <= n,
                self.epoch == orig.epoch,
                self.primary == orig.primary,
                forall|y: int| x <= y < n ==> self.chars@[y] == orig.chars@[y],
                chars_prefix_shut(orig.chars@, self.chars@, x as int),
            decreases n - x,
        {
            let ghost prev = self.chars@;
            let c = &mut self.chars[x];
            c.inner.shutdown();
            proof {
                assert(prev[x as int] == orig.chars@[x as int]);
                lemma_chars_prefix_shut_same(orig.chars@, prev, self.chars@, x as int);
                assert(chars_prefix_shut(orig.chars@, self.chars@, x + 1));
            }
            x = x + 1;
        }
    }
}

impl GattConnection {
    /// Tears the connection down: closes its own locks, ends its
    /// services-changed stream, and tears every service entry down, so that
    /// nothing under the connection keeps a waiter or a subscriber hanging.
    pub fn shutdown(&mut self)
        ensures
            conn_shut(*old(self), *final(self)),
    {
        let ghost orig = *self;
        self.discover_services.close();
        self.read_rssi.close();
        self.mtu_changed_received.close();
        self.services_changes.close();
        let n = self.services.len();
        let mut x: usize = 0;
        while x < n
            invariant
                n == self.services@.len(),
                n == orig.services@.len(),
                x <= n,
                self.epoch == orig.epoch,
                self.discover_services == closed_excluder(orig.discover_services),
                self.read_rssi == closed_excluder(orig.read_rssi),
                self.mtu_changed_received == closed_excluder(orig.mtu_changed_received),
                notifier_closed(orig.services_changes, self.services_changes),
                forall|y: int| x <= y < n ==> self.services@[y] == orig.services@[y],
                services_prefix_shut(orig.services@, self.services@, x as int),
            decreases n - x,
        {
            let ghost prev = self.services@;
            let s = &mut self.services[x];
            s.inner.shutdown();
            proof {
                assert(prev[x as int] == orig.services@[x as int]);
                lemma_services_prefix_shut_same(orig.services@, prev, self.services@, x as int);
                assert(services_prefix_shut(orig.services@, self.services@, x + 1));
            }
            x = x + 1;
        }
    }
}

impl GattTree {
    /// No device identifier keys two connection entries, and every
    /// registered connection is well formed.
    pub open spec fn wf(&self) -> bool {
        &&& forall|i: int, j: int| 0 <= i < j < self.connections@.len()
            ==> self.connections@[i].dev != self.connections@[j].dev
        &&& forall|i: int| 0 <= i < self.connections@.len() ==> (
        #[trigger] self.connections@[i].conn).wf()
    }

    /// Whether a connection entry is registered for the device.
    pub open spec fn has_conn(&self, dev: DeviceId) -> bool {
        exists|i: int| 0 <= i < self.connections@.len() && self.connections@[i].dev == dev
    }

    /// An empty tree.
    pub fn new() -> (r: Self)
        ensures
            r.next_epoch == 0,
            r.connections@ == Seq::<ConnectionSlot>::empty(),
            r.wf(),
    {
        GattTree { next_epoch: 0, connections: Vec::new() }
    }

    /// Mints a fresh epoch for a new tree entry.
    pub fn issue_epoch(&mut self) -> (r: u64)
        requires
            old(self).next_epoch < u64::MAX,
        ensures
            r == old(self).next_epoch,
            final(self).next_epoch == old(self).next_epoch + 1,
            final(self).connections == old(self).connections,
    {
        let e = self.next_epoch;
        self.next_epoch = self.next_epoch + 1;
        e
    }

    /// The index of the connection entry for the device.
    fn find_conn_idx(&self, dev: DeviceId) -> (r: Option<usize>)
        ensures
            r matches Some(i) ==> i < self.connections@.len() && self.connections@[i as int].dev
                == dev,
            r is None <==> !self.has_conn(dev),
    {
        let mut i: usize = 0;
        while i < self.connections.len()
            invariant
                i <= self.connections@.len(),
                forall|x: int| 0 <= x < i ==> self.connections@[x].dev != dev,
            decreases self.connections@.len() - i,
        {
            if self.connections[i].dev.addr == dev.addr {
                return Some(i);
            }
            i = i + 1;
        }
        None
    }

    /// The connection entry registered for the device, if any.
    pub fn find_connection(&self, dev: DeviceId) -> (r: Option<&GattConnection>)
        ensures
            r is Some <==> self.has_conn(dev),
            r matches Some(c) ==> exists|i: int| 0 <= i < self.connections@.len()
                && self.connections@[i].dev == dev && *c == self.connections@[i].conn,
    {
        match self.find_conn_idx(dev) {
            Some(i) => Some(&self.connections[i].conn),
            None => None,
        }
    }

    /// The category under which a missing entry on this path is reported:
    /// with no connection registered the device is not connected; with a
    /// live connection the entry fell victim to a service change.
    pub open spec fn missing_kind(&self, dev: DeviceId) -> ErrorKind {
        if self.has_conn(dev) {
            ErrorKind::ServiceChanged
        } else {
            ErrorKind::NotConnected
        }
    }

    /// Settles what a lock wait yielded: a value passes through; "no result"
    /// — a timeout, or the lock's owner torn down — is reported against the
    /// connection's current state, as the category
    /// [`GattTree::missing_kind`] gives.
    pub fn settle_wait<T>(&self, outcome: Option<T>, dev: DeviceId) -> (r: Result<T, Error>)
        ensures
            outcome matches Some(v) ==> r matches Ok(rv) && rv == v,
            outcome is None ==> (r matches Err(e) && e.kind == self.missing_kind(dev)
                && e.source is None),
    {
        match outcome {
            Some(v) => Ok(v),
            None => Err(self.missing_error(dev)),
        }
    }

    /// The error reported for a missing entry on a path of the device; see
    /// [`GattTree::missing_kind`].
    pub fn missing_error(&self, dev: DeviceId) -> (r: Error)
        ensures
            r.kind == self.missing_kind(dev),
            r.source is None,
    {
        match self.find_conn_idx(dev) {
            Some(_) => Error::from_kind(ErrorKind::ServiceChanged),
            None => Error::from_kind(ErrorKind::NotConnected),
        }
    }
}


impl CharacteristicInner {
    /// A fresh characteristic entry: unlocked read and write locks with the
    /// given default timeout, an inactive notification broadcaster with the
    /// given window capacity, and the given descriptor table.
    pub fn new(
        epoch: u64,
        timeout_ms: u64,
        notify_capacity: usize,
        descs: Vec<Slot<DescriptorInner>>,
    ) -> (r: Self)
        requires
            notify_capacity >= 1,
        ensures
            r.epoch == epoch,
            fresh_excluder(r.read, timeout_ms),
            fresh_excluder(r.write, timeout_ms),
            r.notify.state is None,
            r.notify.capacity == notify_capacity,
            r.notify.starts == 0,
            r.notify.stops == 0,
            r.descs == descs,
    {
        CharacteristicInner {
            epoch,
            read: Excluder::new(timeout_ms),
            write: Excluder::new(timeout_ms),
            notify: Notifier::new(notify_capacity),
            descs,
        }
    }
}

impl ServiceInner {
    /// A fresh service entry with the given characteristic table.
    pub fn new(epoch: u64, primary: bool, chars: Vec<Slot<CharacteristicInner>>) -> (r: Self)
        ensures
            r.epoch == epoch,
            r.primary == primary,
            r.chars == chars,
    {
        ServiceInner { epoch, primary, chars }
    }
}

impl GattConnection {
    /// A fresh connection entry: unlocked connection-wide locks with the
    /// given default timeout, an inactive services-changed broadcaster with
    /// the given window capacity, and the given service table.
    pub fn new(
        epoch: u64,
        timeout_ms: u64,
        notify_capacity: usize,
        services: Vec<Slot<ServiceInner>>,
    ) -> (r: Self)
        requires
            notify_capacity >= 1,
        ensures
            r.epoch == epoch,
            fresh_excluder(r.discover_services, timeout_ms),
            fresh_excluder(r.read_rssi, timeout_ms),
            fresh_excluder(r.mtu_changed_received, timeout_ms),
            r.services_changes.state is None,
            r.services_changes.capacity == notify_capacity,
            r.services_changes.starts == 0,
            r.services_changes.stops == 0,
            r.services == services,
    {
        GattConnection {
            epoch,
            services,
            discover_services: Excluder::new(timeout_ms),
            read_rssi: Excluder::new(timeout_ms),
            mtu_changed_received: Excluder::new(timeout_ms),
            services_changes: Notifier::new(notify_capacity),
        }
    }
}

/// No identifier keys two entries of a keyed table.
pub open spec fn ids_distinct<I>(s: Seq<Slot<I>>) -> bool {
    forall|x: int, y: int| 0 <= x < y < s.len() ==> s[x].id != s[y].id
}

impl CharacteristicInner {
    /// No identifier keys two descriptor entries.
    pub open spec fn wf(&self) -> bool {
        ids_distinct(self.descs@)
    }
}

impl ServiceInner {
    /// No identifier keys two characteristic entries, and each is well
    /// formed.
    pub open spec fn wf(&self) -> bool {
        &&& ids_distinct(self.chars@)
        &&& forall|x: int| 0 <= x < self.chars@.len() ==> (#[trigger] self.chars@[x].inner).wf()
    }
}

impl GattConnection {
    /// No identifier keys two service entries, and each is well formed.
    pub open spec fn wf(&self) -> bool {
        &&& ids_distinct(self.services@)
        &&& forall|x: int| 0 <= x < self.services@.len() ==> (#[trigger] self.services@[x].inner).wf()
    }
}

/// A connection unchanged but for its service table.
pub open spec fn conn_same_but_services(pre: GattConnection, post: GattConnection) -> bool {
    &&& post.epoch == pre.epoch
    &&& post.discover_services == pre.discover_services
    &&& post.read_rssi == pre.read_rssi
    &&& post.mtu_changed_received == pre.mtu_changed_received
    &&& post.services_changes == pre.services_changes
}

/// A service entry unchanged but for its characteristic table.
pub open spec fn svc_same_but_chars(pre: ServiceInner, post: ServiceInner) -> bool {
    &&& post.epoch == pre.epoch
    &&& post.primary == pre.primary
}

/// A characteristic entry unchanged but for its descriptor table.
pub open spec fn char_same_but_descs(pre: CharacteristicInner, post: CharacteristicInner) -> bool {
    &&& post.epoch == pre.epoch
    &&& post.read == pre.read
    &&& post.write == pre.write
    &&& post.notify == pre.notify
}

impl GattTree {
    /// Whether a service entry is registered on this path.
    pub open spec fn has_service(&self, dev: DeviceId, svc: Uuid) -> bool {
        exists|i: int, j: int| 0 <= i < self.connections@.len()
            && self.connections@[i].dev == dev
            && 0 <= j < self.connections@[i].conn.services@.len()
            && self.connections@[i].conn.services@[j].id == svc
    }

    /// Whether a characteristic entry is registered on this path.
    pub open spec fn has_char(&self, dev: DeviceId, svc: Uuid, chr: Uuid) -> bool {
        exists|i: int, j: int, k: int| 0 <= i < self.connections@.len()
            && self.connections@[i].dev == dev
            && 0 <= j < self.connections@[i].conn.services@.len()
            && self.connections@[i].conn.services@[j].id == svc
            && 0 <= k < self.connections@[i].conn.services@[j].inner.chars@.len()
            && self.connections@[i].conn.services@[j].inner.chars@[k].id == chr
    }

    /// Whether a descriptor entry is registered on this path.
    pub open spec fn has_desc(&self, dev: DeviceId, svc: Uuid, chr: Uuid, desc: Uuid) -> bool {
        exists|i: int, j: int, k: int, l: int| 0 <= i < self.connections@.len()
            && self.connections@[i].dev == dev
            && 0 <= j < self.connections@[i].conn.services@.len()
            && self.connections@[i].conn.services@[j].id == svc
            && 0 <= k < self.connections@[i].conn.services@[j].inner.chars@.len()
            && self.connections@[i].conn.services@[j].inner.chars@[k].id == chr
            && 0 <= l < self.connections@[i].conn.services@[j].inner.chars@[k].inner.descs@.len()
            && self.connections@[i].conn.services@[j].inner.chars@[k].inner.descs@[l].id == desc
    }

    /// The service entry on this path, if any. Entries are keyed by their
    /// identifier alone, so attributes that the transport tells apart only by
    /// handle collapse onto one path here.
    pub fn find_service(&self, dev: DeviceId, svc: Uuid) -> (r: Option<&ServiceInner>)
        requires
            self.wf(),
        ensures
            r is Some <==> self.has_service(dev, svc),
            r matches Some(s) ==> exists|i: int, j: int| 0 <= i < self.connections@.len()
                && self.connections@[i].dev == dev
                && 0 <= j < self.connections@[i].conn.services@.len()
                && self.connections@[i].conn.services@[j].id == svc
                && *s == self.connections@[i].conn.services@[j].inner,
    {
        match self.find_conn_idx(dev) {
            None => {
                proof {
                    assert(!self.has_service(dev, svc));
                }
                None
            },
            Some(i) => {
                let conn = &self.connections[i].conn;
                match find_idx(&conn.services, svc) {
                    None => {
                        proof {
                            assert forall|x: int, y: int| !(0 <= x < self.connections@.len()
                                && self.connections@[x].dev == dev
                                && 0 <= y < self.connections@[x].conn.services@.len()
                                && self.connections@[x].conn.services@[y].id == svc) by {
                                if 0 <= x < self.connections@.len() && self.connections@[x].dev
                                    == dev {
                                    assert(x == i);
                                }
                            }
                        }
                        None
                    },
                    Some(j) => Some(&self.connections[i].conn.services[j].inner),
                }
            },
        }
    }

    /// The characteristic entry on this path, if any.
    pub fn find_characteristic(&self, dev: DeviceId, svc: Uuid, chr: Uuid) -> (r: Option<
        &CharacteristicInner,
    >)
        requires
            self.wf(),
        ensures
            r is Some <==> self.has_char(dev, svc, chr),
            r matches Some(c) ==> exists|i: int, j: int, k: int| 0 <= i
                < self.connections@.len() && self.connections@[i].dev == dev
                && 0 <= j < self.connections@[i].conn.services@.len()
                && self.connections@[i].conn.services@[j].id == svc
                && 0 <= k < self.connections@[i].conn.services@[j].inner.chars@.len()
                && self.connections@[i].conn.services@[j].inner.chars@[k].id == chr
                && *c == self.connections@[i].conn.services@[j].inner.chars@[k].inner,
    {
        match self.find_conn_idx(dev) {
            None => {
                proof {
                    assert(!self.has_char(dev, svc, chr));
                }
                None
            },
            Some(i) => {
                let conn = &self.connections[i].conn;
                match find_idx(&conn.services, svc) {
                    None => {
                        proof {
                            assert forall|x: int, y: int, z: int| !(0 <= x
                                < self.connections@.len() && self.connections@[x].dev == dev
                                && 0 <= y < self.connections@[x].conn.services@.len()
                                && self.connections@[x].conn.services@[y].id == svc
                                && 0 <= z < self.connections@[x].conn.services@[
                                y
                            ].inner.chars@.len() && self.connections@[x].conn.services@[
                                y
                            ].inner.chars@[z].id == chr) by {
                                if 0 <= x < self.connections@.len() && self.connections@[x].dev
                                    == dev {
                                    assert(x == i);
                                }
                            }
                        }
                        None
                    },
                    Some(j) => {
                        let svc_inner = &conn.services[j].inner;
                        match find_idx(&svc_inner.chars, chr) {
                            None => {
                                proof {
                                    assert forall|x: int, y: int, z: int| !(0 <= x
                                        < self.connections@.len() && self.connections@[x].dev
                                        == dev && 0 <= y
                                        < self.connections@[x].conn.services@.len()
                                        && self.connections@[x].conn.services@[y].id == svc
                                        && 0 <= z < self.connections@[x].conn.services@[
                                        y
                                    ].inner.chars@.len() && self.connections@[x].conn.services@[
                                        y
                                    ].inner.chars@[z].id == chr) by {
                                        if 0 <= x < self.connections@.len()
                                            && self.connections@[x].dev == dev {
                                            assert(x == i);
                                            if 0 <= y < conn.services@.len()
                                                && conn.services@[y].id == svc {
                                                assert(y == j as int);
                                            }
                                        }
                                    }
                                }
                                None
                            },
                            Some(k) => Some(&svc_inner.chars[k].inner),
                        }
                    },
                }
            },
        }
    }

    /// The descriptor entry on this path, if any.
    pub fn find_descriptor(&self, dev: DeviceId, svc: Uuid, chr: Uuid, desc: Uuid) -> (r: Option<
        &DescriptorInner,
    >)
        requires
            self.wf(),
        ensures
            r is Some <==> self.has_desc(dev, svc, chr, desc),
            r matches Some(d) ==> exists|i: int, j: int, k: int, l: int| 0 <= i
                < self.connections@.len() && self.connections@[i].dev == dev
                && 0 <= j < self.connections@[i].conn.services@.len()
                && self.connections@[i].conn.services@[j].id == svc
                && 0 <= k < self.connections@[i].conn.services@[j].inner.chars@.len()
                && self.connections@[i].conn.services@[j].inner.chars@[k].id == chr
                && 0 <= l < self.connections@[i].conn.services@[j].inner.chars@[
                    k
                ].inner.descs@.len()
                && self.connections@[i].conn.services@[j].inner.chars@[k].inner.descs@[l].id == desc
                && *d == self.connections@[i].conn.services@[j].inner.chars@[k].inner.descs@[
                    l
                ].inner,
    {
        match self.find_characteristic(dev, svc, chr) {
            None => {
                proof {
                    assert(!self.has_desc(dev, svc, chr, desc)) by {
                        if self.has_desc(dev, svc, chr, desc) {
                            let (i, j, k, l): (int, int, int, int) = choose|
                                i: int,
                                j: int,
                                k: int,
                                l: int,
                            | 0 <= i < self.connections@.len() && self.connections@[i].dev == dev
                                && 0 <= j < self.connections@[i].conn.services@.len()
                                && self.connections@[i].conn.services@[j].id == svc
                                && 0 <= k < self.connections@[i].conn.services@[
                                j
                            ].inner.chars@.len() && self.connections@[i].conn.services@[
                                j
                            ].inner.chars@[k].id == chr && 0 <= l < self.connections@[
                                i
                            ].conn.services@[j].inner.chars@[k].inner.descs@.len()
                                && self.connections@[i].conn.services@[j].inner.chars@[
                                k
                            ].inner.descs@[l].id == desc;
                            assert(self.has_char(dev, svc, chr));
                        }
                    }
                }
                None
            },
            Some(c) => {
                let r = find_idx(&c.descs, desc);
                match r {
                    None => {
                        proof {
                            let (i, j, k): (int, int, int) = choose|i: int, j: int, k: int| 0 <= i
                                < self.connections@.len() && self.connections@[i].dev == dev
                                && 0 <= j < self.connections@[i].conn.services@.len()
                                && self.connections@[i].conn.services@[j].id == svc
                                && 0 <= k < self.connections@[i].conn.services@[
                                j
                            ].inner.chars@.len() && self.connections@[i].conn.services@[
                                j
                            ].inner.chars@[k].id == chr && *c == self.connections@[
                                i
                            ].conn.services@[j].inner.chars@[k].inner;
                            assert(!self.has_desc(dev, svc, chr, desc)) by {
                                if self.has_desc(dev, svc, chr, desc) {
                                    let (x, y, z, l): (int, int, int, int) = choose|
                                        x: int,
                                        y: int,
                                        z: int,
                                        l: int,
                                    | 0 <= x < self.connections@.len() && self.connections@[x].dev
                                        == dev && 0 <= y
                                        < self.connections@[x].conn.services@.len()
                                        && self.connections@[x].conn.services@[y].id == svc
                                        && 0 <= z < self.connections@[x].conn.services@[
                                        y
                                    ].inner.chars@.len() && self.connections@[x].conn.services@[
                                        y
                                    ].inner.chars@[z].id == chr && 0 <= l < self.connections@[
                                        x
                                    ].conn.services@[y].inner.chars@[z].inner.descs@.len()
                                        && self.connections@[x].conn.services@[y].inner.chars@[
                                        z
                                    ].inner.descs@[l].id == desc;
                                    assert(x == i);
                                    assert(y == j);
                                    assert(z == k);
                                    assert(has_id(c.descs@, desc));
                                }
                            }
                        }
                        None
                    },
                    Some(l) => Some(&c.descs[l].inner),
                }
            },
        }
    }

    /// A mutable borrow of the connection entry for the device, if one is
    /// registered; the rest of the tree is untouched.
    pub fn connection_mut(&mut self, dev: DeviceId) -> (r: Option<&mut GattConnection>)
        ensures
            final(self).next_epoch == old(self).next_epoch,
            r is None <==> !old(self).has_conn(dev),
            r is None ==> *final(self) == *old(self),
            r is Some ==> exists|i: int| 0 <= i < old(self).connections@.len()
                && old(self).connections@[i].dev == dev
                && *r.unwrap() == old(self).connections@[i].conn
                && final(self).connections@ == old(self).connections@.update(
                i,
                (ConnectionSlot { dev: old(self).connections@[i].dev, conn: *final(r.unwrap()) }),
            ),
    {
        match self.find_conn_idx(dev) {
            Some(i) => Some(&mut self.connections[i].conn),
            None => None,
        }
    }

    /// Registers (or replaces) the connection entry for the device.
    pub fn register_connection(&mut self, dev: DeviceId, conn: GattConnection)
        requires
            old(self).wf(),
            conn.wf(),
        ensures
            final(self).wf(),
            final(self).next_epoch == old(self).next_epoch,
            final(self).has_conn(dev),
            old(self).has_conn(dev) ==> exists|i: int| 0 <= i < old(self).connections@.len()
                && old(self).connections@[i].dev == dev && final(self).connections@ == old(
                self,
            ).connections@.update(i, (ConnectionSlot { dev, conn })),
            !old(self).has_conn(dev) ==> final(self).connections@ == old(
                self,
            ).connections@.push((ConnectionSlot { dev, conn })),
    {
        match self.find_conn_idx(dev) {
            Some(i) => {
                let slot = &mut self.connections[i];
                slot.conn = conn;
                proof {
                    assert forall|x: int, y: int| 0 <= x < y < self.connections@.len()
                        implies self.connections@[x].dev != self.connections@[y].dev by {
                        assert(old(self).connections@[x].dev != old(self).connections@[y].dev);
                    }
                    assert forall|x: int| 0 <= x < self.connections@.len() implies (
                    #[trigger] self.connections@[x].conn).wf() by {
                        if x != i {
                            assert(old(self).connections@[x].conn.wf());
                        }
                    }
                    assert(self.connections@[i as int].dev == dev);
                }
            },
            None => {
                self.connections.push(ConnectionSlot { dev, conn });
                proof {
                    assert forall|x: int, y: int| 0 <= x < y < self.connections@.len()
                        implies self.connections@[x].dev != self.connections@[y].dev by {
                        if y < self.connections@.len() - 1 {
                            assert(old(self).connections@[x].dev != old(self).connections@[y].dev);
                        } else {
                            assert(self.connections@[x] == old(self).connections@[x]);
                        }
                    }
                    assert forall|x: int| 0 <= x < self.connections@.len() implies (
                    #[trigger] self.connections@[x].conn).wf() by {
                        if x < self.connections@.len() - 1 {
                            assert(old(self).connections@[x].conn.wf());
                        }
                    }
                    assert(self.connections@[self.connections@.len() - 1].dev == dev);
                }
            },
        }
    }

    /// Removes the connection entry for the device and tears it down, so
    /// that every waiter and subscriber under it resolves rather than hangs.
    /// Answers whether an entry was registered.
    pub fn deregister_connection(&mut self, dev: DeviceId) -> (ok: bool)
        requires
            old(self).wf(),
        ensures
            final(self).wf(),
            final(self).next_epoch == old(self).next_epoch,
            ok == old(self).has_conn(dev),
            !ok ==> *final(self) == *old(self),
            ok ==> exists|i: int| 0 <= i < old(self).connections@.len()
                && old(self).connections@[i].dev == dev && final(self).connections@ == old(
                self,
            ).connections@.remove(i),
            !final(self).has_conn(dev),
    {
        match self.find_conn_idx(dev) {
            Some(i) => {
                let mut slot = self.connections.remove(i);
                slot.conn.shutdown();
                proof {
                    assert forall|x: int| 0 <= x < self.connections@.len()
                        implies self.connections@[x].dev != dev && (
                    #[trigger] self.connections@[x].conn).wf() by {
                        if x < i {
                            assert(self.connections@[x] == old(self).connections@[x]);
                            assert(old(self).connections@[x].conn.wf());
                        } else {
                            assert(self.connections@[x] == old(self).connections@[x + 1]);
                            assert(old(self).connections@[x + 1].conn.wf());
                        }
                    }
                    assert forall|x: int, y: int| 0 <= x < y < self.connections@.len()
                        implies self.connections@[x].dev != self.connections@[y].dev by {
                        if y < i {
                            assert(old(self).connections@[x].dev != old(self).connections@[y].dev);
                        } else if x < i {
                            assert(old(self).connections@[x].dev != old(self).connections@[y
                                + 1].dev);
                        } else {
                            assert(old(self).connections@[x + 1].dev != old(self).connections@[y
                                + 1].dev);
                        }
                    }
                }
                true
            },
            None => false,
        }
    }
}


/// Tearing a connection down invalidates every path under it: with no
/// connection registered for the device, no service, characteristic or
/// descriptor lookup on it succeeds either.
pub proof fn lemma_paths_need_connection(
    t: GattTree,
    dev: DeviceId,
    svc: Uuid,
    chr: Uuid,
    desc: Uuid,
)
    requires
        !t.has_conn(dev),
    ensures
        !t.has_service(dev, svc),
        !t.has_char(dev, svc, chr),
        !t.has_desc(dev, svc, chr, desc),
{
}

/// Relates the tree before and after handing out a mutable borrow of the
/// characteristic entry on the path: `got` is the entry as it was handed out
/// and `put` the value it holds when the borrow ends; everything else in the
/// tree is untouched.
pub open spec fn char_mut_frame(
    pre: GattTree,
    post: GattTree,
    dev: DeviceId,
    svc: Uuid,
    chr: Uuid,
    got: CharacteristicInner,
    put: CharacteristicInner,
) -> bool {
    exists|i: int, j: int, k: int|
        #![trigger pre.connections@[i].conn.services@[j].inner.chars@[k]]
        {
            let pconn = pre.connections@[i].conn;
            let psvc = pconn.services@[j].inner;
            let qconn = post.connections@[i].conn;
            let qsvc = qconn.services@[j].inner;
            &&& 0 <= i < pre.connections@.len()
            &&& pre.connections@[i].dev == dev
            &&& 0 <= j < pconn.services@.len()
            &&& pconn.services@[j].id == svc
            &&& 0 <= k < psvc.chars@.len()
            &&& psvc.chars@[k].id == chr
            &&& got == psvc.chars@[k].inner
            &&& post.connections@.len() == pre.connections@.len()
            &&& (forall|x: int| 0 <= x < pre.connections@.len() && x != i
                ==> post.connections@[x] == pre.connections@[x])
            &&& post.connections@[i].dev == pre.connections@[i].dev
            &&& conn_same_but_services(pconn, qconn)
            &&& qconn.services@.len() == pconn.services@.len()
            &&& (forall|y: int| 0 <= y < pconn.services@.len() && y != j
                ==> qconn.services@[y] == pconn.services@[y])
            &&& qconn.services@[j].id == pconn.services@[j].id
            &&& svc_same_but_chars(psvc, qsvc)
            &&& qsvc.chars@.len() == psvc.chars@.len()
            &&& (forall|z: int| 0 <= z < psvc.chars@.len() && z != k ==> qsvc.chars@[z]
                == psvc.chars@[z])
            &&& qsvc.chars@[k].id == psvc.chars@[k].id
            &&& qsvc.chars@[k].inner == put
        }
}

impl GattTree {
    /// A mutable borrow of the characteristic entry on the path, for
    /// delivering a completion or a notification to it; the rest of the tree
    /// is untouched. Nothing is handed out for an unknown path.
    pub fn characteristic_mut(&mut self, dev: DeviceId, svc: Uuid, chr: Uuid) -> (r: Option<
        &mut CharacteristicInner,
    >)
        requires
            old(self).wf(),
        ensures
            final(self).next_epoch == old(self).next_epoch,
            r is Some <==> old(self).has_char(dev, svc, chr),
            r is None ==> *final(self) == *old(self),
            r is Some ==> char_mut_frame(
                *old(self),
                *final(self),
                dev,
                svc,
                chr,
                *r.unwrap(),
                *final(r.unwrap()),
            ),
    {
        let i = match self.find_conn_idx(dev) {
            None => {
                proof {
                    assert(!self.has_char(dev, svc, chr));
                }
                return None;
            },
            Some(i) => i,
        };
        let j = match find_idx(&self.connections[i].conn.services, svc) {
            None => {
                proof {
                    assert forall|x: int, y: int, z: int| !(0 <= x < self.connections@.len()
                        && self.connections@[x].dev == dev
                        && 0 <= y < self.connections@[x].conn.services@.len()
                        && self.connections@[x].conn.services@[y].id == svc
                        && 0 <= z < self.connections@[x].conn.services@[y].inner.chars@.len()
                        && self.connections@[x].conn.services@[y].inner.chars@[z].id == chr) by {
                        if 0 <= x < self.connections@.len() && self.connections@[x].dev == dev {
                            assert(x == i);
                        }
                    }
                }
                return None;
            },
            Some(j) => j,
        };
        let k = match find_idx(&self.connections[i].conn.services[j].inner.chars, chr) {
            None => {
                proof {
                    assert forall|x: int, y: int, z: int| !(0 <= x < self.connections@.len()
                        && self.connections@[x].dev == dev
                        && 0 <= y < self.connections@[x].conn.services@.len()
                        && self.connections@[x].conn.services@[y].id == svc
                        && 0 <= z < self.connections@[x].conn.services@[y].inner.chars@.len()
                        && self.connections@[x].conn.services@[y].inner.chars@[z].id == chr) by {
                        if 0 <= x < self.connections@.len() && self.connections@[x].dev == dev {
                            assert(x == i);
                            if 0 <= y < self.connections@[x].conn.services@.len()
                                && self.connections@[x].conn.services@[y].id == svc {
                                assert(y == j as int);
                            }
                        }
                    }
                }
                return None;
            },
            Some(k) => k,
        };
        Some(&mut self.connections[i].conn.services[j].inner.chars[k].inner)
    }
}

/// Relates the tree before and after handing out a mutable borrow of the
/// descriptor entry on the path: `got` is the entry as it was handed out and
/// `put` the value it holds when the borrow ends; everything else in the tree
/// is untouched.
pub open spec fn desc_mut_frame(
    pre: GattTree,
    post: GattTree,
    dev: DeviceId,
    svc: Uuid,
    chr: Uuid,
    desc: Uuid,
    got: DescriptorInner,
    put: DescriptorInner,
) -> bool {
    exists|i: int, j: int, k: int, l: int|
        #![trigger pre.connections@[i].conn.services@[j].inner.chars@[k].inner.descs@[l]]
        {
            let pconn = pre.connections@[i].conn;
            let psvc = pconn.services@[j].inner;
            let pchr = psvc.chars@[k].inner;
            let qconn = post.connections@[i].conn;
            let qsvc = qconn.services@[j].inner;
            let qchr = qsvc.chars@[k].inner;
            &&& 0 <= i < pre.connections@.len()
            &&& pre.connections@[i].dev == dev
            &&& 0 <= j < pconn.services@.len()
            &&& pconn.services@[j].id == svc
            &&& 0 <= k < psvc.chars@.len()
            &&& psvc.chars@[k].id == chr
            &&& 0 <= l < pchr.descs@.len()
            &&& pchr.descs@[l].id == desc
            &&& got == pchr.descs@[l].inner
            &&& post.connections@.len() == pre.connections@.len()
            &&& (forall|x: int| 0 <= x < pre.connections@.len() && x != i
                ==> post.connections@[x] == pre.connections@[x])
            &&& post.connections@[i].dev == pre.connections@[i].dev
            &&& conn_same_but_services(pconn, qconn)
            &&& qconn.services@.len() == pconn.services@.len()
            &&& (forall|y: int| 0 <= y < pconn.services@.len() && y != j
                ==> qconn.services@[y] == pconn.services@[y])
            &&& qconn.services@[j].id == pconn.services@[j].id
            &&& svc_same_but_chars(psvc, qsvc)
            &&& qsvc.chars@.len() == psvc.chars@.len()
            &&& (forall|z: int| 0 <= z < psvc.chars@.len() && z != k ==> qsvc.chars@[z]
                == psvc.chars@[z])
            &&& qsvc.chars@[k].id == psvc.chars@[k].id
            &&& char_same_but_descs(pchr, qchr)
            &&& qchr.descs@.len() == pchr.descs@.len()
            &&& (forall|w: int| 0 <= w < pchr.descs@.len() && w != l ==> qchr.descs@[w]
                == pchr.descs@[w])
            &&& qchr.descs@[l].id == pchr.descs@[l].id
            &&& qchr.descs@[l].inner == put
        }
}

impl GattTree {
    /// A mutable borrow of the descriptor entry on the path, for delivering a
    /// completion to it; the rest of the tree is untouched. Nothing is handed
    /// out for an unknown path.
    pub fn descriptor_mut(&mut self, dev: DeviceId, svc: Uuid, chr: Uuid, desc: Uuid) -> (r:
        Option<&mut DescriptorInner>)
        requires
            old(self).wf(),
        ensures
            final(self).next_epoch == old(self).next_epoch,
            r is Some <==> old(self).has_desc(dev, svc, chr, desc),
            r is None ==> *final(self) == *old(self),
            r is Some ==> desc_mut_frame(
                *old(self),
                *final(self),
                dev,
                svc,
                chr,
                desc,
                *r.unwrap(),
                *final(r.unwrap()),
            ),
    {
        let i = match self.find_conn_idx(dev) {
            None => {
                proof {
                    assert(!self.has_desc(dev, svc, chr, desc));
                }
                return None;
            },
            Some(i) => i,
        };
        let j = match find_idx(&self.connections[i].conn.services, svc) {
            None => {
                proof {
                    assert forall|x: int, y: int, z: int, w: int| !(0 <= x
                        < self.connections@.len() && self.connections@[x].dev == dev
                        && 0 <= y < self.connections@[x].conn.services@.len()
                        && self.connections@[x].conn.services@[y].id == svc
                        && 0 <= z < self.connections@[x].conn.services@[y].inner.chars@.len()
                        && self.connections@[x].conn.services@[y].inner.chars@[z].id == chr
                        && 0 <= w < self.connections@[x].conn.services@[y].inner.chars@[
                        z
                    ].inner.descs@.len() && self.connections@[x].conn.services@[y].inner.chars@[
                        z
                    ].inner.descs@[w].id == desc) by {
                        if 0 <= x < self.connections@.len() && self.connections@[x].dev == dev {
                            assert(x == i);
                        }
                    }
                }
                return None;
            },
            Some(j) => j,
        };
        let k = match find_idx(&self.connections[i].conn.services[j].inner.chars, chr) {
            None => {
                proof {
                    assert forall|x: int, y: int, z: int, w: int| !(0 <= x
                        < self.connections@.len() && self.connections@[x].dev == dev
                        && 0 <= y < self.connections@[x].conn.services@.len()
                        && self.connections@[x].conn.services@[y].id == svc
                        && 0 <= z < self.connections@[x].conn.services@[y].inner.chars@.len()
                        && self.connections@[x].conn.services@[y].inner.chars@[z].id == chr
                        && 0 <= w < self.connections@[x].conn.services@[y].inner.chars@[
                        z
                    ].inner.descs@.len() && self.connections@[x].conn.services@[y].inner.chars@[
                        z
                    ].inner.descs@[w].id == desc) by {
                        if 0 <= x < self.connections@.len() && self.connections@[x].dev == dev {
                            assert(x == i);
                            if 0 <= y < self.connections@[x].conn.services@.len()
                                && self.connections@[x].conn.services@[y].id == svc {
                                assert(y == j as int);
                            }
                        }
                    }
                }
                return None;
            },
            Some(k) => k,
        };
        let l = match find_idx(
            &self.connections[i].conn.services[j].inner.chars[k].inner.descs,
            desc,
        ) {
            None => {
                proof {
                    assert forall|x: int, y: int, z: int, w: int| !(0 <= x
                        < self.connections@.len() && self.connections@[x].dev == dev
                        && 0 <= y < self.connections@[x].conn.services@.len()
                        && self.connections@[x].conn.services@[y].id == svc
                        && 0 <= z < self.connections@[x].conn.services@[y].inner.chars@.len()
                        && self.connections@[x].conn.services@[y].inner.chars@[z].id == chr
                        && 0 <= w < self.connections@[x].conn.services@[y].inner.chars@[
                        z
                    ].inner.descs@.len() && self.connections@[x].conn.services@[y].inner.chars@[
                        z
                    ].inner.descs@[w].id == desc) by {
                        if 0 <= x < self.connections@.len() && self.connections@[x].dev == dev {
                            assert(x == i);
                            if 0 <= y < self.connections@[x].conn.services@.len()
                                && self.connections@[x].conn.services@[y].id == svc {
                                assert(y == j as int);
                                if 0 <= z < self.connections@[x].conn.services@[
                                    y
                                ].inner.chars@.len() && self.connections@[x].conn.services@[
                                    y
                                ].inner.chars@[z].id == chr {
                                    assert(z == k as int);
                                }
                            }
                        }
                    }
                }
                return None;
            },
            Some(l) => l,
        };
        Some(&mut self.connections[i].conn.services[j].inner.chars[k].inner.descs[l].inner)
    }
}
} // verus!
