//! A GATT characteristic, addressed by its path and resolved against the
//! resource tree through the resolution cache.

use vstd::prelude::*;
use vstd::pervasive::unreached;
use crate::ids::{Uuid, DeviceId};
use crate::errors::{Error, ErrorKind};
use crate::cache::{CachedWeak, CacheOutcome};
use crate::tree::{GattTree, CharacteristicInner};
use crate::descriptor::Descriptor;

verus! {

/// A Bluetooth GATT characteristic.
#[derive(Clone, Copy, Debug)]
pub struct Characteristic {
    pub dev_id: DeviceId,
    pub service_id: Uuid,
    pub char_id: Uuid,
    pub inner: CachedWeak,
}

/// An owned copy of a byte string.
pub fn clone_bytes(v: &Vec<u8>) -> (r: Vec<u8>)
    ensures
        r@ == v@,
{
    let mut out: Vec<u8> = Vec::new();
    let n = v.len();
    let mut x: usize = 0;
    while x < n
        invariant
            n == v@.len(),
            x <= n,
            out@ == v@.subrange(0, x as int),
        decreases n - x,
    {
        out.push(v[x]);
        proof {
            assert(out@ =~= v@.subrange(0, x + 1));
        }
        x = x + 1;
    }
    proof {
        assert(out@ =~= v@);
    }
    out
}

/// The characteristics of `s` whose identifier equals `uuid`, in order.
pub open spec fn filtered_by_uuid(s: Seq<Characteristic>, uuid: Uuid) -> Seq<Characteristic>
    decreases s.len(),
{
    if s.len() == 0 {
        Seq::empty()
    } else {
        let rest = filtered_by_uuid(s.drop_last(), uuid);
        if s.last().char_id == uuid {
            rest.push(s.last())
        } else {
            rest
        }
    }
}

/// Every characteristic the filter keeps carries the identifier filtered for
/// and is one of the characteristics filtered from.
pub proof fn lemma_filtered_by_uuid_elems(s: Seq<Characteristic>, uuid: Uuid)
    ensures
        forall|y: int| 0 <= y < filtered_by_uuid(s, uuid).len() ==> (#[trigger] filtered_by_uuid(
            s,
            uuid,
        )[y]).char_id == uuid && exists|x: int| 0 <= x < s.len() && s[x] == filtered_by_uuid(
            s,
            uuid,
        )[y],
    decreases s.len(),
{
    if s.len() > 0 {
        lemma_filtered_by_uuid_elems(s.drop_last(), uuid);
        let rest = filtered_by_uuid(s.drop_last(), uuid);
        let whole = filtered_by_uuid(s, uuid);
        assert forall|y: int| 0 <= y < whole.len() implies (#[trigger] whole[y]).char_id == uuid
            && exists|x: int| 0 <= x < s.len() && s[x] == whole[y] by {
            if y < rest.len() {
                assert(rest[y].char_id == uuid);
                let x = choose|x: int| 0 <= x < s.drop_last().len() && s.drop_last()[x] == rest[y];
                assert(s[x] == whole[y]);
            } else {
                assert(whole[y] == s.last());
                assert(s[s.len() - 1] == whole[y]);
            }
        }
    }
}

/// Keeps the characteristics whose identifier equals `uuid`, preserving their
/// order.
pub fn filter_by_uuid(all: Vec<Characteristic>, uuid: Uuid) -> (r: Vec<Characteristic>)
    ensures
        r@ == filtered_by_uuid(all@, uuid),
{
    let n = all.len();
    let mut out: Vec<Characteristic> = Vec::new();
    let mut x: usize = 0;
    proof {
        assert(all@.subrange(0, 0) =~= Seq::<Characteristic>::empty());
    }
    while x < n
        invariant
            n == all@.len(),
            x <= n,
            out@ == filtered_by_uuid(all@.subrange(0, x as int), uuid),
        decreases n - x,
    {
        let c = all[x];
        proof {
            let sub1 = all@.subrange(0, x + 1);
            assert(sub1.drop_last() =~= all@.subrange(0, x as int));
            assert(sub1.last() == all@[x as int]);
        }
        if c.char_id.bits == uuid.bits {
            out.push(c);
        }
        x = x + 1;
    }
    proof {
        assert(all@.subrange(0, n as int) =~= all@);
    }
    out
}

impl Characteristic {
    /// A characteristic handle for the given path, with an unresolved cache.
    pub fn new(dev_id: DeviceId, service_id: Uuid, char_id: Uuid) -> (r: Self)
        ensures
            r.dev_id == dev_id,
            r.service_id == service_id,
            r.char_id == char_id,
            r.inner.cached is None,
    {
        Characteristic { dev_id, service_id, char_id, inner: CachedWeak::new() }
    }

    /// The identifier of this GATT characteristic.
    pub fn uuid(&self) -> (r: Uuid)
        ensures
            r == self.char_id,
    {
        self.char_id
    }

    /// Resolves this characteristic against the resource tree: from the
    /// cache while the cached entry is still the live one, through the
    /// lookup otherwise. Fails — reporting whether the connection or only
    /// the entry is gone — exactly when nothing lives on the path.
    pub fn get_inner<'a>(&mut self, tree: &'a GattTree) -> (r: Result<
        &'a CharacteristicInner,
        Error,
    >)
        requires
            tree.wf(),
        ensures
            final(self).dev_id == old(self).dev_id,
            final(self).service_id == old(self).service_id,
            final(self).char_id == old(self).char_id,
            r is Ok <==> tree.has_char(
                old(self).dev_id,
                old(self).service_id,
                old(self).char_id,
            ),
            r matches Ok(c) ==> exists|i: int, j: int, k: int| 0 <= i < tree.connections@.len()
                && tree.connections@[i].dev == old(self).dev_id
                && 0 <= j < tree.connections@[i].conn.services@.len()
                && tree.connections@[i].conn.services@[j].id == old(self).service_id
                && 0 <= k < tree.connections@[i].conn.services@[j].inner.chars@.len()
                && tree.connections@[i].conn.services@[j].inner.chars@[k].id == old(self).char_id
                && *c == tree.connections@[i].conn.services@[j].inner.chars@[k].inner
                && final(self).inner.cached == Some(c.epoch),
            r matches Err(e) ==> e.kind == tree.missing_kind(old(self).dev_id)
                && e.source is None && final(self).inner == old(self).inner,
    {
        let live: Option<u64> = match tree.find_characteristic(
            self.dev_id,
            self.service_id,
            self.char_id,
        ) {
            Some(c) => Some(c.epoch),
            None => None,
        };
        let outcome = self.inner.get_or_find(live);
        match outcome {
            CacheOutcome::Gone => Err(tree.missing_error(self.dev_id)),
            _ => match tree.find_characteristic(self.dev_id, self.service_id, self.char_id) {
                Some(c) => Ok(c),
                None => unreached(),
            },
        }
    }

    /// The cached value of this characteristic: the last value its read lock
    /// completed with. Fails with the missing-path category when nothing
    /// lives on the path, with `NotReady` when no read has completed yet,
    /// and with the stored error when the last read completed with one.
    pub fn value(&mut self, tree: &GattTree) -> (r: Result<Vec<u8>, Error>)
        requires
            tree.wf(),
        ensures
            final(self).dev_id == old(self).dev_id,
            final(self).service_id == old(self).service_id,
            final(self).char_id == old(self).char_id,
            !tree.has_char(old(self).dev_id, old(self).service_id, old(self).char_id)
                ==> (r matches Err(e) && e.kind == tree.missing_kind(old(self).dev_id)),
            tree.has_char(old(self).dev_id, old(self).service_id, old(self).char_id)
                ==> exists|i: int, j: int, k: int|
                {
                    let stored = tree.connections@[i].conn.services@[j].inner.chars@[
                        k
                    ].inner.read.last_val;
                    &&& 0 <= i < tree.connections@.len()
                    &&& tree.connections@[i].dev == old(self).dev_id
                    &&& 0 <= j < tree.connections@[i].conn.services@.len()
                    &&& #[trigger] tree.connections@[i].conn.services@[j].id == old(
                        self,
                    ).service_id
                    &&& 0 <= k < tree.connections@[i].conn.services@[j].inner.chars@.len()
                    &&& #[trigger] tree.connections@[i].conn.services@[j].inner.chars@[k].id
                        == old(self).char_id
                    &&& (stored is None ==> (r matches Err(e) && e.kind == ErrorKind::NotReady))
                    &&& (stored matches Some(sv) ==> match (sv, r) {
                        (Ok(bytes), Ok(out)) => out@ == bytes@,
                        (Err(se), Err(e)) => e == se,
                        _ => false,
                    })
                },
    {
        let inner = match self.get_inner(tree) {
            Ok(v) => v,
            Err(e) => {
                return Err(e);
            },
        };
        match inner.read.last_value() {
            None => Err(Error::new(
                ErrorKind::NotReady,
                None,
                "please call `Characteristic::read` at first",
            )),
            Some(stored) => match stored {
                Ok(bytes) => Ok(clone_bytes(bytes)),
                Err(e) => Err(e.clone()),
            },
        }
    }

    /// Whether the device is currently sending notifications for this
    /// characteristic. Fails exactly when nothing lives on the path.
    pub fn is_notifying(&mut self, tree: &GattTree) -> (r: Result<bool, Error>)
        requires
            tree.wf(),
        ensures
            final(self).dev_id == old(self).dev_id,
            final(self).service_id == old(self).service_id,
            final(self).char_id == old(self).char_id,
            r is Ok <==> tree.has_char(
                old(self).dev_id,
                old(self).service_id,
                old(self).char_id,
            ),
            r matches Ok(b) ==> exists|i: int, j: int, k: int| 0 <= i < tree.connections@.len()
                && tree.connections@[i].dev == old(self).dev_id
                && 0 <= j < tree.connections@[i].conn.services@.len()
                && tree.connections@[i].conn.services@[j].id == old(self).service_id
                && 0 <= k < tree.connections@[i].conn.services@[j].inner.chars@.len()
                && tree.connections@[i].conn.services@[j].inner.chars@[k].id == old(self).char_id
                && b == (tree.connections@[i].conn.services@[j].inner.chars@[
                    k
                ].inner.notify.state is Some),
            r matches Err(e) ==> e.kind == tree.missing_kind(old(self).dev_id),
    {
        match self.get_inner(tree) {
            Ok(inner) => Ok(inner.notify.is_notifying()),
            Err(e) => Err(e),
        }
    }

    /// The previously discovered descriptors of this characteristic, as
    /// handles on their paths. Fails exactly when nothing lives on the path.
    pub fn descriptors(&mut self, tree: &GattTree) -> (r: Result<Vec<Descriptor>, Error>)
        requires
            tree.wf(),
        ensures
            final(self).dev_id == old(self).dev_id,
            final(self).service_id == old(self).service_id,
            final(self).char_id == old(self).char_id,
            r is Ok <==> tree.has_char(
                old(self).dev_id,
                old(self).service_id,
                old(self).char_id,
            ),
            r matches Ok(v) ==> exists|i: int, j: int, k: int| 0 <= i < tree.connections@.len()
                && tree.connections@[i].dev == old(self).dev_id
                && 0 <= j < tree.connections@[i].conn.services@.len()
                && tree.connections@[i].conn.services@[j].id == old(self).service_id
                && 0 <= k < tree.connections@[i].conn.services@[j].inner.chars@.len()
                && tree.connections@[i].conn.services@[j].inner.chars@[k].id == old(self).char_id
                && v@.len() == tree.connections@[i].conn.services@[j].inner.chars@[
                    k
                ].inner.descs@.len()
                && (forall|y: int| 0 <= y < v@.len() ==> (#[trigger] v@[y]).dev_id == old(
                    self,
                ).dev_id && v@[y].service_id == old(self).service_id && v@[y].char_id == old(
                    self,
                ).char_id && v@[y].desc_id == tree.connections@[i].conn.services@[j].inner.chars@[
                    k
                ].inner.descs@[y].id),
            r matches Err(e) ==> e.kind == tree.missing_kind(old(self).dev_id),
    {
        let dev_id = self.dev_id;
        let service_id = self.service_id;
        let char_id = self.char_id;
        let inner = match self.get_inner(tree) {
            Ok(v) => v,
            Err(e) => {
                return Err(e);
            },
        };
        let n = inner.descs.len();
        let mut out: Vec<Descriptor> = Vec::new();
        let mut x: usize = 0;
        while x < n
            invariant
                n == inner.descs@.len(),
                x <= n,
                out@.len() == x,
                forall|y: int| 0 <= y < x ==> (#[trigger] out@[y]).dev_id == dev_id
                    && out@[y].service_id == service_id && out@[y].char_id == char_id
                    && out@[y].desc_id == inner.descs@[y].id,
            decreases n - x,
        {
            out.push(Descriptor::new(dev_id, service_id, char_id, inner.descs[x].id));
            x = x + 1;
        }
        Ok(out)
    }

    /// The descriptors of this characteristic; they were discovered with the
    /// connection's services, so this answers from the tree.
    pub fn discover_descriptors(&mut self, tree: &GattTree) -> (r: Result<Vec<Descriptor>, Error>)
        requires
            tree.wf(),
        ensures
            r is Ok <==> tree.has_char(
                old(self).dev_id,
                old(self).service_id,
                old(self).char_id,
            ),
            final(self).dev_id == old(self).dev_id,
            final(self).service_id == old(self).service_id,
            final(self).char_id == old(self).char_id,
    {
        self.descriptors(tree)
    }

    /// The most data a single write to this characteristic can carry: the
    /// connection's negotiated transfer unit (23 bytes until a change was
    /// received) less the 5 bytes of attribute-protocol overhead. Fails with
    /// `NotConnected` exactly when the device has no registered connection.
    pub fn max_write_len(&self, tree: &GattTree) -> (r: Result<usize, Error>)
        requires
            tree.wf(),
            forall|i: int| 0 <= i < tree.connections@.len() && tree.connections@[i].dev
                == self.dev_id && (#[trigger] tree.connections@[
                i
            ].conn.mtu_changed_received.last_val) is Some ==> tree.connections@[
                i
            ].conn.mtu_changed_received.last_val->Some_0 >= 5,
        ensures
            r is Ok <==> tree.has_conn(self.dev_id),
            r matches Ok(len) ==> exists|i: int| 0 <= i < tree.connections@.len()
                && tree.connections@[i].dev == self.dev_id && len == (match tree.connections@[
                i
            ].conn.mtu_changed_received.last_val {
                Some(m) => m - 5,
                None => 18int,
            }),
            r matches Err(e) ==> e.kind == ErrorKind::NotConnected,
    {
        match tree.find_connection(self.dev_id) {
            None => Err(Error::from_kind(ErrorKind::NotConnected)),
            Some(conn) => {
                let mtu: usize = match conn.mtu_changed_received.last_value() {
                    Some(m) => *m,
                    None => 23,
                };
                Ok(mtu - 5)
            },
        }
    }

    /// Accepts a write-without-response of `value_len` bytes exactly when it
    /// fits in `max` — the limit [`Characteristic::max_write_len`] reports —
    /// and rejects longer writes as carrying an invalid parameter, since the
    /// transport would silently truncate them.
    pub fn check_write_len(value_len: usize, max: usize) -> (r: Result<(), Error>)
        ensures
            r is Ok <==> value_len <= max,
            r matches Err(e) ==> e.kind == ErrorKind::InvalidParameter,
    {
        if value_len <= max {
            Ok(())
        } else {
            Err(Error::new(
                ErrorKind::InvalidParameter,
                None,
                "write length probably exceeded the MTU's limitation",
            ))
        }
    }
}

} // verus!
