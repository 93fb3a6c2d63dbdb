//! A GATT service, addressed by its connection and service identifiers and
//! resolved against the resource tree through the resolution cache.

use vstd::prelude::*;
use vstd::pervasive::unreached;
use crate::ids::{Uuid, DeviceId};
use crate::errors::Error;
use crate::cache::{CachedWeak, CacheOutcome};
use crate::tree::{GattTree, ServiceInner};
use crate::characteristic::Characteristic;

verus! {

/// A Bluetooth GATT service.
#[derive(Clone, Copy, Debug)]
pub struct Service {
    pub dev_id: DeviceId,
    pub service_id: Uuid,
    pub inner: CachedWeak,
}

impl Service {
    /// A service handle for the given path, with an unresolved cache.
    pub fn new(dev_id: DeviceId, service_id: Uuid) -> (r: Self)
        ensures
            r.dev_id == dev_id,
            r.service_id == service_id,
            r.inner.cached is None,
    {
        Service { dev_id, service_id, inner: CachedWeak::new() }
    }

    /// The identifier of this GATT service.
    pub fn uuid(&self) -> (r: Uuid)
        ensures
            r == self.service_id,
    {
        self.service_id
    }

    /// Resolves this service against the resource tree: from the cache while
    /// the cached entry is still the live one, through the lookup otherwise.
    /// Fails — reporting whether the connection or only the entry is gone —
    /// exactly when nothing lives on the path.
    pub fn get_inner<'a>(&mut self, tree: &'a GattTree) -> (r: Result<&'a ServiceInner, Error>)
        requires
            tree.wf(),
        ensures
            final(self).dev_id == old(self).dev_id,
            final(self).service_id == old(self).service_id,
            r is Ok <==> tree.has_service(old(self).dev_id, old(self).service_id),
            r matches Ok(s) ==> exists|i: int, j: int| 0 <= i < tree.connections@.len()
                && tree.connections@[i].dev == old(self).dev_id
                && 0 <= j < tree.connections@[i].conn.services@.len()
                && tree.connections@[i].conn.services@[j].id == old(self).service_id
                && *s == tree.connections@[i].conn.services@[j].inner
                && final(self).inner.cached == Some(s.epoch),
            r matches Err(e) ==> e.kind == tree.missing_kind(old(self).dev_id)
                && e.source is None && final(self).inner == old(self).inner,
    {
        let live: Option<u64> = match tree.find_service(self.dev_id, self.service_id) {
            Some(s) => Some(s.epoch),
            None => None,
        };
        let outcome = self.inner.get_or_find(live);
        match outcome {
            CacheOutcome::Gone => Err(tree.missing_error(self.dev_id)),
            _ => match tree.find_service(self.dev_id, self.service_id) {
                Some(s) => Ok(s),
                None => unreached(),
            },
        }
    }

    /// Whether this is a primary service of the device, as recorded at
    /// discovery. Fails exactly when nothing lives on the path.
    pub fn is_primary(&mut self, tree: &GattTree) -> (r: Result<bool, Error>)
        requires
            tree.wf(),
        ensures
            final(self).dev_id == old(self).dev_id,
            final(self).service_id == old(self).service_id,
            r is Ok <==> tree.has_service(old(self).dev_id, old(self).service_id),
            r matches Ok(p) ==> exists|i: int, j: int| 0 <= i < tree.connections@.len()
                && tree.connections@[i].dev == old(self).dev_id
                && 0 <= j < tree.connections@[i].conn.services@.len()
                && tree.connections@[i].conn.services@[j].id == old(self).service_id
                && p == tree.connections@[i].conn.services@[j].inner.primary,
            r matches Err(e) ==> e.kind == tree.missing_kind(old(self).dev_id),
    {
        match self.get_inner(tree) {
            Ok(inner) => Ok(inner.primary),
            Err(e) => Err(e),
        }
    }

    /// The previously discovered characteristics of this service, as handles
    /// on their paths. Fails exactly when nothing lives on the path.
    pub fn characteristics(&mut self, tree: &GattTree) -> (r: Result<Vec<Characteristic>, Error>)
        requires
            tree.wf(),
        ensures
            final(self).dev_id == old(self).dev_id,
            final(self).service_id == old(self).service_id,
            r is Ok <==> tree.has_service(old(self).dev_id, old(self).service_id),
            r matches Ok(v) ==> exists|i: int, j: int| 0 <= i < tree.connections@.len()
                && tree.connections@[i].dev == old(self).dev_id
                && 0 <= j < tree.connections@[i].conn.services@.len()
                && tree.connections@[i].conn.services@[j].id == old(self).service_id
                && v@.len() == tree.connections@[i].conn.services@[j].inner.chars@.len()
                && (forall|y: int| 0 <= y < v@.len() ==> (#[trigger] v@[y]).dev_id == old(
                    self,
                ).dev_id && v@[y].service_id == old(self).service_id && v@[y].char_id
                    == tree.connections@[i].conn.services@[j].inner.chars@[y].id),
            r matches Err(e) ==> e.kind == tree.missing_kind(old(self).dev_id),
    {
        let dev_id = self.dev_id;
        let service_id = self.service_id;
        let inner = match self.get_inner(tree) {
            Ok(v) => v,
            Err(e) => {
                return Err(e);
            },
        };
        let n = inner.chars.len();
        let mut out: Vec<Characteristic> = Vec::new();
        let mut x: usize = 0;
        while x < n
            invariant
                n == inner.chars@.len(),
                x <= n,
                out@.len() == x,
                forall|y: int| 0 <= y < x ==> (#[trigger] out@[y]).dev_id == dev_id
                    && out@[y].service_id == service_id && out@[y].char_id == inner.chars@[y].id,
            decreases n - x,
        {
            out.push(Characteristic::new(dev_id, service_id, inner.chars[x].id));
            x = x + 1;
        }
        Ok(out)
    }

    /// The characteristics of this service; discovery happened when the
    /// connection's services were discovered, so this answers from the tree.
    pub fn discover_characteristics(&mut self, tree: &GattTree) -> (r: Result<
        Vec<Characteristic>,
        Error,
    >)
        requires
            tree.wf(),
        ensures
            r is Ok <==> tree.has_service(old(self).dev_id, old(self).service_id),
            final(self).dev_id == old(self).dev_id,
            final(self).service_id == old(self).service_id,
    {
        self.characteristics(tree)
    }

    /// The characteristics of this service whose identifier equals `uuid`.
    pub fn discover_characteristics_with_uuid(&mut self, tree: &GattTree, uuid: Uuid) -> (r:
        Result<Vec<Characteristic>, Error>)
        requires
            tree.wf(),
        ensures
            r is Ok <==> tree.has_service(old(self).dev_id, old(self).service_id),
            r matches Ok(v) ==> forall|y: int| 0 <= y < v@.len() ==> (#[trigger] v@[y]).char_id
                == uuid && v@[y].dev_id == old(self).dev_id && v@[y].service_id == old(
                self,
            ).service_id,
            final(self).dev_id == old(self).dev_id,
            final(self).service_id == old(self).service_id,
    {
        let all = match self.characteristics(tree) {
            Ok(v) => v,
            Err(e) => {
                return Err(e);
            },
        };
        let filtered = crate::characteristic::filter_by_uuid(all, uuid);
        proof {
            crate::characteristic::lemma_filtered_by_uuid_elems(all@, uuid);
            assert forall|y: int| 0 <= y < filtered@.len() implies (#[trigger] filtered@[
                y
            ]).char_id == uuid && filtered@[y].dev_id == self.dev_id && filtered@[y].service_id
                == self.service_id by {
                let x = choose|x: int| 0 <= x < all@.len() && all@[x] == filtered@[y];
                assert(all@[x].dev_id == self.dev_id);
            }
        }
        Ok(filtered)
    }
}

/// The services of `s` whose identifier equals `uuid`, in order.
pub open spec fn services_filtered_by_uuid(s: Seq<Service>, uuid: Uuid) -> Seq<Service>
    decreases s.len(),
{
    if s.len() == 0 {
        Seq::empty()
    } else {
        let rest = services_filtered_by_uuid(s.drop_last(), uuid);
        if s.last().service_id == uuid {
            rest.push(s.last())
        } else {
            rest
        }
    }
}

/// Every service the filter keeps carries the identifier filtered for and is
/// one of the services filtered from.
pub proof fn lemma_services_filtered_by_uuid_elems(s: Seq<Service>, uuid: Uuid)
    ensures
        forall|y: int| 0 <= y < services_filtered_by_uuid(s, uuid).len() ==> (
        #[trigger] services_filtered_by_uuid(s, uuid)[y]).service_id == uuid && exists|x: int| 0
            <= x < s.len() && s[x] == services_filtered_by_uuid(s, uuid)[y],
    decreases s.len(),
{
    if s.len() > 0 {
        lemma_services_filtered_by_uuid_elems(s.drop_last(), uuid);
        let rest = services_filtered_by_uuid(s.drop_last(), uuid);
        let whole = services_filtered_by_uuid(s, uuid);
        assert forall|y: int| 0 <= y < whole.len() implies (#[trigger] whole[y]).service_id == uuid
            && exists|x: int| 0 <= x < s.len() && s[x] == whole[y] by {
            if y < rest.len() {
                assert(rest[y].service_id == uuid);
                let x = choose|x: int| 0 <= x < s.drop_last().len() && s.drop_last()[x] == rest[y];
                assert(s[x] == whole[y]);
            } else {
                assert(whole[y] == s.last());
                assert(s[s.len() - 1] == whole[y]);
            }
        }
    }
}

/// Keeps the services whose identifier equals `uuid`, preserving their order.
pub fn filter_services_by_uuid(all: Vec<Service>, uuid: Uuid) -> (r: Vec<Service>)
    ensures
        r@ == services_filtered_by_uuid(all@, uuid),
{
    let n = all.len();
    let mut out: Vec<Service> = Vec::new();
    let mut x: usize = 0;
    proof {
        assert(all@.subrange(0, 0) =~= Seq::<Service>::empty());
    }
    while x < n
        invariant
            n == all@.len(),
            x <= n,
            out@ == services_filtered_by_uuid(all@.subrange(0, x as int), uuid),
        decreases n - x,
    {
        let c = all[x];
        proof {
            let sub1 = all@.subrange(0, x + 1);
            assert(sub1.drop_last() =~= all@.subrange(0, x as int));
            assert(sub1.last() == all@[x as int]);
        }
        if c.service_id.bits == uuid.bits {
            out.push(c);
        }
        x = x + 1;
    }
    proof {
        assert(all@.subrange(0, n as int) =~= all@);
    }
    out
}

} // verus!
