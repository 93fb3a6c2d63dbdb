//! A GATT descriptor, addressed by its path and resolved against the
//! resource tree through the resolution cache.

use vstd::prelude::*;
use vstd::pervasive::unreached;
use crate::ids::{Uuid, DeviceId};
use crate::errors::{Error, ErrorKind};
use crate::cache::{CachedWeak, CacheOutcome};
use crate::tree::{GattTree, DescriptorInner};
use crate::characteristic::clone_bytes;

verus! {

/// A Bluetooth GATT descriptor.
#[derive(Clone, Copy, Debug)]
pub struct Descriptor {
    pub dev_id: DeviceId,
    pub service_id: Uuid,
    pub char_id: Uuid,
    pub desc_id: Uuid,
    pub inner: CachedWeak,
}

impl Descriptor {
    /// A descriptor handle for the given path, with an unresolved cache.
    pub fn new(dev_id: DeviceId, service_id: Uuid, char_id: Uuid, desc_id: Uuid) -> (r: Self)
        ensures
            r.dev_id == dev_id,
            r.service_id == service_id,
            r.char_id == char_id,
            r.desc_id == desc_id,
            r.inner.cached is None,
    {
        Descriptor { dev_id, service_id, char_id, desc_id, inner: CachedWeak::new() }
    }

    /// The identifier of this GATT descriptor.
    pub fn uuid(&self) -> (r: Uuid)
        ensures
            r == self.desc_id,
    {
        self.desc_id
    }

    /// Resolves this descriptor against the resource tree: from the cache
    /// while the cached entry is still the live one, through the lookup
    /// otherwise. Fails — reporting whether the connection or only the entry
    /// is gone — exactly when nothing lives on the path.
    pub fn get_inner<'a>(&mut self, tree: &'a GattTree) -> (r: Result<&'a DescriptorInner, Error>)
        requires
            tree.wf(),
        ensures
            final(self).dev_id == old(self).dev_id,
            final(self).service_id == old(self).service_id,
            final(self).char_id == old(self).char_id,
            final(self).desc_id == old(self).desc_id,
            r is Ok <==> tree.has_desc(
                old(self).dev_id,
                old(self).service_id,
                old(self).char_id,
                old(self).desc_id,
            ),
            r matches Ok(d) ==> exists|i: int, j: int, k: int, l: int| 0 <= i
                < tree.connections@.len() && tree.connections@[i].dev == old(self).dev_id
                && 0 <= j < tree.connections@[i].conn.services@.len()
                && tree.connections@[i].conn.services@[j].id == old(self).service_id
                && 0 <= k < tree.connections@[i].conn.services@[j].inner.chars@.len()
                && tree.connections@[i].conn.services@[j].inner.chars@[k].id == old(self).char_id
                && 0 <= l < tree.connections@[i].conn.services@[j].inner.chars@[
                    k
                ].inner.descs@.len()
                && tree.connections@[i].conn.services@[j].inner.chars@[k].inner.descs@[l].id
                == old(self).desc_id
                && *d == tree.connections@[i].conn.services@[j].inner.chars@[k].inner.descs@[
                    l
                ].inner
                && final(self).inner.cached == Some(d.epoch),
            r matches Err(e) ==> e.kind == tree.missing_kind(old(self).dev_id)
                && e.source is None && final(self).inner == old(self).inner,
    {
        let live: Option<u64> = match tree.find_descriptor(
            self.dev_id,
            self.service_id,
            self.char_id,
            self.desc_id,
        ) {
            Some(d) => Some(d.epoch),
            None => None,
        };
        let outcome = self.inner.get_or_find(live);
        match outcome {
            CacheOutcome::Gone => Err(tree.missing_error(self.dev_id)),
            _ => match tree.find_descriptor(
                self.dev_id,
                self.service_id,
                self.char_id,
                self.desc_id,
            ) {
                Some(d) => Ok(d),
                None => unreached(),
            },
        }
    }

    /// The cached value of this descriptor: the last value its read lock
    /// completed with. Fails with the missing-path category when nothing
    /// lives on the path, with `NotReady` when no read has completed yet,
    /// and with the stored error when the last read completed with one.
    pub fn value(&mut self, tree: &GattTree) -> (r: Result<Vec<u8>, Error>)
        requires
            tree.wf(),
        ensures
            final(self).dev_id == old(self).dev_id,
            final(self).service_id == old(self).service_id,
            final(self).char_id == old(self).char_id,
            final(self).desc_id == old(self).desc_id,
            !tree.has_desc(
                old(self).dev_id,
                old(self).service_id,
                old(self).char_id,
                old(self).desc_id,
            ) ==> (r matches Err(e) && e.kind == tree.missing_kind(old(self).dev_id)),
            tree.has_desc(
                old(self).dev_id,
                old(self).service_id,
                old(self).char_id,
                old(self).desc_id,
            ) ==> exists|i: int, j: int, k: int, l: int|
                {
                    let stored = tree.connections@[i].conn.services@[j].inner.chars@[
                        k
                    ].inner.descs@[l].inner.read.last_val;
                    &&& 0 <= i < tree.connections@.len()
                    &&& tree.connections@[i].dev == old(self).dev_id
                    &&& 0 <= j < tree.connections@[i].conn.services@.len()
                    &&& #[trigger] tree.connections@[i].conn.services@[j].id == old(
                        self,
                    ).service_id
                    &&& 0 <= k < tree.connections@[i].conn.services@[j].inner.chars@.len()
                    &&& #[trigger] tree.connections@[i].conn.services@[j].inner.chars@[k].id
                        == old(self).char_id
                    &&& 0 <= l < tree.connections@[i].conn.services@[j].inner.chars@[
                        k
                    ].inner.descs@.len()
                    &&& #[trigger] tree.connections@[i].conn.services@[j].inner.chars@[
                        k
                    ].inner.descs@[l].id == old(self).desc_id
                    &&& (stored is None ==> (r matches Err(e) && e.kind == ErrorKind::NotReady))
                    &&& (stored matches Some(sv) ==> match (sv, r) {
                        (Ok(bytes), Ok(out)) => out@ == bytes@,
                        (Err(se), Err(e)) => e == se,
                        _ => false,
                    })
                },
    {
        let inner = match self.get_inner(tree) {
            Ok(v) => v,
            Err(e) => {
                return Err(e);
            },
        };
        match inner.read.last_value() {
            None => Err(Error::new(
                ErrorKind::NotReady,
                None,
                "please call `Descriptor::read` at first",
            )),
            Some(stored) => match stored {
                Ok(bytes) => Ok(clone_bytes(bytes)),
                Err(e) => Err(e.clone()),
            },
        }
    }
}

} // verus!
