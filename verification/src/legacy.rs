//! The legacy, implicit-connection command surface.
//!
//! Each legacy operation takes an address instead of a handle: it checks the
//! allow-list, opens a connection, performs one command on it, and collapses
//! every failure — denial, capacity, transport, type mismatch — into the one
//! undifferentiated legacy error.  The connection is not closed afterwards:
//! as [`shim_effect`] states, each call leaves the table unchanged or adds
//! exactly the one fresh entry it implicitly opened, touching no other.
//! Counts are converted to the legacy signed width with
//! [`crate::error::legacy_count`].
//!
//! Reaching the network is the caller's part: each operation takes the
//! connect attempt's outcome as a value.  When the allow-list denies the
//! address, the operation fails without reading that outcome, so a caller
//! that consults the allow-list before connecting never reaches the network.

use crate::error::{collapse, legacy_count, LegacyError};
use crate::host::{command_effect, ConnectOutcome, InstanceState};
use crate::reply::{RedisParameter, RedisResult};
use vstd::prelude::*;

verus! {

/// Exactly one fresh entry appeared between `pre` and `post`: handle `h`,
/// previously free, is now live; every other slot — in particular every
/// previously live connection — is as it was; and the table grew by at most
/// that one slot.
pub open spec fn shim_opened_one<C>(
    pre: InstanceState<C>,
    post: InstanceState<C>,
    h: u32,
) -> bool {
    &&& !pre.connections.live(h)
    &&& post.connections.live(h)
    &&& (h as int) <= pre.connections.slots().len()
    &&& post.connections.slots().len() == (if (h as int) < pre.connections.slots().len() {
        pre.connections.slots().len()
    } else {
        pre.connections.slots().len() + 1
    })
    &&& forall|j: int|
        0 <= j < pre.connections.slots().len() && j != h ==> post.connections.slots()[j]
            == pre.connections.slots()[j]
}

/// What one legacy call does to the table: either nothing — the allow-list
/// denied the address, or the implicit open failed — or exactly one fresh
/// entry appeared, the connection the call opened for itself, which it does
/// not close on return.
pub open spec fn shim_effect<C>(pre: InstanceState<C>, post: InstanceState<C>) -> bool {
    ||| post.connections.slots() == pre.connections.slots()
    ||| exists|h: u32| shim_opened_one(pre, post, h)
}

/// Running one command on the freshly opened handle keeps the shim's frame:
/// the command touches nothing but that handle's connection, so every entry
/// that was live before the call is still untouched afterwards.
pub proof fn lemma_shim_compose<C>(
    pre: InstanceState<C>,
    mid: InstanceState<C>,
    post: InstanceState<C>,
    h: u32,
)
    requires
        shim_opened_one(pre, mid, h),
        command_effect(mid, post, h),
    ensures
        shim_opened_one(pre, post, h),
{
    assert forall|j: int|
        0 <= j < pre.connections.slots().len() && j != h implies post.connections.slots()[j]
        == pre.connections.slots()[j] by {
        assert(mid.connections.slots()[j] == pre.connections.slots()[j]);
        assert(post.connections.slots()[j] == mid.connections.slots()[j]);
    }
}

/// The legacy view of a modern get result: a stored value is handed through
/// unchanged, an absent key becomes the empty byte sequence.
pub fn legacy_bytes(value: Option<Vec<u8>>) -> (r: Vec<u8>)
    ensures
        value matches Some(b) ==> r == b,
        value is None ==> r@ == Seq::<u8>::empty(),
{
    match value {
        Some(b) => b,
        None => Vec::new(),
    }
}

impl<C: redis::ConnectionLike> InstanceState<C> {
    /// The allow-list check and implicit open shared by every legacy
    /// operation: a denied address fails, with nothing looked at or changed;
    /// otherwise the connect outcome is stored or its failure collapsed.
    fn legacy_open(&mut self, address: &String, outcome: ConnectOutcome<C>) -> (r: Result<
        u32,
        LegacyError,
    >)
        requires
            old(self).wf(),
        ensures
            final(self).wf(),
            final(self).allowed_hosts == old(self).allowed_hosts,
            final(self).connections.capacity() == old(self).connections.capacity(),
            !old(self).allowed_hosts.allows(address@) ==> r == Err::<u32, LegacyError>(
                LegacyError::Error,
            ) && final(self).connections.slots() == old(self).connections.slots(),
            r matches Err(e) ==> e == LegacyError::Error && final(self).connections.slots() == old(
                self,
            ).connections.slots(),
            r matches Ok(h) ==> shim_opened_one(*old(self), *final(self), h),
    {
        if !self.is_address_allowed(address) {
            return Err(LegacyError::Error);
        }
        match self.establish_connection(outcome) {
            Ok(h) => Ok(h),
            Err(_) => Err(LegacyError::Error),
        }
    }

    /// Legacy publish: implicit open, then publish, every failure the one
    /// legacy error.
    pub fn legacy_publish(
        &mut self,
        address: String,
        outcome: ConnectOutcome<C>,
        channel: String,
        payload: Vec<u8>,
    ) -> (r: Result<(), LegacyError>)
        requires
            old(self).wf(),
        ensures
            final(self).wf(),
            final(self).allowed_hosts == old(self).allowed_hosts,
            final(self).connections.capacity() == old(self).connections.capacity(),
            !old(self).allowed_hosts.allows(address@) ==> r == Err::<(), LegacyError>(
                LegacyError::Error,
            ) && final(self).connections.slots() == old(self).connections.slots(),
            shim_effect(*old(self), *final(self)),
            r is Ok ==> exists|h: u32| shim_opened_one(*old(self), *final(self), h),
    {
        let connection = match self.legacy_open(&address, outcome) {
            Ok(h) => h,
            Err(e) => { return Err(e); },
        };
        let ghost mid = *self;
        let r = collapse(self.publish(connection, channel, payload));
        proof {
            lemma_shim_compose(*old(self), mid, *self, connection);
            assert(shim_opened_one(*old(self), *self, connection));
        }
        r
    }

    /// Legacy get: an absent key is reported as an empty byte sequence —
    /// exactly as [`legacy_bytes`] states — not as an error.
    pub fn legacy_get(&mut self, address: String, outcome: ConnectOutcome<C>, key: String) -> (r:
        Result<Vec<u8>, LegacyError>)
        requires
            old(self).wf(),
        ensures
            final(self).wf(),
            final(self).allowed_hosts == old(self).allowed_hosts,
            final(self).connections.capacity() == old(self).connections.capacity(),
            !old(self).allowed_hosts.allows(address@) ==> r == Err::<Vec<u8>, LegacyError>(
                LegacyError::Error,
            ) && final(self).connections.slots() == old(self).connections.slots(),
            shim_effect(*old(self), *final(self)),
            r is Ok ==> exists|h: u32| shim_opened_one(*old(self), *final(self), h),
    {
        let connection = match self.legacy_open(&address, outcome) {
            Ok(h) => h,
            Err(e) => { return Err(e); },
        };
        let ghost mid = *self;
        let fetched = collapse(self.get(connection, key));
        proof {
            lemma_shim_compose(*old(self), mid, *self, connection);
            assert(shim_opened_one(*old(self), *self, connection));
        }
        match fetched {
            Ok(v) => Ok(legacy_bytes(v)),
            Err(e) => Err(e),
        }
    }

    /// Legacy set.
    pub fn legacy_set(
        &mut self,
        address: String,
        outcome: ConnectOutcome<C>,
        key: String,
        value: Vec<u8>,
    ) -> (r: Result<(), LegacyError>)
        requires
            old(self).wf(),
        ensures
            final(self).wf(),
            final(self).allowed_hosts == old(self).allowed_hosts,
            final(self).connections.capacity() == old(self).connections.capacity(),
            !old(self).allowed_hosts.allows(address@) ==> r == Err::<(), LegacyError>(
                LegacyError::Error,
            ) && final(self).connections.slots() == old(self).connections.slots(),
            shim_effect(*old(self), *final(self)),
            r is Ok ==> exists|h: u32| shim_opened_one(*old(self), *final(self), h),
    {
        let connection = match self.legacy_open(&address, outcome) {
            Ok(h) => h,
            Err(e) => { return Err(e); },
        };
        let ghost mid = *self;
        let r = collapse(self.set(connection, key, value));
        proof {
            lemma_shim_compose(*old(self), mid, *self, connection);
            assert(shim_opened_one(*old(self), *self, connection));
        }
        r
    }

    /// Legacy incr.
    pub fn legacy_incr(&mut self, address: String, outcome: ConnectOutcome<C>, key: String) -> (r:
        Result<i64, LegacyError>)
        requires
            old(self).wf(),
        ensures
            final(self).wf(),
            final(self).allowed_hosts == old(self).allowed_hosts,
            final(self).connections.capacity() == old(self).connections.capacity(),
            !old(self).allowed_hosts.allows(address@) ==> r == Err::<i64, LegacyError>(
                LegacyError::Error,
            ) && final(self).connections.slots() == old(self).connections.slots(),
            shim_effect(*old(self), *final(self)),
            r is Ok ==> exists|h: u32| shim_opened_one(*old(self), *final(self), h),
    {
        let connection = match self.legacy_open(&address, outcome) {
            Ok(h) => h,
            Err(e) => { return Err(e); },
        };
        let ghost mid = *self;
        let r = collapse(self.incr(connection, key));
        proof {
            lemma_shim_compose(*old(self), mid, *self, connection);
            assert(shim_opened_one(*old(self), *self, connection));
        }
        r
    }

    /// Legacy del: the modern count, converted to the legacy signed width.
    pub fn legacy_del(
        &mut self,
        address: String,
        outcome: ConnectOutcome<C>,
        keys: Vec<String>,
    ) -> (r: Result<i64, LegacyError>)
        requires
            old(self).wf(),
        ensures
            final(self).wf(),
            final(self).allowed_hosts == old(self).allowed_hosts,
            final(self).connections.capacity() == old(self).connections.capacity(),
            !old(self).allowed_hosts.allows(address@) ==> r == Err::<i64, LegacyError>(
                LegacyError::Error,
            ) && final(self).connections.slots() == old(self).connections.slots(),
            shim_effect(*old(self), *final(self)),
            r is Ok ==> exists|h: u32| shim_opened_one(*old(self), *final(self), h),
            r matches Ok(v) ==> 0 <= v <= u32::MAX,
    {
        let connection = match self.legacy_open(&address, outcome) {
            Ok(h) => h,
            Err(e) => { return Err(e); },
        };
        let ghost mid = *self;
        let counted = collapse(self.del(connection, keys));
        proof {
            lemma_shim_compose(*old(self), mid, *self, connection);
            assert(shim_opened_one(*old(self), *self, connection));
        }
        match counted {
            Ok(v) => Ok(legacy_count(v)),
            Err(e) => Err(e),
        }
    }

    /// Legacy sadd: the modern count, converted to the legacy signed width;
    /// the type-mismatch distinction is discarded with every other one.
    pub fn legacy_sadd(
        &mut self,
        address: String,
        outcome: ConnectOutcome<C>,
        key: String,
        values: Vec<String>,
    ) -> (r: Result<i64, LegacyError>)
        requires
            old(self).wf(),
        ensures
            final(self).wf(),
            final(self).allowed_hosts == old(self).allowed_hosts,
            final(self).connections.capacity() == old(self).connections.capacity(),
            !old(self).allowed_hosts.allows(address@) ==> r == Err::<i64, LegacyError>(
                LegacyError::Error,
            ) && final(self).connections.slots() == old(self).connections.slots(),
            shim_effect(*old(self), *final(self)),
            r is Ok ==> exists|h: u32| shim_opened_one(*old(self), *final(self), h),
            r matches Ok(v) ==> 0 <= v <= u32::MAX,
    {
        let connection = match self.legacy_open(&address, outcome) {
            Ok(h) => h,
            Err(e) => { return Err(e); },
        };
        let ghost mid = *self;
        let counted = collapse(self.sadd(connection, key, values));
        proof {
            lemma_shim_compose(*old(self), mid, *self, connection);
            assert(shim_opened_one(*old(self), *self, connection));
        }
        match counted {
            Ok(v) => Ok(legacy_count(v)),
            Err(e) => Err(e),
        }
    }

    /// Legacy smembers.
    pub fn legacy_smembers(
        &mut self,
        address: String,
        outcome: ConnectOutcome<C>,
        key: String,
    ) -> (r: Result<Vec<String>, LegacyError>)
        requires
            old(self).wf(),
        ensures
            final(self).wf(),
            final(self).allowed_hosts == old(self).allowed_hosts,
            final(self).connections.capacity() == old(self).connections.capacity(),
            !old(self).allowed_hosts.allows(address@) ==> r == Err::<Vec<String>, LegacyError>(
                LegacyError::Error,
            ) && final(self).connections.slots() == old(self).connections.slots(),
            shim_effect(*old(self), *final(self)),
            r is Ok ==> exists|h: u32| shim_opened_one(*old(self), *final(self), h),
    {
        let connection = match self.legacy_open(&address, outcome) {
            Ok(h) => h,
            Err(e) => { return Err(e); },
        };
        let ghost mid = *self;
        let r = collapse(self.smembers(connection, key));
        proof {
            lemma_shim_compose(*old(self), mid, *self, connection);
            assert(shim_opened_one(*old(self), *self, connection));
        }
        r
    }

    /// Legacy srem: the modern count, converted to the legacy signed width.
    pub fn legacy_srem(
        &mut self,
        address: String,
        outcome: ConnectOutcome<C>,
        key: String,
        values: Vec<String>,
    ) -> (r: Result<i64, LegacyError>)
        requires
            old(self).wf(),
        ensures
            final(self).wf(),
            final(self).allowed_hosts == old(self).allowed_hosts,
            final(self).connections.capacity() == old(self).connections.capacity(),
            !old(self).allowed_hosts.allows(address@) ==> r == Err::<i64, LegacyError>(
                LegacyError::Error,
            ) && final(self).connections.slots() == old(self).connections.slots(),
            shim_effect(*old(self), *final(self)),
            r is Ok ==> exists|h: u32| shim_opened_one(*old(self), *final(self), h),
            r matches Ok(v) ==> 0 <= v <= u32::MAX,
    {
        let connection = match self.legacy_open(&address, outcome) {
            Ok(h) => h,
            Err(e) => { return Err(e); },
        };
        let ghost mid = *self;
        let counted = collapse(self.srem(connection, key, values));
        proof {
            lemma_shim_compose(*old(self), mid, *self, connection);
            assert(shim_opened_one(*old(self), *self, connection));
        }
        match counted {
            Ok(v) => Ok(legacy_count(v)),
            Err(e) => Err(e),
        }
    }

    /// Legacy execute: the generic command path behind the legacy error.
    pub fn legacy_execute(
        &mut self,
        address: String,
        outcome: ConnectOutcome<C>,
        command: String,
        arguments: Vec<RedisParameter>,
    ) -> (r: Result<Vec<RedisResult>, LegacyError>)
        requires
            old(self).wf(),
        ensures
            final(self).wf(),
            final(self).allowed_hosts == old(self).allowed_hosts,
            final(self).connections.capacity() == old(self).connections.capacity(),
            !old(self).allowed_hosts.allows(address@) ==> r == Err::<
                Vec<RedisResult>,
                LegacyError,
            >(LegacyError::Error) && final(self).connections.slots() == old(
                self,
            ).connections.slots(),
            shim_effect(*old(self), *final(self)),
            r is Ok ==> exists|h: u32| shim_opened_one(*old(self), *final(self), h),
    {
        let connection = match self.legacy_open(&address, outcome) {
            Ok(h) => h,
            Err(e) => { return Err(e); },
        };
        let ghost mid = *self;
        let r = collapse(self.execute(connection, command, arguments));
        proof {
            lemma_shim_compose(*old(self), mid, *self, connection);
            assert(shim_opened_one(*old(self), *self, connection));
        }
        r
    }
}

} // verus!
