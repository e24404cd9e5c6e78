//! The explicit-connection command surface.
//!
//! [`InstanceState`] owns the allow-list and the connection-handle table and
//! exposes one operation per supported command.  Every operation resolves its
//! handle through the table first; an unknown handle surfaces as the generic
//! error, not as undefined behaviour.  Transport work is delegated to the
//! client library; establishing a connection is the caller's part, handed in
//! as a [`ConnectOutcome`], since only the caller can reach the network.

use crate::error::{command_error, other_error, Error};
use crate::redis_io;
use crate::reply::{flatten_value, RedisParameter, RedisResult};
use vstd::prelude::*;

verus! {

/// The allow-list consulted before any connection is opened: either every
/// address is permitted, or exactly those on the list.
pub struct AllowedHosts {
    pub allow_all: bool,
    pub hosts: Vec<String>,
}

impl AllowedHosts {
    /// Whether the address is permitted.
    pub open spec fn allows(&self, address: Seq<char>) -> bool {
        self.allow_all || exists|i: int|
            0 <= i < self.hosts@.len() && self.hosts@[i]@ == address
    }

    /// Checks the address against the list.
    pub fn check(&self, address: &String) -> (r: bool)
        ensures
            r == self.allows(address@),
    {
        if self.allow_all {
            return true;
        }
        let mut i: usize = 0;
        while i < self.hosts.len()
            invariant
                i <= self.hosts@.len(),
                !self.allow_all,
                forall|j: int| 0 <= j < i ==> self.hosts@[j]@ != address@,
            decreases self.hosts@.len() - i,
        {
            if self.hosts[i] == *address {
                assert(self.hosts@[i as int]@ == address@);
                return true;
            }
            i += 1;
        }
        false
    }
}

/// What the caller's attempt to reach an address came to: a connection, an
/// address the client library refused to parse, or a transport failure with
/// its message.
pub enum ConnectOutcome<C> {
    Connected(C),
    AddressRejected,
    Failed(String),
}

/// The state behind the command surface: the allow-list and the table of live
/// connections.
pub struct InstanceState<C> {
    pub allowed_hosts: AllowedHosts,
    pub connections: crate::table::Table<C>,
}

/// The message with which an unknown or stale handle is reported.
pub open spec fn unknown_handle_msg() -> Seq<char> {
    "could not find connection for resource"@
}

/// Whether `r` is the generic error with which an unknown or stale handle is
/// reported.
pub open spec fn is_unknown_handle_error<T>(r: Result<T, Error>) -> bool {
    r matches Err(e) && e matches Error::Other(m) && m@ == unknown_handle_msg()
}

/// What a command on handle `h` may do to the state: nothing but the
/// connection stored under `h` changes, and in particular no handle appears
/// or disappears.
pub open spec fn command_effect<C>(pre: InstanceState<C>, post: InstanceState<C>, h: u32) -> bool {
    &&& post.allowed_hosts == pre.allowed_hosts
    &&& post.connections.capacity() == pre.connections.capacity()
    &&& post.connections.slots().len() == pre.connections.slots().len()
    &&& forall|j: int|
        0 <= j < pre.connections.slots().len() && j != h ==> post.connections.slots()[j]
            == pre.connections.slots()[j]
    &&& post.connections.live(h) == pre.connections.live(h)
}

/// No command changes which handles are live: under [`command_effect`], every
/// handle resolves after the command exactly when it resolved before.
pub proof fn lemma_command_preserves_handles<C>(
    pre: InstanceState<C>,
    post: InstanceState<C>,
    h: u32,
)
    requires
        command_effect(pre, post, h),
    ensures
        forall|j: u32| post.connections.live(j) == pre.connections.live(j),
{
    assert forall|j: u32| post.connections.live(j) == pre.connections.live(j) by {
        if j != h && (j as int) < pre.connections.slots().len() {
            assert(post.connections.slots()[j as int] == pre.connections.slots()[j as int]);
        }
    }
}

/// What establishing a connection does to the state, for every outcome: a
/// rejected address is `InvalidAddress`, a transport failure keeps its
/// message in `Other`, and a connection is stored under a fresh handle
/// unless the table is full, which is `TooManyConnections`.
pub open spec fn establish_post<C>(
    pre: InstanceState<C>,
    post: InstanceState<C>,
    outcome: ConnectOutcome<C>,
    r: Result<u32, Error>,
) -> bool {
    &&& post.allowed_hosts == pre.allowed_hosts
    &&& post.connections.capacity() == pre.connections.capacity()
    &&& outcome is AddressRejected ==> r == Err::<u32, Error>(Error::InvalidAddress)
        && post.connections.slots() == pre.connections.slots()
    &&& outcome matches ConnectOutcome::Failed(m) ==> r == Err::<u32, Error>(Error::Other(m))
        && post.connections.slots() == pre.connections.slots()
    &&& outcome matches ConnectOutcome::Connected(c) ==> {
        &&& pre.connections.full() ==> r == Err::<u32, Error>(Error::TooManyConnections)
            && post.connections.slots() == pre.connections.slots()
        &&& !pre.connections.full() ==> {
            &&& r is Ok
            &&& r matches Ok(h) ==> {
                &&& !pre.connections.live(h)
                &&& post.connections.live(h)
                &&& post.connections.slots()[h as int] == Some(c)
                &&& (h as int) <= pre.connections.slots().len()
                &&& (h as int) < pre.connections.slots().len() ==> post.connections.slots()
                    == pre.connections.slots().update(h as int, Some(c))
                &&& (h as int) == pre.connections.slots().len() ==> post.connections.slots()
                    == pre.connections.slots().push(Some(c))
            }
        }
    }
}

impl<C> InstanceState<C> {
    /// The table is well formed.
    pub open spec fn wf(&self) -> bool {
        self.connections.wf()
    }

    /// A state with the given allow-list and room for at most `capacity`
    /// simultaneous connections.
    pub fn new(allowed_hosts: AllowedHosts, capacity: usize) -> (s: InstanceState<C>)
        requires
            capacity <= u32::MAX as usize,
        ensures
            s.wf(),
            s.allowed_hosts == allowed_hosts,
            s.connections.capacity() == capacity,
            s.connections.slots() == Seq::<Option<C>>::empty(),
    {
        InstanceState { allowed_hosts, connections: crate::table::Table::new(capacity) }
    }

    /// Whether the allow-list permits the address.
    pub fn is_address_allowed(&self, address: &String) -> (r: bool)
        ensures
            r == self.allowed_hosts.allows(address@),
    {
        self.allowed_hosts.check(address)
    }

    /// Stores an established connection under a fresh handle, or maps the
    /// failed outcome to its error.
    pub fn establish_connection(&mut self, outcome: ConnectOutcome<C>) -> (r: Result<u32, Error>)
        requires
            old(self).wf(),
        ensures
            final(self).wf(),
            establish_post(*old(self), *final(self), outcome, r),
    {
        match outcome {
            ConnectOutcome::AddressRejected => Err(Error::InvalidAddress),
            ConnectOutcome::Failed(message) => Err(other_error(message)),
            ConnectOutcome::Connected(conn) => match self.connections.open(conn) {
                Ok(h) => Ok(h),
                Err(_) => Err(Error::TooManyConnections),
            },
        }
    }

    /// Opens a connection to the address: denied addresses fail with
    /// `InvalidAddress` before anything else is looked at; otherwise the
    /// caller's connect outcome is stored or its failure reported, as
    /// [`establish_post`] states.
    pub fn open(&mut self, address: String, outcome: ConnectOutcome<C>) -> (r: Result<u32, Error>)
        requires
            old(self).wf(),
        ensures
            final(self).wf(),
            final(self).allowed_hosts == old(self).allowed_hosts,
            final(self).connections.capacity() == old(self).connections.capacity(),
            !old(self).allowed_hosts.allows(address@) ==> r == Err::<u32, Error>(
                Error::InvalidAddress,
            ) && final(self).connections.slots() == old(self).connections.slots(),
            old(self).allowed_hosts.allows(address@) ==> establish_post(
                *old(self),
                *final(self),
                outcome,
                r,
            ),
    {
        if !self.is_address_allowed(&address) {
            return Err(Error::InvalidAddress);
        }
        self.establish_connection(outcome)
    }

    /// Resolves the handle and takes its connection out of the table for the
    /// duration of one command; an unknown handle is the generic error.
    pub(crate) fn get_conn(&mut self, connection: u32) -> (r: Result<C, Error>)
        requires
            old(self).wf(),
        ensures
            final(self).wf(),
            final(self).allowed_hosts == old(self).allowed_hosts,
            final(self).connections.capacity() == old(self).connections.capacity(),
            !old(self).connections.live(connection) ==> is_unknown_handle_error(r)
                && final(self).connections.slots() == old(self).connections.slots(),
            old(self).connections.live(connection) ==> {
                &&& r matches Ok(c) && old(self).connections.slots()[connection as int] == Some(c)
                &&& final(self).connections.slots() == old(self).connections.slots().update(
                    connection as int,
                    None::<C>,
                )
            },
    {
        match self.connections.close(connection) {
            Some(conn) => Ok(conn),
            None => Err(Error::Other("could not find connection for resource".to_owned())),
        }
    }

    /// Removes the handle's entry, releasing the connection immediately; an
    /// unknown handle is a no-op.
    pub fn drop(&mut self, connection: u32)
        requires
            old(self).wf(),
        ensures
            final(self).wf(),
            final(self).allowed_hosts == old(self).allowed_hosts,
            final(self).connections.capacity() == old(self).connections.capacity(),
            !old(self).connections.live(connection) ==> final(self).connections.slots() == old(
                self,
            ).connections.slots(),
            old(self).connections.live(connection) ==> final(self).connections.slots() == old(
                self,
            ).connections.slots().update(connection as int, None::<C>),
            !final(self).connections.live(connection),
    {
        let _ = self.connections.close(connection);
    }

    /// Hands an error back unchanged at the surface's boundary.
    pub fn convert_error(&mut self, error: Error) -> (r: Error)
        ensures
            r == error,
            *final(self) == *old(self),
    {
        error
    }
}

impl<C: redis::ConnectionLike> InstanceState<C> {
    /// Publishes the payload on the channel, fire and forget.  Any failure,
    /// including an unknown handle, is the generic error.
    pub fn publish(&mut self, connection: u32, channel: String, payload: Vec<u8>) -> (r: Result<
        (),
        Error,
    >)
        requires
            old(self).wf(),
        ensures
            final(self).wf(),
            command_effect(*old(self), *final(self), connection),
            !old(self).connections.live(connection) ==> is_unknown_handle_error(r),
            r matches Err(e) ==> e is Other,
    {
        let mut conn = match self.get_conn(connection) {
            Ok(c) => c,
            Err(e) => { return Err(e); },
        };
        let outcome = redis_io::redis_publish(&mut conn, &channel, &payload);
        self.connections.restore(connection, conn);
        match outcome {
            Ok(_) => Ok(()),
            Err(e) => Err(other_error(redis_io::error_message(&e))),
        }
    }

    /// The value stored under the key, or `None` where the key is absent —
    /// distinct from an empty value.  Any failure is the generic error.
    pub fn get(&mut self, connection: u32, key: String) -> (r: Result<Option<Vec<u8>>, Error>)
        requires
            old(self).wf(),
        ensures
            final(self).wf(),
            command_effect(*old(self), *final(self), connection),
            !old(self).connections.live(connection) ==> is_unknown_handle_error(r),
            r matches Err(e) ==> e is Other,
    {
        let mut conn = match self.get_conn(connection) {
            Ok(c) => c,
            Err(e) => { return Err(e); },
        };
        let outcome = redis_io::redis_get(&mut conn, &key);
        self.connections.restore(connection, conn);
        match outcome {
            Ok(v) => Ok(v),
            Err(e) => Err(other_error(redis_io::error_message(&e))),
        }
    }

    /// Unconditionally overwrites the key.  Any failure is the generic error.
    pub fn set(&mut self, connection: u32, key: String, value: Vec<u8>) -> (r: Result<(), Error>)
        requires
            old(self).wf(),
        ensures
            final(self).wf(),
            command_effect(*old(self), *final(self), connection),
            !old(self).connections.live(connection) ==> is_unknown_handle_error(r),
            r matches Err(e) ==> e is Other,
    {
        let mut conn = match self.get_conn(connection) {
            Ok(c) => c,
            Err(e) => { return Err(e); },
        };
        let outcome = redis_io::redis_set(&mut conn, &key, &value);
        self.connections.restore(connection, conn);
        match outcome {
            Ok(_) => Ok(()),
            Err(e) => Err(other_error(redis_io::error_message(&e))),
        }
    }

    /// Increments the key by one and returns the new value.  A stored value
    /// that is not integer-coercible surfaces as the generic error.
    pub fn incr(&mut self, connection: u32, key: String) -> (r: Result<i64, Error>)
        requires
            old(self).wf(),
        ensures
            final(self).wf(),
            command_effect(*old(self), *final(self), connection),
            !old(self).connections.live(connection) ==> is_unknown_handle_error(r),
            r matches Err(e) ==> e is Other,
    {
        let mut conn = match self.get_conn(connection) {
            Ok(c) => c,
            Err(e) => { return Err(e); },
        };
        let outcome = redis_io::redis_incr(&mut conn, &key);
        self.connections.restore(connection, conn);
        match outcome {
            Ok(v) => Ok(v),
            Err(e) => Err(other_error(redis_io::error_message(&e))),
        }
    }

    /// Removes the keys and returns how many of them existed; missing keys
    /// are not errors, they simply do not count.
    pub fn del(&mut self, connection: u32, keys: Vec<String>) -> (r: Result<u32, Error>)
        requires
            old(self).wf(),
        ensures
            final(self).wf(),
            command_effect(*old(self), *final(self), connection),
            !old(self).connections.live(connection) ==> is_unknown_handle_error(r),
            r matches Err(e) ==> e is Other,
    {
        let mut conn = match self.get_conn(connection) {
            Ok(c) => c,
            Err(e) => { return Err(e); },
        };
        let outcome = redis_io::redis_del(&mut conn, &keys);
        self.connections.restore(connection, conn);
        match outcome {
            Ok(v) => Ok(v),
            Err(e) => Err(other_error(redis_io::error_message(&e))),
        }
    }

    /// Adds the values to the set under the key and returns how many were
    /// newly added.  A server-reported type mismatch — the key holds a value
    /// that is not a set — is `TypeError`; every other failure is the generic
    /// error.
    pub fn sadd(&mut self, connection: u32, key: String, values: Vec<String>) -> (r: Result<
        u32,
        Error,
    >)
        requires
            old(self).wf(),
        ensures
            final(self).wf(),
            command_effect(*old(self), *final(self), connection),
            !old(self).connections.live(connection) ==> is_unknown_handle_error(r),
            r matches Err(e) ==> e is TypeError || e is Other,
    {
        let mut conn = match self.get_conn(connection) {
            Ok(c) => c,
            Err(e) => { return Err(e); },
        };
        let outcome = redis_io::redis_sadd(&mut conn, &key, &values);
        self.connections.restore(connection, conn);
        match outcome {
            Ok(v) => Ok(v),
            Err(e) => {
                let mismatch = redis_io::error_is_type_error(&e);
                Err(command_error(mismatch, redis_io::error_message(&e)))
            },
        }
    }

    /// The members of the set under the key, in no promised order.  Any
    /// failure is the generic error.
    pub fn smembers(&mut self, connection: u32, key: String) -> (r: Result<Vec<String>, Error>)
        requires
            old(self).wf(),
        ensures
            final(self).wf(),
            command_effect(*old(self), *final(self), connection),
            !old(self).connections.live(connection) ==> is_unknown_handle_error(r),
            r matches Err(e) ==> e is Other,
    {
        let mut conn = match self.get_conn(connection) {
            Ok(c) => c,
            Err(e) => { return Err(e); },
        };
        let outcome = redis_io::redis_smembers(&mut conn, &key);
        self.connections.restore(connection, conn);
        match outcome {
            Ok(v) => Ok(v),
            Err(e) => Err(other_error(redis_io::error_message(&e))),
        }
    }

    /// Removes the values from the set under the key and returns how many
    /// were removed.  Any failure is the generic error.
    pub fn srem(&mut self, connection: u32, key: String, values: Vec<String>) -> (r: Result<
        u32,
        Error,
    >)
        requires
            old(self).wf(),
        ensures
            final(self).wf(),
            command_effect(*old(self), *final(self), connection),
            !old(self).connections.live(connection) ==> is_unknown_handle_error(r),
            r matches Err(e) ==> e is Other,
    {
        let mut conn = match self.get_conn(connection) {
            Ok(c) => c,
            Err(e) => { return Err(e); },
        };
        let outcome = redis_io::redis_srem(&mut conn, &key, &values);
        self.connections.restore(connection, conn);
        match outcome {
            Ok(v) => Ok(v),
            Err(e) => Err(other_error(redis_io::error_message(&e))),
        }
    }

    /// Builds one command: it carries exactly the given name, with each
    /// argument appended in its given order — integers and byte sequences
    /// are both plain positional arguments, with no coercion between them,
    /// none skipped and none reordered.
    pub fn build_command(command: &String, arguments: &Vec<RedisParameter>) -> (cmd: redis::Cmd)
        ensures
            redis_io::cmd_name_of(cmd) == command@,
            redis_io::cmd_args_of(cmd) == arguments@,
    {
        let mut cmd = redis_io::cmd_new(command);
        let mut i: usize = 0;
        while i < arguments.len()
            invariant
                i <= arguments@.len(),
                redis_io::cmd_name_of(cmd) == command@,
                redis_io::cmd_args_of(cmd) == arguments@.take(i as int),
            decreases arguments@.len() - i,
        {
            match &arguments[i] {
                RedisParameter::Int64(v) => redis_io::cmd_arg_int(&mut cmd, *v),
                RedisParameter::Binary(v) => redis_io::cmd_arg_bytes(&mut cmd, v),
            }
            proof {
                assert(arguments@.take(i as int).push(arguments@[i as int]) =~= arguments@.take(
                    i as int + 1,
                ));
            }
            i += 1;
        }
        proof {
            assert(arguments@.take(arguments@.len() as int) =~= arguments@);
        }
        cmd
    }

    /// Builds a command with the given name, appends each argument in order
    /// — as [`Self::build_command`] states exactly — sends it, and flattens
    /// the one reply into an ordered list of typed scalars as
    /// [`crate::reply::flatten_value`] states.  Any failure is the generic
    /// error.
    pub fn execute(
        &mut self,
        connection: u32,
        command: String,
        arguments: Vec<RedisParameter>,
    ) -> (r: Result<Vec<RedisResult>, Error>)
        requires
            old(self).wf(),
        ensures
            final(self).wf(),
            command_effect(*old(self), *final(self), connection),
            !old(self).connections.live(connection) ==> is_unknown_handle_error(r),
            r matches Err(e) ==> e is Other,
    {
        let mut conn = match self.get_conn(connection) {
            Ok(c) => c,
            Err(e) => { return Err(e); },
        };
        let cmd = Self::build_command(&command, &arguments);
        proof {
            // What goes out on the wire is the requested command, untouched.
            assert(redis_io::cmd_name_of(cmd) == command@);
            assert(redis_io::cmd_args_of(cmd) == arguments@);
        }
        let outcome = redis_io::cmd_query(&cmd, &mut conn);
        self.connections.restore(connection, conn);
        match outcome {
            Ok(value) => {
                let reply = redis_io::value_to_reply(&value);
                Ok(flatten_value(&reply))
            },
            Err(e) => Err(other_error(redis_io::error_message(&e))),
        }
    }
}

} // verus!
