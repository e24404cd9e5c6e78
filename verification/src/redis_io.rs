//! Trusted declarations for the `redis` client library.
//!
//! Everything that touches the wire lives here, behind small wrappers whose
//! bodies Verus does not read.  A command's outcome depends on the server, so
//! the wrappers promise nothing about the values that come back; the verified
//! callers state what holds of every outcome.

use crate::reply::{RedisParameter, ReplyValue};
use redis::Commands;
use vstd::prelude::*;

verus! {

/// The client library's error type, carried opaquely.
#[verifier::external_type_specification]
#[verifier::external_body]
pub struct ExRedisError(redis::RedisError);

/// The client library's wire-level reply value, carried opaquely.
#[verifier::external_type_specification]
#[verifier::external_body]
pub struct ExValue(redis::Value);

/// The client library's command builder: a name followed by the arguments
/// appended to it, in order.  Its two projections below are what the
/// builder's wrappers promise about.
#[verifier::external_type_specification]
#[verifier::external_body]
pub struct ExCmd(redis::Cmd);

/// The name a command builder was started with.
pub uninterp spec fn cmd_name_of(cmd: redis::Cmd) -> Seq<char>;

/// The arguments appended to a command builder so far, in order.
pub uninterp spec fn cmd_args_of(cmd: redis::Cmd) -> Seq<RedisParameter>;

/// Relies on `redis::cmd`: starts a command carrying the given name and, as
/// yet, no arguments.
#[verifier::external_body]
pub(crate) fn cmd_new(name: &String) -> (cmd: redis::Cmd)
    ensures
        cmd_name_of(cmd) == name@,
        cmd_args_of(cmd) == Seq::<RedisParameter>::empty(),
{
    redis::cmd(name.as_str())
}

/// Relies on `redis::Cmd::arg`: appends exactly one integer argument to the
/// command, leaving its name and earlier arguments as they were.
#[verifier::external_body]
pub(crate) fn cmd_arg_int(cmd: &mut redis::Cmd, value: i64)
    ensures
        cmd_name_of(*final(cmd)) == cmd_name_of(*old(cmd)),
        cmd_args_of(*final(cmd)) == cmd_args_of(*old(cmd)).push(RedisParameter::Int64(value)),
{
    cmd.arg(value);
}

/// Relies on `redis::Cmd::arg`: appends exactly one byte-sequence argument to
/// the command, leaving its name and earlier arguments as they were.
#[verifier::external_body]
pub(crate) fn cmd_arg_bytes(cmd: &mut redis::Cmd, value: &Vec<u8>)
    ensures
        cmd_name_of(*final(cmd)) == cmd_name_of(*old(cmd)),
        cmd_args_of(*final(cmd)) == cmd_args_of(*old(cmd)).push(RedisParameter::Binary(*value)),
{
    cmd.arg(value);
}

/// Relies on `redis::Cmd::query`: sends the command — its name with its
/// appended arguments, nothing else — over the connection and returns the one
/// reply the server gives, as a wire-level value.
#[verifier::external_body]
pub(crate) fn cmd_query<C: redis::ConnectionLike>(cmd: &redis::Cmd, conn: &mut C) -> Result<
    redis::Value,
    redis::RedisError,
> {
    cmd.query(conn)
}

/// Converts a wire-level reply into the library's reply type, variant by
/// variant; relies on the shape of `redis::Value` alone.
#[verifier::external_body]
pub(crate) fn value_to_reply(value: &redis::Value) -> ReplyValue {
    match value {
        redis::Value::Nil => ReplyValue::Nil,
        redis::Value::Okay => ReplyValue::Okay,
        redis::Value::Int(v) => ReplyValue::Int(*v),
        redis::Value::Data(bytes) => ReplyValue::Data(bytes.clone()),
        redis::Value::Status(message) => ReplyValue::Status(message.clone()),
        redis::Value::Bulk(items) => ReplyValue::Bulk(items.iter().map(value_to_reply).collect()),
    }
}

/// Relies on `redis::RedisError::kind`: whether the failure is the server's
/// type-mismatch error.
#[verifier::external_body]
pub(crate) fn error_is_type_error(e: &redis::RedisError) -> bool {
    matches!(e.kind(), redis::ErrorKind::TypeError)
}

/// Relies on `redis::RedisError`'s `Display`: the failure's message.
#[verifier::external_body]
pub(crate) fn error_message(e: &redis::RedisError) -> String {
    e.to_string()
}

/// Relies on `redis::Commands::publish`: sends the payload to the channel's
/// subscribers.
#[verifier::external_body]
pub(crate) fn redis_publish<C: redis::ConnectionLike>(
    conn: &mut C,
    channel: &String,
    payload: &Vec<u8>,
) -> Result<(), redis::RedisError> {
    conn.publish(channel, payload)
}

/// Relies on `redis::Commands::get`: the stored value of the key, or `None`
/// where the key is absent.
#[verifier::external_body]
pub(crate) fn redis_get<C: redis::ConnectionLike>(conn: &mut C, key: &String) -> Result<
    Option<Vec<u8>>,
    redis::RedisError,
> {
    conn.get(key)
}

/// Relies on `redis::Commands::set`: unconditionally overwrites the key.
#[verifier::external_body]
pub(crate) fn redis_set<C: redis::ConnectionLike>(
    conn: &mut C,
    key: &String,
    value: &Vec<u8>,
) -> Result<(), redis::RedisError> {
    conn.set(key, value)
}

/// Relies on `redis::Commands::incr`: increments the key by one and returns
/// the new value.
#[verifier::external_body]
pub(crate) fn redis_incr<C: redis::ConnectionLike>(conn: &mut C, key: &String) -> Result<
    i64,
    redis::RedisError,
> {
    conn.incr(key, 1)
}

/// Relies on `redis::Commands::del`: removes the keys and returns how many
/// existed.
#[verifier::external_body]
pub(crate) fn redis_del<C: redis::ConnectionLike>(conn: &mut C, keys: &Vec<String>) -> Result<
    u32,
    redis::RedisError,
> {
    conn.del(keys)
}

/// Relies on `redis::Commands::sadd`: adds the values to the set and returns
/// how many were newly added.
#[verifier::external_body]
pub(crate) fn redis_sadd<C: redis::ConnectionLike>(
    conn: &mut C,
    key: &String,
    values: &Vec<String>,
) -> Result<u32, redis::RedisError> {
    conn.sadd(key, values)
}

/// Relies on `redis::Commands::smembers`: the members of the set.
#[verifier::external_body]
pub(crate) fn redis_smembers<C: redis::ConnectionLike>(conn: &mut C, key: &String) -> Result<
    Vec<String>,
    redis::RedisError,
> {
    conn.smembers(key)
}

/// Relies on `redis::Commands::srem`: removes the values from the set and
/// returns how many were removed.
#[verifier::external_body]
pub(crate) fn redis_srem<C: redis::ConnectionLike>(
    conn: &mut C,
    key: &String,
    values: &Vec<String>,
) -> Result<u32, redis::RedisError> {
    conn.srem(key, values)
}

/// Relies on `redis::Commands::exists`: whether the key exists.
#[verifier::external_body]
pub(crate) fn redis_exists<C: redis::ConnectionLike>(conn: &mut C, key: &String) -> Result<
    bool,
    redis::RedisError,
> {
    conn.exists(key)
}

} // verus!
