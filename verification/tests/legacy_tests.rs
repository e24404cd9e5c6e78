use outbound_redis::error::LegacyError;
use outbound_redis::reply::{RedisParameter, RedisResult};
use outbound_redis::host::{AllowedHosts, ConnectOutcome, InstanceState};
use redis_test::{MockCmd, MockRedisConnection};

fn denied_state() -> InstanceState<MockRedisConnection> {
    InstanceState::new(AllowedHosts { allow_all: false, hosts: Vec::new() }, 4)
}

fn open_state() -> InstanceState<MockRedisConnection> {
    InstanceState::new(AllowedHosts { allow_all: true, hosts: Vec::new() }, 4)
}

fn connected(commands: Vec<MockCmd>) -> ConnectOutcome<MockRedisConnection> {
    ConnectOutcome::Connected(MockRedisConnection::new(commands))
}

#[test]
fn legacy_denied_address_is_always_the_one_error() {
    let mut state = denied_state();
    let addr = "redis://forbidden".to_string();
    assert_eq!(
        state.legacy_get(addr.clone(), connected(vec![]), "k".to_string()),
        Err(LegacyError::Error)
    );
    assert_eq!(
        state.legacy_set(addr.clone(), connected(vec![]), "k".to_string(), b"v".to_vec()),
        Err(LegacyError::Error)
    );
    assert_eq!(
        state.legacy_del(addr.clone(), connected(vec![]), vec!["k".to_string()]),
        Err(LegacyError::Error)
    );
    assert_eq!(
        state.legacy_incr(addr, connected(vec![]), "k".to_string()),
        Err(LegacyError::Error)
    );
}

#[test]
fn legacy_type_mismatch_collapses_to_the_one_error() {
    let mut state = open_state();
    let r = state.legacy_sadd(
        "redis://localhost".to_string(),
        connected(vec![MockCmd::new::<_, i64>(
            redis::cmd("SADD").arg("k").arg("v"),
            Err(redis::RedisError::from((redis::ErrorKind::TypeError, "WRONGTYPE"))),
        )]),
        "k".to_string(),
        vec!["v".to_string()],
    );
    assert_eq!(r, Err(LegacyError::Error));
}

#[test]
fn legacy_del_reports_a_full_width_count() {
    let mut state = open_state();
    let r = state.legacy_del(
        "redis://localhost".to_string(),
        connected(vec![MockCmd::new(
            redis::cmd("DEL").arg("k"),
            Ok(redis::Value::Int(u32::MAX as i64)),
        )]),
        vec!["k".to_string()],
    );
    assert_eq!(r, Ok(4294967295i64));
}

#[test]
fn legacy_get_absent_key_is_empty_bytes() {
    let mut state = open_state();
    let r = state.legacy_get(
        "redis://localhost".to_string(),
        connected(vec![MockCmd::new(redis::cmd("GET").arg("k"), Ok(redis::Value::Nil))]),
        "k".to_string(),
    );
    assert_eq!(r, Ok(Vec::new()));
}

#[test]
fn legacy_get_present_key_hands_the_bytes_through() {
    let mut state = open_state();
    let r = state.legacy_get(
        "redis://localhost".to_string(),
        connected(vec![MockCmd::new(redis::cmd("GET").arg("k"), Ok("stored"))]),
        "k".to_string(),
    );
    assert_eq!(r, Ok(b"stored".to_vec()));
}

#[test]
fn legacy_capacity_failure_is_the_one_error() {
    let mut state = InstanceState::new(AllowedHosts { allow_all: true, hosts: Vec::new() }, 0);
    let r = state.legacy_incr("redis://localhost".to_string(), connected(vec![]), "k".to_string());
    assert_eq!(r, Err(LegacyError::Error));
}

#[test]
fn legacy_success_paths() {
    let mut state = open_state();
    assert_eq!(
        state.legacy_publish(
            "redis://localhost".to_string(),
            connected(vec![MockCmd::new(
                redis::cmd("PUBLISH").arg("chan").arg(&b"m"[..]),
                Ok(1i64),
            )]),
            "chan".to_string(),
            b"m".to_vec(),
        ),
        Ok(())
    );
    assert_eq!(
        state.legacy_smembers(
            "redis://localhost".to_string(),
            connected(vec![MockCmd::new(
                redis::cmd("SMEMBERS").arg("k"),
                Ok(redis::Value::Bulk(vec![redis::Value::Data(b"a".to_vec())])),
            )]),
            "k".to_string(),
        ),
        Ok(vec!["a".to_string()])
    );
    assert_eq!(
        state.legacy_srem(
            "redis://localhost".to_string(),
            connected(vec![MockCmd::new(redis::cmd("SREM").arg("k").arg("a"), Ok(1i64))]),
            "k".to_string(),
            vec!["a".to_string()],
        ),
        Ok(1)
    );
    // Each legacy call opened its own connection and left it in the table.
    assert!(state.connections.contains(0));
    assert!(state.connections.contains(1));
    assert!(state.connections.contains(2));
    assert!(!state.connections.contains(3));
}

#[test]
fn legacy_execute_flattens_like_the_modern_path() {
    let mut state = open_state();
    let r = state.legacy_execute(
        "redis://localhost".to_string(),
        connected(vec![MockCmd::new(
            redis::cmd("CUSTOM").arg(3i64),
            Ok(redis::Value::Bulk(vec![redis::Value::Int(3), redis::Value::Nil])),
        )]),
        "CUSTOM".to_string(),
        vec![RedisParameter::Int64(3)],
    );
    assert_eq!(r, Ok(vec![RedisResult::Int64(3)]));
}
