use outbound_redis::host::{AllowedHosts, ConnectOutcome, InstanceState};
use outbound_redis::reply::{flatten_value, RedisParameter, RedisResult, ReplyValue};
use redis_test::{MockCmd, MockRedisConnection};

fn state_with(commands: Vec<MockCmd>) -> (InstanceState<MockRedisConnection>, u32) {
    let mut state = InstanceState::new(AllowedHosts { allow_all: true, hosts: Vec::new() }, 4);
    let conn = MockRedisConnection::new(commands);
    let h = state
        .open("redis://localhost".to_string(), ConnectOutcome::Connected(conn))
        .unwrap();
    (state, h)
}

#[test]
fn execute_flattens_nested_reply() {
    let nested = redis::Value::Bulk(vec![
        redis::Value::Int(1),
        redis::Value::Bulk(vec![
            redis::Value::Int(2),
            redis::Value::Nil,
            redis::Value::Data(b"x".to_vec()),
        ]),
        redis::Value::Okay,
    ]);
    let (mut state, h) = state_with(vec![MockCmd::new(
        redis::cmd("CUSTOM").arg(1i64).arg(&b"x"[..]),
        Ok(nested),
    )]);
    let arguments = vec![RedisParameter::Int64(1), RedisParameter::Binary(b"x".to_vec())];
    assert_eq!(
        state.execute(h, "CUSTOM".to_string(), arguments),
        Ok(vec![
            RedisResult::Int64(1),
            RedisResult::Int64(2),
            RedisResult::Binary(b"x".to_vec()),
        ])
    );
}

#[test]
fn execute_scalar_reply_is_one_result() {
    let (mut state, h) = state_with(vec![
        MockCmd::new(redis::cmd("CUSTOM"), Ok(redis::Value::Int(7))),
        MockCmd::new(redis::cmd("CUSTOM"), Ok(redis::Value::Status("PONG".to_string()))),
        MockCmd::new(redis::cmd("CUSTOM"), Ok(redis::Value::Nil)),
    ]);
    assert_eq!(
        state.execute(h, "CUSTOM".to_string(), Vec::new()),
        Ok(vec![RedisResult::Int64(7)])
    );
    assert_eq!(
        state.execute(h, "CUSTOM".to_string(), Vec::new()),
        Ok(vec![RedisResult::Status("PONG".to_string())])
    );
    assert_eq!(state.execute(h, "CUSTOM".to_string(), Vec::new()), Ok(Vec::new()));
}

#[test]
fn flatten_single_scalar_matches_it() {
    assert_eq!(flatten_value(&ReplyValue::Int(9)), vec![RedisResult::Int64(9)]);
    assert_eq!(
        flatten_value(&ReplyValue::Data(b"payload".to_vec())),
        vec![RedisResult::Binary(b"payload".to_vec())]
    );
    assert_eq!(
        flatten_value(&ReplyValue::Status("OK-ish".to_string())),
        vec![RedisResult::Status("OK-ish".to_string())]
    );
}

#[test]
fn flatten_drops_nil_and_okay() {
    assert_eq!(flatten_value(&ReplyValue::Nil), Vec::new());
    assert_eq!(flatten_value(&ReplyValue::Okay), Vec::new());
}

#[test]
fn flatten_nested_preserves_order() {
    let reply = ReplyValue::Bulk(vec![
        ReplyValue::Int(1),
        ReplyValue::Bulk(vec![
            ReplyValue::Int(2),
            ReplyValue::Nil,
            ReplyValue::Data(b"x".to_vec()),
        ]),
        ReplyValue::Okay,
    ]);
    assert_eq!(
        flatten_value(&reply),
        vec![
            RedisResult::Int64(1),
            RedisResult::Int64(2),
            RedisResult::Binary(b"x".to_vec()),
        ]
    );
}

#[test]
fn flatten_three_levels_deep() {
    let reply = ReplyValue::Bulk(vec![ReplyValue::Bulk(vec![ReplyValue::Bulk(vec![
        ReplyValue::Status("deep".to_string()),
    ])])]);
    assert_eq!(flatten_value(&reply), vec![RedisResult::Status("deep".to_string())]);
}

#[test]
fn flatten_empty_bulk_is_empty() {
    assert_eq!(flatten_value(&ReplyValue::Bulk(Vec::new())), Vec::new());
}
