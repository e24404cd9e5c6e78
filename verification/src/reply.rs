//! Replies of the generic command path, and their flattening.
//!
//! A server reply is a recursively nested value.  The generic command path
//! reduces it, depth first and left to right, to a flat list of typed
//! scalars: nil and OK markers contribute nothing, scalars contribute one
//! result each, and nested arrays are replaced by their flattened elements.

use vstd::prelude::*;

verus! {

/// An argument of a generic command: a signed 64-bit integer or a raw byte
/// sequence.
#[derive(Debug, Clone, PartialEq, Eq)]
pub enum RedisParameter {
    Int64(i64),
    Binary(Vec<u8>),
}

/// One typed scalar of a flattened reply.
#[derive(Debug, Clone, PartialEq, Eq)]
pub enum RedisResult {
    Int64(i64),
    Binary(Vec<u8>),
    Status(String),
}

/// A reply as the wire protocol structures it: nil, an OK marker, an integer,
/// a byte string, a status message, or an ordered list of further replies.
#[derive(Debug, PartialEq, Eq)]
pub enum ReplyValue {
    Nil,
    Okay,
    Int(i64),
    Data(Vec<u8>),
    Bulk(Vec<ReplyValue>),
    Status(String),
}

/// The mathematical shape of a reply.
pub enum ReplyModel {
    Nil,
    Okay,
    Int(i64),
    Data(Seq<u8>),
    Bulk(Seq<ReplyModel>),
    Status(Seq<char>),
}

/// The mathematical shape of one flattened scalar.
pub enum FlatModel {
    Int64(i64),
    Binary(Seq<u8>),
    Status(Seq<char>),
}

/// The mathematical value that a reply stands for.
pub open spec fn reply_model(v: ReplyValue) -> ReplyModel
    decreases v, 1int,
{
    match v {
        ReplyValue::Nil => ReplyModel::Nil,
        ReplyValue::Okay => ReplyModel::Okay,
        ReplyValue::Int(i) => ReplyModel::Int(i),
        ReplyValue::Data(b) => ReplyModel::Data(b@),
        ReplyValue::Bulk(items) => ReplyModel::Bulk(reply_models(items@)),
        ReplyValue::Status(m) => ReplyModel::Status(m@),
    }
}

/// The mathematical values of a list of replies, in order.
pub open spec fn reply_models(s: Seq<ReplyValue>) -> Seq<ReplyModel>
    decreases s, 0int,
{
    if s.len() == 0 {
        Seq::empty()
    } else {
        reply_models(s.drop_last()).push(reply_model(s.last()))
    }
}

/// The mathematical value of one flattened scalar.
pub open spec fn flat_model(r: RedisResult) -> FlatModel {
    match r {
        RedisResult::Int64(i) => FlatModel::Int64(i),
        RedisResult::Binary(b) => FlatModel::Binary(b@),
        RedisResult::Status(m) => FlatModel::Status(m@),
    }
}

/// The mathematical values of a flat result list, in order.
pub open spec fn flat_models(s: Seq<RedisResult>) -> Seq<FlatModel> {
    s.map_values(|r: RedisResult| flat_model(r))
}

/// What flattening a reply yields: nothing for nil and OK markers, one scalar
/// for each leaf, and the in-order concatenation of the elements' flattenings
/// for a nested array.
pub open spec fn flatten_reply(v: ReplyModel) -> Seq<FlatModel>
    decreases v, 1int,
{
    match v {
        ReplyModel::Nil => Seq::empty(),
        ReplyModel::Okay => Seq::empty(),
        ReplyModel::Int(i) => seq![FlatModel::Int64(i)],
        ReplyModel::Data(b) => seq![FlatModel::Binary(b)],
        ReplyModel::Bulk(items) => flatten_replies(items),
        ReplyModel::Status(m) => seq![FlatModel::Status(m)],
    }
}

/// The concatenation, left to right, of the flattenings of a list of replies.
pub open spec fn flatten_replies(s: Seq<ReplyModel>) -> Seq<FlatModel>
    decreases s, 0int,
{
    if s.len() == 0 {
        Seq::empty()
    } else {
        flatten_replies(s.drop_last()) + flatten_reply(s.last())
    }
}

proof fn lemma_flatten_replies_push(s: Seq<ReplyModel>, m: ReplyModel)
    ensures
        flatten_replies(s.push(m)) == flatten_replies(s) + flatten_reply(m),
{
    assert(s.push(m).drop_last() =~= s);
    assert(s.push(m).last() == m);
}

proof fn lemma_reply_models_take_step(s: Seq<ReplyValue>, i: int)
    requires
        0 <= i < s.len(),
    ensures
        reply_models(s.take(i + 1)) == reply_models(s.take(i)).push(reply_model(s[i])),
{
    assert(s.take(i + 1).drop_last() =~= s.take(i));
    assert(s.take(i + 1).last() == s[i]);
}

/// Appends the flattening of `value` to `values`, depth first and in order.
pub fn append_flat(values: &mut Vec<RedisResult>, value: &ReplyValue)
    ensures
        flat_models(final(values)@) == flat_models(old(values)@) + flatten_reply(
            reply_model(*value),
        ),
    decreases *value,
{
    match value {
        ReplyValue::Nil => {
            assert(flat_models(values@) =~= flat_models(values@) + flatten_reply(
                reply_model(*value),
            ));
        },
        ReplyValue::Okay => {
            assert(flat_models(values@) =~= flat_models(values@) + flatten_reply(
                reply_model(*value),
            ));
        },
        ReplyValue::Int(v) => {
            values.push(RedisResult::Int64(*v));
            assert(flat_models(values@) =~= flat_models(old(values)@) + flatten_reply(
                reply_model(*value),
            ));
        },
        ReplyValue::Data(bytes) => {
            values.push(RedisResult::Binary(bytes.clone()));
            assert(flat_models(values@) =~= flat_models(old(values)@) + flatten_reply(
                reply_model(*value),
            ));
        },
        ReplyValue::Status(message) => {
            values.push(RedisResult::Status(message.clone()));
            assert(flat_models(values@) =~= flat_models(old(values)@) + flatten_reply(
                reply_model(*value),
            ));
        },
        ReplyValue::Bulk(bulk) => {
            let mut i: usize = 0;
            while i < bulk.len()
                invariant
                    i <= bulk.len(),
                    *value == ReplyValue::Bulk(*bulk),
                    flat_models(values@) == flat_models(old(values)@) + flatten_replies(
                        reply_models(bulk@.take(i as int)),
                    ),
                decreases bulk@.len() - i,
            {
                proof {
                    broadcast use vstd::std_specs::vec::axiom_vec_index_decreases;

                    assert(decreases_to!(*value => value->Bulk_0));
                    assert(value->Bulk_0 == *bulk);
                    assert(decreases_to!(*bulk => bulk[i as int]));
                    assert(decreases_to!(*value => bulk[i as int]));
                }
                append_flat(values, &bulk[i]);
                proof {
                    lemma_reply_models_take_step(bulk@, i as int);
                    lemma_flatten_replies_push(
                        reply_models(bulk@.take(i as int)),
                        reply_model(bulk@[i as int]),
                    );
                    assert(flat_models(values@) =~= flat_models(old(values)@) + flatten_replies(
                        reply_models(bulk@.take(i as int + 1)),
                    ));
                }
                i += 1;
            }
            proof {
                assert(bulk@.take(bulk@.len() as int) =~= bulk@);
            }
        },
    }
}

/// Flattens one reply into its ordered list of typed scalars.
pub fn flatten_value(value: &ReplyValue) -> (r: Vec<RedisResult>)
    ensures
        flat_models(r@) == flatten_reply(reply_model(*value)),
{
    let mut values: Vec<RedisResult> = Vec::new();
    append_flat(&mut values, value);
    proof {
        assert(flat_models(Seq::<RedisResult>::empty()) =~= Seq::<FlatModel>::empty());
    }
    values
}

/// A reply that is a single scalar flattens to exactly the one matching
/// result, so flattening changes nothing on already-flat input.
pub proof fn lemma_flatten_scalar(v: ReplyModel)
    requires
        v is Int || v is Data || v is Status,
    ensures
        flatten_reply(v).len() == 1,
        v matches ReplyModel::Int(i) ==> flatten_reply(v) == seq![FlatModel::Int64(i)],
        v matches ReplyModel::Data(b) ==> flatten_reply(v) == seq![FlatModel::Binary(b)],
        v matches ReplyModel::Status(m) ==> flatten_reply(v) == seq![FlatModel::Status(m)],
{
}

} // verus!
