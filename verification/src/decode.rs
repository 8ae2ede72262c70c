use vstd::prelude::*;

use crate::depth::{
    DecodeReason, DepthUpdate, DepthUpdateV, PriceLevel, PriceLevelV, StreamEnvelope,
    StreamEnvelopeV, levels_view,
};
use crate::digits::{all_digits, dec_val, parse_u64_digits};
use crate::json::{JsonValue, get_field, json_parsed, lookup_field, parse_text};

verus! {

/// The exact decimal text a scalar document node carries, if it is a string
/// or a number: both source forms of a price or size are accepted, and the
/// text is retained unchanged.
pub open spec fn spec_scalar_text(v: JsonValue) -> Option<Seq<char>> {
    match v {
        JsonValue::Text(s) => Some(s@),
        JsonValue::Number(s) => Some(s@),
        _ => None,
    }
}

/// The price level a document node denotes: a two-element sequence whose
/// elements are each a string or a number.
pub open spec fn spec_level(v: JsonValue) -> Option<PriceLevelV> {
    match v {
        JsonValue::Array(pair) => if pair@.len() == 2 {
            match (spec_scalar_text(pair@[0]), spec_scalar_text(pair@[1])) {
                (Some(p), Some(s)) => Some(PriceLevelV { price: p, size: s }),
                _ => None,
            }
        } else {
            None
        },
        _ => None,
    }
}

/// The sequence of price levels an array of document nodes denotes, in
/// received order, if every element is a well-shaped pair.
pub open spec fn spec_levels(items: Seq<JsonValue>) -> Option<Seq<PriceLevelV>>
    decreases items.len(),
{
    if items.len() == 0 {
        Some(Seq::empty())
    } else {
        match spec_levels(items.drop_last()) {
            None => None,
            Some(init) => match spec_level(items.last()) {
                None => None,
                Some(l) => Some(init.push(l)),
            },
        }
    }
}

/// A side whose prefix is already malformed stays malformed, however it
/// continues.
pub proof fn lemma_levels_extend_none(items: Seq<JsonValue>, i: int)
    requires
        0 <= i <= items.len(),
        spec_levels(items.subrange(0, i)) is None,
    ensures
        spec_levels(items) is None,
    decreases items.len() - i,
{
    if i < items.len() {
        assert(items.subrange(0, i + 1).drop_last() =~= items.subrange(0, i));
        lemma_levels_extend_none(items, i + 1);
    } else {
        assert(items.subrange(0, i) =~= items);
    }
}

/// Law: one element that is not a two-element price/size pair makes the
/// whole side fail to decode.
pub proof fn lemma_bad_pair_rejected(items: Seq<JsonValue>, i: int)
    requires
        0 <= i < items.len(),
        spec_level(items[i]) is None,
    ensures
        spec_levels(items) is None,
{
    assert(items.subrange(0, i + 1).drop_last() =~= items.subrange(0, i));
    assert(items.subrange(0, i + 1).last() == items[i]);
    lemma_levels_extend_none(items, i + 1);
}

/// A well-shaped side decodes to exactly one level per document element.
pub proof fn lemma_levels_len(items: Seq<JsonValue>)
    requires
        spec_levels(items) is Some,
    ensures
        spec_levels(items).unwrap().len() == items.len(),
    decreases items.len(),
{
    if items.len() > 0 {
        lemma_levels_len(items.drop_last());
    }
}

/// Law: a well-shaped side decodes level by level, in received order — the
/// decoded level at rank `i` is exactly what the document's `i`-th pair
/// gave, with its price and size text unchanged.
pub proof fn lemma_levels_pointwise(items: Seq<JsonValue>, i: int)
    requires
        spec_levels(items) is Some,
        0 <= i < items.len(),
    ensures
        spec_levels(items).unwrap().len() == items.len(),
        spec_level(items[i]) == Some(spec_levels(items).unwrap()[i]),
    decreases items.len(),
{
    lemma_levels_len(items);
    let prev = items.drop_last();
    lemma_levels_len(prev);
    if i < items.len() - 1 {
        lemma_levels_pointwise(prev, i);
        assert(prev[i] == items[i]);
    } else {
        assert(items.last() == items[i]);
    }
}

/// The update-sequence number a document node denotes: a number whose text
/// is a non-empty digit string that fits a `u64`.
pub open spec fn spec_update_id(v: JsonValue) -> Option<u64> {
    match v {
        JsonValue::Number(s) => if s@.len() > 0 && all_digits(s@) && dec_val(s@) <= u64::MAX {
            Some(dec_val(s@) as u64)
        } else {
            None
        },
        _ => None,
    }
}

/// One side of the book: an array of price/size pairs.
pub open spec fn spec_side(v: JsonValue) -> Option<Seq<PriceLevelV>> {
    match v {
        JsonValue::Array(items) => spec_levels(items@),
        _ => None,
    }
}

/// What decoding the nested depth object yields: `lastUpdateId`, `bids` and
/// `asks` in that checking order, each absence or wrong shape its own
/// failure.
pub open spec fn spec_decode_data(data: Seq<(String, JsonValue)>) -> Result<
    DepthUpdateV,
    DecodeReason,
> {
    match lookup_field(data, "lastUpdateId"@) {
        None => Err(DecodeReason::BadUpdateId),
        Some(idv) => match spec_update_id(idv) {
            None => Err(DecodeReason::BadUpdateId),
            Some(id) => match lookup_field(data, "bids"@) {
                None => Err(DecodeReason::BadBids),
                Some(bv) => match spec_side(bv) {
                    None => Err(DecodeReason::BadBids),
                    Some(bids) => match lookup_field(data, "asks"@) {
                        None => Err(DecodeReason::BadAsks),
                        Some(av) => match spec_side(av) {
                            None => Err(DecodeReason::BadAsks),
                            Some(asks) => Ok(
                                DepthUpdateV { last_update_id: id as nat, bids, asks },
                            ),
                        },
                    },
                },
            },
        },
    }
}

/// What decoding one parsed document yields: a top-level object with a
/// non-empty `stream` string and a nested depth object, or the first reason
/// it fails.
pub open spec fn spec_decode(v: JsonValue) -> Result<StreamEnvelopeV, DecodeReason> {
    match v {
        JsonValue::Object(top) => match lookup_field(top@, "stream"@) {
            None => Err(DecodeReason::MissingStream),
            Some(sv) => match sv {
                JsonValue::Text(name) => if name@.len() == 0 {
                    Err(DecodeReason::BadStream)
                } else {
                    match lookup_field(top@, "data"@) {
                        None => Err(DecodeReason::MissingData),
                        Some(dv) => match dv {
                            JsonValue::Object(data) => match spec_decode_data(data@) {
                                Err(r) => Err(r),
                                Ok(upd) => Ok(
                                    StreamEnvelopeV { stream_name: name@, payload: upd },
                                ),
                            },
                            _ => Err(DecodeReason::BadData),
                        },
                    }
                },
                _ => Err(DecodeReason::BadStream),
            },
        },
        _ => Err(DecodeReason::NotObject),
    }
}

/// What decoding a raw frame text yields: parse the document, then decode
/// the tree.
pub open spec fn spec_decode_frame(t: Seq<char>) -> Result<StreamEnvelopeV, DecodeReason> {
    match json_parsed(t) {
        None => Err(DecodeReason::NotJson),
        Some(v) => spec_decode(v),
    }
}

/// The model of a decode outcome: the envelope's model on success, the
/// reason itself on failure.
pub open spec fn result_view(r: Result<StreamEnvelope, DecodeReason>) -> Result<
    StreamEnvelopeV,
    DecodeReason,
> {
    match r {
        Ok(env) => Ok(env@),
        Err(e) => Err(e),
    }
}

/// Law: decoding is a pure function of the frame text — the same frame,
/// decoded twice, yields structurally equal envelopes.
pub proof fn lemma_decode_deterministic(t1: Seq<char>, t2: Seq<char>)
    requires
        t1 == t2,
    ensures
        spec_decode_frame(t1) == spec_decode_frame(t2),
{
}

/// Law: a top-level object without a `stream` field never decodes.
pub proof fn lemma_missing_stream_rejected(v: JsonValue)
    requires
        v matches JsonValue::Object(top) && lookup_field(top@, "stream"@) is None,
    ensures
        spec_decode(v) == Err::<StreamEnvelopeV, DecodeReason>(DecodeReason::MissingStream),
{
}

/// The exact decimal text of a scalar node.
fn scalar_text<'a>(v: &'a JsonValue) -> (r: Option<&'a String>)
    ensures
        match r {
            Some(s) => spec_scalar_text(*v) == Some(s@),
            None => spec_scalar_text(*v) is None,
        },
{
    match v {
        JsonValue::Text(s) => Some(s),
        JsonValue::Number(s) => Some(s),
        _ => None,
    }
}

/// Decode one price/size pair, retaining both decimal strings unchanged.
fn decode_level(v: &JsonValue) -> (r: Option<PriceLevel>)
    ensures
        match r {
            Some(l) => spec_level(*v) == Some(l@),
            None => spec_level(*v) is None,
        },
{
    match v {
        JsonValue::Array(pair) => {
            if pair.len() == 2 {
                let p = scalar_text(&pair[0]);
                let s = scalar_text(&pair[1]);
                match (p, s) {
                    (Some(p), Some(s)) => Some(PriceLevel { price: p.clone(), size: s.clone() }),
                    _ => None,
                }
            } else {
                None
            }
        },
        _ => None,
    }
}

/// Decode one side of the book, level by level, in received order.
fn decode_side(v: &JsonValue) -> (r: Option<Vec<PriceLevel>>)
    ensures
        match r {
            Some(side) => spec_side(*v) == Some(levels_view(side@)),
            None => spec_side(*v) is None,
        },
{
    match v {
        JsonValue::Array(items) => {
            let n = items.len();
            let mut side: Vec<PriceLevel> = Vec::new();
            proof {
                assert(items@.subrange(0, 0) =~= Seq::<JsonValue>::empty());
                assert(levels_view(side@) =~= Seq::<PriceLevelV>::empty());
            }
            let mut i: usize = 0;
            while i < n
                invariant
                    0 <= i <= n,
                    n == items@.len(),
                    side@.len() == i,
                    spec_side(*v) == spec_levels(items@),
                    spec_levels(items@.subrange(0, i as int)) == Some(levels_view(side@)),
                decreases n - i,
            {
                proof {
                    assert(items@.subrange(0, i + 1).drop_last() =~= items@.subrange(0, i as int));
                    assert(items@.subrange(0, i + 1).last() == items@[i as int]);
                }
                match decode_level(&items[i]) {
                    Some(l) => {
                        let ghost prev = side@;
                        side.push(l);
                        proof {
                            assert(levels_view(side@) =~= levels_view(prev).push(l@));
                        }
                    },
                    None => {
                        proof {
                            assert(spec_levels(items@.subrange(0, i + 1)) is None);
                            lemma_levels_extend_none(items@, i + 1);
                        }
                        return None;
                    },
                }
                i = i + 1;
            }
            proof {
                assert(items@.subrange(0, n as int) =~= items@);
            }
            Some(side)
        },
        _ => None,
    }
}

/// Decode the nested depth object.
fn decode_data(data: &Vec<(String, JsonValue)>) -> (r: Result<DepthUpdate, DecodeReason>)
    ensures
        match r {
            Ok(upd) => spec_decode_data(data@) == Ok::<DepthUpdateV, DecodeReason>(upd@),
            Err(e) => spec_decode_data(data@) == Err::<DepthUpdateV, DecodeReason>(e),
        },
{
    let key_id = "lastUpdateId".to_owned();
    let id = match get_field(data, &key_id) {
        Some(JsonValue::Number(s)) => match parse_u64_digits(s.as_str()) {
            Some(n) => n,
            None => {
                return Err(DecodeReason::BadUpdateId);
            },
        },
        _ => {
            return Err(DecodeReason::BadUpdateId);
        },
    };
    let key_bids = "bids".to_owned();
    let bids = match get_field(data, &key_bids) {
        Some(bv) => match decode_side(bv) {
            Some(side) => side,
            None => {
                return Err(DecodeReason::BadBids);
            },
        },
        None => {
            return Err(DecodeReason::BadBids);
        },
    };
    let key_asks = "asks".to_owned();
    let asks = match get_field(data, &key_asks) {
        Some(av) => match decode_side(av) {
            Some(side) => side,
            None => {
                return Err(DecodeReason::BadAsks);
            },
        },
        None => {
            return Err(DecodeReason::BadAsks);
        },
    };
    Ok(DepthUpdate { last_update_id: id, bids, asks })
}

/// Law: a decoded envelope always satisfies the envelope invariant — its
/// feed name is never empty.
pub proof fn lemma_decoded_envelope_wf(v: JsonValue)
    requires
        spec_decode(v) is Ok,
    ensures
        spec_decode(v).unwrap().stream_name.len() > 0,
{
}

/// Decode one parsed document into a validated envelope.
pub fn decode_value(v: &JsonValue) -> (r: Result<StreamEnvelope, DecodeReason>)
    ensures
        result_view(r) == spec_decode(*v),
        r matches Ok(env) ==> env.wf(),
{
    match v {
        JsonValue::Object(top) => {
            let key_stream = "stream".to_owned();
            match get_field(top, &key_stream) {
                None => Err(DecodeReason::MissingStream),
                Some(sv) => match sv {
                    JsonValue::Text(name) => {
                        if name.as_str().is_empty() {
                            Err(DecodeReason::BadStream)
                        } else {
                            let key_data = "data".to_owned();
                            match get_field(top, &key_data) {
                                None => Err(DecodeReason::MissingData),
                                Some(dv) => match dv {
                                    JsonValue::Object(data) => match decode_data(data) {
                                        Err(e) => Err(e),
                                        Ok(upd) => Ok(
                                            StreamEnvelope {
                                                stream_name: name.clone(),
                                                payload: upd,
                                            },
                                        ),
                                    },
                                    _ => Err(DecodeReason::BadData),
                                },
                            }
                        }
                    },
                    _ => Err(DecodeReason::BadStream),
                },
            }
        },
        _ => Err(DecodeReason::NotObject),
    }
}

/// Decode one raw text frame: parse the document, then validate its shape.
pub fn decode_frame(text: &str) -> (r: Result<StreamEnvelope, DecodeReason>)
    ensures
        result_view(r) == spec_decode_frame(text@),
        r matches Ok(env) ==> env.wf(),
{
    match parse_text(text) {
        None => Err(DecodeReason::NotJson),
        Some(v) => decode_value(&v),
    }
}

} // verus!
