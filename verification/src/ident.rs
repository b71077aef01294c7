use vstd::prelude::*;

use crate::error::TraceError;

verus! {

/// The number that a sequence of bytes stands for, most significant byte first.
pub open spec fn be_value(bytes: Seq<u8>) -> nat
    decreases bytes.len(),
{
    if bytes.len() == 0 {
        0
    } else {
        256 * be_value(bytes.drop_last()) + bytes.last() as nat
    }
}

/// `count` bytes that are all zero.
pub open spec fn zero_bytes(count: nat) -> Seq<u8> {
    Seq::new(count, |i: int| 0u8)
}

/// The eight bytes of a span identifier: `id`, most significant byte first.
pub open spec fn span_id_bytes(id: u64) -> Seq<u8> {
    seq![
        ((id >> 56) & 0xff) as u8,
        ((id >> 48) & 0xff) as u8,
        ((id >> 40) & 0xff) as u8,
        ((id >> 32) & 0xff) as u8,
        ((id >> 24) & 0xff) as u8,
        ((id >> 16) & 0xff) as u8,
        ((id >> 8) & 0xff) as u8,
        (id & 0xff) as u8,
    ]
}

/// The sixteen bytes of a trace identifier: eight zero bytes, then `id`,
/// most significant byte first.
pub open spec fn trace_id_bytes(id: u64) -> Seq<u8> {
    zero_bytes(8) + span_id_bytes(id)
}

/// Encodes the identifier of a run or a job as a span identifier. Zero is
/// refused: the span identifier of all zero bytes stands for "no span".
pub fn span_id_of(id: u64) -> (res: Result<[u8; 8], TraceError>)
    ensures
        res is Ok == (id != 0),
        res matches Ok(bytes) ==> bytes@ == span_id_bytes(id) && be_value(bytes@) == id,
        res matches Err(e) ==> e == TraceError::InvalidIdentifier,
{
    if id == 0 {
        return Err(TraceError::InvalidIdentifier);
    }
    proof {
        lemma_span_id_value(id);
    }
    let bytes: [u8; 8] = [
        ((id >> 56) & 0xff) as u8,
        ((id >> 48) & 0xff) as u8,
        ((id >> 40) & 0xff) as u8,
        ((id >> 32) & 0xff) as u8,
        ((id >> 24) & 0xff) as u8,
        ((id >> 16) & 0xff) as u8,
        ((id >> 8) & 0xff) as u8,
        (id & 0xff) as u8,
    ];
    assert(bytes@ =~= span_id_bytes(id));
    Ok(bytes)
}

/// Encodes the identifier of a run as a trace identifier. Zero is refused:
/// the trace identifier of all zero bytes stands for "no trace".
pub fn trace_id_of(id: u64) -> (res: Result<[u8; 16], TraceError>)
    ensures
        res is Ok == (id != 0),
        res matches Ok(bytes) ==> bytes@ == trace_id_bytes(id) && be_value(bytes@) == id,
        res matches Err(e) ==> e == TraceError::InvalidIdentifier,
{
    if id == 0 {
        return Err(TraceError::InvalidIdentifier);
    }
    proof {
        lemma_trace_id_value(id);
    }
    let bytes: [u8; 16] = [
        0,
        0,
        0,
        0,
        0,
        0,
        0,
        0,
        ((id >> 56) & 0xff) as u8,
        ((id >> 48) & 0xff) as u8,
        ((id >> 40) & 0xff) as u8,
        ((id >> 32) & 0xff) as u8,
        ((id >> 24) & 0xff) as u8,
        ((id >> 16) & 0xff) as u8,
        ((id >> 8) & 0xff) as u8,
        (id & 0xff) as u8,
    ];
    assert(bytes@ =~= trace_id_bytes(id));
    Ok(bytes)
}

proof fn lemma_be_value_next(bytes: Seq<u8>, k: int)
    requires
        0 <= k < bytes.len(),
    ensures
        be_value(bytes.take(k + 1)) == 256 * be_value(bytes.take(k)) + bytes[k] as nat,
{
    assert(bytes.take(k + 1).drop_last() =~= bytes.take(k));
}

proof fn lemma_be_value_zero_bytes(count: nat)
    ensures
        be_value(zero_bytes(count)) == 0,
    decreases count,
{
    if count > 0 {
        assert(zero_bytes(count).drop_last() =~= zero_bytes((count - 1) as nat));
        lemma_be_value_zero_bytes((count - 1) as nat);
    }
}

proof fn lemma_be_value_after_zero_bytes(count: nat, bytes: Seq<u8>)
    ensures
        be_value(zero_bytes(count) + bytes) == be_value(bytes),
    decreases bytes.len(),
{
    if bytes.len() == 0 {
        assert(zero_bytes(count) + bytes =~= zero_bytes(count));
        lemma_be_value_zero_bytes(count);
    } else {
        assert((zero_bytes(count) + bytes).drop_last() =~= zero_bytes(count) + bytes.drop_last());
        lemma_be_value_after_zero_bytes(count, bytes.drop_last());
    }
}

/// The bytes of a span identifier, read as a number with the most significant
/// byte first, give the identifier back.
pub proof fn lemma_span_id_value(id: u64)
    ensures
        span_id_bytes(id).len() == 8,
        be_value(span_id_bytes(id)) == id,
{
    let bytes = span_id_bytes(id);
    let b0: u64 = (id >> 56) & 0xff;
    let b1: u64 = (id >> 48) & 0xff;
    let b2: u64 = (id >> 40) & 0xff;
    let b3: u64 = (id >> 32) & 0xff;
    let b4: u64 = (id >> 24) & 0xff;
    let b5: u64 = (id >> 16) & 0xff;
    let b6: u64 = (id >> 8) & 0xff;
    let b7: u64 = id & 0xff;
    assert(b0 < 256 && b1 < 256 && b2 < 256 && b3 < 256 && b4 < 256 && b5 < 256 && b6 < 256 && b7
        < 256 && 256 * (256 * (256 * (256 * (256 * (256 * (256 * b0 + b1) + b2) + b3) + b4) + b5)
        + b6) + b7 == id) by (bit_vector)
        requires
            b0 == (id >> 56) & 0xff,
            b1 == (id >> 48) & 0xff,
            b2 == (id >> 40) & 0xff,
            b3 == (id >> 32) & 0xff,
            b4 == (id >> 24) & 0xff,
            b5 == (id >> 16) & 0xff,
            b6 == (id >> 8) & 0xff,
            b7 == id & 0xff,
    ;
    assert(be_value(bytes.take(0)) == 0);
    lemma_be_value_next(bytes, 0);
    lemma_be_value_next(bytes, 1);
    lemma_be_value_next(bytes, 2);
    lemma_be_value_next(bytes, 3);
    lemma_be_value_next(bytes, 4);
    lemma_be_value_next(bytes, 5);
    lemma_be_value_next(bytes, 6);
    lemma_be_value_next(bytes, 7);
    assert(bytes.take(8) =~= bytes);
}

/// The bytes of a trace identifier, read as a number with the most
/// significant byte first, give the identifier back.
pub proof fn lemma_trace_id_value(id: u64)
    ensures
        trace_id_bytes(id).len() == 16,
        be_value(trace_id_bytes(id)) == id,
{
    lemma_span_id_value(id);
    lemma_be_value_after_zero_bytes(8, span_id_bytes(id));
}

/// Two identifiers with the same span identifier are the same identifier.
pub proof fn lemma_span_id_injective(a: u64, b: u64)
    requires
        span_id_bytes(a) == span_id_bytes(b),
    ensures
        a == b,
{
    lemma_span_id_value(a);
    lemma_span_id_value(b);
}

/// Two identifiers with the same trace identifier are the same identifier.
pub proof fn lemma_trace_id_injective(a: u64, b: u64)
    requires
        trace_id_bytes(a) == trace_id_bytes(b),
    ensures
        a == b,
{
    lemma_trace_id_value(a);
    lemma_trace_id_value(b);
}

/// Encoding goes by the identifier alone, and no two identifiers share a
/// span identifier or a trace identifier.
pub proof fn lemma_encoding_deterministic_and_injective(a: u64, b: u64)
    ensures
        a == b ==> span_id_bytes(a) == span_id_bytes(b) && trace_id_bytes(a) == trace_id_bytes(b),
        a != b ==> span_id_bytes(a) != span_id_bytes(b) && trace_id_bytes(a) != trace_id_bytes(b),
{
    if a != b {
        if span_id_bytes(a) == span_id_bytes(b) {
            lemma_span_id_injective(a, b);
        }
        if trace_id_bytes(a) == trace_id_bytes(b) {
            lemma_trace_id_injective(a, b);
        }
    }
}

/// No identifier that is accepted is encoded as the reserved identifier of
/// all zero bytes.
pub proof fn lemma_encoded_id_not_reserved(id: u64)
    requires
        id != 0,
    ensures
        span_id_bytes(id) != zero_bytes(8),
        trace_id_bytes(id) != zero_bytes(16),
{
    lemma_span_id_value(id);
    lemma_trace_id_value(id);
    lemma_be_value_zero_bytes(8);
    lemma_be_value_zero_bytes(16);
}

} // verus!
