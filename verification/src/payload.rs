//! Collecting a request body from its chunks under a size limit.
use vstd::prelude::*;

verus! {

/// The largest request body the services accept, in bytes.
pub const MAX_PAYLOAD_SIZE: usize = 262_144usize;

/// A request body grew past the limit.
#[derive(Clone, Copy, Debug, PartialEq, Eq, Structural)]
pub struct PayloadTooLarge;

/// Adds the next chunk of a request body. A chunk that would take the body
/// past `MAX_PAYLOAD_SIZE` is refused and the body is left as it was.
pub fn append_chunk(body: &mut Vec<u8>, chunk: &[u8]) -> (r: Result<(), PayloadTooLarge>)
    ensures
        r is Ok <==> old(body)@.len() + chunk@.len() <= MAX_PAYLOAD_SIZE,
        r is Ok ==> final(body)@ == old(body)@ + chunk@,
        r is Err ==> final(body)@ == old(body)@,
{
    if body.len() > MAX_PAYLOAD_SIZE || chunk.len() > MAX_PAYLOAD_SIZE - body.len() {
        return Err(PayloadTooLarge);
    }
    let ghost start = body@;
    let mut i: usize = 0;
    while i < chunk.len()
        invariant
            0 <= i <= chunk@.len(),
            body@ == start + chunk@.subrange(0, i as int),
        decreases chunk@.len() - i,
    {
        body.push(chunk[i]);
        proof {
            assert(chunk@.subrange(0, i + 1) == chunk@.subrange(0, i as int).push(chunk@[i as int]));
        }
        i = i + 1;
    }
    proof {
        assert(chunk@.subrange(0, chunk@.len() as int) == chunk@);
    }
    Ok(())
}

/// However the chunks come, a body built by `append_chunk` from an empty or
/// admissible body never grows past the limit.
pub proof fn lemma_body_stays_within_limit(before: Seq<u8>, chunk: Seq<u8>, after: Seq<u8>, ok: bool)
    requires
        before.len() <= MAX_PAYLOAD_SIZE,
        ok <==> before.len() + chunk.len() <= MAX_PAYLOAD_SIZE,
        ok ==> after == before + chunk,
        !ok ==> after == before,
    ensures
        after.len() <= MAX_PAYLOAD_SIZE,
{
}

} // verus!
