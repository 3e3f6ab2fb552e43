//! Fleet liveness: interpreting the heartbeat files the workers write.
//!
//! The host program lists the heartbeats directory and attempts to read
//! each file; the result of every attempt, readable or not, is handed
//! here.  The policy is best-effort: an unreadable file is skipped and
//! the remaining heartbeats are still reported, in the order the
//! attempts were made, so one broken entry never hides the rest of the
//! fleet.

use vstd::prelude::*;

verus! {

/// The contents of the successful reads, in order.
pub open spec fn readable_contents(reads: Seq<Option<String>>) -> Seq<Seq<char>>
    decreases reads.len(),
{
    if reads.len() == 0 {
        Seq::empty()
    } else {
        let rest = readable_contents(reads.drop_last());
        match reads.last() {
            Some(content) => rest.push(content@),
            None => rest,
        }
    }
}

/// Collects the fleet's status strings from the per-file read attempts:
/// exactly the contents of the readable heartbeat files, in attempt
/// order, each unreadable file silently skipped.
pub fn collect_heartbeats(reads: Vec<Option<String>>) -> (r: Vec<String>)
    ensures
        r@.map_values(|s: String| s@) == readable_contents(reads@),
{
    let ghost rseq = reads@;
    let mut out: Vec<String> = Vec::new();
    let mut i: usize = 0;
    while i < reads.len()
        invariant
            0 <= i <= rseq.len(),
            reads@ == rseq,
            out@.map_values(|s: String| s@) == readable_contents(rseq.take(i as int)),
        decreases rseq.len() - i,
    {
        proof {
            assert(rseq.take(i + 1 as int).drop_last() =~= rseq.take(i as int));
        }
        match &reads[i] {
            Some(content) => {
                out.push(content.clone());
                proof {
                    assert(out@.map_values(|s: String| s@) =~= readable_contents(
                        rseq.take(i + 1 as int),
                    ));
                }
            },
            None => {
                proof {
                    assert(out@.map_values(|s: String| s@) =~= readable_contents(
                        rseq.take(i + 1 as int),
                    ));
                }
            },
        }
        i = i + 1;
    }
    proof {
        assert(rseq.take(rseq.len() as int) =~= rseq);
    }
    out
}

} // verus!
