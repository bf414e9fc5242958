//! What the library decides about a snapshot's contents.
//!
//! The metrics provider's fields are an outside collaborator's business; the
//! one rule of this library's own is that unnamed kernel threads are kept
//! out of the served process list.  The provider's entries come in as plain
//! values and leave filtered, in their original order.

use vstd::prelude::*;

verus! {

/// One process entry as the provider reports it: its id and its name bytes.
pub struct ProcessTag {
    /// The process id.
    pub pid: i32,
    /// The process name; empty for unnamed kernel threads.
    pub name: Vec<u8>,
}

/// Whether a process entry carries a name.
pub open spec fn is_named(t: ProcessTag) -> bool {
    t.name@.len() != 0
}

/// The filter that keeps only named entries.
pub open spec fn named_only() -> spec_fn(ProcessTag) -> bool {
    |t: ProcessTag| is_named(t)
}

/// Keeps the named process entries, in their original order: unnamed kernel
/// threads are dropped from the served process list.
pub fn named_processes(list: Vec<ProcessTag>) -> (r: Vec<ProcessTag>)
    ensures
        r@ == list@.filter(named_only()),
{
    let ghost orig = list@;
    let mut rest = list;
    let mut out: Vec<ProcessTag> = Vec::new();
    let ghost mut i: int = 0;
    proof {
        reveal(Seq::filter);
        assert(orig.take(0) =~= out@);
    }
    while rest.len() > 0
        invariant
            0 <= i <= orig.len(),
            rest@ == orig.skip(i),
            out@ == orig.take(i).filter(named_only()),
        decreases rest@.len(),
    {
        let t = rest.remove(0);
        proof {
            assert(orig.skip(i).remove(0) =~= orig.skip(i + 1));
            assert(t == orig[i]);
        }
        let keep = t.name.len() > 0;
        if keep {
            out.push(t);
        }
        proof {
            reveal(Seq::filter);
            assert(orig.take(i + 1).drop_last() =~= orig.take(i));
            assert(orig.take(i + 1).last() == orig[i]);
            assert(named_only()(orig[i]) == keep);
            i = i + 1;
        }
    }
    proof {
        assert(orig.take(i) =~= orig);
    }
    out
}

} // verus!
