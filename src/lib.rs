//! A monitoring probe: it composes a request URI from discrete parts and
//! turns the outcome of one HTTP request into an exit status and one line
//! of output, following the plugin exit-code convention.

pub mod outcome;
pub mod uri;

use vstd::prelude::*;

use crate::outcome::{reply_outcome, Reply};
use crate::uri::{target_text, ParamsView};

verus! {

/// Running the probe again with the same parameters against an unchanged
/// reply gives the same target, the same line and the same exit status:
/// no state is carried between runs.
pub proof fn lemma_probe_repeatable(p1: ParamsView, p2: ParamsView, r1: Reply, r2: Reply)
    requires
        p1 == p2,
        r1 == r2,
    ensures
        target_text(p1) == target_text(p2),
        reply_outcome(r1) == reply_outcome(r2),
{
}

} // verus!
