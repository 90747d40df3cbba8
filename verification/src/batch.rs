//! The batch runner: one periodic sweep over every project where per-project
//! timers are unavailable. Paused projects are skipped; the rest run the
//! same check algorithm, with a fixed cap on concurrent in-flight checks,
//! and the per-project outcome lines are joined into one aggregate report.
//! Completion order is neither guaranteed nor relied upon.

use vstd::prelude::*;
use crate::config::ProjectConfig;

verus! {

/// The most checks the sweep keeps in flight at once.
pub const SWEEP_CONCURRENCY_LIMIT: usize = 5;

/// Whether the sweep runs the check for this project: paused projects are
/// skipped.
pub fn sweep_should_check(config: &ProjectConfig) -> (r: bool)
    ensures
        r == !(config.state is Paused),
{
    !config.state.is_paused()
}

/// The outcome lines joined in order with `"; "` between them.
pub open spec fn spec_joined(parts: Seq<Seq<char>>) -> Seq<char>
    decreases parts.len(),
{
    if parts.len() == 0 {
        Seq::empty()
    } else if parts.len() == 1 {
        parts[0]
    } else {
        spec_joined(parts.drop_last()) + "; "@ + parts.last()
    }
}

/// The aggregate report of one sweep: the outcome lines joined with `"; "`,
/// or the fixed no-projects message when there was nothing to sweep.
pub fn aggregate_report(parts: &Vec<String>) -> (s: String)
    ensures
        parts@.len() == 0 ==> s@ == "No projects configured."@,
        parts@.len() > 0 ==> s@ == spec_joined(parts@.map_values(|p: String| p@)),
{
    let ghost views = parts@.map_values(|p: String| p@);
    if parts.len() == 0 {
        return String::from_str("No projects configured.");
    }
    let mut s = parts[0].clone();
    proof {
        assert(views.subrange(0, 1).len() == 1);
        assert(views.subrange(0, 1)[0] == views[0]);
        assert(s@ == spec_joined(views.subrange(0, 1)));
    }
    let mut i: usize = 1;
    while i < parts.len()
        invariant
            1 <= i <= parts.len(),
            views == parts@.map_values(|p: String| p@),
            views.len() == parts@.len(),
            s@ == spec_joined(views.subrange(0, i as int)),
        decreases parts.len() - i,
    {
        s.append("; ");
        s.append(parts[i].as_str());
        proof {
            let prefix = views.subrange(0, i as int + 1);
            assert(prefix.drop_last() =~= views.subrange(0, i as int));
            assert(prefix.last() == views[i as int]);
        }
        i += 1;
    }
    proof {
        assert(views.subrange(0, views.len() as int) =~= views);
    }
    s
}

} // verus!
