use vstd::prelude::*;

verus! {

/// Whether this copy of the program goes on running, given whether the
/// system handed out the named single-instance mutex and whether that mutex
/// existed already. Only an existing mutex means another copy runs (and gets
/// focused instead); when no mutex could be made at all, this copy runs.
pub fn should_run(mutex_created: bool, already_exists: bool) -> (run: bool)
    ensures
        run == (!mutex_created || !already_exists),
{
    if !mutex_created {
        return true;
    }
    if already_exists {
        return false;
    }
    true
}

} // verus!
