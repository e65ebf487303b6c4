use vstd::prelude::*;

use crate::debounce::DebounceState;
use crate::processor::{is_relevant, should_ignore_path};
use crate::text::strings_view;
use crate::types::{pattern_listed, Config};

verus! {

/// Some path of the batch is relevant.
pub open spec fn batch_relevant(paths: Seq<Seq<char>>, config: Config) -> bool {
    exists|i: int| 0 <= i < paths.len() && is_relevant(#[trigger] paths[i], config)
}

/// Whether any path of a batch of changed paths is relevant.
pub fn batch_is_relevant(paths: &Vec<String>, config: &Config) -> (r: bool)
    ensures
        r == batch_relevant(strings_view(paths@), *config),
{
    let ghost pv = strings_view(paths@);
    let mut i: usize = 0;
    while i < paths.len()
        invariant
            pv == strings_view(paths@),
            i <= paths@.len(),
            forall|j: int| 0 <= j < i ==> !is_relevant(#[trigger] pv[j], *config),
        decreases paths.len() - i,
    {
        if !should_ignore_path(&paths[i], config) {
            assert(is_relevant(pv[i as int], *config));
            return true;
        }
        i += 1;
    }
    false
}

/// Hands one batch of changed paths, seen at `now`, to the settle detector:
/// when any path is relevant, one change is recorded at `now`; otherwise the
/// state is left as it is. Returns whether a change was recorded.
pub fn on_change_batch(
    state: &mut DebounceState,
    paths: &Vec<String>,
    config: &Config,
    now: u64,
) -> (r: bool)
    ensures
        r == batch_relevant(strings_view(paths@), *config),
        *final(state) == if r {
            old(state).after_event(now)
        } else {
            *old(state)
        },
{
    if batch_is_relevant(paths, config) {
        state.record_event(now);
        true
    } else {
        false
    }
}

/// A batch whose every path ends with an ignore pattern records no change.
pub proof fn ignored_batch_is_dropped(paths: Seq<Seq<char>>, config: Config)
    requires
        forall|i: int| 0 <= i < paths.len() ==> pattern_listed(#[trigger] paths[i], config.ignore_view()),
    ensures
        !batch_relevant(paths, config),
{
}

} // verus!
