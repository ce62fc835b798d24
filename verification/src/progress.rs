//! Progress bookkeeping shared by the filter stages and their worker threads.
use vstd::prelude::*;

verus! {

/// Whether a progress report is due at `index` when reports are made every
/// `interval` items; an interval of zero never reports.
pub open spec fn update_due(index: usize, interval: usize) -> bool {
    interval != 0 && index % interval == 0
}

/// Decides whether the progress display is refreshed at `index`.
pub fn should_update_progress(index: usize, interval: usize) -> (due: bool)
    ensures
        due == update_due(index, interval),
{
    interval != 0 && index % interval == 0
}

/// Records `value` as the progress of worker `thread_idx`.
pub fn set_thread_progress(progress_list: &mut Vec<usize>, thread_idx: usize, value: usize)
    requires
        thread_idx < old(progress_list).len(),
    ensures
        final(progress_list)@ == old(progress_list)@.update(thread_idx as int, value),
{
    progress_list.set(thread_idx, value);
}

/// Records `index` as the progress of worker `thread_idx` when a report is due
/// at `index`, and leaves the list as it is otherwise.
pub fn thread_progress_if(
    index: usize,
    interval: usize,
    progress_list: &mut Vec<usize>,
    thread_idx: usize,
)
    requires
        update_due(index, interval) ==> thread_idx < old(progress_list).len(),
    ensures
        update_due(index, interval) ==> final(progress_list)@ == old(progress_list)@.update(
            thread_idx as int,
            index,
        ),
        !update_due(index, interval) ==> final(progress_list)@ == old(progress_list)@,
{
    if should_update_progress(index, interval) {
        set_thread_progress(progress_list, thread_idx, index);
    }
}

} // verus!
