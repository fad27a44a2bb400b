use vstd::prelude::*;
use crate::error::SonifyError;

verus! {

/// Relies on rand's `SliceRandom::choose`, drawing from the thread-local
/// generator: `None` exactly when the slice is empty, otherwise one of its
/// elements.
#[verifier::external_body]
fn choose_duration(candidates: &[u32]) -> (r: Option<u32>)
    ensures
        r is None <==> candidates@.len() == 0,
        r matches Some(d) ==> candidates@.contains(d),
{
    rand::seq::SliceRandom::choose(candidates, &mut rand::thread_rng()).copied()
}

/// Draws `count` durations, each one uniformly at random from `candidates`.
///
/// Fails with `InvalidArgument` when a duration is needed and there is no
/// candidate.
pub fn select_durations(count: usize, candidates: &Vec<u32>) -> (r: Result<Vec<u32>, SonifyError>)
    ensures
        r is Ok <==> count == 0 || candidates@.len() > 0,
        r matches Ok(ds) ==> ds@.len() == count && forall|i: int|
            0 <= i < ds@.len() ==> candidates@.contains(#[trigger] ds@[i]),
        r matches Err(e) ==> e == SonifyError::InvalidArgument,
{
    let mut chosen: Vec<u32> = Vec::new();
    let mut i: usize = 0;
    while i < count
        invariant
            i <= count,
            chosen@.len() == i,
            i > 0 ==> candidates@.len() > 0,
            forall|j: int| 0 <= j < chosen@.len() ==> candidates@.contains(#[trigger] chosen@[j]),
        decreases count - i,
    {
        match choose_duration(candidates.as_slice()) {
            Some(d) => chosen.push(d),
            None => return Err(SonifyError::InvalidArgument),
        }
        i = i + 1;
    }
    Ok(chosen)
}

} // verus!
