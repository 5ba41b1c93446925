use vstd::prelude::*;

verus! {

/// The thread count handed to the engine: the configured one, else one
/// thread per requested part, capped at `i32::MAX`.
pub fn resolve_threads(threads: Option<usize>, num_partitions: u32) -> (r: i32)
    ensures
        r as int == if threads.is_some() {
            if threads.unwrap() <= i32::MAX { threads.unwrap() as int } else { i32::MAX as int }
        } else {
            if num_partitions <= i32::MAX { num_partitions as int } else { i32::MAX as int }
        },
{
    let wanted: usize = match threads {
        Some(t) => t,
        None => num_partitions as usize,
    };
    if wanted <= i32::MAX as usize {
        wanted as i32
    } else {
        i32::MAX
    }
}

/// Copies the engine's result buffer into an owned assignment, element by
/// element.
pub fn copy_assignment(raw: &[u32]) -> (r: Vec<u32>)
    ensures
        r@ == raw@,
{
    let mut out: Vec<u32> = Vec::with_capacity(raw.len());
    let mut i: usize = 0;
    while i < raw.len()
        invariant
            i <= raw@.len(),
            out@ == raw@.take(i as int),
        decreases raw@.len() - i,
    {
        out.push(raw[i]);
        i += 1;
        assert(out@ =~= raw@.take(i as int));
    }
    assert(out@ =~= raw@);
    out
}

} // verus!
