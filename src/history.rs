use vstd::prelude::*;

verus! {

/// How many recent paths are kept per profile.
pub const MAX_PATH_HISTORY: usize = 20;

/// The entries of `history` other than `path`, in order.
pub open spec fn others(history: Seq<String>, path: Seq<char>) -> Seq<Seq<char>>
    decreases history.len(),
{
    if history.len() == 0 {
        Seq::empty()
    } else {
        let rest = others(history.drop_last(), path);
        if history.last()@ == path {
            rest
        } else {
            rest.push(history.last()@)
        }
    }
}

/// The history after visiting `path`: `path` first, then the earlier entries
/// without it, cut to the most recent `MAX_PATH_HISTORY`.
pub open spec fn remembered(history: Seq<String>, path: Seq<char>) -> Seq<Seq<char>> {
    let all = seq![path] + others(history, path);
    if all.len() <= MAX_PATH_HISTORY {
        all
    } else {
        all.take(MAX_PATH_HISTORY as int)
    }
}

/// Puts `path` at the front of a profile's recent paths, removing an older
/// copy of it and dropping the oldest entries beyond `MAX_PATH_HISTORY`.
pub fn remember_path(history: &Vec<String>, path: &String) -> (r: Vec<String>)
    ensures
        r@.len() == remembered(history@, path@).len(),
        forall|i: int| 0 <= i < r@.len() ==> r@[i]@ == remembered(history@, path@)[i],
{
    let mut out: Vec<String> = Vec::new();
    out.push(path.clone());
    let mut i: usize = 0;
    while i < history.len()
        invariant
            0 <= i <= history@.len(),
            out@.len() == 1 + others(history@.subrange(0, i as int), path@).len(),
            out@.len() <= 1 + i,
            out@[0]@ == path@,
            forall|j: int|
                1 <= j < out@.len() ==> out@[j]@ == others(history@.subrange(0, i as int), path@)[j
                    - 1],
        decreases history@.len() - i,
    {
        proof {
            assert(history@.subrange(0, i + 1).drop_last() =~= history@.subrange(0, i as int));
        }
        if !(history[i] == *path) {
            out.push(history[i].clone());
        }
        i += 1;
    }
    proof {
        assert(history@.subrange(0, i as int) =~= history@);
    }
    let ghost full = out@;
    out.truncate(MAX_PATH_HISTORY);
    proof {
        let all = seq![path@] + others(history@, path@);
        assert(full.len() == all.len());
        assert forall|j: int| 0 <= j < full.len() implies full[j]@ == all[j] by {
            if j > 0 {
                assert(all[j] == others(history@, path@)[j - 1]);
            }
        }
    }
    out
}

} // verus!
