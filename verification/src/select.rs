use vstd::prelude::*;

verus! {

/// `picked` lists, in increasing order, exactly the positions `i` at which
/// `marks[i]` holds.
pub open spec fn spec_picks(picked: Seq<usize>, marks: Seq<bool>) -> bool {
    &&& forall|k: int| 0 <= k < picked.len() ==> 0 <= #[trigger] picked[k] < marks.len() && marks[picked[k] as int]
    &&& forall|i: int| 0 <= i < marks.len() && #[trigger] marks[i] ==> picked.contains(i as usize)
    &&& forall|a: int, b: int| 0 <= a < b < picked.len() ==> picked[a] < picked[b]
}

/// The positions, in increasing order, at which `marks` holds.
pub fn marked_positions(marks: &Vec<bool>) -> (picked: Vec<usize>)
    ensures
        spec_picks(picked@, marks@),
{
    let mut picked: Vec<usize> = Vec::new();
    let n = marks.len();
    for i in 0..n
        invariant
            n == marks@.len(),
            spec_picks(picked@, marks@.take(i as int)),
            forall|k: int| 0 <= k < picked@.len() ==> picked@[k] < i,
    {
        let ghost prev = picked@;
        if marks[i] {
            picked.push(i);
        }
        proof {
            let done = marks@.take(i + 1);
            assert forall|j: int| 0 <= j < done.len() && #[trigger] done[j] implies picked@.contains(j as usize) by {
                if j == i {
                    assert(picked@[picked@.len() - 1] == j as usize);
                } else {
                    assert(marks@.take(i as int)[j]);
                    let k = choose|k: int| 0 <= k < prev.len() && prev[k] == j as usize;
                    assert(picked@[k] == j as usize);
                }
            }
        }
    }
    assert(marks@.take(n as int) =~= marks@);
    picked
}

} // verus!
