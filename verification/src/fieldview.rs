use vstd::prelude::*;

verus! {

/// The rows of a field of samples, each row as a sequence of binary32 bit
/// patterns.
pub open spec fn fview(v: Vec<Vec<u32>>) -> Seq<Seq<u32>> {
    Seq::new(v@.len() as nat, |j: int| v@[j]@)
}

pub broadcast proof fn lemma_fview_len(v: Vec<Vec<u32>>)
    ensures
        (#[trigger] fview(v)).len() == v@.len(),
{
}

pub broadcast proof fn lemma_fview_index(v: Vec<Vec<u32>>, j: int)
    requires
        0 <= j < v@.len(),
    ensures
        #[trigger] fview(v)[j] == v@[j]@,
{
}

pub broadcast proof fn lemma_view_len(v: Vec<Vec<u32>>)
    ensures
        fview(v).len() == (#[trigger] v@).len(),
{
}

pub broadcast proof fn lemma_view_index(v: Vec<Vec<u32>>, j: int)
    requires
        0 <= j < v@.len(),
    ensures
        fview(v)[j] == (#[trigger] v@[j])@,
{
}

} // verus!
