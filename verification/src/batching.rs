use vstd::prelude::*;

use rand::seq::SliceRandom;

verus! {

broadcast use vstd::seq_lib::group_seq_properties;

/// The sample indices `0, 1, ..., n - 1` in order.
pub open spec fn spec_index_range(n: nat) -> Seq<usize> {
    Seq::new(n, |i: int| i as usize)
}

/// `s` cut, from its start, into chunks of `batch_size` items; the last chunk
/// holds what is left and may be shorter.
pub open spec fn spec_chunks(s: Seq<usize>, batch_size: nat) -> Seq<Seq<usize>>
    recommends
        batch_size > 0,
    decreases s.len(),
{
    if s.len() == 0 || batch_size == 0 {
        Seq::empty()
    } else if s.len() <= batch_size {
        seq![s]
    } else {
        seq![s.take(batch_size as int)] + spec_chunks(s.skip(batch_size as int), batch_size)
    }
}

/// The contents of each vector of `v`.
pub open spec fn spec_views(v: Seq<Vec<usize>>) -> Seq<Seq<usize>> {
    v.map_values(|c: Vec<usize>| c@)
}

/// Puts the items of `v` in a random order: the result holds the same items,
/// as often as `v` does. `rand::seq::SliceRandom::shuffle`, called with the
/// thread-local generator of `rand::rng`, only swaps items of the slice.
#[verifier::external_body]
fn shuffle_in_place(v: &mut Vec<usize>)
    ensures
        final(v)@.len() == old(v)@.len(),
        final(v)@.to_multiset() == old(v)@.to_multiset(),
{
    v.as_mut_slice().shuffle(&mut rand::rng());
}

/// The indices of `n` training samples in a random order: every index below
/// `n` occurs exactly once.
pub fn shuffled_indices(n: usize) -> (v: Vec<usize>)
    ensures
        v@.len() == n,
        v@.to_multiset() == spec_index_range(n as nat).to_multiset(),
{
    let mut v: Vec<usize> = Vec::new();
    let mut i: usize = 0;
    while i < n
        invariant
            i <= n,
            v@ =~= spec_index_range(i as nat),
        decreases n - i,
    {
        v.push(i);
        i = i + 1;
        assert(v@ =~= spec_index_range(i as nat));
    }
    shuffle_in_place(&mut v);
    v
}

fn copy_indices(s: &Vec<usize>, from: usize, to: usize) -> (v: Vec<usize>)
    requires
        from <= to <= s@.len(),
    ensures
        v@ == s@.subrange(from as int, to as int),
{
    let mut v: Vec<usize> = Vec::new();
    let mut i = from;
    while i < to
        invariant
            from <= i <= to,
            to <= s@.len(),
            v@ =~= s@.subrange(from as int, i as int),
        decreases to - i,
    {
        v.push(s[i]);
        i = i + 1;
        assert(v@ =~= s@.subrange(from as int, i as int));
    }
    v
}

/// Cuts the (shuffled) sample indices of an epoch into mini-batches of
/// `batch_size` indices, in order; the last batch holds what is left.
pub fn chunk_indices(indices: &Vec<usize>, batch_size: usize) -> (chunks: Vec<Vec<usize>>)
    requires
        batch_size > 0,
    ensures
        spec_views(chunks@) == spec_chunks(indices@, batch_size as nat),
{
    let n = indices.len();
    let mut chunks: Vec<Vec<usize>> = Vec::new();
    let mut start: usize = 0;
    while start < n
        invariant
            start <= n,
            n == indices@.len(),
            batch_size > 0,
            spec_views(chunks@) + spec_chunks(indices@.skip(start as int), batch_size as nat)
                =~= spec_chunks(indices@, batch_size as nat),
        decreases n - start,
    {
        let rest = n - start;
        let ghost tail = indices@.skip(start as int);
        let ghost old_chunks = spec_views(chunks@);
        if rest <= batch_size {
            let c = copy_indices(indices, start, n);
            assert(c@ =~= tail);
            chunks.push(c);
            assert(spec_views(chunks@) =~= old_chunks.push(tail));
            assert(indices@.skip(n as int) =~= Seq::<usize>::empty());
            start = n;
        } else {
            let c = copy_indices(indices, start, start + batch_size);
            assert(c@ =~= tail.take(batch_size as int));
            chunks.push(c);
            assert(spec_views(chunks@) =~= old_chunks.push(tail.take(batch_size as int)));
            assert(tail.skip(batch_size as int) =~= indices@.skip(start + batch_size));
            start = start + batch_size;
        }
    }
    assert(indices@.skip(n as int) =~= Seq::<usize>::empty());
    chunks
}

/// Mini-batches cover the epoch: concatenated in order, they give back the
/// sample indices they were cut from.
pub proof fn lemma_chunks_concatenate_to_input(s: Seq<usize>, batch_size: nat)
    requires
        batch_size > 0,
    ensures
        spec_chunks(s, batch_size).flatten() == s,
    decreases s.len(),
{
    if s.len() == 0 {
    } else if s.len() <= batch_size {
        seq![s].lemma_flatten_one_element();
    } else {
        let c = spec_chunks(s, batch_size);
        let rest = spec_chunks(s.skip(batch_size as int), batch_size);
        lemma_chunks_concatenate_to_input(s.skip(batch_size as int), batch_size);
        assert(c.drop_first() =~= rest);
        assert(c.first() == s.take(batch_size as int));
        assert(s.take(batch_size as int) + s.skip(batch_size as int) =~= s);
    }
}

/// Every mini-batch holds between one and `batch_size` indices, and every
/// mini-batch but the last holds exactly `batch_size`.
pub proof fn lemma_chunk_sizes(s: Seq<usize>, batch_size: nat)
    requires
        batch_size > 0,
    ensures
        forall|k: int|
            0 <= k < spec_chunks(s, batch_size).len() ==> 0 < (#[trigger] spec_chunks(s, batch_size)[k]).len()
                <= batch_size,
        forall|k: int|
            0 <= k < spec_chunks(s, batch_size).len() - 1 ==> (#[trigger] spec_chunks(s, batch_size)[k]).len()
                == batch_size,
    decreases s.len(),
{
    if s.len() > batch_size {
        let rest = s.skip(batch_size as int);
        lemma_chunk_sizes(rest, batch_size);
        let c = spec_chunks(s, batch_size);
        assert forall|k: int| 0 <= k < c.len() implies 0 < (#[trigger] c[k]).len() <= batch_size by {
            if k > 0 {
                assert(c[k] == spec_chunks(rest, batch_size)[k - 1]);
            }
        }
        assert forall|k: int| 0 <= k < c.len() - 1 implies (#[trigger] c[k]).len() == batch_size by {
            if k > 0 {
                assert(c[k] == spec_chunks(rest, batch_size)[k - 1]);
            }
        }
    }
}

} // verus!
