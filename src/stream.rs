//! The byte-stream view of a connection: what the writes put in, the reads
//! take out in the same order, cut wherever the transport cut it.
use vstd::prelude::*;

verus! {

/// The chunks laid end to end.
pub open spec fn concat(chunks: Seq<Seq<u8>>) -> Seq<u8>
    decreases chunks.len(),
{
    if chunks.len() == 0 {
        Seq::empty()
    } else {
        concat(chunks.drop_last()) + chunks.last()
    }
}

/// The sum of the lengths.
pub open spec fn total(lens: Seq<nat>) -> nat
    decreases lens.len(),
{
    if lens.len() == 0 {
        0
    } else {
        total(lens.drop_last()) + lens.last()
    }
}

/// `s` cut into consecutive pieces of the lengths `lens`, as successive
/// reads of those sizes take it out of the stream.
pub open spec fn cut(s: Seq<u8>, lens: Seq<nat>) -> Seq<Seq<u8>>
    decreases lens.len(),
{
    if lens.len() == 0 {
        Seq::empty()
    } else {
        let before = total(lens.drop_last());
        cut(s, lens.drop_last()).push(s.subrange(before as int, (before + lens.last()) as int))
    }
}

/// Reads whose lengths add up to no more than the stream take out its
/// first bytes, in order.
pub proof fn lemma_cut_prefix(s: Seq<u8>, lens: Seq<nat>)
    requires
        total(lens) <= s.len(),
    ensures
        concat(cut(s, lens)) == s.subrange(0, total(lens) as int),
    decreases lens.len(),
{
    if lens.len() > 0 {
        let head = lens.drop_last();
        lemma_cut_prefix(s, head);
        let c = cut(s, lens);
        assert(c.drop_last() == cut(s, head));
        assert(s.subrange(0, total(head) as int) + s.subrange(total(head) as int, total(lens) as int)
            =~= s.subrange(0, total(lens) as int));
    }
}

/// Whatever the sizes of the writes and of the reads, the reads together
/// give back exactly the written bytes, in order: the stream keeps the order
/// and not the boundaries.
pub proof fn lemma_stream_reassembles(writes: Seq<Seq<u8>>, lens: Seq<nat>)
    requires
        total(lens) == concat(writes).len(),
    ensures
        concat(cut(concat(writes), lens)) == concat(writes),
{
    lemma_cut_prefix(concat(writes), lens);
    assert(concat(writes).subrange(0, concat(writes).len() as int) =~= concat(writes));
}

} // verus!
