//! Segment reassembly: a subscribed track delivers each segment as an
//! ordered stream of byte fragments, and the fragments are concatenated in
//! delivery order into one complete byte buffer per segment.

use vstd::prelude::*;

verus! {

/// One complete unit of track data: a finite byte buffer together with its
/// monotonically increasing sequence number, scoped to one track.
pub struct Segment {
    pub sequence: u64,
    pub data: Vec<u8>,
}

/// The bytes of a fragment sequence, concatenated in delivery order.
pub open spec fn concat_fragments(frags: Seq<Seq<u8>>) -> Seq<u8>
    decreases frags.len(),
{
    if frags.len() == 0 {
        Seq::empty()
    } else {
        concat_fragments(frags.drop_last()) + frags.last()
    }
}

/// The total byte length of a fragment sequence.
pub open spec fn total_fragment_len(frags: Seq<Seq<u8>>) -> int
    decreases frags.len(),
{
    if frags.len() == 0 {
        0
    } else {
        total_fragment_len(frags.drop_last()) + frags.last().len()
    }
}

/// Reassembling fragments of lengths `L_1 .. L_N` yields a buffer of
/// exactly `L_1 + .. + L_N` bytes.
pub proof fn lemma_reassembly_length(frags: Seq<Seq<u8>>)
    ensures
        concat_fragments(frags).len() == total_fragment_len(frags),
    decreases frags.len(),
{
    if frags.len() > 0 {
        lemma_reassembly_length(frags.drop_last());
    }
}

/// A growing buffer for one segment, filled fragment by fragment. The
/// fragments appended so far are carried alongside, so that the buffer is
/// provably their concatenation in delivery order.
pub struct SegmentBuffer {
    data: Vec<u8>,
    fragments: Ghost<Seq<Seq<u8>>>,
}

impl SegmentBuffer {
    /// The fragments appended so far, in delivery order.
    pub closed spec fn fragments(&self) -> Seq<Seq<u8>> {
        self.fragments@
    }

    /// The bytes accumulated so far.
    pub closed spec fn bytes(&self) -> Seq<u8> {
        self.data@
    }

    /// The buffer always holds exactly the concatenation of the fragments
    /// appended so far.
    pub closed spec fn wf(&self) -> bool {
        self.data@ == concat_fragments(self.fragments@)
    }

    pub fn new() -> (r: SegmentBuffer)
        ensures
            r.wf(),
            r.fragments() == Seq::<Seq<u8>>::empty(),
            r.bytes() == Seq::<u8>::empty(),
    {
        let r = SegmentBuffer { data: Vec::new(), fragments: Ghost(Seq::empty()) };
        r
    }

    /// How many bytes have accumulated so far.
    pub fn len(&self) -> (n: usize)
        ensures
            n == self.bytes().len(),
    {
        self.data.len()
    }

    /// Append one fragment's bytes, in delivery order, to the buffer.
    pub fn push_fragment(&mut self, frag: &[u8])
        requires
            old(self).wf(),
            old(self).bytes().len() + frag@.len() <= usize::MAX,
        ensures
            final(self).wf(),
            final(self).fragments() == old(self).fragments().push(frag@),
            final(self).bytes() == old(self).bytes() + frag@,
    {
        let n = frag.len();
        let mut i: usize = 0;
        proof {
            assert(self.data@ =~= old(self).data@ + frag@.subrange(0, 0));
        }
        while i < n
            invariant
                0 <= i <= n,
                n == frag@.len(),
                self.data@ == old(self).data@ + frag@.subrange(0, i as int),
                self.fragments@ == old(self).fragments@,
            decreases n - i,
        {
            self.data.push(frag[i]);
            proof {
                assert(self.data@ =~= old(self).data@ + frag@.subrange(0, i + 1));
            }
            i = i + 1;
        }
        proof {
            self.fragments@ = self.fragments@.push(frag@);
            assert(frag@.subrange(0, n as int) =~= frag@);
            assert(self.fragments@.drop_last() =~= old(self).fragments@);
            assert(self.data@ =~= concat_fragments(self.fragments@));
        }
    }

    /// Close the buffer as the one complete segment with this sequence
    /// number.
    pub fn finish(self, sequence: u64) -> (s: Segment)
        requires
            self.wf(),
        ensures
            s.sequence == sequence,
            s.data@ == concat_fragments(self.fragments()),
            s.data@ == self.bytes(),
    {
        Segment { sequence, data: self.data }
    }
}

/// Reassemble a complete fragment list into the one segment it denotes:
/// the concatenation of the fragments' bytes in delivery order, under the
/// given sequence number.
pub fn reassemble(frags: &Vec<Vec<u8>>, sequence: u64) -> (s: Segment)
    requires
        total_fragment_len(frags@.map_values(|f: Vec<u8>| f@)) <= usize::MAX,
    ensures
        s.sequence == sequence,
        s.data@ == concat_fragments(frags@.map_values(|f: Vec<u8>| f@)),
        s.data@.len() == total_fragment_len(frags@.map_values(|f: Vec<u8>| f@)),
{
    let ghost model = frags@.map_values(|f: Vec<u8>| f@);
    let mut buf = SegmentBuffer::new();
    let n = frags.len();
    let mut i: usize = 0;
    proof {
        assert(model.subrange(0, 0) =~= Seq::<Seq<u8>>::empty());
    }
    while i < n
        invariant
            0 <= i <= n,
            n == frags@.len(),
            model == frags@.map_values(|f: Vec<u8>| f@),
            buf.wf(),
            buf.fragments() == model.subrange(0, i as int),
            total_fragment_len(model) <= usize::MAX,
        decreases n - i,
    {
        proof {
            lemma_reassembly_length(model.subrange(0, i as int));
            lemma_total_len_prefix(model, i as int + 1);
            lemma_reassembly_length(model);
            assert(model.subrange(0, i as int + 1).drop_last() =~= model.subrange(0, i as int));
        }
        buf.push_fragment(frags[i].as_slice());
        proof {
            assert(buf.fragments() =~= model.subrange(0, i as int + 1));
        }
        i = i + 1;
    }
    proof {
        assert(model.subrange(0, n as int) =~= model);
        lemma_reassembly_length(model);
    }
    buf.finish(sequence)
}

/// The total length of a prefix never exceeds the total length of the
/// whole fragment sequence.
proof fn lemma_total_len_prefix(frags: Seq<Seq<u8>>, j: int)
    requires
        0 <= j <= frags.len(),
    ensures
        total_fragment_len(frags.subrange(0, j)) <= total_fragment_len(frags),
    decreases frags.len() - j,
{
    if j < frags.len() {
        let t = frags.subrange(0, j + 1);
        assert(t.drop_last() =~= frags.subrange(0, j));
        lemma_total_len_prefix(frags, j + 1);
    } else {
        assert(frags.subrange(0, j) =~= frags);
    }
}

} // verus!
