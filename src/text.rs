//! Line-ending normalization for text written to the line.
use vstd::prelude::*;

verus! {

/// Line-feed byte.
pub const LF: u8 = 10;

/// Carriage-return byte.
pub const CR: u8 = 13;

/// What goes out on the line for `s`: each line feed is preceded by a
/// carriage return; every other byte passes unchanged, in order.
pub open spec fn crlf(s: Seq<u8>) -> Seq<u8>
    decreases s.len(),
{
    if s.len() == 0 {
        Seq::empty()
    } else {
        let last = s.last();
        crlf(s.drop_last()) + if last == LF {
            seq![CR, LF]
        } else {
            seq![last]
        }
    }
}

/// Normalization distributes over concatenation: bytes are handled one at a
/// time, independently of their neighbours.
pub proof fn lemma_crlf_concat(a: Seq<u8>, b: Seq<u8>)
    ensures
        crlf(a + b) == crlf(a) + crlf(b),
    decreases b.len(),
{
    if b.len() == 0 {
        assert(a + b =~= a);
        assert(crlf(b) =~= Seq::<u8>::empty());
        assert(crlf(a) + crlf(b) =~= crlf(a));
    } else {
        lemma_crlf_concat(a, b.drop_last());
        assert((a + b).drop_last() =~= a + b.drop_last());
        assert((a + b).last() == b.last());
        let tail = if b.last() == LF {
            seq![CR, LF]
        } else {
            seq![b.last()]
        };
        assert(crlf(a) + crlf(b.drop_last()) + tail =~= crlf(a) + (crlf(b.drop_last()) + tail));
    }
}

/// Expands every line feed of `bytes` into carriage return, line feed.
pub fn normalize_line_endings(bytes: &[u8]) -> (r: Vec<u8>)
    ensures
        r@ == crlf(bytes@),
{
    let mut out: Vec<u8> = Vec::new();
    let mut i: usize = 0;
    while i < bytes.len()
        invariant
            i <= bytes@.len(),
            out@ == crlf(bytes@.subrange(0, i as int)),
        decreases bytes@.len() - i,
    {
        let b = bytes[i];
        if b == LF {
            out.push(CR);
        }
        out.push(b);
        proof {
            let next = bytes@.subrange(0, i + 1);
            assert(next.drop_last() =~= bytes@.subrange(0, i as int));
            assert(next.last() == b);
        }
        i = i + 1;
    }
    assert(bytes@.subrange(0, bytes@.len() as int) =~= bytes@);
    out
}

} // verus!
