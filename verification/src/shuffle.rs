//! In-place pixel channel reorder between the native readback byte order
//! B,G,R,A and the R,G,B,A order that consumers of a pixel buffer expect.
use vstd::prelude::*;

verus! {

/// The channel reorder on a byte sequence: within every 4-byte pixel group
/// the first and third byte change places, the second and fourth stay.
pub open spec fn swap_channels(s: Seq<u8>) -> Seq<u8> {
    Seq::new(
        s.len(),
        |i: int|
            if i % 4 == 0 {
                s[i + 2]
            } else if i % 4 == 2 {
                s[i - 2]
            } else {
                s[i]
            },
    )
}

/// Swapping channels twice gives back the original bytes, for any buffer
/// whose length is a multiple of 4 (the empty buffer included).
pub proof fn lemma_swap_channels_involutive(s: Seq<u8>)
    requires
        s.len() % 4 == 0,
    ensures
        swap_channels(swap_channels(s)) =~= s,
{
    let t = swap_channels(s);
    assert forall|i: int| 0 <= i < s.len() implies swap_channels(t)[i] == s[i] by {
        if i % 4 == 0 {
            assert((i + 2) % 4 == 2);
            assert(i + 2 < s.len());
        } else if i % 4 == 2 {
            assert((i - 2) % 4 == 0);
        }
    }
}

/// The channel reorder keeps the buffer length, and moves no byte whose
/// index is 1 or 3 modulo 4.
pub proof fn lemma_swap_channels_frame(s: Seq<u8>)
    ensures
        swap_channels(s).len() == s.len(),
        forall|i: int|
            0 <= i < s.len() && i % 4 != 0 && i % 4 != 2 ==> swap_channels(s)[i] == s[i],
{
}

/// Reorder every 4-byte pixel of `data` in place from B,G,R,A to R,G,B,A:
/// the blue and red bytes of each pixel change places, green and alpha stay.
pub fn bgra_to_rgba(data: &mut Vec<u8>)
    requires
        old(data)@.len() % 4 == 0,
    ensures
        final(data)@ == swap_channels(old(data)@),
{
    let n = data.len();
    let mut i: usize = 0;
    while i < n
        invariant
            data@.len() == n,
            n == old(data)@.len(),
            n % 4 == 0,
            i % 4 == 0,
            i <= n,
            forall|j: int| 0 <= j < i ==> data@[j] == swap_channels(old(data)@)[j],
            forall|j: int| i <= j < n ==> data@[j] == old(data)@[j],
        decreases n - i,
    {
        let b = data[i];
        let r = data[i + 2];
        data[i] = r;
        data[i + 2] = b;
        i = i + 4;
    }
    assert(data@ =~= swap_channels(old(data)@));
}

} // verus!
