use vstd::prelude::*;

verus! {

/// Number of complete four-byte pixels in a buffer of `len` bytes.
pub open spec fn pixel_count(len: nat) -> nat {
    len / 4
}

/// The pixel buffer that results from reordering each complete BGRA pixel of
/// `data` as RGBA; trailing bytes that do not form a whole pixel are dropped.
pub open spec fn rgba_of_bgra(data: Seq<u8>) -> Seq<u8> {
    Seq::new(
        4 * pixel_count(data.len()),
        |k: int|
            {
                let base = k - k % 4;
                let lane = k % 4;
                if lane == 0 {
                    data[base + 2]
                } else if lane == 2 {
                    data[base]
                } else {
                    data[k]
                }
            },
    )
}

/// Converts native-endian Cairo ARGB32 surface bytes (B, G, R, A in memory)
/// to the R, G, B, A byte order that the tray icon expects.
pub fn bgra_to_rgba(data: &[u8]) -> (rgba: Vec<u8>)
    ensures
        rgba@ == rgba_of_bgra(data@),
{
    let n = data.len() / 4;
    assert(4 * n <= data@.len()) by (nonlinear_arith)
        requires
            n == data@.len() / 4,
    ;
    let mut rgba: Vec<u8> = Vec::with_capacity(n * 4);
    let mut i: usize = 0;
    while i < n
        invariant
            n == data@.len() / 4,
            4 * n <= data.len(),
            i <= n,
            rgba@.len() == 4 * i,
            forall|k: int| 0 <= k < 4 * i ==> rgba@[k] == rgba_of_bgra(data@)[k],
        decreases n - i,
    {
        let base = 4 * i;
        rgba.push(data[base + 2]);
        rgba.push(data[base + 1]);
        rgba.push(data[base]);
        rgba.push(data[base + 3]);
        proof {
            assert forall|k: int| 4 * i <= k < 4 * i + 4 implies rgba@[k] == rgba_of_bgra(data@)[k] by {
                assert(k - k % 4 == 4 * i);
            }
        }
        i = i + 1;
    }
    assert(rgba@ =~= rgba_of_bgra(data@));
    rgba
}

/// Reordering the channels twice gives back the original buffer when it
/// holds only whole pixels: swapping the first and third byte of every pixel
/// undoes itself.
pub proof fn lemma_rgba_conversion_is_involution(data: Seq<u8>)
    requires
        data.len() % 4 == 0,
    ensures
        rgba_of_bgra(rgba_of_bgra(data)) == data,
{
    let once = rgba_of_bgra(data);
    assert(once.len() == data.len());
    assert(rgba_of_bgra(once) =~= data);
}


/// Every complete pixel is reordered the same way, whatever its bytes: red
/// (the third byte of Cairo's BGRA) comes first, green stays second, blue
/// (the first byte) comes third and alpha stays last; nothing else is
/// produced.
pub proof fn lemma_each_pixel_swaps_red_and_blue(data: Seq<u8>, pixel: int)
    requires
        0 <= pixel < data.len() / 4,
    ensures
        rgba_of_bgra(data).len() == data.len() - data.len() % 4,
        rgba_of_bgra(data)[4 * pixel] == data[4 * pixel + 2],
        rgba_of_bgra(data)[4 * pixel + 1] == data[4 * pixel + 1],
        rgba_of_bgra(data)[4 * pixel + 2] == data[4 * pixel],
        rgba_of_bgra(data)[4 * pixel + 3] == data[4 * pixel + 3],
{
    let out = rgba_of_bgra(data);
    assert(4 * (data.len() / 4) == data.len() - data.len() % 4);
    assert((4 * pixel) % 4 == 0);
    assert((4 * pixel + 1) % 4 == 1);
    assert((4 * pixel + 2) % 4 == 2);
    assert((4 * pixel + 3) % 4 == 3);
    assert(4 * pixel + 3 < 4 * (data.len() / 4));
}
} // verus!
