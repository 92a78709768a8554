//! The dark mode of rendered pages: each pixel is replaced by the colour of a gradient
//! (from white to the dark background) picked by the pixel's brightness.
use vstd::prelude::*;

verus! {

/// The brightness of a pixel: the mean of its red, green and blue bytes, rounded down.
pub open spec fn brightness(r: u8, g: u8, b: u8) -> int {
    (r + g + b) / 3
}

/// Byte `i` of the shaded image: in every whole RGBA pixel (four bytes, from the start),
/// the bytes become those of the gradient colour at the pixel's brightness; the bytes after
/// the last whole pixel stay as they were.
pub open spec fn shaded_byte(samples: Seq<u8>, gradient: Seq<[u8; 4]>, i: int) -> u8 {
    let p = i - i % 4;
    if p + 4 <= samples.len() {
        gradient[brightness(samples[p], samples[p + 1], samples[p + 2])]@[i % 4]
    } else {
        samples[i]
    }
}

/// Replaces each whole RGBA pixel of `samples` by the colour of `gradient_cache` at the
/// pixel's brightness.
pub fn cpu_pdf_dark_mode_shader(samples: &mut Vec<u8>, gradient_cache: &[[u8; 4]; 256])
    ensures
        final(samples)@.len() == old(samples)@.len(),
        forall|i: int| 0 <= i < old(samples)@.len() ==> #[trigger] final(samples)@[i] == shaded_byte(
            old(samples)@,
            gradient_cache@,
            i,
        ),
{
    let ghost start = samples@;
    let n = samples.len();
    let mut p: usize = 0;
    while n >= 4 && p <= n - 4
        invariant
            n == start.len(),
            samples@.len() == n,
            p % 4 == 0,
            p <= n,
            gradient_cache@.len() == 256,
            forall|i: int| 0 <= i < p ==> #[trigger] samples@[i] == shaded_byte(start, gradient_cache@, i),
            forall|i: int| p <= i < n ==> #[trigger] samples@[i] == start[i],
        decreases n - p,
    {
        let r = samples[p] as u16;
        let g = samples[p + 1] as u16;
        let b = samples[p + 2] as u16;
        let level = ((r + g + b) / 3) as usize;
        let colour = gradient_cache[level];
        assert(start[p as int] == samples@[p as int]);
        assert(start[p + 1] == samples@[p + 1]);
        assert(start[p + 2] == samples@[p + 2]);
        samples.set(p, colour[0]);
        samples.set(p + 1, colour[1]);
        samples.set(p + 2, colour[2]);
        samples.set(p + 3, colour[3]);
        assert forall|i: int| p <= i < p + 4 implies #[trigger] samples@[i] == shaded_byte(
            start,
            gradient_cache@,
            i,
        ) by {
            assert(i - i % 4 == p);
        }
        p = p + 4;
    }
    assert forall|i: int| p <= i < n implies #[trigger] samples@[i] == shaded_byte(
        start,
        gradient_cache@,
        i,
    ) by {
        assert(i - i % 4 + 4 > n);
    }
}

} // verus!
