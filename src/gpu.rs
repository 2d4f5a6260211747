//! Output of the GPU renderer: its image buffer holds one `u32` red value per
//! pixel, which becomes a PPM file with zero green and blue.
use vstd::prelude::*;
use crate::ppm::{decimal, header_text, write_decimal, write_header, NEWLINE, SPACE, ZERO};

verus! {

/// Width in pixels of the image that the GPU renders.
pub const WIDTH: u64 = 512;

/// Height in pixels of the image that the GPU renders.
pub const HEIGHT: u64 = 512;

/// Size in bytes of the GPU's image buffer: four bytes per pixel.
pub const IMAGE_BUFFER_SIZE: u64 = WIDTH * HEIGHT * 4;

/// The line of one pixel: the word as red, then zero green and blue.
pub open spec fn word_text(w: u32) -> Seq<u8> {
    decimal(w as nat) + seq![SPACE, ZERO, SPACE, ZERO, NEWLINE]
}

/// The lines of a sequence of words, in order.
pub open spec fn words_text(ws: Seq<u32>) -> Seq<u8>
    decreases ws.len(),
{
    if ws.len() == 0 {
        Seq::empty()
    } else {
        words_text(ws.drop_last()) + word_text(ws.last())
    }
}

/// `w` is zero exactly when those of the bytes `4 * i` to `4 * i + 3` of
/// `bytes` that exist are all zero: what holds of the word made of them, the
/// missing ones taken as zero, in either byte order.
pub open spec fn zero_exactly_when_bytes_are(bytes: Seq<u8>, i: int, w: u32) -> bool {
    w == 0 <==> forall|j: int| 4 * i <= j < 4 * i + 4 && j < bytes.len() ==> bytes[j] == 0
}

/// Relies on bytemuck::pod_collect_to_vec: it allocates `ceil(n / 4)` zeroed
/// words and copies the `n` bytes over their start, in the machine's byte
/// order.
#[verifier::external_body]
fn words_of(bytes: &[u8]) -> (r: Vec<u32>)
    ensures
        r@.len() == (bytes@.len() + 3) / 4,
        forall|i: int| 0 <= i < r@.len() ==> zero_exactly_when_bytes_are(bytes@, i, #[trigger] r@[i]),
{
    bytemuck::pod_collect_to_vec::<u8, u32>(bytes)
}

/// The PPM file of the GPU image: a header for `WIDTH` by `HEIGHT` pixels,
/// then one line per word of `buf`.
pub fn to_ppm(buf: &[u32]) -> (r: Vec<u8>)
    ensures
        r@ == header_text(WIDTH as nat, HEIGHT as nat) + words_text(buf@),
{
    let mut out: Vec<u8> = Vec::new();
    write_header(&mut out, WIDTH, HEIGHT);
    let mut k: usize = 0;
    while k < buf.len()
        invariant
            k <= buf@.len(),
            out@ == header_text(WIDTH as nat, HEIGHT as nat) + words_text(buf@.take(k as int)),
        decreases buf@.len() - k,
    {
        write_decimal(&mut out, buf[k] as u64);
        out.push(SPACE);
        out.push(ZERO);
        out.push(SPACE);
        out.push(ZERO);
        out.push(NEWLINE);
        proof {
            let next = buf@.take(k + 1);
            assert(next.drop_last() =~= buf@.take(k as int));
            assert(out@ =~= header_text(WIDTH as nat, HEIGHT as nat) + words_text(next));
        }
        k = k + 1;
    }
    assert(buf@.take(k as int) =~= buf@);
    out
}

/// The PPM file of the GPU's image buffer, read as `u32` words in the
/// machine's byte order (a short last word is padded with zero bytes).
pub fn image_to_ppm(bytes: &[u8]) -> (r: Vec<u8>)
    ensures
        exists|ws: Seq<u32>|
            {
                &&& ws.len() == (bytes@.len() + 3) / 4
                &&& forall|i: int|
                    0 <= i < ws.len() ==> zero_exactly_when_bytes_are(bytes@, i, #[trigger] ws[i])
                &&& r@ == header_text(WIDTH as nat, HEIGHT as nat) + words_text(ws)
            },
{
    let words = words_of(bytes);
    to_ppm(words.as_slice())
}

} // verus!
