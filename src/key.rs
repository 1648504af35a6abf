use vstd::prelude::*;

verus! {

/// Size of the grid that pixel dimensions are snapped to.
pub const QUANTUM: u16 = 4;

/// `v` rounded down to a multiple of the grid size.
pub open spec fn quantized(v: int) -> int {
    v - v % 4
}

/// Rounds a pixel dimension down to the nearest multiple of four, so that a
/// few pixels of resize jitter map to the same cache key.
pub fn quantize(v: u16) -> (r: u16)
    ensures
        r as int == quantized(v as int),
        r <= v,
        r % 4 == 0,
        v - r < 4,
{
    (v / QUANTUM) * QUANTUM
}

/// Quantizing twice gives the same value as quantizing once.
pub proof fn lemma_quantize_idempotent(v: u16)
    ensures
        quantized(quantized(v as int)) == quantized(v as int),
{
}

/// Quantizing preserves the order of dimensions.
pub proof fn lemma_quantize_monotonic(v1: u16, v2: u16)
    requires
        v1 <= v2,
    ensures
        quantized(v1 as int) <= quantized(v2 as int),
{
}

/// Cache key of a rendered preview: the file and the quantized pane size.
#[derive(Clone, Debug, PartialEq, Eq, Hash)]
pub struct ImageKey {
    pub path: String,
    pub width: u16,
    pub height: u16,
}

/// What a cache key stands for: the path's characters and the two dimensions.
pub type KeyView = (Seq<char>, u16, u16);

impl View for ImageKey {
    type V = KeyView;

    open spec fn view(&self) -> KeyView {
        (self.path@, self.width, self.height)
    }
}

} // verus!
