use vstd::prelude::*;
use vstd::arithmetic::div_mod::lemma_fundamental_div_mod_converse;

verus! {

/// A target ratio of image width to image height, held as two integers so
/// that the derived image height is exact.
#[derive(Clone, Copy, Debug, PartialEq, Eq)]
pub struct AspectRatio {
    pub width: u32,
    pub height: u32,
}

impl AspectRatio {
    /// Both terms are positive.
    pub open spec fn wf(self) -> bool {
        self.width > 0 && self.height > 0
    }

    /// Builds a ratio, or `None` when a term is zero.
    pub fn new(width: u32, height: u32) -> (r: Option<AspectRatio>)
        ensures
            r is Some <==> (width > 0 && height > 0),
            r matches Some(a) ==> a.width == width && a.height == height && a.wf(),
    {
        if width > 0 && height > 0 {
            Some(AspectRatio { width, height })
        } else {
            None
        }
    }
}

/// `floor(image_width / aspect)`, raised to 1 when it would be 0.
pub open spec fn image_height_of(image_width: nat, aspect: AspectRatio) -> nat
    recommends
        aspect.width > 0,
{
    let h = (image_width * aspect.height as nat) / (aspect.width as nat);
    if h < 1 {
        1
    } else {
        h as nat
    }
}

/// Height in pixels of an image `image_width` pixels wide with the given
/// aspect ratio; never 0.
pub fn image_height(image_width: u32, aspect: AspectRatio) -> (h: u64)
    requires
        aspect.width > 0,
    ensures
        h == image_height_of(image_width as nat, aspect),
        h >= 1,
{
    assert(image_width as int * aspect.height as int <= u64::MAX) by (nonlinear_arith)
        requires
            image_width <= u32::MAX,
            aspect.height <= u32::MAX,
    ;
    let num: u64 = image_width as u64 * aspect.height as u64;
    let q: u64 = num / aspect.width as u64;
    if q < 1 {
        1
    } else {
        q
    }
}

/// An image whose width is less than one aspect-ratio step still gets one
/// row of pixels: its height is 1, never 0.
pub proof fn lemma_narrow_image_has_one_row(image_width: nat, aspect: AspectRatio)
    requires
        aspect.width > 0,
        image_width * aspect.height < aspect.width,
    ensures
        image_height_of(image_width, aspect) == 1,
{
    let n = image_width * aspect.height as nat;
    assert(n / (aspect.width as nat) == 0) by (nonlinear_arith)
        requires
            0 <= n < aspect.width,
    ;
}

/// Column and row of the pixel at position `k` in row-major order.
pub open spec fn pixel_of(k: int, width: int) -> (u64, u64) {
    ((k % width) as u64, (k / width) as u64)
}

/// Every pixel of a `width` by `height` image as `(column, row)`, row 0 first
/// and column 0 first within a row.
pub fn scan_order(width: u64, height: u64) -> (r: Vec<(u64, u64)>)
    requires
        width as int * height as int <= usize::MAX as int,
    ensures
        r@.len() == width as int * height as int,
        forall|k: int| 0 <= k < r@.len() ==> #[trigger] r@[k] == pixel_of(k, width as int),
{
    let mut r: Vec<(u64, u64)> = Vec::new();
    let mut j: u64 = 0;
    while j < height
        invariant
            j <= height,
            width as int * height as int <= usize::MAX as int,
            r@.len() == j as int * width as int,
            forall|k: int| 0 <= k < r@.len() ==> #[trigger] r@[k] == pixel_of(k, width as int),
        decreases height - j,
    {
        let mut i: u64 = 0;
        while i < width
            invariant
                i <= width,
                j < height,
                width as int * height as int <= usize::MAX as int,
                r@.len() == j as int * width as int + i as int,
                forall|k: int| 0 <= k < r@.len() ==> #[trigger] r@[k] == pixel_of(k, width as int),
            decreases width - i,
        {
            proof {
                let n = j as int * width as int + i as int;
                lemma_fundamental_div_mod_converse(n, width as int, j as int, i as int);
                assert(n < width as int * height as int) by (nonlinear_arith)
                    requires
                        i < width,
                        j < height,
                        n == j as int * width as int + i as int,
                ;
            }
            r.push((i, j));
            i = i + 1;
        }
        proof {
            assert(r@.len() == (j as int + 1) * width as int) by (nonlinear_arith)
                requires
                    r@.len() == j as int * width as int + width as int,
            ;
        }
        j = j + 1;
    }
    assert(r@.len() == width as int * height as int) by (nonlinear_arith)
        requires
            r@.len() == j as int * width as int,
            j == height,
    ;
    r
}

} // verus!
