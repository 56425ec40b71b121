use vstd::prelude::*;

verus! {

/// Bytes per pixel of the frame buffer (red, green, blue, alpha).
pub const BYTES_PER_PIXEL: usize = 4;

/// An opaque colour given by its 8-bit channels.
#[derive(Clone, Copy, Debug, PartialEq, Eq, Structural)]
pub struct Rgb {
    pub r: u8,
    pub g: u8,
    pub b: u8,
}

/// The six face colours: red, green, blue, yellow, magenta, cyan.
pub open spec fn spec_face_color(i: int) -> Rgb {
    if i == 0 {
        Rgb { r: 255, g: 0, b: 0 }
    } else if i == 1 {
        Rgb { r: 0, g: 255, b: 0 }
    } else if i == 2 {
        Rgb { r: 0, g: 0, b: 255 }
    } else if i == 3 {
        Rgb { r: 255, g: 255, b: 0 }
    } else if i == 4 {
        Rgb { r: 255, g: 0, b: 255 }
    } else {
        Rgb { r: 0, g: 255, b: 255 }
    }
}

/// The colour of face `i` of the palette.
pub fn face_color(i: usize) -> (c: Rgb)
    requires
        i < 6,
    ensures
        c == spec_face_color(i as int),
{
    match i {
        0 => Rgb { r: 255, g: 0, b: 0 },
        1 => Rgb { r: 0, g: 255, b: 0 },
        2 => Rgb { r: 0, g: 0, b: 255 },
        3 => Rgb { r: 255, g: 255, b: 0 },
        4 => Rgb { r: 255, g: 0, b: 255 },
        _ => Rgb { r: 0, g: 255, b: 255 },
    }
}

/// The number of pixels of a `width` by `height` frame, the length of its
/// depth buffer.
pub fn pixel_count(width: usize, height: usize) -> (n: usize)
    requires
        width * height <= usize::MAX,
    ensures
        n == width * height,
{
    width * height
}

/// A black, fully transparent frame buffer of `width` by `height` pixels,
/// four bytes each.
pub fn blank_pixels(width: usize, height: usize) -> (pixels: Vec<u8>)
    requires
        width * height * 4 <= usize::MAX,
    ensures
        pixels@.len() == width * height * 4,
        forall|i: int| 0 <= i < pixels@.len() ==> pixels@[i] == 0,
{
    assert(width * height <= width * height * 4) by (nonlinear_arith)
        requires
            width * height * 4 <= usize::MAX,
    ;
    let len = width * height * BYTES_PER_PIXEL;
    let mut pixels: Vec<u8> = Vec::with_capacity(len);
    while pixels.len() < len
        invariant
            pixels@.len() <= len,
            forall|i: int| 0 <= i < pixels@.len() ==> pixels@[i] == 0,
        decreases len - pixels@.len(),
    {
        pixels.push(0);
    }
    pixels
}

/// The positions, in order, of the polygons with exactly three vertices,
/// given each polygon's vertex count: the triangles to rasterize.
pub fn triangle_indices(vertex_counts: &Vec<usize>) -> (idx: Vec<usize>)
    ensures
        forall|k: int| 0 <= k < idx@.len() ==> #[trigger] idx@[k] < vertex_counts@.len(),
        forall|k: int| 0 <= k < idx@.len() ==> vertex_counts@[#[trigger] idx@[k] as int] == 3,
        forall|k: int, l: int| 0 <= k < l < idx@.len() ==> #[trigger] idx@[k] < #[trigger] idx@[l],
        forall|i: int|
            0 <= i < vertex_counts@.len() && #[trigger] vertex_counts@[i] == 3 ==> idx@.contains(
                i as usize,
            ),
{
    let mut idx: Vec<usize> = Vec::new();
    let n = vertex_counts.len();
    for j in 0..n
        invariant
            n == vertex_counts@.len(),
            forall|k: int| 0 <= k < idx@.len() ==> #[trigger] idx@[k] < j,
            forall|k: int| 0 <= k < idx@.len() ==> vertex_counts@[#[trigger] idx@[k] as int] == 3,
            forall|k: int, l: int| 0 <= k < l < idx@.len() ==> #[trigger] idx@[k] < #[trigger] idx@[l],
            forall|i: int| 0 <= i < j && #[trigger] vertex_counts@[i] == 3 ==> idx@.contains(i as usize),
    {
        if vertex_counts[j] == 3 {
            let ghost before = idx@;
            idx.push(j);
            proof {
                assert forall|i: int| 0 <= i < j + 1 && #[trigger] vertex_counts@[i] == 3 implies idx@.contains(i as usize) by {
                    if i == j {
                        assert(idx@[before.len() as int] == j);
                    } else {
                        let k = choose|k: int| 0 <= k < before.len() && before[k] == i as usize;
                        assert(idx@[k] == i as usize);
                    }
                }
            }
        }
    }
    idx
}

} // verus!
