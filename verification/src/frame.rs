//! Decoded video frames: three planes in the layout that the renderer takes.
//! A decoder hands out each plane with a stride that may exceed the row's
//! width; the copy kept here has the same stride, the picture's bytes in
//! place and zeros in the padding.

use vstd::prelude::*;

verus! {

/// One decoded picture: luma at full size, the two chroma planes at half
/// size in both directions.
#[derive(Debug, PartialEq, Eq)]
pub struct DecodedFrame {
    pub width: u32,
    pub height: u32,
    pub y_stride: usize,
    pub uv_stride: usize,
    pub y_plane: Vec<u8>,
    pub u_plane: Vec<u8>,
    pub v_plane: Vec<u8>,
}

/// `count` zero bytes.
pub open spec fn zeros(count: int) -> Seq<u8> {
    Seq::new(count as nat, |i: int| 0u8)
}

/// A plane of `rows` rows, `stride` bytes apart, lies within `len` bytes,
/// and each row of `width` bytes has room within its stride.
pub open spec fn plane_fits(len: int, stride: int, width: int, rows: int) -> bool {
    rows == 0 || (width <= stride && rows * stride <= len)
}

/// The copy of a plane: row after row, the `width` bytes of the row and
/// then zeros up to the stride.
pub open spec fn packed_plane(data: Seq<u8>, stride: int, width: int, rows: int) -> Seq<u8>
    decreases rows,
{
    if rows <= 0 {
        Seq::empty()
    } else {
        packed_plane(data, stride, width, rows - 1) + data.subrange(
            (rows - 1) * stride,
            (rows - 1) * stride + width,
        ) + zeros(stride - width)
    }
}

/// Row `r` of `rows` starts at `r * stride` and ends where the next row
/// starts, within the `rows * stride` bytes of the plane.
proof fn lemma_row_offsets(r: int, rows: int, stride: int)
    requires
        0 <= r < rows,
        0 <= stride,
    ensures
        0 <= r * stride,
        (r + 1) * stride == r * stride + stride,
        (r + 1) * stride <= rows * stride,
{
    assert(0 <= r * stride) by (nonlinear_arith)
        requires
            0 <= r,
            0 <= stride,
    ;
    assert((r + 1) * stride == r * stride + stride) by (nonlinear_arith);
    assert((r + 1) * stride <= rows * stride) by (nonlinear_arith)
        requires
            r + 1 <= rows,
            0 <= stride,
    ;
}

/// The copy of a plane has `rows` times `stride` bytes.
pub proof fn lemma_packed_plane_len(data: Seq<u8>, stride: int, width: int, rows: int)
    requires
        0 <= rows,
        0 <= width <= stride,
        rows * stride <= data.len(),
    ensures
        packed_plane(data, stride, width, rows).len() == rows * stride,
    decreases rows,
{
    if rows > 0 {
        lemma_row_offsets(rows - 1, rows, stride);
        lemma_packed_plane_len(data, stride, width, rows - 1);
    } else {
        assert(rows * stride == 0) by (nonlinear_arith)
            requires
                rows == 0,
        ;
    }
}

/// In the copy of a plane, byte `col` of row `row` is the source's byte at
/// the same place where it belongs to the picture, and zero in the padding.
pub proof fn lemma_packed_plane_byte(
    data: Seq<u8>,
    stride: int,
    width: int,
    rows: int,
    row: int,
    col: int,
)
    requires
        0 <= width <= stride,
        rows * stride <= data.len(),
        0 <= row < rows,
        0 <= col < stride,
    ensures
        0 <= row * stride + col < packed_plane(data, stride, width, rows).len(),
        packed_plane(data, stride, width, rows)[row * stride + col] == if col < width {
            data[row * stride + col]
        } else {
            0u8
        },
    decreases rows,
{
    lemma_packed_plane_len(data, stride, width, rows);
    lemma_row_offsets(rows - 1, rows, stride);
    lemma_row_offsets(row, rows, stride);
    lemma_packed_plane_len(data, stride, width, rows - 1);
    if row < rows - 1 {
        lemma_row_offsets(row, rows - 1, stride);
        lemma_packed_plane_byte(data, stride, width, rows - 1, row, col);
    }
}

/// Copies one plane out of a decoder's buffer. Gives nothing when the rows
/// do not lie within the buffer or a row is wider than the stride. The copy
/// is never larger than the buffer.
pub fn copy_plane(data: &[u8], stride: usize, width: usize, rows: usize) -> (plane: Option<
    Vec<u8>,
>)
    ensures
        plane is Some == plane_fits(data@.len() as int, stride as int, width as int, rows as int),
        plane is Some ==> plane->0@ == packed_plane(
            data@,
            stride as int,
            width as int,
            rows as int,
        ),
{
    if rows == 0 {
        return Some(Vec::new());
    }
    if width > stride {
        return None;
    }
    let len = data.len();
    let total = match rows.checked_mul(stride) {
        Some(total) => total,
        None => {
            return None;
        },
    };
    if total > len {
        return None;
    }
    let mut out: Vec<u8> = Vec::with_capacity(total);
    let mut row: usize = 0;
    let mut base: usize = 0;
    while row < rows
        invariant
            width <= stride,
            row <= rows,
            total == rows * stride,
            total <= data@.len(),
            base == row * stride,
            out@ == packed_plane(data@, stride as int, width as int, row as int),
        decreases rows - row,
    {
        proof {
            lemma_row_offsets(row as int, rows as int, stride as int);
        }
        let ghost before = out@;
        let mut col: usize = 0;
        while col < width
            invariant
                col <= width,
                base + width <= data@.len(),
                base + width <= usize::MAX,
                out@ == before + data@.subrange(base as int, base + col),
            decreases width - col,
        {
            out.push(data[base + col]);
            assert(data@.subrange(base as int, base + col).push(data@[base + col])
                =~= data@.subrange(base as int, base + col + 1));
            assert(out@ =~= before + data@.subrange(base as int, base + col + 1));
            col += 1;
        }
        let ghost filled = out@;
        let mut pad: usize = width;
        while pad < stride
            invariant
                width <= pad <= stride,
                out@ == filled + zeros(pad - width),
            decreases stride - pad,
        {
            out.push(0u8);
            assert(out@ =~= filled + zeros(pad + 1 - width));
            pad += 1;
        }
        assert(out@ =~= filled + zeros(stride - width));
        row += 1;
        base += stride;
    }
    Some(out)
}

/// Whether the three planes of a picture fit their buffers.
pub open spec fn frame_fits(
    width: u32,
    height: u32,
    y: Seq<u8>,
    y_stride: usize,
    u: Seq<u8>,
    v: Seq<u8>,
    uv_stride: usize,
) -> bool {
    &&& plane_fits(y.len() as int, y_stride as int, width as int, height as int)
    &&& plane_fits(u.len() as int, uv_stride as int, width as int / 2, height as int / 2)
    &&& plane_fits(v.len() as int, uv_stride as int, width as int / 2, height as int / 2)
}

/// Copies a decoded picture out of the decoder's buffers: the luma plane at
/// full size, the chroma planes at half the width and half the height.
pub fn copy_frame(
    width: u32,
    height: u32,
    y: &[u8],
    y_stride: usize,
    u: &[u8],
    v: &[u8],
    uv_stride: usize,
) -> (frame: Option<DecodedFrame>)
    ensures
        frame is Some == frame_fits(width, height, y@, y_stride, u@, v@, uv_stride),
        frame matches Some(f) ==> {
            &&& f.width == width
            &&& f.height == height
            &&& f.y_stride == y_stride
            &&& f.uv_stride == uv_stride
            &&& f.y_plane@ == packed_plane(y@, y_stride as int, width as int, height as int)
            &&& f.u_plane@ == packed_plane(
                u@,
                uv_stride as int,
                width as int / 2,
                height as int / 2,
            )
            &&& f.v_plane@ == packed_plane(
                v@,
                uv_stride as int,
                width as int / 2,
                height as int / 2,
            )
        },
{
    let half_width: usize = (width / 2) as usize;
    let half_height: usize = (height / 2) as usize;
    let y_plane = match copy_plane(y, y_stride, width as usize, height as usize) {
        Some(plane) => plane,
        None => {
            return None;
        },
    };
    let u_plane = match copy_plane(u, uv_stride, half_width, half_height) {
        Some(plane) => plane,
        None => {
            return None;
        },
    };
    let v_plane = match copy_plane(v, uv_stride, half_width, half_height) {
        Some(plane) => plane,
        None => {
            return None;
        },
    };
    Some(DecodedFrame { width, height, y_stride, uv_stride, y_plane, u_plane, v_plane })
}

impl DecodedFrame {
    /// Whether the renderer has to make a new texture for this picture:
    /// it has none yet, or the one it has is of another size.
    pub fn needs_new_texture(&self, texture_size: Option<(u32, u32)>) -> (needed: bool)
        ensures
            needed == (texture_size != Some((self.width, self.height))),
    {
        match texture_size {
            Some((width, height)) => width != self.width || height != self.height,
            None => true,
        }
    }
}

} // verus!
