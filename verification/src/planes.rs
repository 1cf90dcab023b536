//! Copying converted picture planes into tightly packed frames.

use vstd::prelude::*;
use vstd::slice::slice_subrange;
use crate::model::VideoFrame;

verus! {

/// The first `rows` rows of a plane, each `row_bytes` long and `stride`
/// bytes after the one before, laid one behind the other.
pub open spec fn packed_rows(data: Seq<u8>, stride: int, row_bytes: int, rows: int) -> Seq<u8>
    decreases rows,
{
    if rows <= 0 {
        Seq::empty()
    } else {
        packed_rows(data, stride, row_bytes, rows - 1) + data.subrange(
            (rows - 1) * stride,
            (rows - 1) * stride + row_bytes,
        )
    }
}

/// A plane of `len` bytes holds `rows` rows when the last of them ends
/// inside it.
pub open spec fn plane_covers(len: int, stride: int, row_bytes: int, rows: int) -> bool {
    (rows - 1) * stride + row_bytes <= len
}

/// A picture can be packed when it is not empty, its packed size fits the
/// address space and the plane holds all its rows.
pub open spec fn packable(len: int, stride: int, width: int, height: int) -> bool {
    &&& width > 0
    &&& height > 0
    &&& width * height * 4 <= usize::MAX
    &&& plane_covers(len, stride, width * 4, height)
}

/// The packed rows have `rows * row_bytes` bytes.
pub proof fn lemma_packed_rows_len(data: Seq<u8>, stride: int, row_bytes: int, rows: int)
    requires
        rows >= 0,
        row_bytes >= 0,
        stride >= 0,
        rows > 0 ==> plane_covers(data.len() as int, stride, row_bytes, rows),
    ensures
        packed_rows(data, stride, row_bytes, rows).len() == rows * row_bytes,
    decreases rows,
{
    if rows > 0 {
        assert((rows - 2) * stride <= (rows - 1) * stride) by (nonlinear_arith)
            requires
                stride >= 0,
        ;
        assert(0 <= (rows - 1) * stride) by (nonlinear_arith)
            requires
                stride >= 0,
                rows >= 1,
        ;
        lemma_packed_rows_len(data, stride, row_bytes, rows - 1);
        assert(rows * row_bytes == (rows - 1) * row_bytes + row_bytes) by (nonlinear_arith);
    } else {
        assert(rows * row_bytes == 0) by (nonlinear_arith)
            requires
                rows == 0,
        ;
    }
}

/// Copies a converted RGBA plane, whose rows start `stride` bytes apart,
/// into a buffer without padding. `None` when the picture is empty or the
/// plane is too short for it.
pub fn pack_rgba_plane(data: &[u8], stride: usize, width: u32, height: u32) -> (packed: Option<
    Vec<u8>,
>)
    ensures
        packed.is_some() == packable(
            data@.len() as int,
            stride as int,
            width as int,
            height as int,
        ),
        packed matches Some(buf) ==> {
            &&& buf@ == packed_rows(data@, stride as int, width * 4, height as int)
            &&& buf@.len() == width * height * 4
        },
{
    if width == 0 || height == 0 {
        return None;
    }
    assert(width * 4 <= width * height * 4 <= 0xffff_ffff * 0xffff_ffff * 4) by (nonlinear_arith)
        requires
            0 <= width <= 0xffff_ffff,
            1 <= height <= 0xffff_ffff,
    ;
    let total: u128 = (width as u128) * (height as u128) * 4;
    if total > usize::MAX as u128 {
        return None;
    }
    let rows: usize = height as usize;
    let row_bytes: usize = (width as usize) * 4;
    assert((height - 1) * stride <= 0xffff_ffff * 0xffff_ffff_ffff_ffff) by (nonlinear_arith)
        requires
            1 <= height <= 0xffff_ffff,
            0 <= stride <= 0xffff_ffff_ffff_ffff,
    ;
    let last_end: u128 = ((height - 1) as u128) * (stride as u128) + (row_bytes as u128);
    if last_end > data.len() as u128 {
        return None;
    }
    let len: usize = data.len();
    let mut buf: Vec<u8> = Vec::with_capacity(total as usize);
    let mut y: usize = 0;
    while y < rows
        invariant
            y <= rows,
            rows == height,
            row_bytes == width * 4,
            len == data@.len(),
            (rows - 1) * stride + row_bytes <= len,
            buf@ == packed_rows(data@, stride as int, row_bytes as int, y as int),
        decreases rows - y,
    {
        assert(0 <= y * stride <= (rows - 1) * stride) by (nonlinear_arith)
            requires
                0 <= y <= rows - 1,
                stride >= 0,
        ;
        let start: usize = y * stride;
        let end: usize = start + row_bytes;
        let row = slice_subrange(data, start, end);
        let ghost before = buf@;
        buf.extend_from_slice(row);
        assert(buf@ =~= before + data@.subrange(start as int, end as int));
        y = y + 1;
    }
    proof {
        lemma_packed_rows_len(data@, stride as int, row_bytes as int, rows as int);
        assert(rows * row_bytes == width * height * 4) by (nonlinear_arith)
            requires
                rows == height,
                row_bytes == width * 4,
        ;
    }
    Some(buf)
}

/// Builds the frame published for a converted picture: its packed pixels,
/// its size and its timestamp. The total duration is not known on this
/// path. `None` exactly when `pack_rgba_plane` gives none.
pub fn frame_from_plane(
    data: &[u8],
    stride: usize,
    width: u32,
    height: u32,
    pts_ms: Option<i64>,
) -> (frame: Option<VideoFrame>)
    ensures
        frame.is_some() == packable(
            data@.len() as int,
            stride as int,
            width as int,
            height as int,
        ),
        frame matches Some(f) ==> {
            &&& f.wf()
            &&& f.width == width
            &&& f.height == height
            &&& f.rgba@ == packed_rows(data@, stride as int, width * 4, height as int)
            &&& f.pts_ms == pts_ms
            &&& f.duration_ms.is_none()
        },
{
    match pack_rgba_plane(data, stride, width, height) {
        Some(rgba) => Some(VideoFrame { width, height, rgba, pts_ms, duration_ms: None }),
        None => None,
    }
}

} // verus!
