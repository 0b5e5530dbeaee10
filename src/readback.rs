use vstd::prelude::*;

verus! {

/// Where the rows of an image lie in its mapped memory, as the device reports.
#[derive(Clone, Copy, Debug, PartialEq, Eq, Structural)]
pub struct SubresourceLayout {
    /// Byte offset of the first row.
    pub offset: u64,
    /// Bytes of the whole image, padding included.
    pub size: u64,
    /// Bytes from the start of one row to the start of the next.
    pub row_pitch: u64,
}

/// Why a mapped image cannot be read back as a frame.
#[derive(Clone, Copy, Debug, PartialEq, Eq, Structural)]
pub enum ReadbackError {
    /// A row of pixels is longer than the row pitch (or the pitch is zero).
    RowPitchTooSmall,
    /// The image has more rows than a frame height can count.
    TooManyRows,
    /// The rows run past the end of the mapped memory.
    MappingTooSmall,
}

/// A captured frame: tightly packed RGBA rows, top to bottom.
#[derive(Debug)]
pub struct CapturedFrame {
    pub pixels: Vec<u8>,
    pub width: u32,
    pub height: u32,
}

/// Bytes of one packed row of `width` RGBA pixels.
pub open spec fn row_bytes(width: int) -> int {
    width * 4
}

/// The number of rows that the device layout describes.
pub open spec fn layout_rows(layout: SubresourceLayout) -> int {
    layout.size as int / layout.row_pitch as int
}

/// Every row of the layout, `width` pixels long, lies inside `len` mapped bytes.
pub open spec fn rows_fit(len: int, layout: SubresourceLayout, width: int, rows: int) -> bool {
    rows == 0 || layout.offset + (rows - 1) * layout.row_pitch + row_bytes(width) <= len
}

/// `out` is the frame of `rows` rows of `width` pixels read from `data`: the
/// padding at the end of each row is dropped.
pub open spec fn is_packed(
    out: Seq<u8>,
    data: Seq<u8>,
    offset: int,
    pitch: int,
    width: int,
    rows: int,
) -> bool {
    &&& out.len() == rows * row_bytes(width)
    &&& forall|y: int, x: int|
        0 <= y < rows && 0 <= x < row_bytes(width) ==> #[trigger] out[y * row_bytes(width) + x]
            == data[offset + y * pitch + x]
}

/// The error that reading `width`-pixel rows of `layout` from `len` mapped bytes
/// gives, if any.
pub open spec fn readback_error(len: int, layout: SubresourceLayout, width: int) -> Option<
    ReadbackError,
> {
    if layout.row_pitch == 0 || row_bytes(width) > layout.row_pitch {
        Some(ReadbackError::RowPitchTooSmall)
    } else if layout_rows(layout) > u32::MAX {
        Some(ReadbackError::TooManyRows)
    } else if !rows_fit(len, layout, width, layout_rows(layout)) {
        Some(ReadbackError::MappingTooSmall)
    } else {
        None
    }
}

proof fn lemma_row_index(y: int, x: int, rb: int, pitch: int, rows: int)
    requires
        0 <= y < rows,
        0 <= x < rb,
        rb <= pitch,
    ensures
        y * rb + x < rows * rb,
        y * rb + x < (y + 1) * rb,
        y * rb <= y * rb + x,
        y * pitch + x < (rows - 1) * pitch + rb,
        0 <= y * pitch,
{
    assert(y * rb + x < (y + 1) * rb) by (nonlinear_arith)
        requires x < rb;
    assert((y + 1) * rb <= rows * rb) by (nonlinear_arith)
        requires y + 1 <= rows, 0 <= rb;
    assert(y * pitch <= (rows - 1) * pitch) by (nonlinear_arith)
        requires y <= rows - 1, 0 <= pitch;
    assert(0 <= y * pitch) by (nonlinear_arith)
        requires 0 <= y, 0 <= pitch;
}

/// Reads a frame out of mapped image memory: `width` pixels per row, as many
/// rows as the layout holds, each row starting at its pitch and stripped of
/// padding.
pub fn read_back(data: &[u8], layout: SubresourceLayout, width: u32) -> (r: Result<
    CapturedFrame,
    ReadbackError,
>)
    ensures
        match r {
            Ok(frame) => {
                &&& readback_error(data@.len() as int, layout, width as int) is None
                &&& frame.width == width
                &&& frame.height == layout_rows(layout)
                &&& frame.pixels@.len() == width * frame.height * 4
                &&& is_packed(
                    frame.pixels@,
                    data@,
                    layout.offset as int,
                    layout.row_pitch as int,
                    width as int,
                    frame.height as int,
                )
            },
            Err(e) => readback_error(data@.len() as int, layout, width as int) == Some(e),
        },
{
    let rb: u64 = width as u64 * 4;
    if layout.row_pitch == 0 || rb > layout.row_pitch {
        return Err(ReadbackError::RowPitchTooSmall);
    }
    let rows64: u64 = layout.size / layout.row_pitch;
    if rows64 > u32::MAX as u64 {
        return Err(ReadbackError::TooManyRows);
    }
    let rows: u32 = rows64 as u32;
    let ghost len = data@.len() as int;
    let ghost off = layout.offset as int;
    let ghost pitch = layout.row_pitch as int;
    let n: usize = data.len();
    if rows > 0 {
        let fits = match (rows as u64 - 1).checked_mul(layout.row_pitch) {
            Some(skip) => match layout.offset.checked_add(skip) {
                Some(start) => match start.checked_add(rb) {
                    Some(end) => end <= data.len() as u64,
                    None => false,
                },
                None => false,
            },
            None => false,
        };
        if !fits {
            proof {
                assert(!rows_fit(len, layout, width as int, rows as int));
            }
            return Err(ReadbackError::MappingTooSmall);
        }
    }
    assert(rows_fit(len, layout, width as int, rows as int));
    let mut out: Vec<u8> = Vec::new();
    let mut y: u32 = 0;
    while y < rows
        invariant
            0 <= y <= rows,
            rows == layout_rows(layout),
            rb == row_bytes(width as int),
            rb <= pitch,
            pitch == layout.row_pitch,
            off == layout.offset,
            len == data@.len(),
            len <= n,
            n <= u64::MAX,
            rows_fit(len, layout, width as int, rows as int),
            out@.len() == y * rb,
            forall|yy: int, x: int|
                0 <= yy < y && 0 <= x < rb ==> #[trigger] out@[yy * rb + x] == data@[off + yy
                    * pitch + x],
        decreases rows - y,
    {
        let ghost before = out@;
        let mut x: u64 = 0;
        while x < rb
            invariant
                0 <= y < rows,
                0 <= x <= rb,
                rows == layout_rows(layout),
                rb == row_bytes(width as int),
                rb <= pitch,
                pitch == layout.row_pitch,
                off == layout.offset,
                len == data@.len(),
                len <= n,
                n <= u64::MAX,
            len <= n,
            n <= u64::MAX,
                rows_fit(len, layout, width as int, rows as int),
                out@.len() == y * rb + x,
                forall|i: int| 0 <= i < y * rb ==> out@[i] == before[i],
                forall|xx: int|
                    0 <= xx < x ==> #[trigger] out@[y * rb + xx] == data@[off + y * pitch + xx],
            decreases rb - x,
        {
            proof {
                lemma_row_index(y as int, x as int, rb as int, pitch, rows as int);
                assert(y * pitch <= (rows - 1) * pitch) by (nonlinear_arith)
                    requires y < rows, 0 <= pitch;
                assert(off + y * pitch + x < len);
            }
            let idx: u64 = layout.offset + y as u64 * layout.row_pitch + x;
            out.push(data[idx as usize]);
            x = x + 1;
        }
        proof {
            assert forall|yy: int, xx: int|
                0 <= yy < y + 1 && 0 <= xx < rb implies #[trigger] out@[yy * rb + xx] == data@[off
                + yy * pitch + xx] by {
                lemma_row_index(yy, xx, rb as int, pitch, rows as int);
                if yy < y {
                    assert((yy + 1) * rb <= y * rb) by (nonlinear_arith)
                        requires yy + 1 <= y, 0 <= rb;
                    assert(out@[yy * rb + xx] == before[yy * rb + xx]);
                }
            }
            assert(out@.len() == (y + 1) * rb) by (nonlinear_arith)
                requires out@.len() == y * rb + rb;
        }
        y = y + 1;
    }
    proof {
        assert(out@.len() == width * rows * 4) by (nonlinear_arith)
            requires out@.len() == rows * rb, rb == width * 4;
    }
    Ok(CapturedFrame { pixels: out, width, height: rows })
}

/// A layout whose size is exactly `rows` rows of its pitch holds `rows` rows:
/// a frame read from it has the height of the image.
pub proof fn lemma_exact_layout_rows(layout: SubresourceLayout, rows: nat)
    requires
        layout.row_pitch > 0,
        layout.size == layout.row_pitch * rows,
    ensures
        layout_rows(layout) == rows,
{
    assert(layout.size as int == rows as int * layout.row_pitch as int + 0) by (nonlinear_arith)
        requires layout.size == layout.row_pitch * rows;
    vstd::arithmetic::div_mod::lemma_fundamental_div_mod_converse(
        layout.size as int,
        layout.row_pitch as int,
        rows as int,
        0,
    );
}

/// The packed frame of given mapped bytes and layout is unique: two frames
/// read from the same bytes with the same layout and width are identical,
/// whichever device path (direct blit, or blit and copy) produced the bytes.
pub proof fn lemma_packed_unique(
    a: Seq<u8>,
    b: Seq<u8>,
    data: Seq<u8>,
    offset: int,
    pitch: int,
    width: int,
    rows: int,
)
    requires
        width >= 0,
        rows >= 0,
        is_packed(a, data, offset, pitch, width, rows),
        is_packed(b, data, offset, pitch, width, rows),
    ensures
        a == b,
{
    let rb = row_bytes(width);
    assert forall|i: int| 0 <= i < a.len() implies a[i] == b[i] by {
        assert(rb > 0) by (nonlinear_arith)
            requires 0 <= i < rows * rb, rows >= 0, rb == width * 4, width >= 0;
        let y = i / rb;
        let x = i % rb;
        vstd::arithmetic::div_mod::lemma_fundamental_div_mod(i, rb);
        assert(0 <= x < rb);
        assert(0 <= y < rows) by (nonlinear_arith)
            requires i == rb * y + x, 0 <= x < rb, 0 <= i < rows * rb, rb > 0;
        assert(y * rb + x == i) by (nonlinear_arith)
            requires i == rb * y + x;
        assert(a[y * row_bytes(width) + x] == data[offset + y * pitch + x]);
        assert(b[y * row_bytes(width) + x] == data[offset + y * pitch + x]);
    }
    assert(a =~= b);
}

} // verus!
