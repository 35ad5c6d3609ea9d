//! Where the pixels of a picture are: the display area within the decoded surface, and the
//! copies that bring it to the host.

use vstd::prelude::*;

use crate::driver::PlaneCopy;
use crate::frame::FrameView;
use crate::frame::RawFrame;

verus! {

/// The display area of a picture, and the size of the surface that it is decoded to.
#[derive(Debug, Clone, Copy, PartialEq, Eq)]
pub struct Geometry {
    /// Width of the display area.
    pub width: u32,
    /// Height of the display area.
    pub height: u32,
    /// Left edge of the display area.
    pub left: u32,
    /// Top edge of the display area.
    pub top: u32,
    /// Width of the surface.
    pub surface_width: u32,
    /// Height of the surface.
    pub surface_height: u32,
}

/// `n`, rounded up to an even number.
pub open spec fn round_up_even(n: nat) -> nat {
    (n + 1) / 2 * 2
}

impl Geometry {
    /// Whether the display area is not empty, and is placed as it should be.
    pub open spec fn valid(self) -> bool {
        &&& self.width > 0
        &&& self.height > 0
        &&& self.on_surface()
    }

    /// Whether the display area lies within the surface, and starts where a chroma sample starts.
    pub open spec fn on_surface(self) -> bool {
        &&& self.left + self.width <= self.surface_width
        &&& self.top + self.height <= self.surface_height
        &&& self.left % 2 == 0
        &&& self.top % 2 == 0
    }

    /// Bytes in a row of the chroma plane: a pair for each two columns.
    pub open spec fn chroma_row_bytes(self) -> nat {
        round_up_even(self.width as nat)
    }

    /// The row of the mapped surface in which its chroma plane starts.
    pub open spec fn chroma_start(self) -> nat {
        round_up_even(self.surface_height as nat)
    }

    /// Whether the sizes of a frame with the given pitch can be computed in machine integers.
    pub open spec fn measures(self, pitch: nat) -> bool {
        &&& self.surface_height < u32::MAX
        &&& self.chroma_start() + self.top / 2 <= usize::MAX
        &&& self.chroma_row_bytes() <= usize::MAX
        &&& crate::frame::luma_bytes(pitch, self.height as nat) + crate::frame::chroma_bytes(
            pitch,
            self.height as nat,
        ) <= usize::MAX
    }
}

/// A picture that was mapped with a certain pitch.
#[derive(Debug)]
pub struct PictureLayout {
    geometry: Geometry,
    pitch: u32,
}

/// What a [`PictureLayout`] is.
pub struct PictureLayoutView {
    pub geometry: Geometry,
    pub pitch: u32,
}

impl View for PictureLayout {
    type V = PictureLayoutView;

    closed spec fn view(&self) -> PictureLayoutView {
        PictureLayoutView { geometry: self.geometry, pitch: self.pitch }
    }
}

/// The copy of the luma plane: the display area, row by row.
pub open spec fn luma_copy(layout: PictureLayoutView, device_ptr: u64) -> PlaneCopy {
    let geometry = layout.geometry;
    PlaneCopy {
        src_device: device_ptr,
        src_pitch: layout.pitch as usize,
        src_x_in_bytes: geometry.left as usize,
        src_y: geometry.top as usize,
        dst_offset: 0,
        dst_len: crate::frame::luma_bytes(layout.pitch as nat, geometry.height as nat) as usize,
        dst_pitch: layout.pitch as usize,
        width_in_bytes: geometry.width as usize,
        height: geometry.height as usize,
    }
}

/// The copy of the chroma plane: the chroma samples of the display area, row by row. A sample
/// pair takes two bytes, so the left edge is as many bytes in as in the luma plane.
pub open spec fn chroma_copy(layout: PictureLayoutView, device_ptr: u64) -> PlaneCopy {
    let geometry = layout.geometry;
    PlaneCopy {
        src_device: device_ptr,
        src_pitch: layout.pitch as usize,
        src_x_in_bytes: geometry.left as usize,
        src_y: (geometry.chroma_start() + geometry.top / 2) as usize,
        dst_offset: crate::frame::luma_bytes(layout.pitch as nat, geometry.height as nat) as usize,
        dst_len: crate::frame::chroma_bytes(layout.pitch as nat, geometry.height as nat) as usize,
        dst_pitch: layout.pitch as usize,
        width_in_bytes: geometry.chroma_row_bytes() as usize,
        height: crate::frame::chroma_rows(geometry.height as nat) as usize,
    }
}

/// A plane of `rows` rows of `pitch` bytes each, of which `row_bytes` were copied. All else is 0.
pub open spec fn plane(bytes: Seq<u8>, pitch: nat, rows: nat, row_bytes: nat) -> Seq<u8> {
    Seq::new(
        pitch * rows,
        |i: int|
            if i % (pitch as int) < row_bytes && i < bytes.len() {
                bytes[i]
            } else {
                0
            },
    )
}

/// The luma plane that a copy makes.
pub open spec fn luma_of(layout: PictureLayoutView, bytes: Seq<u8>) -> Seq<u8> {
    plane(
        bytes,
        layout.pitch as nat,
        layout.geometry.height as nat,
        layout.geometry.width as nat,
    )
}

/// The chroma plane that a copy makes.
pub open spec fn chroma_of(layout: PictureLayoutView, bytes: Seq<u8>) -> Seq<u8> {
    plane(
        bytes,
        layout.pitch as nat,
        crate::frame::chroma_rows(layout.geometry.height as nat),
        layout.geometry.chroma_row_bytes(),
    )
}

/// The frame that two copied planes make.
pub open spec fn frame_of(layout: PictureLayoutView, luma: Seq<u8>, chroma: Seq<u8>) -> FrameView {
    FrameView {
        width: layout.geometry.width,
        height: layout.geometry.height,
        pitch: layout.pitch as usize,
        data: luma_of(layout, luma) + chroma_of(layout, chroma),
    }
}

/// Makes a plane of what was copied: what lies beyond the copied part of a row becomes 0.
fn make_plane(bytes: Vec<u8>, pitch: usize, rows: usize, row_bytes: usize) -> (made: Vec<u8>)
    requires
        pitch * rows <= usize::MAX,
    ensures
        made@ == plane(bytes@, pitch as nat, rows as nat, row_bytes as nat),
{
    let ghost copied = bytes@;
    let mut made = bytes;
    let len: usize = pitch * rows;
    made.resize(len, 0);
    let ghost full = made@;
    let ghost mut row: int = 0;
    let mut column: usize = 0;
    let mut i: usize = 0;
    while i < len
        invariant
            len == pitch * rows,
            i <= len,
            i == row * pitch + column,
            len > 0 ==> column < pitch,
            made@.len() == len,
            full.len() == len,
            forall|k: int|
                0 <= k < len ==> #[trigger] full[k] == (if k < copied.len() {
                    copied[k]
                } else {
                    0
                }),
            forall|k: int| i <= k < len ==> #[trigger] made@[k] == full[k],
            forall|k: int|
                0 <= k < i ==> #[trigger] made@[k] == (if k % (pitch as int) < row_bytes {
                    full[k]
                } else {
                    0
                }),
        decreases len - i,
    {
        proof {
            vstd::arithmetic::div_mod::lemma_fundamental_div_mod_converse(
                i as int,
                pitch as int,
                row,
                column as int,
            );
        }
        if column >= row_bytes {
            made[i] = 0;
        }
        i = i + 1;
        column = column + 1;
        if column == pitch {
            column = 0;
            proof {
                assert((row + 1) * pitch == row * pitch + pitch) by (nonlinear_arith);
                row = row + 1;
            }
        }
    }
    assert(made@ =~= plane(copied, pitch as nat, rows as nat, row_bytes as nat));
    made
}

impl PictureLayout {
    #[verifier::type_invariant]
    spec fn can_be_measured(self) -> bool {
        self.geometry.measures(self.pitch as nat)
    }

    fn y_size(&self) -> (size: usize)
        ensures
            size == crate::frame::luma_bytes(self@.pitch as nat, self@.geometry.height as nat),
    {
        proof {
            use_type_invariant(self);
        }
        self.pitch as usize * self.geometry.height as usize
    }

    fn uv_size(&self) -> (size: usize)
        ensures
            size == crate::frame::chroma_bytes(self@.pitch as nat, self@.geometry.height as nat),
    {
        proof {
            use_type_invariant(self);
        }
        self.pitch as usize * crate::frame::count_chroma_rows(self.geometry.height)
    }

    /// The layout of a picture that was mapped with `pitch`.
    pub fn new(geometry: Geometry, pitch: u32) -> (layout: Self)
        requires
            geometry.measures(pitch as nat),
        ensures
            layout@ == (PictureLayoutView { geometry, pitch }),
    {
        PictureLayout { geometry, pitch }
    }

    /// The copy of the luma plane.
    pub fn luma_copy(&self, device_ptr: u64) -> (copy: PlaneCopy)
        ensures
            copy == luma_copy(self@, device_ptr),
    {
        proof {
            use_type_invariant(self);
        }
        PlaneCopy {
            src_device: device_ptr,
            src_pitch: self.pitch as usize,
            src_x_in_bytes: self.geometry.left as usize,
            src_y: self.geometry.top as usize,
            dst_offset: 0,
            dst_len: self.y_size(),
            dst_pitch: self.pitch as usize,
            width_in_bytes: self.geometry.width as usize,
            height: self.geometry.height as usize,
        }
    }

    /// The copy of the chroma plane.
    pub fn chroma_copy(&self, device_ptr: u64) -> (copy: PlaneCopy)
        ensures
            copy == chroma_copy(self@, device_ptr),
    {
        proof {
            use_type_invariant(self);
        }
        let surface_height: u32 = self.geometry.surface_height;
        let aligned_height: u32 = surface_height + surface_height % 2;
        let top: usize = self.geometry.top as usize;
        let width: usize = self.geometry.width as usize;
        PlaneCopy {
            src_device: device_ptr,
            src_pitch: self.pitch as usize,
            src_x_in_bytes: self.geometry.left as usize,
            src_y: aligned_height as usize + top / 2,
            dst_offset: self.y_size(),
            dst_len: self.uv_size(),
            dst_pitch: self.pitch as usize,
            width_in_bytes: width + width % 2,
            height: crate::frame::count_chroma_rows(self.geometry.height),
        }
    }

    /// Makes a frame of the two planes that were copied.
    pub fn frame(self, luma: Vec<u8>, chroma: Vec<u8>) -> (frame: RawFrame)
        ensures
            frame@ == frame_of(self@, luma@, chroma@),
    {
        proof {
            use_type_invariant(&self);
        }
        let pitch: usize = self.pitch as usize;
        let width: usize = self.geometry.width as usize;
        let rows: usize = crate::frame::count_chroma_rows(self.geometry.height);
        let mut data = make_plane(luma, pitch, self.geometry.height as usize, width);
        let mut chroma = make_plane(chroma, pitch, rows, width + width % 2);
        data.append(&mut chroma);
        RawFrame::new(self.geometry.width, self.geometry.height, self.pitch as usize, data)
    }
}

/// A copy takes rows `src_y` to `src_y + height` and bytes `src_x_in_bytes` to
/// `src_x_in_bytes + width_in_bytes` of each. Whether these lie within `rows` rows from row
/// `first` on.
pub open spec fn reads_within(copy: PlaneCopy, first: nat, rows: nat) -> bool {
    &&& first <= copy.src_y
    &&& copy.src_y + copy.height <= first + rows
    &&& copy.src_x_in_bytes + copy.width_in_bytes <= copy.src_pitch
}

/// Whether a copy stays within its plane of the host frame: row `r` goes to `width_in_bytes`
/// bytes from `r * dst_pitch` on.
pub open spec fn writes_within(copy: PlaneCopy) -> bool {
    &&& copy.width_in_bytes <= copy.dst_pitch
    &&& copy.height * copy.dst_pitch == copy.dst_len
}

/// The copies of a picture with a valid geometry read just the luma plane and just the chroma
/// plane of the mapped surface, and write just the two planes of the frame, which follow each
/// other. The mapped surface has as many luma rows as its height rounded up to an even number,
/// half as many chroma rows, and rows that are long enough for its width rounded up likewise.
pub proof fn copies_stay_within_their_planes(layout: PictureLayoutView, device_ptr: u64)
    requires
        layout.geometry.valid(),
        layout.geometry.measures(layout.pitch as nat),
        round_up_even(layout.geometry.surface_width as nat) <= layout.pitch,
    ensures
        ({
            let rows = round_up_even(layout.geometry.surface_height as nat);
            let luma = luma_copy(layout, device_ptr);
            let chroma = chroma_copy(layout, device_ptr);
            &&& reads_within(luma, 0, rows)
            &&& reads_within(chroma, rows, rows / 2)
            &&& writes_within(luma)
            &&& writes_within(chroma)
            &&& luma.dst_offset == 0
            &&& chroma.dst_offset == luma.dst_len
        }),
{
    let geometry = layout.geometry;
    let pitch = layout.pitch as nat;
    let height = geometry.height as nat;
    assert(height * pitch == pitch * height) by (nonlinear_arith);
    let rows = crate::frame::chroma_rows(height);
    assert(rows * pitch == pitch * rows) by (nonlinear_arith);
}

/// The chroma copy takes each chroma sample of the display area: one pair of bytes for each two
/// columns and one row for each two rows, none left out at an odd edge.
pub proof fn chroma_copy_covers_odd_edges(layout: PictureLayoutView, device_ptr: u64)
    requires
        layout.geometry.measures(layout.pitch as nat),
    ensures
        ({
            let copy = chroma_copy(layout, device_ptr);
            &&& copy.width_in_bytes % 2 == 0
            &&& layout.geometry.width <= copy.width_in_bytes <= layout.geometry.width + 1
            &&& layout.geometry.height <= 2 * copy.height <= layout.geometry.height + 1
        }),
{
}

/// A frame has the dimensions of the display area, and just the data that its planes take.
pub proof fn frame_has_the_display_area(layout: PictureLayoutView, luma: Seq<u8>, chroma: Seq<u8>)
    ensures
        frame_of(layout, luma, chroma).well_formed(),
        frame_of(layout, luma, chroma).width == layout.geometry.width,
        frame_of(layout, luma, chroma).height == layout.geometry.height,
        frame_of(layout, luma, chroma).luma() == luma_of(layout, luma),
        frame_of(layout, luma, chroma).chroma() == chroma_of(layout, chroma),
{
    let y = luma_of(layout, luma);
    let uv = chroma_of(layout, chroma);
    assert((y + uv).take(y.len() as int) =~= y);
    assert((y + uv).skip(y.len() as int) =~= uv);
}

/// Where the byte in a column of a row of a plane lies.
pub open spec fn place(pitch: nat, row: int, column: int) -> int {
    row * pitch + column
}

/// The byte in a column of a row of a plane.
pub open spec fn sample(plane: Seq<u8>, pitch: nat, row: int, column: int) -> u8 {
    plane[place(pitch, row, column)]
}

proof fn row_is_within(pitch: nat, rows: nat, width: nat, row: int, column: int)
    requires
        width <= pitch,
        0 <= row < rows,
        0 <= column < width,
    ensures
        0 <= row * pitch <= place(pitch, row, column) < (row + 1) * pitch <= pitch * rows,
{
    assert(0 <= row * pitch && (row + 1) * pitch == row * pitch + pitch && (row + 1) * pitch
        <= pitch * rows) by (nonlinear_arith)
        requires
            0 <= row < rows,
    ;
}

/// If the rows of the mapped surface are long enough for its width rounded up to an even number,
/// the stride of a frame is not less than its width. Then every row of the display area lies
/// within the stride of its plane, in the luma plane and in the chroma plane.
pub proof fn rows_lie_within_the_stride(layout: PictureLayoutView, luma: Seq<u8>, chroma: Seq<u8>)
    requires
        layout.geometry.on_surface(),
        round_up_even(layout.geometry.surface_width as nat) <= layout.pitch,
    ensures
        ({
            let frame = frame_of(layout, luma, chroma);
            let pitch = frame.pitch as nat;
            let rows = crate::frame::chroma_rows(frame.height as nat);
            &&& frame.width <= layout.geometry.chroma_row_bytes() <= pitch
            &&& frame.luma().len() == pitch * frame.height
            &&& frame.chroma().len() == pitch * rows
            &&& forall|row: int, column: int|
                0 <= row < frame.height && 0 <= column < frame.width ==> {
                    row * pitch <= #[trigger] place(pitch, row, column) < (row + 1) * pitch
                        <= frame.luma().len()
                }
            &&& forall|row: int, column: int|
                0 <= row < rows && 0 <= column < layout.geometry.chroma_row_bytes() ==> {
                    row * pitch <= #[trigger] place(pitch, row, column) < (row + 1) * pitch
                        <= frame.chroma().len()
                }
        }),
{
    let frame = frame_of(layout, luma, chroma);
    let pitch = frame.pitch as nat;
    let rows = crate::frame::chroma_rows(frame.height as nat);
    let row_bytes = layout.geometry.chroma_row_bytes();
    frame_has_the_display_area(layout, luma, chroma);
    assert forall|row: int, column: int| 0 <= row < frame.height && 0 <= column < frame.width implies {
        row * pitch <= #[trigger] place(pitch, row, column) < (row + 1) * pitch
            <= frame.luma().len()
    } by {
        row_is_within(pitch, frame.height as nat, frame.width as nat, row, column);
    }
    assert forall|row: int, column: int| 0 <= row < rows && 0 <= column < row_bytes implies {
        row * pitch <= #[trigger] place(pitch, row, column) < (row + 1) * pitch
            <= frame.chroma().len()
    } by {
        row_is_within(pitch, rows, row_bytes, row, column);
    }
}

proof fn column_of_a_place(pitch: nat, row: int, column: int)
    requires
        0 <= row,
        0 <= column < pitch,
    ensures
        place(pitch, row, column) % (pitch as int) == column,
{
    vstd::arithmetic::div_mod::lemma_fundamental_div_mod_converse(
        place(pitch, row, column),
        pitch as int,
        row,
        column,
    );
}

/// What a frame holds beyond the rows of the display area is 0, whatever the copies have left
/// there: nothing but the display area comes out.
pub proof fn row_padding_is_zero(layout: PictureLayoutView, luma: Seq<u8>, chroma: Seq<u8>)
    ensures
        ({
            let frame = frame_of(layout, luma, chroma);
            let pitch = frame.pitch as nat;
            &&& forall|row: int, column: int|
                0 <= row < frame.height && frame.width <= column < pitch ==> #[trigger] sample(
                    frame.luma(),
                    pitch,
                    row,
                    column,
                ) == 0
            &&& forall|row: int, column: int|
                0 <= row < crate::frame::chroma_rows(frame.height as nat)
                    && layout.geometry.chroma_row_bytes() <= column < pitch ==> #[trigger] sample(
                    frame.chroma(),
                    pitch,
                    row,
                    column,
                ) == 0
        }),
{
    let frame = frame_of(layout, luma, chroma);
    let pitch = frame.pitch as nat;
    let rows = crate::frame::chroma_rows(frame.height as nat);
    frame_has_the_display_area(layout, luma, chroma);
    assert forall|row: int, column: int|
        0 <= row < frame.height && frame.width <= column < pitch implies #[trigger] sample(
        frame.luma(),
        pitch,
        row,
        column,
    ) == 0 by {
        row_is_within(pitch, frame.height as nat, pitch, row, column);
        column_of_a_place(pitch, row, column);
    }
    assert forall|row: int, column: int|
        0 <= row < rows && layout.geometry.chroma_row_bytes() <= column
            < pitch implies #[trigger] sample(frame.chroma(), pitch, row, column) == 0 by {
        row_is_within(pitch, rows, pitch, row, column);
        column_of_a_place(pitch, row, column);
    }
}

/// Whether `bytes` is what a copy makes of a mapped surface: each row that it takes goes to a row
/// of the plane.
pub open spec fn copied_from(copy: PlaneCopy, surface: Seq<u8>, bytes: Seq<u8>) -> bool {
    &&& bytes.len() == copy.dst_len
    &&& forall|row: int, column: int|
        0 <= row < copy.height && 0 <= column < copy.width_in_bytes ==> #[trigger] sample(
            bytes,
            copy.dst_pitch as nat,
            row,
            column,
        ) == sample(
            surface,
            copy.src_pitch as nat,
            copy.src_y + row,
            copy.src_x_in_bytes + column,
        )
}

/// The pixels of a frame are those of the display area. With `surface` as the mapped surface, byte
/// `x` of row `y` of the luma plane is the byte that lies as far right of and below the top left
/// corner of the display area; and likewise in the chroma plane, which starts below the luma rows
/// of the surface and has a row for each two of them.
pub proof fn frame_shows_the_display_area(
    layout: PictureLayoutView,
    device_ptr: u64,
    surface: Seq<u8>,
    luma: Seq<u8>,
    chroma: Seq<u8>,
)
    requires
        layout.geometry.on_surface(),
        layout.geometry.measures(layout.pitch as nat),
        round_up_even(layout.geometry.surface_width as nat) <= layout.pitch,
        copied_from(luma_copy(layout, device_ptr), surface, luma),
        copied_from(chroma_copy(layout, device_ptr), surface, chroma),
    ensures
        ({
            let geometry = layout.geometry;
            let frame = frame_of(layout, luma, chroma);
            let pitch = frame.pitch as nat;
            &&& forall|y: int, x: int|
                0 <= y < frame.height && 0 <= x < frame.width ==> #[trigger] sample(
                    frame.luma(),
                    pitch,
                    y,
                    x,
                ) == sample(surface, pitch, geometry.top + y, geometry.left + x)
            &&& forall|y: int, x: int|
                0 <= y < crate::frame::chroma_rows(frame.height as nat) && 0 <= x
                    < geometry.chroma_row_bytes() ==> #[trigger] sample(
                    frame.chroma(),
                    pitch,
                    y,
                    x,
                ) == sample(
                    surface,
                    pitch,
                    geometry.chroma_start() + geometry.top as int / 2 + y,
                    geometry.left + x,
                )
        }),
{
    let geometry = layout.geometry;
    let frame = frame_of(layout, luma, chroma);
    let pitch = frame.pitch as nat;
    let rows = crate::frame::chroma_rows(frame.height as nat);
    let luma_plane = luma_copy(layout, device_ptr);
    let chroma_plane = chroma_copy(layout, device_ptr);
    frame_has_the_display_area(layout, luma, chroma);
    assert forall|y: int, x: int| 0 <= y < frame.height && 0 <= x < frame.width implies #[trigger] sample(
        frame.luma(),
        pitch,
        y,
        x,
    ) == sample(surface, pitch, geometry.top + y, geometry.left + x) by {
        row_is_within(pitch, frame.height as nat, frame.width as nat, y, x);
        column_of_a_place(pitch, y, x);
        assert(sample(luma, luma_plane.dst_pitch as nat, y, x) == sample(frame.luma(), pitch, y, x));
    }
    assert forall|y: int, x: int|
        0 <= y < rows && 0 <= x < geometry.chroma_row_bytes() implies #[trigger] sample(
        frame.chroma(),
        pitch,
        y,
        x,
    ) == sample(
        surface,
        pitch,
        geometry.chroma_start() + geometry.top as int / 2 + y,
        geometry.left + x,
    ) by {
        row_is_within(pitch, rows, geometry.chroma_row_bytes(), y, x);
        column_of_a_place(pitch, y, x);
        assert(sample(chroma, chroma_plane.dst_pitch as nat, y, x) == sample(
            frame.chroma(),
            pitch,
            y,
            x,
        ));
    }
}

} // verus!
