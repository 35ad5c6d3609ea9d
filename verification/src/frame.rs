//! Decoded frames.

use vstd::prelude::*;

verus! {

/// Number of chroma rows that belong to `height` rows of a 4:2:0 picture.
pub open spec fn chroma_rows(height: nat) -> nat {
    (height + 1) / 2
}

/// Bytes in the luma plane of a frame.
pub open spec fn luma_bytes(pitch: nat, height: nat) -> nat {
    pitch * height
}

/// Bytes in the chroma plane of a frame.
pub open spec fn chroma_bytes(pitch: nat, height: nat) -> nat {
    pitch * chroma_rows(height)
}

/// What a frame is: an NV12 picture. Each row of a plane takes `pitch` bytes; the luma plane
/// comes first, and the interleaved chroma plane follows.
#[verifier::ext_equal]
pub struct FrameView {
    pub width: u32,
    pub height: u32,
    pub pitch: usize,
    pub data: Seq<u8>,
}

impl FrameView {
    /// Whether the data is just what the two planes take.
    pub open spec fn well_formed(self) -> bool {
        self.data.len() == luma_bytes(self.pitch as nat, self.height as nat) + chroma_bytes(
            self.pitch as nat,
            self.height as nat,
        )
    }

    /// The luma plane.
    pub open spec fn luma(self) -> Seq<u8> {
        self.data.take(luma_bytes(self.pitch as nat, self.height as nat) as int)
    }

    /// The chroma plane.
    pub open spec fn chroma(self) -> Seq<u8> {
        self.data.skip(luma_bytes(self.pitch as nat, self.height as nat) as int)
    }
}

pub(crate) fn count_chroma_rows(height: u32) -> (rows: usize)
    ensures
        rows == chroma_rows(height as nat),
{
    (height / 2 + height % 2) as usize
}

/// A decoded frame that is not yet matched with the user data that came with its packet.
#[derive(Debug)]
pub struct RawFrame {
    width: u32,
    height: u32,
    pitch: usize,
    data: Vec<u8>,
}

impl View for RawFrame {
    type V = FrameView;

    closed spec fn view(&self) -> FrameView {
        FrameView {
            width: self.width,
            height: self.height,
            pitch: self.pitch,
            data: self.data@,
        }
    }
}

impl RawFrame {
    #[verifier::type_invariant]
    spec fn holds_its_planes(self) -> bool {
        self@.well_formed()
    }

    /// A frame from its parts.
    pub fn new(width: u32, height: u32, pitch: usize, data: Vec<u8>) -> (frame: Self)
        requires
            (FrameView { width, height, pitch, data: data@ }).well_formed(),
        ensures
            frame@ == (FrameView { width, height, pitch, data: data@ }),
            frame@.well_formed(),
    {
        RawFrame { width, height, pitch, data }
    }

    /// Matches the frame with user data.
    pub fn with_user_data<T>(self, user_data: T) -> (frame: DecodedFrame<T>)
        ensures
            frame@ == (DecodedFrameView { frame: self@, user_data }),
            self@.well_formed(),
    {
        proof {
            use_type_invariant(&self);
        }
        DecodedFrame {
            width: self.width,
            height: self.height,
            pitch: self.pitch,
            data: self.data,
            user_data,
        }
    }
}

/// A decoded video frame, in NV12.
///
/// Dimensions and pixels are those of the display area of the picture.
#[derive(Debug)]
pub struct DecodedFrame<T> {
    width: u32,
    height: u32,
    pitch: usize,
    data: Vec<u8>,
    user_data: T,
}

/// What a [`DecodedFrame`] is: a frame, and the user data that came with its packet.
#[verifier::ext_equal]
pub struct DecodedFrameView<T> {
    pub frame: FrameView,
    pub user_data: T,
}

impl<T> View for DecodedFrame<T> {
    type V = DecodedFrameView<T>;

    closed spec fn view(&self) -> DecodedFrameView<T> {
        DecodedFrameView {
            frame: FrameView {
                width: self.width,
                height: self.height,
                pitch: self.pitch,
                data: self.data@,
            },
            user_data: self.user_data,
        }
    }
}

impl<T: Clone> Clone for DecodedFrame<T> {
    fn clone(&self) -> (copy: Self)
        ensures
            copy@.frame == self@.frame,
            vstd::pervasive::cloned(self@.user_data, copy@.user_data),
    {
        proof {
            use_type_invariant(self);
        }
        let data = self.data.clone();
        assert(data@ =~= self.data@);
        DecodedFrame {
            width: self.width,
            height: self.height,
            pitch: self.pitch,
            data,
            user_data: self.user_data.clone(),
        }
    }
}

impl<T> DecodedFrame<T> {
    #[verifier::type_invariant]
    spec fn holds_its_planes(self) -> bool {
        self@.frame.well_formed()
    }

    /// The luma plane.
    pub fn y_plane(&self) -> (plane: &[u8])
        ensures
            plane@ == self@.frame.luma(),
            plane@.len() == luma_bytes(self@.frame.pitch as nat, self@.frame.height as nat),
    {
        proof {
            use_type_invariant(self);
        }
        assert(self.data@.len() == self.data.len());
        let y_size: usize = self.pitch * self.height as usize;
        vstd::slice::slice_subrange(self.data.as_slice(), 0, y_size)
    }

    /// The chroma plane, U and V interleaved.
    pub fn uv_plane(&self) -> (plane: &[u8])
        ensures
            plane@ == self@.frame.chroma(),
            plane@.len() == chroma_bytes(self@.frame.pitch as nat, self@.frame.height as nat),
    {
        proof {
            use_type_invariant(self);
        }
        assert(self.data@.len() == self.data.len());
        let y_size: usize = self.pitch * self.height as usize;
        let uv_size: usize = self.pitch * count_chroma_rows(self.height);
        vstd::slice::slice_subrange(self.data.as_slice(), y_size, y_size + uv_size)
    }

    /// Bytes from one row of the luma plane to the next.
    pub fn y_stride(&self) -> (stride: usize)
        ensures
            stride == self@.frame.pitch,
    {
        self.pitch
    }

    /// Bytes from one row of the chroma plane to the next.
    pub fn uv_stride(&self) -> (stride: usize)
        ensures
            stride == self@.frame.pitch,
    {
        self.pitch
    }

    /// Width of the display area.
    pub fn width(&self) -> (width: usize)
        ensures
            width == self@.frame.width,
    {
        self.width as usize
    }

    /// Height of the display area.
    pub fn height(&self) -> (height: usize)
        ensures
            height == self@.frame.height,
    {
        self.height as usize
    }

    /// The user data that came with the packet of the frame.
    pub fn user_data(&self) -> (user_data: &T)
        ensures
            *user_data == self@.user_data,
    {
        &self.user_data
    }

    /// Takes the frame apart into its data and the user data.
    pub fn into_parts(self) -> (parts: (Vec<u8>, T))
        ensures
            parts.0@ == self@.frame.data,
            parts.1 == self@.user_data,
            self@.frame.well_formed(),
    {
        proof {
            use_type_invariant(&self);
        }
        (self.data, self.user_data)
    }
}

/// The two planes of a frame, one after the other, are all of its data.
pub proof fn planes_make_up_the_frame(frame: FrameView)
    requires
        frame.well_formed(),
    ensures
        frame.luma() + frame.chroma() == frame.data,
        frame.luma().len() == luma_bytes(frame.pitch as nat, frame.height as nat),
        frame.chroma().len() == chroma_bytes(frame.pitch as nat, frame.height as nat),
{
    assert(frame.luma() + frame.chroma() =~= frame.data);
}

} // verus!
