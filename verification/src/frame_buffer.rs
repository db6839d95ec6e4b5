//! The pixel buffer that the renderer paints and the frontend reads.

use vstd::prelude::*;

verus! {

/// The number of bits of a pixel.
#[derive(Clone, Copy, Debug, PartialEq, Eq)]
pub enum ColorDepth {
    /// 16 bit RGB565.
    Bits16,
    /// 32 bit XRGB8888.
    Bits32,
}

impl ColorDepth {
    /// The depth that the setting of the core selects.
    pub fn from_setting(color_depth_32: bool) -> (depth: ColorDepth)
        ensures
            depth == if color_depth_32 {
                ColorDepth::Bits32
            } else {
                ColorDepth::Bits16
            },
    {
        if color_depth_32 {
            ColorDepth::Bits32
        } else {
            ColorDepth::Bits16
        }
    }

    /// The number of bytes of a pixel.
    pub open spec fn pixel_bytes(self) -> nat {
        match self {
            ColorDepth::Bits16 => 2,
            ColorDepth::Bits32 => 4,
        }
    }

    /// The number of bytes of a pixel.
    pub fn bytes_per_pixel(self) -> (bytes: usize)
        ensures
            bytes == self.pixel_bytes(),
    {
        match self {
            ColorDepth::Bits16 => 2,
            ColorDepth::Bits32 => 4,
        }
    }
}

/// A frame buffer cannot be had.
#[derive(Clone, Copy, Debug, PartialEq, Eq)]
pub enum BufferError {
    /// The buffer would hold more bytes than the machine can address.
    TooLarge,
}

/// A frame buffer as the contracts see it.
pub struct FrameModel {
    pub width: nat,
    pub height: nat,
    pub depth: ColorDepth,
    /// The bytes of the pixels, row after row from the top, each row from
    /// the left.
    pub data: Seq<u8>,
}

/// The number of bytes of a frame buffer.
pub open spec fn buffer_size(width: nat, height: nat, depth: ColorDepth) -> nat {
    width * height * depth.pixel_bytes()
}

/// Whether a frame buffer holds as many bytes as its pixels take.
pub open spec fn sized(frame: FrameModel) -> bool {
    frame.data.len() == buffer_size(frame.width, frame.height, frame.depth)
}

/// A buffer with every byte zero.
pub open spec fn blank(width: nat, height: nat, depth: ColorDepth) -> FrameModel {
    FrameModel {
        width,
        height,
        depth,
        data: Seq::new(buffer_size(width, height, depth), |i: int| 0u8),
    }
}

/// The pixels of the picture. The core owns the buffer from start to end;
/// the renderer writes it and the frontend reads it, never both at once.
pub struct FrameBuffer {
    width: u32,
    height: u32,
    depth: ColorDepth,
    data: Vec<u8>,
}

impl View for FrameBuffer {
    type V = FrameModel;

    closed spec fn view(&self) -> FrameModel {
        FrameModel {
            width: self.width as nat,
            height: self.height as nat,
            depth: self.depth,
            data: self.data@,
        }
    }
}

impl FrameBuffer {
    #[verifier::type_invariant]
    closed spec fn well_formed(&self) -> bool {
        sized(self@)
    }

    /// A blank buffer for a picture of the given size and depth, or the
    /// error that its bytes are more than the machine can address.
    pub fn new(width: u32, height: u32, depth: ColorDepth) -> (result: Result<
        FrameBuffer,
        BufferError,
    >)
        ensures
            match result {
                Ok(frame) => frame@ == blank(width as nat, height as nat, depth),
                Err(error) => error == BufferError::TooLarge && buffer_size(
                    width as nat,
                    height as nat,
                    depth,
                ) > usize::MAX,
            },
    {
        let bytes_per_pixel = depth.bytes_per_pixel();
        assert(0 <= width * height <= 0xffff_ffff * 0xffff_ffff) by (nonlinear_arith)
            requires
                0 <= width <= 0xffff_ffff,
                0 <= height <= 0xffff_ffff,
        ;
        let pixels: u64 = width as u64 * height as u64;
        assert(0 <= pixels * bytes_per_pixel <= 0xffff_ffff * 0xffff_ffff * 4) by (nonlinear_arith)
            requires
                0 <= pixels <= 0xffff_ffff * 0xffff_ffff,
                0 <= bytes_per_pixel <= 4,
        ;
        let bytes: u128 = pixels as u128 * bytes_per_pixel as u128;
        if bytes > usize::MAX as u128 {
            return Err(BufferError::TooLarge);
        }
        let size = bytes as usize;
        let data = vec![0u8; size];
        let frame = FrameBuffer { width, height, depth, data };
        assert(frame@.data =~= blank(width as nat, height as nat, depth).data);
        Ok(frame)
    }

    /// Width of the picture in pixels.
    pub fn width(&self) -> (width: u32)
        ensures
            width == self@.width,
            sized(self@),
    {
        proof {
            use_type_invariant(self);
        }
        self.width
    }

    /// Height of the picture in pixels.
    pub fn height(&self) -> (height: u32)
        ensures
            height == self@.height,
            sized(self@),
    {
        proof {
            use_type_invariant(self);
        }
        self.height
    }

    /// Depth of the pixels.
    pub fn depth(&self) -> (depth: ColorDepth)
        ensures
            depth == self@.depth,
            sized(self@),
    {
        proof {
            use_type_invariant(self);
        }
        self.depth
    }

    /// The number of bytes of the buffer.
    pub fn size(&self) -> (size: usize)
        ensures
            size == self@.data.len(),
            size == buffer_size(self@.width, self@.height, self@.depth),
    {
        proof {
            use_type_invariant(self);
        }
        self.data.len()
    }

    /// The number of bytes from one row of pixels to the next.
    pub fn pitch(&self) -> (pitch: u64)
        ensures
            pitch == self@.width * self@.depth.pixel_bytes(),
    {
        let bytes_per_pixel = self.depth.bytes_per_pixel();
        assert(0 <= self.width * bytes_per_pixel <= 0xffff_ffff * 4) by (nonlinear_arith)
            requires
                0 <= self.width <= 0xffff_ffff,
                0 <= bytes_per_pixel <= 4,
        ;
        self.width as u64 * bytes_per_pixel as u64
    }

    /// Writes one byte of a pixel.
    pub fn set_byte(&mut self, at: usize, value: u8)
        requires
            at < old(self)@.data.len(),
        ensures
            final(self)@ == (FrameModel {
                data: old(self)@.data.update(at as int, value),
                ..old(self)@
            }),
    {
        proof {
            use_type_invariant(&*self);
        }
        self.data[at] = value;
    }

    /// Overwrites the whole buffer with the first of the given bytes.
    pub fn fill_from(&mut self, bytes: &[u8])
        requires
            bytes@.len() >= old(self)@.data.len(),
        ensures
            final(self)@ == (FrameModel {
                data: bytes@.take(old(self)@.data.len() as int),
                ..old(self)@
            }),
    {
        proof {
            use_type_invariant(&*self);
        }
        let size = self.data.len();
        let mut i: usize = 0;
        while i < size
            invariant
                i <= size,
                size == self.data.len(),
                size <= bytes@.len(),
                self.width == old(self).width,
                self.height == old(self).height,
                self.depth == old(self).depth,
                sized(self@),
                forall|j: int| 0 <= j < i ==> self.data[j] == bytes[j],
            decreases size - i,
        {
            self.data[i] = bytes[i];
            i += 1;
        }
        assert(self@.data =~= bytes@.take(size as int));
    }

    /// The bytes of the pixels, as the frontend reads them.
    pub fn as_bytes(&self) -> (bytes: &[u8])
        ensures
            bytes@ == self@.data,
    {
        self.data.as_slice()
    }
}

} // verus!
