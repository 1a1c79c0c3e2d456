//! The animation store and the frame loader.
//!
//! A decoded frame becomes a [`FramePair`]: two descriptions of canvas-sized
//! textures, one with the frame as it is and one with it mirrored. An
//! [`Animation`] owns the pairs in playback order and is never empty.

use vstd::prelude::*;
use vstd::arithmetic::div_mod::{
    lemma_add_mod_noop_right, lemma_fundamental_div_mod, lemma_mod_add_multiples_vanish, lemma_mod_bound,
    lemma_mod_multiples_basic, lemma_small_mod,
};
use crate::decode::{decode, decoding, frame_views, FrameData, RawFrame};
use crate::geometry::Rect;
use crate::pixels::{channel_swapped, rows_reversed, u32_reverse_rows, u32_swap_endian, whole_rows};

verus! {

/// Why loading an animation failed. Every failure is final: nothing is
/// retried and no partial animation is handed out.
#[derive(Debug)]
pub enum LoadError {
    /// The image file could not be opened or read. Raised by the code that
    /// reads the file, with the system's message.
    Io(String),
    /// The decoder found the stream malformed or cut short.
    Gif(gif::DecodingError),
    /// A texture could not be allocated. Raised by the code that talks to
    /// the renderer, with its message.
    Texture(String),
    /// Pixels could not be uploaded into a texture. Raised by the code that
    /// talks to the renderer, with its message.
    UpdateTexture(String),
    /// The stream decoded to zero frames.
    EmptyAnimation,
    /// A pixel buffer's length does not fit the pixel or row size asked for.
    InvalidBufferLength,
}

/// How the bytes of a texture's pixels are laid out.
#[derive(Clone, Copy, Debug, PartialEq, Eq, Structural)]
pub enum PixelFormat {
    /// One 32-bit word per pixel, red in its highest byte and alpha in its
    /// lowest.
    Rgba8888,
}

/// A texture that is written once: its size, and the pixels to upload into
/// one region of it.
#[derive(Clone, Debug, PartialEq, Eq)]
pub struct StaticTexture {
    /// Layout of the pixels.
    pub format: PixelFormat,
    /// Width of the texture in pixels.
    pub width: u32,
    /// Height of the texture in pixels.
    pub height: u32,
    /// The region of the texture that the pixels go into.
    pub region: Rect,
    /// Row stride, in bytes, that the upload is made with.
    pub pitch: usize,
    /// The pixels to upload.
    pub pixels: Vec<u8>,
}

impl StaticTexture {
    /// Whether this is a texture of the given size that takes `pixels` into
    /// `region`, with the row stride of the full width.
    pub open spec fn is_upload(&self, width: u16, height: u16, region: Rect, pixels: Seq<u8>) -> bool {
        &&& self.format == PixelFormat::Rgba8888
        &&& self.width == width
        &&& self.height == height
        &&& self.region == region
        &&& self.pitch == row_stride(width)
        &&& self.pixels@ == pixels
    }

    /// Whether an upload that reads as many rows as the region is high, each
    /// as many pixels as the region is wide and `pitch` bytes after the one
    /// before, stays inside the pixels. An upload into an empty region reads
    /// nothing.
    pub open spec fn upload_in_bounds(&self) -> bool {
        self.region.holds_nothing() || (self.region.h - 1) * self.pitch + self.region.w * 4
            <= self.pixels@.len()
    }

    /// Tells whether the upload of the pixels into the region reads only
    /// bytes that the buffer holds.
    pub fn is_upload_in_bounds(&self) -> (b: bool)
        ensures
            b == self.upload_in_bounds(),
    {
        if self.region.is_empty() {
            return true;
        }
        let rows_before: u128 = (self.region.h - 1) as u128;
        let pitch: u128 = self.pitch as u128;
        assert(0 <= rows_before * pitch <= 0xffff_ffff * 0xffff_ffff_ffff_ffff) by (nonlinear_arith)
            requires
                0 <= rows_before <= 0xffff_ffff,
                0 <= pitch <= 0xffff_ffff_ffff_ffff,
        ;
        let needed: u128 = rows_before * pitch + (self.region.w as u128) * 4;
        needed <= self.pixels.len() as u128
    }
}

/// The two textures made from one frame.
#[derive(Clone, Debug, PartialEq, Eq)]
pub struct FramePair {
    /// The frame as decoded, in the byte order of the texture format.
    pub normal: StaticTexture,
    /// The same pixels with the order of their rows reversed.
    pub mirrored: StaticTexture,
}

/// Bytes in one row of pixels of the given width.
pub open spec fn row_stride(width: u16) -> int {
    width * 4
}

/// The rectangle of the canvas that a frame covers.
pub open spec fn frame_region(frame: FrameData) -> Rect {
    Rect { x: frame.left as i32, y: frame.top as i32, w: frame.width as u32, h: frame.height as u32 }
}

/// The rectangle of a whole canvas.
pub open spec fn canvas_rect(width: u16, height: u16) -> Rect {
    Rect { x: 0, y: 0, w: width as u32, h: height as u32 }
}

/// Whether a frame's buffer is made of whole rows of the frame's width.
pub open spec fn is_uploadable(frame: FrameData) -> bool {
    whole_rows(frame.pixels.len() as int, row_stride(frame.width))
}

/// Whether every frame of `frames` is uploadable.
pub open spec fn all_uploadable(frames: Seq<FrameData>) -> bool {
    forall|i: int| 0 <= i < frames.len() ==> is_uploadable(#[trigger] frames[i])
}

impl FramePair {
    /// Whether this pair is what `frame` gives on a canvas of the given
    /// size: both textures as large as the canvas, both taking their pixels
    /// into the frame's rectangle; the normal one the frame's pixels with
    /// each pixel's bytes reversed, the mirrored one those with the rows in
    /// the opposite order.
    pub open spec fn is_prepared_from(&self, frame: FrameData, width: u16, height: u16) -> bool {
        &&& self.normal.is_upload(width, height, frame_region(frame), channel_swapped(frame.pixels))
        &&& self.mirrored.is_upload(
            width,
            height,
            frame_region(frame),
            rows_reversed(channel_swapped(frame.pixels), row_stride(frame.width)),
        )
    }

    /// Whether both textures have the size of `canvas`, one format, one
    /// region and one row stride.
    pub open spec fn fills(&self, canvas: Rect) -> bool {
        &&& self.normal.width == canvas.w && self.normal.height == canvas.h
        &&& self.mirrored.width == canvas.w && self.mirrored.height == canvas.h
        &&& self.normal.format == self.mirrored.format
        &&& self.normal.region == self.mirrored.region
        &&& self.normal.pitch == self.mirrored.pitch
    }
}

/// A buffer that holds exactly the pixels of its frame is made of whole rows.
pub proof fn lemma_complete_is_uploadable(frame: FrameData)
    requires
        frame.is_complete(),
    ensures
        is_uploadable(frame),
{
    let w = frame.width as int;
    let h = frame.height as int;
    assert(w * h * 4 == h * (w * 4)) by (nonlinear_arith);
    assert((w * 4) % 4 == 0) by {
        lemma_mod_multiples_basic(w, 4);
    }
    if w == 0 {
        assert(w * h * 4 == 0) by (nonlinear_arith)
            requires
                w == 0,
        ;
    } else {
        lemma_mod_multiples_basic(h, w * 4);
    }
}

/// Makes the pair of textures for one frame on a canvas of the given size.
///
/// Fails, with [`LoadError::InvalidBufferLength`], exactly when the frame's
/// buffer is not made of whole rows of the frame's width.
pub fn prepare_frame(frame: &RawFrame, width: u16, height: u16) -> (r: Result<FramePair, LoadError>)
    ensures
        is_uploadable(frame@) ==> (r matches Ok(pair) && pair.is_prepared_from(frame@, width, height)
            && pair.fills(canvas_rect(width, height))),
        !is_uploadable(frame@) ==> r matches Err(LoadError::InvalidBufferLength),
{
    let region = Rect {
        x: frame.left as i32,
        y: frame.top as i32,
        w: frame.width as u32,
        h: frame.height as u32,
    };
    let pitch: usize = width as usize * 4;
    let line_size: usize = frame.width as usize * 4;
    proof {
        let len = frame.buffer@.len() as int;
        let stride = row_stride(frame.width);
        assert(stride % 4 == 0) by {
            lemma_mod_multiples_basic(frame.width as int, 4);
        }
        if stride > 0 && len % stride == 0 {
            // whole rows of whole pixels are whole pixels
            let rows = len / stride;
            lemma_fundamental_div_mod(len, stride);
            assert(len == (rows * frame.width) * 4) by (nonlinear_arith)
                requires
                    len == stride * rows,
                    stride == frame.width * 4,
            ;
            lemma_mod_multiples_basic(rows * frame.width, 4);
        }
    }
    let mut normal: Vec<u8> = frame.buffer.clone();
    assert(normal@ =~= frame.buffer@);
    match u32_swap_endian(normal.as_mut_slice()) {
        Ok(()) => {},
        Err(e) => {
            return Err(e);
        },
    }
    let mut mirrored: Vec<u8> = normal.clone();
    assert(mirrored@ =~= normal@);
    match u32_reverse_rows(mirrored.as_mut_slice(), line_size) {
        Ok(()) => {},
        Err(e) => {
            return Err(e);
        },
    }
    Ok(
        FramePair {
            normal: StaticTexture {
                format: PixelFormat::Rgba8888,
                width: width as u32,
                height: height as u32,
                region,
                pitch,
                pixels: normal,
            },
            mirrored: StaticTexture {
                format: PixelFormat::Rgba8888,
                width: width as u32,
                height: height as u32,
                region,
                pitch,
                pixels: mirrored,
            },
        },
    )
}

/// The frames of an animation in playback order, and the rectangle of its
/// canvas. There is always at least one frame, and the textures of every
/// frame have the size of the canvas.
pub struct Animation {
    rect: Rect,
    frames: Vec<FramePair>,
}

impl Animation {
    /// The rectangle of the canvas.
    pub closed spec fn canvas(&self) -> Rect {
        self.rect
    }

    /// The frame pairs, first to last.
    pub closed spec fn view(&self) -> Seq<FramePair> {
        self.frames@
    }

    /// Whether this is the animation that `frames` make on a canvas of the
    /// given size: the canvas has that size, and there is one pair for each
    /// frame, in the order of the frames, prepared from it.
    pub open spec fn is_made_of(&self, width: u16, height: u16, frames: Seq<FrameData>) -> bool {
        &&& self.canvas() == canvas_rect(width, height)
        &&& self@.len() == frames.len()
        &&& forall|i: int|
            0 <= i < frames.len() ==> (#[trigger] self@[i]).is_prepared_from(frames[i], width, height)
    }

    /// What holds of every animation: it has a frame, and every pair fills
    /// the canvas.
    pub open spec fn wf(&self) -> bool {
        &&& self@.len() > 0
        &&& forall|i: int| 0 <= i < self@.len() ==> (#[trigger] self@[i]).fills(self.canvas())
    }

    #[verifier::type_invariant]
    spec fn inv(self) -> bool {
        self.wf()
    }

    /// Builds the animation of a canvas of the given size from its decoded
    /// frames, in their order.
    ///
    /// Fails with [`LoadError::EmptyAnimation`] when there is no frame, and
    /// with [`LoadError::InvalidBufferLength`] when there are frames and one
    /// of them is not uploadable. Otherwise there is one pair for each frame.
    pub fn from_frames(width: u16, height: u16, frames: Vec<RawFrame>) -> (r: Result<Animation, LoadError>)
        ensures
            frames@.len() == 0 ==> r matches Err(LoadError::EmptyAnimation),
            frames@.len() > 0 && !all_uploadable(frame_views(frames@)) ==> r matches Err(
                LoadError::InvalidBufferLength,
            ),
            frames@.len() > 0 && all_uploadable(frame_views(frames@)) ==> (r matches Ok(a)
                && a.is_made_of(width, height, frame_views(frames@))),
            r matches Ok(a) ==> a.wf(),
    {
        if frames.len() == 0 {
            return Err(LoadError::EmptyAnimation);
        }
        let mut pairs: Vec<FramePair> = Vec::new();
        let mut i: usize = 0;
        while i < frames.len()
            invariant
                i <= frames@.len(),
                pairs@.len() == i,
                forall|j: int| 0 <= j < i ==> is_uploadable(#[trigger] frame_views(frames@)[j]),
                forall|j: int|
                    0 <= j < i ==> (#[trigger] pairs@[j]).is_prepared_from(
                        frame_views(frames@)[j],
                        width,
                        height,
                    ),
                forall|j: int| 0 <= j < i ==> (#[trigger] pairs@[j]).fills(canvas_rect(width, height)),
            decreases frames@.len() - i,
        {
            assert(frame_views(frames@)[i as int] == frames@[i as int]@);
            match prepare_frame(&frames[i], width, height) {
                Ok(pair) => {
                    pairs.push(pair);
                },
                Err(e) => {
                    return Err(e);
                },
            }
            i += 1;
        }
        Ok(Animation { rect: Rect { x: 0, y: 0, w: width as u32, h: height as u32 }, frames: pairs })
    }

    /// Loads an animation from the bytes of an image file.
    ///
    /// Bytes that do not decode give [`LoadError::Gif`], and a stream
    /// without frames gives [`LoadError::EmptyAnimation`]. Every other
    /// stream gives the animation that its frames make on its canvas: one
    /// pair for each frame of the stream.
    pub fn load_gif(bytes: &[u8]) -> (r: Result<Animation, LoadError>)
        ensures
            decoding(bytes@) is None ==> (r matches Err(e) && e is Gif),
            decoding(bytes@) matches Some(stream) ==> (if stream.frames.len() == 0 {
                r matches Err(LoadError::EmptyAnimation)
            } else {
                r matches Ok(a) && a.is_made_of(stream.width, stream.height, stream.frames)
            }),
            r matches Ok(a) ==> a.wf(),
    {
        let image = match decode(bytes) {
            Ok(image) => image,
            Err(e) => {
                return Err(e);
            },
        };
        proof {
            let views = frame_views(image.frames@);
            assert forall|i: int| 0 <= i < views.len() implies is_uploadable(#[trigger] views[i]) by {
                lemma_complete_is_uploadable(views[i]);
            }
        }
        Animation::from_frames(image.width, image.height, image.frames)
    }

    /// The rectangle of the canvas.
    pub fn rect(&self) -> (r: Rect)
        ensures
            r == self.canvas(),
    {
        self.rect
    }

    /// The frame pairs, first to last.
    pub fn frames(&self) -> (r: &Vec<FramePair>)
        ensures
            r@ == self@,
            self.wf(),
    {
        proof {
            use_type_invariant(self);
        }
        &self.frames
    }

    /// The number of frame pairs; never zero.
    pub fn len(&self) -> (n: usize)
        ensures
            n == self@.len(),
            n > 0,
    {
        proof {
            use_type_invariant(self);
        }
        self.frames.len()
    }

    /// Starts a walk over the frames that begins at the first one and never
    /// ends. Every call starts a new walk.
    pub fn cycle(&self) -> (c: FrameCycle<'_>)
        ensures
            c.animation() == *self,
            c.cursor() == 0,
    {
        proof {
            use_type_invariant(self);
        }
        FrameCycle { animation: self, position: 0 }
    }
}

/// The position that follows `position` in a cycle of `len` positions.
pub open spec fn next_position(position: int, len: int) -> int {
    (position + 1) % len
}

/// The position reached from `position` after `steps` steps through a cycle
/// of `len` positions.
pub open spec fn position_after(position: int, steps: nat, len: int) -> int
    decreases steps,
{
    if steps == 0 {
        position
    } else {
        next_position(position_after(position, (steps - 1) as nat, len), len)
    }
}

/// Any number of steps through a cycle amounts to adding them to the
/// position and taking the remainder by the cycle's length.
pub proof fn lemma_position_after(position: int, steps: nat, len: int)
    requires
        0 <= position < len,
    ensures
        position_after(position, steps, len) == (position + steps) % len,
        0 <= position_after(position, steps, len) < len,
    decreases steps,
{
    if steps == 0 {
        lemma_small_mod(position as nat, len as nat);
    } else {
        lemma_position_after(position, (steps - 1) as nat, len);
        lemma_add_mod_noop_right(1, position + steps - 1, len);
        lemma_mod_bound(position + steps, len);
    }
}

/// The cycle closes: as many steps as there are positions lead back to the
/// position they started from.
pub proof fn lemma_cycle_closes(position: int, len: int)
    requires
        0 <= position < len,
    ensures
        position_after(position, len as nat, len) == position,
{
    lemma_position_after(position, len as nat, len);
    lemma_mod_add_multiples_vanish(position, len);
    lemma_small_mod(position as nat, len as nat);
}

/// An endless walk over the frames of an animation, in their order, that
/// goes back to the first frame after the last.
pub struct FrameCycle<'a> {
    animation: &'a Animation,
    position: usize,
}

impl<'a> FrameCycle<'a> {
    /// The animation that is walked.
    pub closed spec fn animation(&self) -> Animation {
        *self.animation
    }

    /// The index of the frame that comes next.
    pub closed spec fn cursor(&self) -> int {
        self.position as int
    }

    #[verifier::type_invariant]
    spec fn inv(self) -> bool {
        self.position < self.animation@.len()
    }

    /// The index of the frame that comes next.
    pub fn position(&self) -> (p: usize)
        ensures
            p == self.cursor(),
            p < self.animation()@.len(),
    {
        proof {
            use_type_invariant(self);
        }
        self.position
    }

    /// Hands out the frame at the cursor and moves the cursor one step on;
    /// after the last frame it is at the first again. There is always a
    /// next frame.
    pub fn next(&mut self) -> (pair: &'a FramePair)
        ensures
            0 <= old(self).cursor() < old(self).animation()@.len(),
            *pair == old(self).animation()@[old(self).cursor()],
            final(self).animation() == old(self).animation(),
            final(self).cursor() == next_position(
                old(self).cursor(),
                old(self).animation()@.len() as int,
            ),
    {
        proof {
            use_type_invariant(&*self);
        }
        let animation: &'a Animation = self.animation;
        let frames = animation.frames();
        let len: usize = frames.len();
        let pair = &frames[self.position];
        self.position = (self.position + 1) % len;
        pair
    }
}

} // verus!
