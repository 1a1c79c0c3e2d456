//! Decoding an image stream into raw frames.
//!
//! The bitstream decoder is the `gif` crate. It is driven from here one
//! frame at a time. What a stream of bytes decodes to is the decoder's to
//! say: it is given a name, [`opened`], and the contracts here speak of that
//! name. What is taken on trust of the decoder is stated in the contracts of
//! the private functions at the end of this file.

use vstd::prelude::*;
use crate::animation::LoadError;

verus! {

/// One decoded frame: the rectangle it covers on the canvas and its pixels,
/// four bytes each, row after row.
#[derive(Clone, Debug, PartialEq, Eq)]
pub struct RawFrame {
    /// Offset from the left border of the canvas.
    pub left: u16,
    /// Offset from the top border of the canvas.
    pub top: u16,
    /// Width of the frame in pixels.
    pub width: u16,
    /// Height of the frame in pixels.
    pub height: u16,
    /// The pixels, `width * height * 4` bytes as the decoder hands them out.
    pub buffer: Vec<u8>,
}

/// A frame as plain values.
pub struct FrameData {
    /// Offset from the left border of the canvas.
    pub left: u16,
    /// Offset from the top border of the canvas.
    pub top: u16,
    /// Width of the frame in pixels.
    pub width: u16,
    /// Height of the frame in pixels.
    pub height: u16,
    /// The bytes of the pixels.
    pub pixels: Seq<u8>,
}

impl FrameData {
    /// Whether there are exactly the pixels of the frame's rectangle.
    pub open spec fn is_complete(self) -> bool {
        self.pixels.len() == self.width * self.height * 4
    }
}

impl View for RawFrame {
    type V = FrameData;

    open spec fn view(&self) -> FrameData {
        FrameData {
            left: self.left,
            top: self.top,
            width: self.width,
            height: self.height,
            pixels: self.buffer@,
        }
    }
}

/// The frames of `frames` as plain values, in the same order.
pub open spec fn frame_views(frames: Seq<RawFrame>) -> Seq<FrameData> {
    Seq::new(frames.len(), |i: int| frames[i]@)
}

/// What a stream decodes to: the size of the canvas and the frames in the
/// order of the stream.
#[derive(Clone, Debug, PartialEq, Eq)]
pub struct DecodedImage {
    /// Width of the logical canvas, as the stream's header gives it.
    pub width: u16,
    /// Height of the logical canvas, as the stream's header gives it.
    pub height: u16,
    /// The frames, first to last.
    pub frames: Vec<RawFrame>,
}

/// What a reader has in store: the canvas of its stream, the frames it will
/// still hand out, and how it ends after the last of them.
pub struct Stream {
    /// Width of the logical canvas.
    pub width: u16,
    /// Height of the logical canvas.
    pub height: u16,
    /// The frames still to come, next one first.
    pub frames: Seq<FrameData>,
    /// Whether the reader, asked for a frame after these, reports an error
    /// rather than the end of the stream.
    pub fails: bool,
}

impl Stream {
    /// Whether every frame still to come is complete.
    pub open spec fn all_complete(self) -> bool {
        forall|i: int| 0 <= i < self.frames.len() ==> (#[trigger] self.frames[i]).is_complete()
    }

    /// The same stream after its next frame was handed out.
    pub open spec fn advanced(self) -> Stream {
        Stream { width: self.width, height: self.height, frames: self.frames.drop_first(), fails: self.fails }
    }
}

/// What the bytes of a stream decode to, if they decode: the stream from its
/// first frame on, where the decoder accepts the header and reaches the end
/// without an error.
pub open spec fn decoding(bytes: Seq<u8>) -> Option<Stream> {
    match opened(bytes) {
        Some(stream) => if stream.fails {
            None
        } else {
            Some(stream)
        },
        None => None,
    }
}

/// Decodes a whole image stream held in memory.
///
/// Bytes that do not decode give [`LoadError::Gif`]. Bytes that decode give
/// the canvas size and all the frames of the stream, in its order, each
/// frame complete.
pub fn decode(bytes: &[u8]) -> (r: Result<DecodedImage, LoadError>)
    ensures
        decoding(bytes@) is None ==> (r matches Err(e) && e is Gif),
        decoding(bytes@) matches Some(stream) ==> (r matches Ok(image) && {
            &&& image.width == stream.width
            &&& image.height == stream.height
            &&& frame_views(image.frames@) == stream.frames
            &&& stream.all_complete()
        }),
{
    let mut reader = match open_reader(bytes) {
        Ok(reader) => reader,
        Err(e) => {
            return Err(LoadError::Gif(e));
        },
    };
    let ghost stream = remaining(reader);
    let width: u16 = canvas_width(&reader);
    let height: u16 = canvas_height(&reader);
    let mut frames: Vec<RawFrame> = Vec::new();
    loop
        invariant
            opened(bytes@) == Some(stream),
            stream.all_complete(),
            remaining(reader).width == stream.width == width,
            remaining(reader).height == stream.height == height,
            remaining(reader).fails == stream.fails,
            frame_views(frames@) + remaining(reader).frames == stream.frames,
        decreases remaining(reader).frames.len(),
    {
        let ghost before = remaining(reader);
        match next_frame(reader) {
            Ok(Some((frame, rest))) => {
                let ghost taken = frame_views(frames@);
                frames.push(frame);
                reader = rest;
                assert(frame_views(frames@) =~= taken.push(frame@));
                assert(taken.push(frame@) + before.frames.drop_first() =~= taken + before.frames);
            },
            Ok(None) => {
                assert(frame_views(frames@) + before.frames =~= frame_views(frames@));
                return Ok(DecodedImage { width, height, frames });
            },
            Err(e) => {
                return Err(LoadError::Gif(e));
            },
        }
    }
}

/// A `gif::Reader` over bytes held in memory that has not yet reported the
/// end of its stream nor an error: one is made by opening a stream, and
/// handed on only beside a frame. Nothing of its state is known here but
/// what [`remaining`] names.
#[verifier::external_body]
pub struct FrameReader<'a> {
    inner: gif::Reader<&'a [u8]>,
}

/// The `gif` crate's error.
#[verifier::external_type_specification]
#[verifier::external_body]
pub struct ExDecodingError(gif::DecodingError);

/// What opening a reader on these bytes gives: nothing where the decoder
/// refuses the header, else what the new reader has in store.
pub uninterp spec fn opened(bytes: Seq<u8>) -> Option<Stream>;

/// What a reader has in store: the canvas size its header gave, the frames
/// that `read_next_frame` will hand out from now on, and whether the call
/// after the last of them reports an error.
pub uninterp spec fn remaining(reader: FrameReader) -> Stream;

/// `gif::Decoder::new` on the bytes, `set(ColorOutput::RGBA)` on the decoder,
/// then `Decoder::read_info`, which reads the header up to the global
/// palette. The outcome is named by [`opened`]. A reader set up this way
/// allocates `width * height * 4` bytes for every frame it hands out.
#[verifier::external_body]
fn open_reader<'a>(bytes: &'a [u8]) -> (r: Result<FrameReader<'a>, gif::DecodingError>)
    ensures
        r matches Ok(reader) ==> opened(bytes@) == Some(remaining(reader)) && remaining(
            reader,
        ).all_complete(),
        r is Err ==> opened(bytes@) is None,
{
    let mut decoder = gif::Decoder::new(bytes);
    gif::SetParameter::set(&mut decoder, gif::ColorOutput::RGBA);
    Ok(FrameReader { inner: decoder.read_info()? })
}

/// `gif::Reader::width`: the canvas width that the header gave.
#[verifier::external_body]
fn canvas_width(reader: &FrameReader) -> (w: u16)
    ensures
        w == remaining(*reader).width,
{
    reader.inner.width()
}

/// `gif::Reader::height`: the canvas height that the header gave.
#[verifier::external_body]
fn canvas_height(reader: &FrameReader) -> (h: u16)
    ensures
        h == remaining(*reader).height,
{
    reader.inner.height()
}

/// `gif::Reader::read_next_frame`. It hands out the next frame the reader has
/// in store, and the reader then has the rest in store; with no frame left
/// it reports the end of the stream or an error, as the stream ends.
///
/// The reader is taken by value and comes back only beside a frame: one
/// that has reported the end or an error is never asked again.
#[verifier::external_body]
fn next_frame<'a>(reader: FrameReader<'a>) -> (r: Result<
    Option<(RawFrame, FrameReader<'a>)>,
    gif::DecodingError,
>)
    ensures
        r matches Ok(Some(pair)) ==> {
            &&& remaining(reader).frames.len() > 0
            &&& pair.0@ == remaining(reader).frames[0]
            &&& remaining(pair.1) == remaining(reader).advanced()
        },
        r matches Ok(None) ==> remaining(reader).frames.len() == 0 && !remaining(reader).fails,
        r is Err ==> remaining(reader).frames.len() == 0 && remaining(reader).fails,
{
    let mut reader = reader;
    let frame = match reader.inner.read_next_frame()? {
        Some(f) => {
            let buffer = f.buffer.to_vec();
            RawFrame { left: f.left, top: f.top, width: f.width, height: f.height, buffer }
        },
        None => return Ok(None),
    };
    Ok(Some((frame, reader)))
}

} // verus!
