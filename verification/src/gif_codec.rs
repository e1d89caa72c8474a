//! Reading and writing GIF animations through the `gif` crate: a frame reader
//! over the bytes of an animation, decoding to RGBA, and a writer that builds a
//! looping animation from RGBA frames.

use vstd::prelude::*;

verus! {

/// How a frame is disposed of before the next one is drawn.
#[derive(Debug, Clone, Copy, PartialEq, Eq, Structural)]
pub enum GifDisposal {
    Any,
    Keep,
    Background,
    Previous,
}

/// One frame of an animation: its RGBA pixels, its delay in 10 ms units and
/// its disposal.
pub type FrameView = (Seq<u8>, u16, GifDisposal);

/// A `gif::Decoder` over the bytes of an animation, set to decode frames to
/// RGBA. The decoder is held out of Verus's sight: its type's declaration is
/// refused, as the `std::io::Read` bound on its parameter is unknown to Verus.
#[verifier::external_body]
pub(crate) struct GifFrameReader {
    decoder: gif::Decoder<std::io::Cursor<Vec<u8>>>,
}

/// A `gif::Encoder` writing an animation into memory, with the screen size it
/// was made for. Held out of Verus's sight for the same reason as the reader
/// (`std::io::Write` on the encoder's parameter).
#[verifier::external_body]
pub(crate) struct GifWriter {
    encoder: gif::Encoder<Vec<u8>>,
    width: u16,
    height: u16,
}

/// What a reader reads: the bytes it was opened on, and how many frames it
/// has been asked for so far.
pub uninterp spec fn gif_reader_state(reader: GifFrameReader) -> (Seq<u8>, nat);

/// What `gif::DecodeOptions::read_info` (colour output RGBA) makes of the bytes:
/// the logical screen's width and height, or the error's message.
pub uninterp spec fn gif_open_result(bytes: Seq<u8>) -> Result<(u16, u16), Seq<char>>;

/// What the call of `read_next_frame` numbered `index` (from 0) returns on a
/// decoder opened on the bytes: a frame, `None` at the end of the animation,
/// or the error's message.
pub uninterp spec fn gif_frame_result(bytes: Seq<u8>, index: nat) -> Result<
    Option<FrameView>,
    Seq<char>,
>;

/// What a writer has been given: the screen's width and height, whether the
/// animation loops forever, and the frames written so far.
pub uninterp spec fn gif_writer_state(writer: GifWriter) -> (u16, u16, bool, Seq<FrameView>);

/// The bytes of the animation that `gif::Encoder` writes for a screen of the
/// given size, the loop setting and frames made with
/// `gif::Frame::from_rgba_speed` at speed 10.
pub uninterp spec fn gif_encoding(
    width: u16,
    height: u16,
    looping: bool,
    frames: Seq<FrameView>,
) -> Seq<u8>;

/// Opens a reader: `gif::DecodeOptions::new()`, `set_color_output(RGBA)` and
/// `read_info` over the bytes, then the decoder's `width()` and `height()`.
/// The outcome is the one `gif_open_result` names for these bytes.
#[verifier::external_body]
pub(crate) fn open_gif_reader(bytes: &[u8]) -> (res: Result<(GifFrameReader, u16, u16), String>)
    ensures
        match res {
            Ok((reader, w, h)) => gif_open_result(bytes@) == Ok::<(u16, u16), Seq<char>>((w, h))
                && gif_reader_state(reader) == (bytes@, 0nat),
            Err(m) => gif_open_result(bytes@) == Err::<(u16, u16), Seq<char>>(m@),
        },
{
    let mut options = gif::DecodeOptions::new();
    options.set_color_output(gif::ColorOutput::RGBA);
    match options.read_info(std::io::Cursor::new(bytes.to_vec())) {
        Ok(decoder) => {
            let (w, h) = (decoder.width(), decoder.height());
            Ok((GifFrameReader { decoder }, w, h))
        },
        Err(e) => Err(e.to_string()),
    }
}

/// The mathematical value of what a frame read gives.
pub open spec fn frame_result_view(r: Result<Option<(Vec<u8>, u16, GifDisposal)>, String>) -> Result<
    Option<FrameView>,
    Seq<char>,
> {
    match r {
        Ok(Some((p, d, g))) => Ok(Some((p@, d, g))),
        Ok(None) => Ok(None),
        Err(m) => Err(m@),
    }
}

impl GifFrameReader {
    /// `read_next_frame`: the frame's buffer, delay and disposal, as
    /// `gif_frame_result` names them for this call. Each frame takes at least
    /// its image separator byte from the input, so frames come only while the
    /// number handed out is below the input's length.
    #[verifier::external_body]
    pub(crate) fn next_frame(&mut self) -> (res: Result<Option<(Vec<u8>, u16, GifDisposal)>, String>)
        ensures
            frame_result_view(res) == gif_frame_result(
                gif_reader_state(*old(self)).0,
                gif_reader_state(*old(self)).1,
            ),
            gif_reader_state(*final(self)) == (
                gif_reader_state(*old(self)).0,
                gif_reader_state(*old(self)).1 + 1,
            ),
            res matches Ok(Some(_)) ==> gif_reader_state(*old(self)).1 < gif_reader_state(
                *old(self),
            ).0.len(),
    {
        match self.decoder.read_next_frame() {
            Ok(Some(frame)) => {
                let dispose = match frame.dispose {
                    gif::DisposalMethod::Any => GifDisposal::Any,
                    gif::DisposalMethod::Keep => GifDisposal::Keep,
                    gif::DisposalMethod::Background => GifDisposal::Background,
                    gif::DisposalMethod::Previous => GifDisposal::Previous,
                };
                Ok(Some((frame.buffer.to_vec(), frame.delay, dispose)))
            },
            Ok(None) => Ok(None),
            Err(e) => Err(e.to_string()),
        }
    }
}

/// `gif::Encoder::new` over an empty `Vec`, with no global palette. As the
/// crate's source shows, `new` fails only when the palette has more than 256
/// colours or the writer fails; the palette is empty and a `Vec` appends
/// without failing, so the writer is always made.
#[verifier::external_body]
pub(crate) fn new_gif_writer(width: u16, height: u16) -> (res: Result<GifWriter, String>)
    ensures
        res is Ok,
        res matches Ok(w) ==> gif_writer_state(w) == (width, height, false, Seq::<FrameView>::empty()),
{
    match gif::Encoder::new(Vec::new(), width, height, &[]) {
        Ok(encoder) => Ok(GifWriter { encoder, width, height }),
        Err(e) => Err(e.to_string()),
    }
}

impl GifWriter {
    /// `set_repeat(Repeat::Infinite)`, before any frame is written. It only
    /// writes the extension block into the `Vec`, which does not fail.
    #[verifier::external_body]
    pub(crate) fn loop_forever(&mut self) -> (res: Result<(), String>)
        requires
            gif_writer_state(*old(self)).3.len() == 0,
        ensures
            res is Ok,
            gif_writer_state(*final(self)) == (
                gif_writer_state(*old(self)).0,
                gif_writer_state(*old(self)).1,
                true,
                gif_writer_state(*old(self)).3,
            ),
    {
        self.encoder.set_repeat(gif::Repeat::Infinite).map_err(|e| e.to_string())
    }

    /// `gif::Frame::from_rgba_speed` at speed 10 over a frame of the writer's
    /// size (it panics unless there are exactly four bytes per pixel), with the
    /// delay and disposal set, then `write_frame`. The frame always has a
    /// palette of at most 256 colours and one index per pixel, so `write_frame`
    /// fails only when the memory for the compressed data cannot be reserved
    /// (`try_reserve`); running out of memory is a limit of the machine, set
    /// aside here as for every allocation, so the write succeeds.
    #[verifier::external_body]
    pub(crate) fn write_rgba_frame(&mut self, pixels: Vec<u8>, delay: u16, dispose: GifDisposal) -> (res:
        Result<(), String>)
        requires
            pixels@.len() == 4 * ((gif_writer_state(*old(self)).0 as int) * (gif_writer_state(
                *old(self),
            ).1 as int)),
        ensures
            res is Ok,
            gif_writer_state(*final(self)) == (
                gif_writer_state(*old(self)).0,
                gif_writer_state(*old(self)).1,
                gif_writer_state(*old(self)).2,
                gif_writer_state(*old(self)).3.push((pixels@, delay, dispose)),
            ),
    {
        let mut data = pixels;
        let mut frame = gif::Frame::from_rgba_speed(self.width, self.height, &mut data, 10);
        frame.delay = delay;
        frame.dispose = match dispose {
            GifDisposal::Any => gif::DisposalMethod::Any,
            GifDisposal::Keep => gif::DisposalMethod::Keep,
            GifDisposal::Background => gif::DisposalMethod::Background,
            GifDisposal::Previous => gif::DisposalMethod::Previous,
        };
        self.encoder.write_frame(&frame).map_err(|e| e.to_string())
    }

    /// `into_inner`: writes the trailer into the `Vec` (which does not fail)
    /// and hands back the bytes written, which are the encoding of what the
    /// writer was given.
    #[verifier::external_body]
    pub(crate) fn finish(self) -> (res: Result<Vec<u8>, String>)
        ensures
            res is Ok,
            res matches Ok(bytes) ==> bytes@ == gif_encoding(
                gif_writer_state(self).0,
                gif_writer_state(self).1,
                gif_writer_state(self).2,
                gif_writer_state(self).3,
            ),
    {
        self.encoder.into_inner().map_err(|e| e.to_string())
    }
}

} // verus!
