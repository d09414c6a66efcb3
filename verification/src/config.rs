//! The run configuration: a builder with validated defaults, and the
//! immutable configuration value that a successful `build` produces.

use vstd::prelude::*;
use vstd::math::*;
use crate::chunk::Chunk;
use crate::color::Color;
use crate::error::{Error, Kind};

verus! {

/// The validated, immutable configuration of one run.
///
/// All fields are read-only for the run. `overlap` is the number of chunks
/// visible on screen at once (`screen.0 / width_chunk`); it doubles as the
/// endpoint-segment length and as the number of chunks that consecutive
/// windows share.
#[derive(Debug)]
pub struct BigImg {
    /// Directory under which intermediate files and the output are written.
    pub work_dir: String,
    /// The ordered chunk collection, read-only for the run.
    pub chunks: Vec<Chunk>,
    /// Screen resolution (width, height).
    pub screen: (u32, u32),
    /// Chunks per middle segment, clamped to the chunk count.
    pub step: u32,
    /// Width of one chunk cell in pixels.
    pub width_chunk: u32,
    /// Chunks simultaneously visible on screen: `screen.0 / width_chunk`.
    pub overlap: u32,
    /// Background colors of the upper and lower caption bands.
    pub text_background_color: (Color, Color),
    /// Color of the caption text.
    pub text_color: Color,
    /// Largest factor by which a source image may be scaled up.
    pub max_scale: u32,
    /// Height of the image band of a cell.
    pub pic_h: u32,
    /// Height of the upper caption band of a cell.
    pub text_up_h: u32,
    /// Height of the lower caption band: `screen.1 - pic_h - text_up_h`.
    pub text_down_h: u32,
    /// Duration of the cover clip, in seconds.
    pub video_cover_time: u32,
    /// Duration of the ending clip, in seconds.
    pub video_ending_time: u32,
    /// Backdrop color handed to the encoder, by name.
    pub video_background_color: String,
    /// Seconds the scroll takes to traverse one chunk width.
    pub video_swip_speed: u32,
    /// Frame rate of the produced clips.
    pub video_fps: u32,
}

impl BigImg {
    /// What `BigImgBuilder::build` establishes and every later step relies on.
    pub open spec fn wf(&self) -> bool {
        &&& 1 <= self.width_chunk
        &&& 1 <= self.screen.0
        &&& 1 <= self.screen.1
        &&& 1 <= self.chunks@.len() <= u32::MAX
        &&& 1 <= self.step <= self.chunks@.len()
        &&& self.overlap == self.screen.0 as int / self.width_chunk as int
        &&& self.screen.0 as int % self.width_chunk as int == 0
        &&& 1 <= self.pic_h
        &&& 1 <= self.text_up_h
        &&& self.pic_h + self.text_up_h <= self.screen.1
        &&& self.text_down_h == self.screen.1 - self.pic_h - self.text_up_h
    }

    /// A configuration with every default, validated.
    ///
    /// The defaults always validate when the chunk collection is non-empty;
    /// an empty collection is excluded by the precondition, where the
    /// builder's `build` would report the error instead.
    pub fn new(work_dir: &str, chunks: Vec<Chunk>) -> (r: BigImg)
        requires
            1 <= chunks@.len() <= u32::MAX,
        ensures
            r.wf(),
            r.work_dir@ == work_dir@,
            r.chunks == chunks,
            r.screen == (1920u32, 1080u32),
            r.step == min(100, chunks@.len() as int),
            r.width_chunk == 480u32,
            r.overlap == 4u32,
            r.max_scale == 120u32,
            r.pic_h == 520u32,
            r.text_up_h == 214u32,
            r.text_down_h == 346u32,
            r.video_cover_time == 3u32,
            r.video_ending_time == 3u32,
            r.video_background_color@ == "white"@,
            r.video_swip_speed == 3u32,
            r.video_fps == 60u32,
    {
        BigImgBuilder::new(work_dir, chunks).build().expect("BigImg new failed")
    }

    /// A builder seeded with the defaults, for callers that adjust them.
    pub fn builder(work_dir: &str, chunks: Vec<Chunk>) -> (r: BigImgBuilder)
        ensures
            r.is_defaults(work_dir@, chunks),
    {
        BigImgBuilder::new(work_dir, chunks)
    }
}

/// Builder for `BigImg`: defaults first, then any number of setters, then
/// one validating `build`.
#[derive(Debug)]
pub struct BigImgBuilder {
    pub work_dir: String,
    pub chunks: Vec<Chunk>,
    pub screen: (u32, u32),
    pub step: u32,
    pub width_chunk: u32,
    pub text_background_color: (Color, Color),
    pub text_color: Color,
    pub max_scale: u32,
    pub pic_h: u32,
    pub text_up_h: u32,
    pub video_cover_time: u32,
    pub video_ending_time: u32,
    pub video_background_color: String,
    pub video_swip_speed: u32,
    pub video_fps: u32,
}

impl BigImgBuilder {
    /// Dimensions a builder must keep for `build` to be meaningful; the
    /// constructor establishes it and every setter preserves it.
    pub open spec fn wf(&self) -> bool {
        &&& 1 <= self.screen.0
        &&& 1 <= self.screen.1
        &&& 1 <= self.step
        &&& 1 <= self.width_chunk
        &&& 1 <= self.pic_h
        &&& 1 <= self.text_up_h
    }

    /// Whether this builder holds exactly the defaults for the given inputs.
    pub open spec fn is_defaults(&self, work_dir: Seq<char>, chunks: Vec<Chunk>) -> bool {
        &&& self.wf()
        &&& self.work_dir@ == work_dir
        &&& self.chunks == chunks
        &&& self.screen == (1920u32, 1080u32)
        &&& self.step == 100u32
        &&& self.width_chunk == 480u32
        &&& self.text_background_color == ((
            Color { r: 23, g: 150, b: 235, a: 255 },
            Color { r: 44, g: 85, b: 153, a: 255 },
        ))
        &&& self.text_color == (Color { r: 255, g: 255, b: 255, a: 255 })
        &&& self.max_scale == 120u32
        &&& self.pic_h == 520u32
        &&& self.text_up_h == 214u32
        &&& self.video_cover_time == 3u32
        &&& self.video_ending_time == 3u32
        &&& self.video_background_color@ == "white"@
        &&& self.video_swip_speed == 3u32
        &&& self.video_fps == 60u32
    }

    /// A builder holding the default configuration for the given chunks.
    pub fn new(work_dir: &str, chunks: Vec<Chunk>) -> (r: BigImgBuilder)
        ensures
            r.is_defaults(work_dir@, chunks),
    {
        BigImgBuilder {
            work_dir: String::from_str(work_dir),
            chunks,
            screen: (1920, 1080),
            step: 100,
            width_chunk: 480,
            text_background_color: (
                Color { r: 23, g: 150, b: 235, a: 255 },
                Color { r: 44, g: 85, b: 153, a: 255 },
            ),
            text_color: Color { r: 255, g: 255, b: 255, a: 255 },
            max_scale: 120,
            pic_h: 520,
            text_up_h: 214,
            video_cover_time: 3,
            video_ending_time: 3,
            video_background_color: String::from_str("white"),
            video_swip_speed: 3,
            video_fps: 60,
        }
    }

    /// Validates the builder and produces the configuration.
    ///
    /// Fails exactly when the chunk collection is empty, when the image band
    /// is taller than the screen, or when the screen width is not an even
    /// multiple of the chunk width. On success `step` is clamped to the chunk
    /// count, `overlap` is `screen.0 / width_chunk`, and the lower caption
    /// band receives the height left under the image and upper caption bands.
    pub fn build(self) -> (r: Result<BigImg, Error>)
        requires
            self.wf(),
            self.chunks@.len() <= u32::MAX,
            (self.chunks@.len() >= 1 && self.pic_h <= self.screen.1
                && self.screen.0 as int % self.width_chunk as int == 0) ==> self.pic_h
                + self.text_up_h <= self.screen.1,
        ensures
            r is Ok <==> {
                &&& self.chunks@.len() >= 1
                &&& self.pic_h <= self.screen.1
                &&& self.screen.0 as int % self.width_chunk as int == 0
            },
            r matches Ok(cfg) ==> cfg == (BigImg {
                work_dir: self.work_dir,
                chunks: self.chunks,
                screen: self.screen,
                step: (min(self.step as int, self.chunks@.len() as int) as u32),
                width_chunk: self.width_chunk,
                overlap: ((self.screen.0 / self.width_chunk) as u32),
                text_background_color: self.text_background_color,
                text_color: self.text_color,
                max_scale: self.max_scale,
                pic_h: self.pic_h,
                text_up_h: self.text_up_h,
                text_down_h: ((self.screen.1 - self.pic_h - self.text_up_h) as u32),
                video_cover_time: self.video_cover_time,
                video_ending_time: self.video_ending_time,
                video_background_color: self.video_background_color,
                video_swip_speed: self.video_swip_speed,
                video_fps: self.video_fps,
            }),
            r matches Ok(cfg) ==> cfg.wf(),
            r matches Err(e) ==> e.kind == Kind::BigImgBuilderError,
    {
        if self.chunks.len() == 0 {
            return Err(Error::new(Kind::BigImgBuilderError, "chunks data is empty"));
        }
        if self.pic_h > self.screen.1 {
            return Err(Error::new(Kind::BigImgBuilderError, "pic_h > height_screen"));
        }
        if self.screen.0 % self.width_chunk != 0 {
            return Err(
                Error::new(Kind::BigImgBuilderError, "width_screen % width_chunk != 0"),
            );
        }
        let step: u32 = if (self.step as usize) <= self.chunks.len() {
            self.step
        } else {
            self.chunks.len() as u32
        };
        Ok(
            BigImg {
                work_dir: self.work_dir,
                chunks: self.chunks,
                screen: self.screen,
                step,
                width_chunk: self.width_chunk,
                overlap: self.screen.0 / self.width_chunk,
                text_background_color: self.text_background_color,
                text_color: self.text_color,
                max_scale: self.max_scale,
                pic_h: self.pic_h,
                text_up_h: self.text_up_h,
                text_down_h: self.screen.1 - self.pic_h - self.text_up_h,
                video_cover_time: self.video_cover_time,
                video_ending_time: self.video_ending_time,
                video_background_color: self.video_background_color,
                video_swip_speed: self.video_swip_speed,
                video_fps: self.video_fps,
            },
        )
    }

    /// Sets the screen resolution. Zero-sized screens are a caller error.
    pub fn screen(self, screen: (u32, u32)) -> (r: Self)
        requires
            screen.0 != 0,
            screen.1 != 0,
        ensures
            r == (Self { screen, ..self }),
    {
        Self { screen, ..self }
    }

    /// Sets how many chunks one middle segment covers. Zero is a caller error.
    pub fn step(self, step: u32) -> (r: Self)
        requires
            step != 0,
        ensures
            r == (Self { step, ..self }),
    {
        Self { step, ..self }
    }

    /// Sets the width of one chunk cell. Zero is a caller error.
    pub fn width_chunk(self, width_chunk: u32) -> (r: Self)
        requires
            width_chunk != 0,
        ensures
            r == (Self { width_chunk, ..self }),
    {
        Self { width_chunk, ..self }
    }

    /// Sets the caption text color.
    pub fn text_color(self, text_color: Color) -> (r: Self)
        ensures
            r == (Self { text_color, ..self }),
    {
        Self { text_color, ..self }
    }

    /// Sets the background colors of the upper and lower caption bands.
    pub fn text_background_color(self, color: (Color, Color)) -> (r: Self)
        ensures
            r == (Self { text_background_color: color, ..self }),
    {
        Self { text_background_color: color, ..self }
    }

    /// Sets the largest factor by which a source image may be scaled up.
    pub fn max_scale(self, max_scale: u32) -> (r: Self)
        ensures
            r == (Self { max_scale, ..self }),
    {
        Self { max_scale, ..self }
    }

    /// Sets the height of the image band. Zero is a caller error.
    pub fn pic_h(self, pic_h: u32) -> (r: Self)
        requires
            pic_h != 0,
        ensures
            r == (Self { pic_h, ..self }),
    {
        Self { pic_h, ..self }
    }

    /// Sets the height of the upper caption band. Zero is a caller error.
    pub fn text_up_h(self, text_up_h: u32) -> (r: Self)
        requires
            text_up_h != 0,
        ensures
            r == (Self { text_up_h, ..self }),
    {
        Self { text_up_h, ..self }
    }

    /// Sets the cover clip duration in seconds.
    pub fn video_cover_time(self, video_cover_time: u32) -> (r: Self)
        ensures
            r == (Self { video_cover_time, ..self }),
    {
        Self { video_cover_time, ..self }
    }

    /// Sets the ending clip duration in seconds.
    pub fn video_ending_time(self, video_ending_time: u32) -> (r: Self)
        ensures
            r == (Self { video_ending_time, ..self }),
    {
        Self { video_ending_time, ..self }
    }

    /// Sets the backdrop color handed to the encoder.
    pub fn video_background_color(self, video_background_color: String) -> (r: Self)
        ensures
            r == (Self { video_background_color, ..self }),
    {
        Self { video_background_color, ..self }
    }

    /// Sets how many seconds the scroll takes per chunk width.
    pub fn video_swip_speed(self, video_swip_speed: u32) -> (r: Self)
        ensures
            r == (Self { video_swip_speed, ..self }),
    {
        Self { video_swip_speed, ..self }
    }

    /// Sets the frame rate of the produced clips.
    pub fn video_fps(self, video_fps: u32) -> (r: Self)
        ensures
            r == (Self { video_fps, ..self }),
    {
        Self { video_fps, ..self }
    }
}

} // verus!
