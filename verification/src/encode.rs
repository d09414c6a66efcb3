//! Segment encoding: the exact argument lists handed to the external video
//! encoder for endpoint (static) and scroll (panning) segments, and the
//! verdict on an encoder run's exit status. The caller launches the encoder
//! in the working directory with exactly these arguments and reports back
//! whether it exited successfully.

use vstd::prelude::*;
use crate::config::BigImg;
use crate::error::{Error, Kind};
use crate::numfmt::{spec_dec, u32_to_string};
use crate::partition::Window;

verus! {

/// One segment of the output video: which chunks it covers, the names of its
/// still image and clip under the working directory, and the encoder
/// invocation that turns the still into the clip.
#[derive(Debug)]
pub struct SegmentJob {
    /// The chunk range composed into this segment's still.
    pub window: Window,
    /// File name of the composed still image.
    pub pic_name: String,
    /// File name of the encoded clip.
    pub video_name: String,
    /// Clip duration in seconds: the configured time for an endpoint
    /// segment, `swip_speed * (window length - overlap) + 1` for a scroll
    /// segment.
    pub run_seconds: u32,
    /// Arguments of the encoder invocation that produces the clip.
    pub args: Vec<String>,
}

/// The filter-graph argument of an endpoint segment: a solid backdrop of the
/// screen size at the configured frame rate, with the still overlaid until
/// the backdrop ends.
pub open spec fn spec_endpoint_filter(bg: Seq<char>, w: int, h: int, fps: int) -> Seq<char> {
    "color="@ + bg + ":s="@ + spec_dec(w) + "x"@ + spec_dec(h) + ":r="@ + spec_dec(fps)
        + "[bg];[bg][0]overlay=shortest=1"@
}

/// The filter-graph argument of a scroll segment: the same backdrop, with the
/// still panning leftward at `speed` pixels per second.
pub open spec fn spec_mid_filter(bg: Seq<char>, w: int, h: int, fps: int, speed: int) -> Seq<
    char,
> {
    "color="@ + bg + ":s="@ + spec_dec(w) + "x"@ + spec_dec(h) + ":r="@ + spec_dec(fps)
        + "[bg];[bg][0]overlay=x=-t*"@ + spec_dec(speed) + ":shortest=1"@
}

/// The encoder argument list of an endpoint segment.
pub open spec fn spec_endpoint_args(pic: Seq<char>, filter: Seq<char>, t: int, video: Seq<
    char,
>) -> Seq<Seq<char>> {
    seq![
        "-r"@,
        "1"@,
        "-loop"@,
        "1"@,
        "-i"@,
        pic,
        "-filter_complex"@,
        filter,
        "-preset"@,
        "fast"@,
        "-t"@,
        spec_dec(t),
        "-y"@,
        video,
    ]
}

/// The encoder argument list of a scroll segment.
pub open spec fn spec_mid_args(t: int, pic: Seq<char>, filter: Seq<char>, video: Seq<char>) -> Seq<
    Seq<char>,
> {
    seq![
        "-r"@,
        "1"@,
        "-loop"@,
        "1"@,
        "-t"@,
        spec_dec(t),
        "-i"@,
        pic,
        "-filter_complex"@,
        filter,
        "-preset"@,
        "fast"@,
        "-y"@,
        video,
    ]
}

/// The encoder argument list of the final lossless concatenation.
pub open spec fn spec_concat_args(save: Seq<char>) -> Seq<Seq<char>> {
    seq!["-f"@, "concat"@, "-i"@, "list.txt"@, "-c"@, "copy"@, "-y"@, save]
}

/// What `generate_endpoint_video` produces for a given window, name base and
/// duration.
pub open spec fn spec_endpoint_job(
    cfg: BigImg,
    window: Window,
    base: Seq<char>,
    video_time: int,
    job: SegmentJob,
) -> bool {
    &&& job.window == window
    &&& job.pic_name@ == base + ".png"@
    &&& job.video_name@ == base + ".mp4"@
    &&& job.run_seconds == video_time
    &&& job.args.deep_view() == spec_endpoint_args(
        job.pic_name@,
        spec_endpoint_filter(
            cfg.video_background_color@,
            cfg.screen.0 as int,
            cfg.screen.1 as int,
            cfg.video_fps as int,
        ),
        video_time,
        job.video_name@,
    )
}

/// What `generate_mid_video` produces for a given window and name base.
pub open spec fn spec_mid_job(cfg: BigImg, window: Window, base: Seq<char>, job: SegmentJob) -> bool {
    &&& job.window == window
    &&& job.pic_name@ == base + ".png"@
    &&& job.video_name@ == base + ".mp4"@
    &&& job.run_seconds == cfg.video_swip_speed as int * (window.end - window.start
        - cfg.overlap as int) + 1
    &&& job.args.deep_view() == spec_mid_args(
        job.run_seconds as int,
        job.pic_name@,
        spec_mid_filter(
            cfg.video_background_color@,
            cfg.screen.0 as int,
            cfg.screen.1 as int,
            cfg.video_fps as int,
            cfg.width_chunk as int / cfg.video_swip_speed as int,
        ),
        job.video_name@,
    )
}

impl BigImg {
    /// The shared head of both filter graphs.
    fn filter_head(&self) -> (r: String)
        ensures
            r@ == "color="@ + self.video_background_color@ + ":s="@ + spec_dec(
                self.screen.0 as int,
            ) + "x"@ + spec_dec(self.screen.1 as int) + ":r="@ + spec_dec(self.video_fps as int),
    {
        String::from_str("color=").concat(self.video_background_color.as_str()).concat(
            ":s=",
        ).concat(u32_to_string(self.screen.0).as_str()).concat("x").concat(
            u32_to_string(self.screen.1).as_str(),
        ).concat(":r=").concat(u32_to_string(self.video_fps).as_str())
    }

    /// Describes the encoder run of a cover or ending segment: a clip that
    /// shows the still `base.png` for `video_time` seconds over the backdrop.
    /// The caller composes and saves the still first, then runs the encoder
    /// with `job.args` in the working directory.
    pub fn generate_endpoint_video(&self, window: Window, base: &str, video_time: u32) -> (job:
        SegmentJob)
        ensures
            spec_endpoint_job(*self, window, base@, video_time as int, job),
    {
        let pic_name = String::from_str(base).concat(".png");
        let video_name = String::from_str(base).concat(".mp4");
        let filter = self.filter_head().concat("[bg];[bg][0]overlay=shortest=1");
        let mut args: Vec<String> = Vec::new();
        args.push(String::from_str("-r"));
        args.push(String::from_str("1"));
        args.push(String::from_str("-loop"));
        args.push(String::from_str("1"));
        args.push(String::from_str("-i"));
        args.push(pic_name.clone());
        args.push(String::from_str("-filter_complex"));
        args.push(filter);
        args.push(String::from_str("-preset"));
        args.push(String::from_str("fast"));
        args.push(String::from_str("-t"));
        args.push(u32_to_string(video_time));
        args.push(String::from_str("-y"));
        args.push(video_name.clone());
        let job = SegmentJob { window, pic_name, video_name, run_seconds: video_time, args };
        proof {
            assert(job.args.deep_view() =~~= spec_endpoint_args(
                job.pic_name@,
                spec_endpoint_filter(
                    self.video_background_color@,
                    self.screen.0 as int,
                    self.screen.1 as int,
                    self.video_fps as int,
                ),
                video_time as int,
                job.video_name@,
            ));
        }
        job
    }

    /// Describes the encoder run of a scroll segment over `window`: the clip
    /// pans the still `base.png` leftward at `width_chunk / swip_speed`
    /// pixels per second and lasts `swip_speed * (window length - overlap)
    /// + 1` seconds, exactly long enough for the last `overlap` chunks to
    /// settle on screen. The caller composes and saves the still first, then
    /// runs the encoder with `job.args` in the working directory.
    pub fn generate_mid_video(&self, window: Window, base: &str) -> (job: SegmentJob)
        requires
            1 <= self.video_swip_speed,
            self.overlap as int <= window.end - window.start,
            self.video_swip_speed as int * (window.end - window.start - self.overlap as int) + 1
                <= u32::MAX,
        ensures
            spec_mid_job(*self, window, base@, job),
    {
        let pic_name = String::from_str(base).concat(".png");
        let video_name = String::from_str(base).concat(".mp4");
        proof {
            assert(window.end - window.start - self.overlap as int <= self.video_swip_speed as int
                * (window.end - window.start - self.overlap as int)) by (nonlinear_arith)
                requires
                    1 <= self.video_swip_speed,
                    0 <= window.end - window.start - self.overlap as int,
            ;
        }
        let adjust_len: u32 = (window.end - window.start - self.overlap as usize) as u32;
        let run_seconds: u32 = self.video_swip_speed * adjust_len + 1;
        let speed: u32 = self.width_chunk / self.video_swip_speed;
        let filter = self.filter_head().concat("[bg];[bg][0]overlay=x=-t*").concat(
            u32_to_string(speed).as_str(),
        ).concat(":shortest=1");
        let mut args: Vec<String> = Vec::new();
        args.push(String::from_str("-r"));
        args.push(String::from_str("1"));
        args.push(String::from_str("-loop"));
        args.push(String::from_str("1"));
        args.push(String::from_str("-t"));
        args.push(u32_to_string(run_seconds));
        args.push(String::from_str("-i"));
        args.push(pic_name.clone());
        args.push(String::from_str("-filter_complex"));
        args.push(filter);
        args.push(String::from_str("-preset"));
        args.push(String::from_str("fast"));
        args.push(String::from_str("-y"));
        args.push(video_name.clone());
        let job = SegmentJob { window, pic_name, video_name, run_seconds, args };
        proof {
            assert(job.args.deep_view() =~~= spec_mid_args(
                run_seconds as int,
                job.pic_name@,
                spec_mid_filter(
                    self.video_background_color@,
                    self.screen.0 as int,
                    self.screen.1 as int,
                    self.video_fps as int,
                    self.width_chunk as int / self.video_swip_speed as int,
                ),
                job.video_name@,
            ));
        }
        job
    }

    /// The argument list of the final lossless splice of all segment clips,
    /// read from the manifest `list.txt` in the working directory.
    pub fn concat_args(&self, save_name: &str) -> (args: Vec<String>)
        ensures
            args.deep_view() == spec_concat_args(save_name@),
    {
        let mut args: Vec<String> = Vec::new();
        args.push(String::from_str("-f"));
        args.push(String::from_str("concat"));
        args.push(String::from_str("-i"));
        args.push(String::from_str("list.txt"));
        args.push(String::from_str("-c"));
        args.push(String::from_str("copy"));
        args.push(String::from_str("-y"));
        args.push(String::from_str(save_name));
        proof {
            assert(args.deep_view() =~~= spec_concat_args(save_name@));
        }
        args
    }

    /// The orchestrator's verdict on one encoder run: a successful exit
    /// passes, any other exit is the hard failure that aborts the run. The
    /// caller surfaces the captured diagnostic output beside the error.
    pub fn ffmpeg_status(&self, success: bool) -> (r: Result<(), Error>)
        ensures
            r is Ok <==> success,
            r matches Err(e) ==> e.kind == Kind::Other,
    {
        if success {
            Ok(())
        } else {
            Err(Error::new(Kind::Other, "FFmpeg command failed"))
        }
    }
}

} // verus!
