//! The orchestration plan of one run: the strict, non-reorderable sequence of
//! segment productions (cover, middle segments in window order, ending), the
//! concatenation manifest, the final lossless splice, and the cleanup list.
//!
//! The library computes the whole plan and proves its shape; the caller
//! executes it in order against the working directory: compose and save each
//! segment's still, run the encoder with the segment's arguments, write the
//! manifest, run the final splice, and only after that success delete the
//! files on the cleanup list (ignoring deletion failures). Any earlier
//! failure aborts the run at once and leaves the files already written.

use vstd::prelude::*;
use vstd::arithmetic::div_mod::lemma_div_nonincreasing;
use crate::config::BigImg;
use crate::encode::{
    SegmentJob, spec_concat_args, spec_endpoint_job, spec_mid_job,
};
use crate::error::{Error, Kind};
use crate::numfmt::{pad2_string, spec_pad2};
use crate::partition::{lemma_windows_cover, windows_spec, Window};

verus! {

/// Everything one run does, in order.
#[derive(Debug)]
pub struct Plan {
    /// The static cover segment over the first `overlap` chunks.
    pub cover: SegmentJob,
    /// The scroll segments, one per window, in window order.
    pub mids: Vec<SegmentJob>,
    /// The static ending segment over the last `overlap` chunks.
    pub ending: SegmentJob,
    /// Content of the concatenation manifest `list.txt`.
    pub list_content: String,
    /// Arguments of the final lossless splice.
    pub concat_args: Vec<String>,
    /// Files to delete after the splice succeeded, in order: every
    /// intermediate still and clip, then the manifest itself.
    pub cleanup: Vec<String>,
}

/// The clip names of all segments, in production order.
pub open spec fn plan_videos(p: Plan) -> Seq<Seq<char>> {
    seq![p.cover.video_name@] + Seq::new(p.mids@.len(), |j: int| p.mids@[j].video_name@)
        + seq![p.ending.video_name@]
}

/// The manifest content for the given clips: one `file <clip>` line each.
pub open spec fn spec_list_lines(videos: Seq<Seq<char>>) -> Seq<char>
    decreases videos.len(),
{
    if videos.len() == 0 {
        Seq::empty()
    } else {
        spec_list_lines(videos.drop_last()) + "file "@ + videos.last() + "\n"@
    }
}

/// The still and clip of one segment, in the order they are written.
pub open spec fn job_files(j: SegmentJob) -> Seq<Seq<char>> {
    seq![j.pic_name@, j.video_name@]
}

/// The files of the first `n` scroll segments, in the order they are written.
pub open spec fn mids_files(mids: Seq<SegmentJob>, n: int) -> Seq<Seq<char>>
    decreases n,
{
    if n <= 0 {
        Seq::empty()
    } else {
        mids_files(mids, n - 1) + job_files(mids[n - 1])
    }
}

/// Every file the plan writes besides the final output, in the order it is
/// written: each segment's still and clip, then the manifest.
pub open spec fn plan_intermediates(p: Plan) -> Seq<Seq<char>> {
    job_files(p.cover) + mids_files(p.mids@, p.mids@.len() as int) + job_files(p.ending)
        + seq!["list.txt"@]
}

/// What `combain` promises of the plan it returns.
pub open spec fn plan_matches(p: Plan, cfg: BigImg, save_name: Seq<char>) -> bool {
    let len = cfg.chunks@.len() as int;
    let ws = windows_spec(len, cfg.step as int, cfg.overlap as int);
    &&& spec_endpoint_job(
        cfg,
        Window { start: 0, end: cfg.overlap as usize },
        "cover"@,
        cfg.video_cover_time as int,
        p.cover,
    )
    &&& p.mids@.len() == ws.len()
    &&& forall|j: int|
        0 <= j < ws.len() ==> spec_mid_job(cfg, ws[j], spec_pad2(j), #[trigger] p.mids@[j])
    &&& spec_endpoint_job(
        cfg,
        Window { start: (len - cfg.overlap) as usize, end: len as usize },
        "ending"@,
        cfg.video_ending_time as int,
        p.ending,
    )
    &&& p.list_content@ == spec_list_lines(plan_videos(p))
    &&& p.concat_args.deep_view() == spec_concat_args(save_name)
    &&& p.cleanup.deep_view() == plan_intermediates(p)
}

impl BigImg {
    /// Computes the plan of one whole run that produces `save_name`.
    ///
    /// Fails exactly where partitioning fails: when the chunk sequence is no
    /// longer than `overlap`, or when `step` does not exceed `overlap`. On
    /// success the plan holds the cover over the first `overlap` chunks, one
    /// scroll segment per window under the names `00`, `01`, ..., the ending
    /// over the last `overlap` chunks, the manifest listing every clip in
    /// production order, the splice arguments, and the cleanup list naming
    /// every intermediate file and the manifest.
    #[verifier::rlimit(60)]
    pub fn combain(&self, save_name: &str) -> (r: Result<Plan, Error>)
        requires
            self.wf(),
            1 <= self.video_swip_speed,
            self.overlap < self.step ==> self.video_swip_speed as int * (self.step
                - self.overlap) + 1 <= u32::MAX,
        ensures
            r is Ok <==> (self.overlap < self.step && (self.overlap as int)
                < self.chunks@.len()),
            r matches Ok(p) ==> plan_matches(p, *self, save_name@),
            r matches Err(e) ==> e.kind == Kind::Other,
    {
        let ws = match self.divide() {
            Ok(w) => w,
            Err(e) => { return Err(e) },
        };
        let ghost glen = self.chunks@.len() as int;
        let ghost gstep = self.step as int;
        let ghost gover = self.overlap as int;
        proof {
            lemma_windows_cover(glen, gstep, gover);
            lemma_div_nonincreasing(glen - gover - 1, gstep - gover);
        }
        let cover = self.generate_endpoint_video(
            Window { start: 0, end: self.overlap as usize },
            "cover",
            self.video_cover_time,
        );
        let mut mids: Vec<SegmentJob> = Vec::new();
        let mut j: usize = 0;
        while j < ws.len()
            invariant
                self.wf(),
                1 <= self.video_swip_speed,
                glen == self.chunks@.len() as int,
                gstep == self.step as int,
                gover == self.overlap as int,
                gover < gstep,
                gover < glen <= u32::MAX,
                self.video_swip_speed as int * (gstep - gover) + 1 <= u32::MAX,
                ws@ == windows_spec(glen, gstep, gover),
                ws@.len() <= u32::MAX,
                j <= ws@.len(),
                mids@.len() == j,
                forall|k: int|
                    0 <= k < j ==> spec_mid_job(*self, ws@[k], spec_pad2(k), #[trigger] mids@[k]),
            decreases ws@.len() - j,
        {
            let w = ws[j];
            let base = pad2_string(j as u32);
            proof {
                lemma_windows_cover(glen, gstep, gover);
                assert(w.start as int + gover < w.end && w.end - w.start <= gstep);
                assert(self.video_swip_speed as int * (w.end - w.start - gover)
                    <= self.video_swip_speed as int * (gstep - gover)) by (nonlinear_arith)
                    requires
                        1 <= self.video_swip_speed,
                        0 <= w.end - w.start - gover <= gstep - gover,
                ;
            }
            let job = self.generate_mid_video(w, base.as_str());
            mids.push(job);
            j += 1;
        }
        let ending = self.generate_endpoint_video(
            Window { start: self.chunks.len() - self.overlap as usize, end: self.chunks.len() },
            "ending",
            self.video_ending_time,
        );
        let list_content = manifest_content(&cover, &mids, &ending);
        let concat_args = self.concat_args(save_name);
        let cleanup = cleanup_list(&cover, &mids, &ending);
        let plan = Plan { cover, mids, ending, list_content, concat_args, cleanup };
        proof {
            assert(plan_videos(plan) =~= seq![plan.cover.video_name@] + Seq::new(
                plan.mids@.len(),
                |t: int| plan.mids@[t].video_name@,
            ) + seq![plan.ending.video_name@]);
            assert(plan.cleanup.deep_view() =~~= plan_intermediates(plan));
        }
        Ok(plan)
    }
}

/// Appending one clip extends the manifest by exactly one line.
proof fn lemma_list_lines_push(videos: Seq<Seq<char>>, v: Seq<char>)
    ensures
        spec_list_lines(videos.push(v)) == spec_list_lines(videos) + "file "@ + v + "\n"@,
{
    assert(videos.push(v).drop_last() =~= videos);
    assert(videos.push(v).last() == v);
}

/// The concatenation manifest for the given segments, in production order.
fn manifest_content(cover: &SegmentJob, mids: &Vec<SegmentJob>, ending: &SegmentJob) -> (s: String)
    ensures
        s@ == spec_list_lines(
            seq![cover.video_name@] + Seq::new(mids@.len(), |t: int| mids@[t].video_name@)
                + seq![ending.video_name@],
        ),
{
    let ghost mut videos: Seq<Seq<char>> = Seq::empty();
    let mut s = String::new();
    proof {
        lemma_list_lines_push(videos, cover.video_name@);
        videos = videos.push(cover.video_name@);
    }
    s.append("file ");
    s.append(cover.video_name.as_str());
    s.append("\n");
    proof {
        assert(s@ =~= spec_list_lines(videos));
    }
    let mut k: usize = 0;
    while k < mids.len()
        invariant
            k <= mids@.len(),
            videos == seq![cover.video_name@] + Seq::new(
                k as nat,
                |t: int| mids@[t].video_name@,
            ),
            s@ == spec_list_lines(videos),
        decreases mids@.len() - k,
    {
        proof {
            lemma_list_lines_push(videos, mids@[k as int].video_name@);
            videos = videos.push(mids@[k as int].video_name@);
            assert(videos =~= seq![cover.video_name@] + Seq::new(
                (k + 1) as nat,
                |t: int| mids@[t].video_name@,
            ));
        }
        s.append("file ");
        s.append(mids[k].video_name.as_str());
        s.append("\n");
        proof {
            assert(s@ =~= spec_list_lines(videos));
        }
        k += 1;
    }
    proof {
        lemma_list_lines_push(videos, ending.video_name@);
        videos = videos.push(ending.video_name@);
        assert(videos =~= seq![cover.video_name@] + Seq::new(
            mids@.len(),
            |t: int| mids@[t].video_name@,
        ) + seq![ending.video_name@]);
    }
    s.append("file ");
    s.append(ending.video_name.as_str());
    s.append("\n");
    proof {
        assert(s@ =~= spec_list_lines(videos));
    }
    s
}

/// The cleanup list: every intermediate still and clip in production order,
/// then the manifest.
fn cleanup_list(cover: &SegmentJob, mids: &Vec<SegmentJob>, ending: &SegmentJob) -> (v: Vec<
    String,
>)
    ensures
        v.deep_view() == job_files(*cover) + mids_files(mids@, mids@.len() as int) + job_files(
            *ending,
        ) + seq!["list.txt"@],
{
    let mut v: Vec<String> = Vec::new();
    let ghost mut names: Seq<Seq<char>> = Seq::empty();
    v.push(cover.pic_name.clone());
    v.push(cover.video_name.clone());
    proof {
        names = names + job_files(*cover);
        assert(names =~= job_files(*cover) + mids_files(mids@, 0));
    }
    let mut c: usize = 0;
    while c < mids.len()
        invariant
            c <= mids@.len(),
            v@.len() == names.len(),
            forall|i: int| 0 <= i < names.len() ==> (#[trigger] v@[i])@ == names[i],
            names == job_files(*cover) + mids_files(mids@, c as int),
        decreases mids@.len() - c,
    {
        v.push(mids[c].pic_name.clone());
        v.push(mids[c].video_name.clone());
        proof {
            names = names + job_files(mids@[c as int]);
            assert(names =~= job_files(*cover) + mids_files(mids@, c as int + 1));
        }
        c += 1;
    }
    v.push(ending.pic_name.clone());
    v.push(ending.video_name.clone());
    v.push(String::from_str("list.txt"));
    proof {
        names = names + job_files(*ending) + seq!["list.txt"@];
        assert(names =~= job_files(*cover) + mids_files(mids@, mids@.len() as int) + job_files(
            *ending,
        ) + seq!["list.txt"@]);
        assert(v.deep_view() =~= names);
    }
    v
}

/// The written-file inventory of a run that follows the plan.
///
/// The plan writes, in order: the cover still and clip, then for each scroll
/// segment `j` the still `<j padded>.png` and clip `<j padded>.mp4`, then the
/// ending still and clip, then the manifest `list.txt`, then the output. So a
/// run that fails while producing scroll segment `k` has written exactly the
/// first `2 + 2 * k` of these names and no output file; and a run that
/// completes deletes exactly this whole list, leaving only the output file.
pub proof fn lemma_intermediate_names(p: Plan, cfg: BigImg, save_name: Seq<char>)
    requires
        plan_matches(p, cfg, save_name),
    ensures
        ({
            let files = plan_intermediates(p);
            let n = p.mids@.len() as int;
            &&& p.cleanup.deep_view() == files
            &&& files.len() == 2 * n + 5
            &&& files[0] == "cover"@ + ".png"@
            &&& files[1] == "cover"@ + ".mp4"@
            &&& forall|j: int|
                0 <= j < n ==> files[2 + 2 * j] == spec_pad2(j) + ".png"@ && files[2 + 2 * j
                    + 1] == spec_pad2(j) + ".mp4"@
            &&& files[2 * n + 2] == "ending"@ + ".png"@
            &&& files[2 * n + 3] == "ending"@ + ".mp4"@
            &&& files[2 * n + 4] == "list.txt"@
        }),
{
    let n = p.mids@.len() as int;
    lemma_mids_files_shape(p.mids@, n);
    let ws = windows_spec(cfg.chunks@.len() as int, cfg.step as int, cfg.overlap as int);
    assert forall|j: int| 0 <= j < n implies plan_intermediates(p)[2 + 2 * j] == spec_pad2(j)
        + ".png"@ && plan_intermediates(p)[2 + 2 * j + 1] == spec_pad2(j) + ".mp4"@ by {
        assert(spec_mid_job(cfg, ws[j], spec_pad2(j), p.mids@[j]));
        assert(mids_files(p.mids@, n)[2 * j] == p.mids@[j].pic_name@);
        assert(mids_files(p.mids@, n)[2 * j + 1] == p.mids@[j].video_name@);
    }
}

/// Shape of `mids_files`: `2 * n` names, those of segment `j` at `2 * j`.
proof fn lemma_mids_files_shape(mids: Seq<SegmentJob>, n: int)
    requires
        0 <= n <= mids.len(),
    ensures
        mids_files(mids, n).len() == 2 * n,
        forall|j: int|
            0 <= j < n ==> mids_files(mids, n)[2 * j] == (#[trigger] mids[j]).pic_name@
                && mids_files(mids, n)[2 * j + 1] == mids[j].video_name@,
    decreases n,
{
    if n > 0 {
        lemma_mids_files_shape(mids, n - 1);
    }
}

} // verus!
