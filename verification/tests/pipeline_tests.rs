use swiping_img::chunk::Chunk;
use swiping_img::config::BigImgBuilder;
use swiping_img::numfmt::{pad2_string, u32_to_string};
use swiping_img::partition::Window;

fn chunks(n: usize) -> Vec<Chunk> {
    let mut v = Vec::new();
    for i in 0..n {
        v.push(Chunk::new(format!("{i}.png"), vec![], vec![]).unwrap());
    }
    v
}

fn small_config() -> swiping_img::config::BigImg {
    BigImgBuilder::new("work", chunks(5))
        .screen((4, 8))
        .width_chunk(2)
        .pic_h(2)
        .text_up_h(2)
        .step(3)
        .build()
        .unwrap()
}

#[test]
fn decimal_rendering() {
    assert_eq!(u32_to_string(0), "0");
    assert_eq!(u32_to_string(7), "7");
    assert_eq!(u32_to_string(42), "42");
    assert_eq!(u32_to_string(4294967295), "4294967295");
    assert_eq!(pad2_string(0), "00");
    assert_eq!(pad2_string(7), "07");
    assert_eq!(pad2_string(12), "12");
    assert_eq!(pad2_string(123), "123");
}

#[test]
fn endpoint_job_arguments() {
    let cfg = small_config();
    let job = cfg.generate_endpoint_video(Window { start: 0, end: 2 }, "cover", 3);
    assert_eq!(job.pic_name, "cover.png");
    assert_eq!(job.video_name, "cover.mp4");
    assert_eq!(job.run_seconds, 3);
    assert_eq!(
        job.args,
        vec![
            "-r",
            "1",
            "-loop",
            "1",
            "-i",
            "cover.png",
            "-filter_complex",
            "color=white:s=4x8:r=60[bg];[bg][0]overlay=shortest=1",
            "-preset",
            "fast",
            "-t",
            "3",
            "-y",
            "cover.mp4",
        ]
    );
}

#[test]
fn mid_job_duration_and_arguments() {
    let cfg = small_config();
    // window of three chunks, overlap two: duration 3 * (3 - 2) + 1
    let job = cfg.generate_mid_video(Window { start: 0, end: 3 }, "00");
    assert_eq!(job.run_seconds, 4);
    assert_eq!(
        job.args,
        vec![
            "-r",
            "1",
            "-loop",
            "1",
            "-t",
            "4",
            "-i",
            "00.png",
            "-filter_complex",
            "color=white:s=4x8:r=60[bg];[bg][0]overlay=x=-t*0:shortest=1",
            "-preset",
            "fast",
            "-y",
            "00.mp4",
        ]
    );
}

#[test]
fn mid_job_duration_with_real_sizes() {
    let cfg = BigImgBuilder::new("work", chunks(20)).step(10).build().unwrap();
    // overlap 4, window of ten chunks: duration 3 * (10 - 4) + 1
    let job = cfg.generate_mid_video(Window { start: 0, end: 10 }, "00");
    assert_eq!(job.run_seconds, 19);
    // pan speed: one chunk width every swip_speed seconds
    assert!(job.args.contains(&String::from(
        "color=white:s=1920x1080:r=60[bg];[bg][0]overlay=x=-t*160:shortest=1"
    )));
}

#[test]
fn ffmpeg_status_verdict() {
    let cfg = small_config();
    assert!(cfg.ffmpeg_status(true).is_ok());
    let e = cfg.ffmpeg_status(false).unwrap_err();
    assert_eq!(e.kind, swiping_img::error::Kind::Other);
}

#[test]
fn combain_plans_the_whole_run() {
    let cfg = small_config();
    let plan = cfg.combain("out.mp4").unwrap();

    assert_eq!(plan.cover.window, Window { start: 0, end: 2 });
    assert_eq!(plan.cover.pic_name, "cover.png");
    assert_eq!(plan.cover.run_seconds, 3);

    assert_eq!(plan.mids.len(), 3);
    assert_eq!(plan.mids[0].pic_name, "00.png");
    assert_eq!(plan.mids[0].window, Window { start: 0, end: 3 });
    assert_eq!(plan.mids[1].pic_name, "01.png");
    assert_eq!(plan.mids[1].window, Window { start: 1, end: 4 });
    assert_eq!(plan.mids[2].pic_name, "02.png");
    assert_eq!(plan.mids[2].window, Window { start: 2, end: 5 });
    for mid in &plan.mids {
        assert_eq!(mid.run_seconds, 4);
    }

    assert_eq!(plan.ending.window, Window { start: 3, end: 5 });
    assert_eq!(plan.ending.pic_name, "ending.png");
    assert_eq!(plan.ending.video_name, "ending.mp4");
    assert_eq!(plan.ending.run_seconds, 3);

    assert_eq!(
        plan.list_content,
        "file cover.mp4\nfile 00.mp4\nfile 01.mp4\nfile 02.mp4\nfile ending.mp4\n"
    );
    assert_eq!(
        plan.concat_args,
        vec!["-f", "concat", "-i", "list.txt", "-c", "copy", "-y", "out.mp4"]
    );
    assert_eq!(
        plan.cleanup,
        vec![
            "cover.png",
            "cover.mp4",
            "00.png",
            "00.mp4",
            "01.png",
            "01.mp4",
            "02.png",
            "02.mp4",
            "ending.png",
            "ending.mp4",
            "list.txt",
        ]
    );
    assert!(!plan.cleanup.contains(&String::from("out.mp4")));
}

#[test]
fn combain_fails_where_partitioning_fails() {
    let cfg = BigImgBuilder::new("work", chunks(2))
        .screen((4, 8))
        .width_chunk(2)
        .pic_h(2)
        .text_up_h(2)
        .step(3)
        .build()
        .unwrap();
    // two chunks, overlap 2: nothing to scroll
    assert!(cfg.combain("out.mp4").is_err());
}
