use swiping_img::chunk::Chunk;
use swiping_img::config::{BigImg, BigImgBuilder};
use swiping_img::error::Kind;

fn sample_chunks(n: usize) -> Vec<Chunk> {
    let mut v = Vec::new();
    for i in 0..n {
        v.push(
            Chunk::new(
                format!("img{i}.png"),
                vec![String::from("up")],
                vec![String::from("down")],
            )
            .unwrap(),
        );
    }
    v
}

#[test]
fn test() {}

#[test]
fn test_swipingimg_new_panic2() {
    let bind = vec![Chunk::new(
        String::from("t1"),
        vec![String::from("value")],
        vec![String::from("456")],
    )
    .unwrap()];
    let t = BigImgBuilder::new("", bind).pic_h(200).build();
    match t {
        Ok(_) => (),
        Err(e) => println!("{e:#?}"),
    }
}

#[test]
fn chunk_new_rejects_empty_path() {
    let r = Chunk::new(String::new(), vec![], vec![]);
    assert!(r.is_err());
    assert_eq!(r.unwrap_err().kind, Kind::Other);
}

#[test]
fn build_fails_on_empty_chunks() {
    let r = BigImgBuilder::new("work", Vec::new()).build();
    assert!(r.is_err());
    assert_eq!(r.unwrap_err().kind, Kind::BigImgBuilderError);
}

#[test]
fn build_fails_when_pic_h_exceeds_screen_height() {
    let r = BigImgBuilder::new("work", sample_chunks(3)).pic_h(2000).build();
    assert!(r.is_err());
    assert_eq!(r.unwrap_err().kind, Kind::BigImgBuilderError);
}

#[test]
fn build_fails_when_width_does_not_divide() {
    let r = BigImgBuilder::new("work", sample_chunks(3)).width_chunk(1000).build();
    assert!(r.is_err());
    assert_eq!(r.unwrap_err().kind, Kind::BigImgBuilderError);
}

#[test]
fn build_succeeds_and_clamps_step() {
    let cfg = BigImgBuilder::new("work", sample_chunks(5)).build().unwrap();
    assert_eq!(cfg.step, 5);
    assert_eq!(cfg.overlap, 4);
    assert_eq!(cfg.width_chunk, 480);
    assert_eq!(cfg.screen, (1920, 1080));
    assert_eq!(cfg.text_down_h, 346);
    assert_eq!(cfg.video_background_color, "white");
}

#[test]
fn build_keeps_small_step() {
    let cfg = BigImgBuilder::new("work", sample_chunks(50)).step(7).build().unwrap();
    assert_eq!(cfg.step, 7);
}

#[test]
fn new_uses_defaults() {
    let cfg = BigImg::new("work", sample_chunks(200));
    assert_eq!(cfg.step, 100);
    assert_eq!(cfg.overlap, 4);
    assert_eq!(cfg.pic_h, 520);
    assert_eq!(cfg.text_up_h, 214);
    assert_eq!(cfg.video_cover_time, 3);
    assert_eq!(cfg.video_ending_time, 3);
    assert_eq!(cfg.video_swip_speed, 3);
    assert_eq!(cfg.video_fps, 60);
    assert_eq!(cfg.max_scale, 120);
}

#[test]
fn error_message_is_kept() {
    let e = BigImgBuilder::new("work", Vec::new()).build().unwrap_err();
    assert_eq!(e.message(), "chunks data is empty");
}
