use swiping_img::chunk::Chunk;
use swiping_img::config::BigImgBuilder;
use swiping_img::error::Kind;
use swiping_img::partition::Window;

fn chunks(n: usize) -> Vec<Chunk> {
    let mut v = Vec::new();
    for i in 0..n {
        v.push(Chunk::new(format!("{i}.png"), vec![], vec![]).unwrap());
    }
    v
}

/// A small configuration: screen 4x8, chunk cells 2 wide, so `overlap` is 2.
fn small_config(n: usize, step: u32) -> swiping_img::config::BigImg {
    BigImgBuilder::new("work", chunks(n))
        .screen((4, 8))
        .width_chunk(2)
        .pic_h(2)
        .text_up_h(2)
        .step(step)
        .build()
        .unwrap()
}

#[test]
fn five_chunks_step_three_overlap_two() {
    let cfg = small_config(5, 3);
    assert_eq!(cfg.overlap, 2);
    let ws = cfg.divide().unwrap();
    assert_eq!(
        ws,
        vec![
            Window { start: 0, end: 3 },
            Window { start: 1, end: 4 },
            Window { start: 2, end: 5 },
        ]
    );
}

#[test]
fn windows_reach_the_end_without_gaps() {
    let cfg = small_config(10, 4);
    let ws = cfg.divide().unwrap();
    assert_eq!(ws.first().unwrap().start, 0);
    assert_eq!(ws.last().unwrap().end, 10);
    for pair in ws.windows(2) {
        assert_eq!(pair[0].end - pair[1].start, 2);
    }
}

#[test]
fn divide_fails_when_no_more_chunks_than_overlap() {
    let cfg = small_config(2, 2);
    // two chunks, overlap 2: nothing to scroll
    let r = cfg.divide();
    assert!(r.is_err());
    assert_eq!(r.unwrap_err().kind, Kind::Other);
}

#[test]
fn divide_fails_when_step_does_not_exceed_overlap() {
    let cfg = small_config(5, 2);
    let r = cfg.divide();
    assert!(r.is_err());
    assert_eq!(r.unwrap_err().kind, Kind::Other);
}
