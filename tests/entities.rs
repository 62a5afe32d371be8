use flappy::background::{Background, ScrollLayer};
use flappy::bird::{Bird, BirdPose, FlapSound};
use flappy::geometry::Rect;
use flappy::pipe::Pipe;
use flappy::score::Score;

fn bird_at(y: i64, velocity_y: i64) -> Bird {
    let mut b = Bird::new(10_000_000, y, 34_000_000, 24_000_000, 300_000, 500_000_000);
    b.velocity_y = velocity_y;
    b
}

#[test]
fn flap_from_rest_flaps_wings() {
    let mut b = bird_at(100_000_000, 0);
    let s = b.flap();
    assert_eq!(b.velocity_y, -300_000);
    assert_eq!(s, FlapSound::Wing);
}

#[test]
fn flap_while_falling_fast_swooshes() {
    let mut b = bird_at(100_000_000, 600_000);
    let s = b.flap();
    assert_eq!(s, FlapSound::Swoosh);
    assert_eq!(b.velocity_y, -300_000);
}

#[test]
fn flap_at_swoosh_threshold_swooshes() {
    let mut b = bird_at(100_000_000, 500_000);
    assert_eq!(b.flap(), FlapSound::Swoosh);
    let mut c = bird_at(100_000_000, 499_999);
    assert_eq!(c.flap(), FlapSound::Wing);
}

#[test]
fn bird_falls_under_gravity() {
    let mut b = bird_at(100_000_000, 0);
    b.update(10);
    // velocity 1000 * 10 = 10_000 mpx/s, moved 10_000 * 10 = 100_000 upx
    assert_eq!(b.velocity_y, 10_000);
    assert_eq!(b.get_bounding_rect().y, 100_100_000);
    assert!(!b.is_touching_ground());
}

#[test]
fn bird_stops_on_floor() {
    let mut b = bird_at(470_000_000, 400_000);
    b.update(100);
    let r = b.get_bounding_rect();
    assert_eq!(r.y + r.h, 500_000_000);
    assert_eq!(b.velocity_y, 0);
    assert!(b.is_touching_ground());
}

#[test]
fn bird_stops_at_top() {
    let mut b = bird_at(1_000_000, -300_000);
    b.update(100);
    assert_eq!(b.get_bounding_rect().y, 0);
    assert_eq!(b.velocity_y, 0);
    assert!(!b.is_touching_ground());
}

#[test]
fn bird_stays_within_bounds_over_many_frames() {
    let mut b = bird_at(200_000_000, 0);
    for i in 0..500 {
        if i % 37 == 0 {
            b.flap();
        }
        b.update(16);
        let r = b.get_bounding_rect();
        assert!(r.y >= 0);
        assert!(r.y + r.h <= 500_000_000);
    }
}

#[test]
fn bird_pose_follows_velocity() {
    assert_eq!(bird_at(0, 150_000).pose(), BirdPose::Upflap);
    assert_eq!(bird_at(0, 0).pose(), BirdPose::Midflap);
    assert_eq!(bird_at(0, -150_000).pose(), BirdPose::Downflap);
    assert_eq!(bird_at(0, 100_000).pose(), BirdPose::Downflap);
    assert_eq!(bird_at(0, 150_000).rotation_degrees(), 10);
    assert_eq!(bird_at(0, 0).rotation_degrees(), 0);
    assert_eq!(bird_at(0, -150_000).rotation_degrees(), -10);
}

#[test]
fn bird_collides_with_overlapping_rect() {
    let b = bird_at(100_000_000, 0);
    assert!(b.is_colliding(Rect::new(20_000_000, 110_000_000, 5_000_000, 5_000_000)));
    assert!(!b.is_colliding(Rect::new(44_000_000, 110_000_000, 5_000_000, 5_000_000)));
    assert!(!b.is_colliding(Rect::new(10_000_000, 124_000_000, 5_000_000, 5_000_000)));
}

#[test]
fn zero_size_rect_never_collides() {
    let b = bird_at(100_000_000, 0);
    assert!(!b.is_colliding(Rect::new(20_000_000, 110_000_000, 0, 0)));
    assert!(!b.is_colliding(Rect::new(20_000_000, 110_000_000, 0, 5_000_000)));
    assert!(!b.is_colliding(Rect::new(20_000_000, 110_000_000, 5_000_000, 0)));
}

#[test]
fn bird_starting_below_floor_is_clamped() {
    let mut b = Bird::new(10_000_000, 490_000_000, 34_000_000, 24_000_000, 300_000, 500_000_000);
    b.update(0);
    let r = b.get_bounding_rect();
    assert_eq!(r.y, 476_000_000);
    assert!(b.is_touching_ground());
    let mut c = Bird::new(10_000_000, -5_000_000, 34_000_000, 24_000_000, 300_000, 500_000_000);
    c.update(0);
    assert_eq!(c.get_bounding_rect().y, 0);
}

#[test]
fn odd_gap_midpoint_stays_in_band() {
    // midpoint of an odd gap is half a unit above the drawn center
    let p = Pipe::with_gap_center(101, 10, 50, 7, 100, 500, 360);
    let [upper, lower] = p.get_bounding_rects();
    assert_eq!(lower.y, 104);
    assert_eq!(upper.y + upper.h, 97);
    let mid2 = upper.y + upper.h + lower.y;
    assert_eq!(mid2, 201);
    assert!(2 * 500 <= 5 * mid2 && 5 * mid2 <= 8 * 500);
}

#[test]
fn rect_intersection_needs_shared_area() {
    let a = Rect::new(0, 0, 10, 10);
    assert!(a.intersects(&Rect::new(5, 5, 10, 10)));
    assert!(!a.intersects(&Rect::new(10, 0, 10, 10)));
    assert!(!a.intersects(&Rect::new(0, 11, 10, 10)));
}

fn pipe_at(x: i64, w: i64) -> Pipe {
    let mut p = Pipe::with_gap_center(250_000_000, w, 400_000_000, 72_000_000, 100_000, 500_000_000, 360_000_000);
    p.upper_pipe.x = x;
    p.lower_pipe.x = x;
    p
}

#[test]
fn pipe_offscreen_only_when_right_edge_passed() {
    assert!(!pipe_at(-5, 10).is_invisible());
    assert!(pipe_at(-11, 10).is_invisible());
    assert!(!pipe_at(-10, 10).is_invisible());
}

#[test]
fn pipe_with_gap_center_places_rects() {
    let p = Pipe::with_gap_center(250_000_000, 52_000_000, 400_000_000, 72_000_000, 100_000, 500_000_000, 360_000_000);
    let [upper, lower] = p.get_bounding_rects();
    assert_eq!(lower.x, 412_000_000);
    assert_eq!(upper.x, 412_000_000);
    assert_eq!(lower.y, 286_000_000);
    assert_eq!(upper.y + upper.h + 72_000_000, lower.y);
    assert_eq!(upper.y, -186_000_000);
}

#[test]
fn pipe_moves_left_by_speed_times_dt() {
    let mut p = Pipe::with_gap_center(250_000_000, 52_000_000, 400_000_000, 72_000_000, 100_000, 500_000_000, 360_000_000);
    p.update(16);
    let [upper, lower] = p.get_bounding_rects();
    assert_eq!(upper.x, 412_000_000 - 1_600_000);
    assert_eq!(lower.x, 412_000_000 - 1_600_000);
    assert_eq!(upper.y + upper.h + 72_000_000, lower.y);
}

#[test]
fn random_pipes_keep_gap_center_in_middle() {
    let sh: i64 = 500_000_000;
    let mut centers = Vec::new();
    for _ in 0..50 {
        let p = Pipe::new(52_000_000, 400_000_000, 72_000_000, 100_000, sh, 360_000_000);
        let [upper, lower] = p.get_bounding_rects();
        assert_eq!(upper.y + upper.h + 72_000_000, lower.y);
        let center = lower.y - 72_000_000 / 2;
        assert!(5 * center >= sh && 5 * center <= 4 * sh);
        centers.push(center);
    }
    assert!(centers.iter().any(|c| *c != sh / 5));
}

fn assert_covers(layer: &ScrollLayer, width: i64) {
    let t = &layer.tiles;
    assert_eq!(t.len(), 3);
    assert!(t[0].x <= 0);
    for i in 0..t.len() - 1 {
        assert_eq!(t[i].x + t[i].w, t[i + 1].x);
    }
    assert!(t[2].x + t[2].w >= width);
}

#[test]
fn scroll_layer_keeps_coverage_while_recycling() {
    let mut l = ScrollLayer::new(0, 360, 640, 100_000, 1);
    assert_covers(&l, 360);
    for _ in 0..100 {
        l.advance(1);
        assert_covers(&l, 360);
    }
    // moved 100 * 100_000 = 10_000_000, which is 27777 widths and 280 more
    assert_eq!(l.tiles[0].x, -280);
}

#[test]
fn scroll_layer_recycles_after_large_step() {
    let mut l = ScrollLayer::new(5, 360, 640, 1000, 1);
    l.advance(1000);
    assert_covers(&l, 360);
    assert_eq!(l.tiles[0].x, -(1_000_000 % 360));
    assert_eq!(l.tiles[0].y, 5);
    assert_eq!(l.tiles[0].h, 640);
}

#[test]
fn scroll_layer_zero_time_keeps_tiles() {
    let mut l = ScrollLayer::new(0, 360, 640, 100_000, 1);
    let before = l.tiles.clone();
    l.advance(0);
    assert_eq!(l.tiles, before);
}

#[test]
fn background_layers_scroll_at_their_speeds() {
    let mut bg = Background::new(360_000_000, 640_000_000, 112_000_000, 100_000);
    bg.update(16);
    assert_eq!(bg.background_tiles()[0].x, -800_000);
    assert_eq!(bg.base_tiles()[0].x, -1_600_000);
    assert_eq!(bg.base_tiles()[0].y, 528_000_000);
    bg.set_speed(101_000);
    assert_eq!(bg.bases.speed, 101_000);
    assert_eq!(bg.backgrounds.speed, 101_000);
    bg.update(10);
    assert_eq!(bg.background_tiles()[0].x, -800_000 - 505_000);
    assert_eq!(bg.base_tiles()[0].x, -1_600_000 - 1_010_000);
}

#[test]
fn far_layer_moves_exactly_half_at_odd_speed() {
    let mut bg = Background::new(360, 640, 112, 1);
    bg.update(2);
    assert_eq!(bg.background_tiles()[0].x, -1);
    assert_eq!(bg.base_tiles()[0].x, -2);
}

#[test]
fn half_speed_layer_scrolls_half_distance() {
    let mut l = ScrollLayer::new(0, 1000, 640, 3, 2);
    l.advance(10);
    assert_eq!(l.tiles[0].x, -15);
    assert_covers(&l, 1000);
}

#[test]
fn score_counts_increments() {
    let mut s = Score::new(0, 0, 10, 10, 10);
    for _ in 0..7 {
        s.increment_score();
    }
    assert_eq!(s.get_score(), 7);
    s.increment_score();
    s.decrement_score();
    assert_eq!(s.get_score(), 7);
    s.set_score(0);
    assert_eq!(s.get_score(), 0);
}

#[test]
fn score_digits_in_order() {
    let mut s = Score::new(0, 0, 10, 10, 10);
    assert_eq!(s.digits(), vec![0]);
    s.set_score(407);
    assert_eq!(s.digits(), vec![4, 0, 7]);
    s.set_score(usize::MAX);
    assert_eq!(s.digits().len(), usize::MAX.to_string().len());
}

#[test]
fn score_digit_positions_are_centered() {
    let mut s = Score::new(0, 4, 10, 10, 24);
    s.set_score(12);
    // total = 2 * 24 + 4 = 52, start = 180 - 26 = 154
    assert_eq!(s.digit_positions(360), vec![154 - 4, 154 + 24]);
    s.set_score(5);
    assert_eq!(s.digit_positions(360), vec![180 - 12 - 4]);
}
