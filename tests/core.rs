use raytracer::bounce::{BounceLoop, TraceOutcome};
use raytracer::checker::checker_tile_is_white;
use raytracer::frame::{Framebuffer, Rgb8};
use raytracer::hits::{is_occluded, nearest_hit, NO_HIT};
use raytracer::partition::{chunk_width, column_chunks, ColumnRange};

fn key(d: f32) -> u32 {
    d.to_bits()
}

fn ranges(pairs: &[(usize, usize)]) -> Vec<ColumnRange> {
    pairs.iter().map(|&(start, end)| ColumnRange { start, end }).collect()
}

#[test]
fn tiles_alternate_along_each_axis() {
    assert!(!checker_tile_is_white(0, 0));
    assert!(checker_tile_is_white(1, 0));
    assert!(checker_tile_is_white(0, 1));
    assert!(!checker_tile_is_white(1, 1));
    assert_eq!(checker_tile_is_white(2, 0), checker_tile_is_white(0, 0));
}

#[test]
fn tiles_with_negative_indices() {
    assert!(checker_tile_is_white(-1, 0));
    assert!(!checker_tile_is_white(-1, -1));
    assert!(checker_tile_is_white(-3, 2));
}

#[test]
fn tiles_at_extreme_indices() {
    assert!(!checker_tile_is_white(i32::MAX, i32::MAX));
    assert!(checker_tile_is_white(i32::MAX, 0));
    assert!(!checker_tile_is_white(i32::MIN, i32::MIN));
    assert!(checker_tile_is_white(i32::MIN, i32::MAX));
}

#[test]
fn infinity_key_is_no_hit() {
    assert_eq!(key(f32::INFINITY), NO_HIT);
    assert!(key(f32::MAX) < NO_HIT);
    assert!(key(0.5) < key(2.0));
}

#[test]
fn nearest_hit_on_empty_scene() {
    assert_eq!(nearest_hit(&vec![]), None);
}

#[test]
fn nearest_hit_all_misses() {
    assert_eq!(nearest_hit(&vec![NO_HIT, NO_HIT, key(f32::INFINITY)]), None);
}

#[test]
fn nearest_hit_picks_smallest_distance() {
    let keys = vec![key(f32::INFINITY), key(2.0), key(0.75), key(3.5)];
    assert_eq!(nearest_hit(&keys), Some(2));
}

#[test]
fn nearest_hit_ties_go_to_first() {
    let keys = vec![key(4.0), key(1.5), key(1.5), key(f32::INFINITY)];
    assert_eq!(nearest_hit(&keys), Some(1));
}

#[test]
fn nearest_hit_at_zero_distance() {
    let keys = vec![key(1.0), key(0.0)];
    assert_eq!(nearest_hit(&keys), Some(1));
}

#[test]
fn own_primitive_never_occludes() {
    let shadow = vec![NO_HIT, key(0.25), NO_HIT];
    assert!(!is_occluded(&shadow, 1));
}

#[test]
fn other_primitive_occludes() {
    let shadow = vec![NO_HIT, key(0.25), key(7.0)];
    assert!(is_occluded(&shadow, 1));
    assert!(is_occluded(&shadow, 0));
}

#[test]
fn nothing_occludes_in_empty_shadow_scan() {
    assert!(!is_occluded(&vec![], 0));
    assert!(!is_occluded(&vec![NO_HIT], 0));
}

#[test]
fn chunk_width_is_ceiling() {
    assert_eq!(chunk_width(10, 3), 4);
    assert_eq!(chunk_width(12, 3), 4);
    assert_eq!(chunk_width(7680, 16), 480);
    assert_eq!(chunk_width(3, 5), 1);
    assert_eq!(chunk_width(0, 4), 0);
    assert_eq!(chunk_width(usize::MAX, 2), usize::MAX / 2 + 1);
}

#[test]
fn columns_split_into_contiguous_chunks() {
    assert_eq!(column_chunks(10, 3), ranges(&[(0, 4), (4, 8), (8, 10)]));
    assert_eq!(column_chunks(10, 4), ranges(&[(0, 3), (3, 6), (6, 9), (9, 10)]));
    assert_eq!(column_chunks(9, 4), ranges(&[(0, 3), (3, 6), (6, 9)]));
}

#[test]
fn more_workers_than_columns() {
    assert_eq!(column_chunks(3, 5), ranges(&[(0, 1), (1, 2), (2, 3)]));
}

#[test]
fn one_worker_takes_all_columns() {
    assert_eq!(column_chunks(4, 1), ranges(&[(0, 4)]));
}

#[test]
fn zero_width_has_no_chunks() {
    assert_eq!(column_chunks(0, 4), vec![]);
}

#[test]
fn every_column_once_whatever_the_worker_count() {
    for workers in [1usize, 2, 3, 7, 16] {
        let mut seen = vec![0u32; 37];
        for r in column_chunks(37, workers) {
            for c in r.start..r.end {
                seen[c] += 1;
            }
        }
        assert!(seen.iter().all(|&n| n == 1));
    }
}

#[test]
fn bounce_loop_with_no_depth_traces_nothing() {
    assert!(!BounceLoop::new(0).wants_trace());
}

#[test]
fn bounce_loop_stops_on_miss_without_colour() {
    let mut l = BounceLoop::new(8);
    assert!(l.wants_trace());
    assert!(!l.record(TraceOutcome::Miss));
    assert!(!l.wants_trace());
    assert_eq!(l.depth, 1);
}

#[test]
fn bounce_loop_adds_ambient_then_stops_in_shadow() {
    let mut l = BounceLoop::new(8);
    assert!(l.record(TraceOutcome::Lit));
    assert!(l.wants_trace());
    assert!(l.record(TraceOutcome::Shadowed));
    assert!(!l.wants_trace());
    assert_eq!(l.depth, 2);
}

#[test]
fn bounce_loop_ends_at_max_depth() {
    let mut l = BounceLoop::new(3);
    let mut traced = 0;
    while l.wants_trace() {
        assert!(l.record(TraceOutcome::Lit));
        traced += 1;
    }
    assert_eq!(traced, 3);
}

#[test]
fn new_framebuffer_is_black() {
    let f = Framebuffer::new(2, 3);
    assert_eq!(f.as_raw(), &vec![0u8; 18]);
}

#[test]
fn pixel_rows_are_flipped() {
    let mut f = Framebuffer::new(2, 2);
    f.put_pixel(1, 0, Rgb8 { red: 10, green: 20, blue: 30 });
    assert_eq!(f.as_raw(), &vec![0, 0, 0, 0, 0, 0, 0, 0, 0, 10, 20, 30]);
    f.put_pixel(0, 1, Rgb8 { red: 1, green: 2, blue: 3 });
    assert_eq!(f.as_raw(), &vec![1, 2, 3, 0, 0, 0, 0, 0, 0, 10, 20, 30]);
}

#[test]
fn pixel_overwrite_keeps_last_colour() {
    let mut f = Framebuffer::new(1, 1);
    f.put_pixel(0, 0, Rgb8 { red: 5, green: 5, blue: 5 });
    f.put_pixel(0, 0, Rgb8 { red: 255, green: 0, blue: 7 });
    assert_eq!(f.as_raw(), &vec![255, 0, 7]);
}

#[test]
fn pixel_writes_in_either_order_agree() {
    let (a, b) = (Rgb8 { red: 9, green: 8, blue: 7 }, Rgb8 { red: 1, green: 2, blue: 3 });
    let mut f = Framebuffer::new(3, 2);
    f.put_pixel(2, 0, a);
    f.put_pixel(0, 1, b);
    let mut g = Framebuffer::new(3, 2);
    g.put_pixel(0, 1, b);
    g.put_pixel(2, 0, a);
    assert_eq!(f.as_raw(), g.as_raw());
    assert_eq!(f.as_raw(), &vec![1, 2, 3, 0, 0, 0, 0, 0, 0, 0, 0, 0, 0, 0, 0, 9, 8, 7]);
}

#[test]
fn chunk_width_at_largest_width() {
    assert_eq!(chunk_width(usize::MAX, 1), usize::MAX);
    assert_eq!(column_chunks(5, usize::MAX), ranges(&[(0, 1), (1, 2), (2, 3), (3, 4), (4, 5)]));
}
