use cubiomes::error::CacheError;
use cubiomes::range::Range;
use cubiomes::scaling::CoordScaling;

#[test]
fn range_keeps_what_it_was_made_of() {
    let range = Range::new(CoordScaling::Quad, (-3, 64, 7), (5, 2, 9)).unwrap();
    assert_eq!(range.scale(), CoordScaling::Quad);
    assert_eq!(range.start(), (-3, 64, 7));
    assert_eq!(range.size(), (5, 2, 9));
    assert_eq!(range.volume(), 90);
}

#[test]
fn range_with_zero_extent_is_refused() {
    assert_eq!(
        Range::new(CoordScaling::Block, (0, 0, 0), (0, 1, 4)),
        Err(CacheError::InvalidExtent { sx: 0, sy: 1, sz: 4 })
    );
    assert_eq!(
        Range::new(CoordScaling::Block, (0, 0, 0), (1, 0, 4)),
        Err(CacheError::InvalidExtent { sx: 1, sy: 0, sz: 4 })
    );
    assert_eq!(
        Range::new(CoordScaling::Block, (0, 0, 0), (1, 1, 0)),
        Err(CacheError::InvalidExtent { sx: 1, sy: 1, sz: 0 })
    );
}

#[test]
fn range_with_negative_extent_is_refused() {
    assert_eq!(
        Range::new(CoordScaling::Chunk, (5, 5, 5), (-1, 1, 1)),
        Err(CacheError::InvalidExtent { sx: -1, sy: 1, sz: 1 })
    );
    assert_eq!(
        Range::new(CoordScaling::Chunk, (5, 5, 5), (1, i32::MIN, 1)),
        Err(CacheError::InvalidExtent { sx: 1, sy: i32::MIN, sz: 1 })
    );
    assert_eq!(
        Range::new(CoordScaling::Chunk, (5, 5, 5), (3, 3, -7)),
        Err(CacheError::InvalidExtent { sx: 3, sy: 3, sz: -7 })
    );
}

#[test]
fn range_of_one_sample() {
    let range = Range::new(CoordScaling::Block, (0, 0, 0), (1, 1, 1)).unwrap();
    assert_eq!(range.volume(), 1);
    assert!(range.contains(0, 0, 0));
    assert_eq!(range.offset(0, 0, 0), Some(0));
    assert!(!range.contains(1, 0, 0));
    assert_eq!(range.offset(1, 0, 0), None);
}

#[test]
fn offset_has_y_slowest_then_z_then_x() {
    let range = Range::new(CoordScaling::Block, (10, -5, 3), (4, 3, 2)).unwrap();
    assert_eq!(range.volume(), 24);
    assert_eq!(range.offset(10, -5, 3), Some(0));
    assert_eq!(range.offset(11, -5, 3), Some(1));
    assert_eq!(range.offset(10, -5, 4), Some(4));
    assert_eq!(range.offset(10, -4, 3), Some(8));
    assert_eq!(range.offset(12, -4, 4), Some(14));
    assert_eq!(range.offset(13, -3, 4), Some(23));
}

#[test]
fn offsets_enumerate_the_buffer_exactly_once() {
    let (ox, oy, oz) = (-2, 60, 100);
    let (sx, sy, sz) = (3, 4, 5);
    let range = Range::new(CoordScaling::Quad, (ox, oy, oz), (sx, sy, sz)).unwrap();
    let volume = range.volume() as usize;
    assert_eq!(volume, 60);
    let mut seen = vec![0u32; volume];
    let mut expected: u128 = 0;
    for y in oy..oy + sy {
        for z in oz..oz + sz {
            for x in ox..ox + sx {
                let k = range.offset(x, y, z).unwrap();
                assert_eq!(k, expected);
                expected += 1;
                seen[k as usize] += 1;
            }
        }
    }
    assert!(seen.iter().all(|&n| n == 1));
}

#[test]
fn contains_is_half_open_on_every_axis() {
    let range = Range::new(CoordScaling::Block, (-4, 0, 8), (4, 2, 3)).unwrap();
    assert!(range.contains(-4, 0, 8));
    assert!(range.contains(-1, 1, 10));
    assert!(!range.contains(-5, 0, 8));
    assert!(!range.contains(0, 0, 8));
    assert!(!range.contains(-4, -1, 8));
    assert!(!range.contains(-4, 2, 8));
    assert!(!range.contains(-4, 0, 7));
    assert!(!range.contains(-4, 0, 11));
}

#[test]
fn offset_is_none_exactly_outside() {
    let range = Range::new(CoordScaling::Block, (1, 1, 1), (2, 2, 2)).unwrap();
    for x in -1..5 {
        for y in -1..5 {
            for z in -1..5 {
                assert_eq!(range.offset(x, y, z).is_some(), range.contains(x, y, z));
            }
        }
    }
}

#[test]
fn range_at_the_upper_end_of_the_coordinates() {
    let range = Range::new(CoordScaling::Block, (i32::MAX - 1, i32::MAX, i32::MIN), (5, 1, 2)).unwrap();
    assert!(range.contains(i32::MAX - 1, i32::MAX, i32::MIN));
    assert!(range.contains(i32::MAX, i32::MAX, i32::MIN + 1));
    assert!(!range.contains(i32::MAX - 2, i32::MAX, i32::MIN));
    assert!(!range.contains(i32::MAX, i32::MAX - 1, i32::MIN));
    assert!(!range.contains(i32::MAX, i32::MAX, i32::MIN + 2));
    assert_eq!(range.offset(i32::MAX, i32::MAX, i32::MIN + 1), Some(6));
}

#[test]
fn volume_of_the_largest_region() {
    let range = Range::new(CoordScaling::Region, (i32::MIN, i32::MIN, i32::MIN), (i32::MAX, i32::MAX, i32::MAX)).unwrap();
    let side = i32::MAX as u128;
    assert_eq!(range.volume(), side * side * side);
    assert_eq!(range.offset(-2, -2, -2), Some(side * side * side - 1));
    assert_eq!(range.offset(-1, -2, -2), None);
}
