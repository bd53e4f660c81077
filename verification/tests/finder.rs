use cubiomes::engine::{GeneratorSetup, PointQuery, SeedApplication};
use cubiomes::finder::CubiomesFinder;

#[test]
fn finder_holds_its_configuration() {
    let finder = CubiomesFinder::new(42, 21, 0);
    assert_eq!(finder.seed(), 42);
    assert_eq!(finder.version(), 21);
    assert_eq!(finder.dimension(), 0);
}

#[test]
fn finder_sets_the_generator_up_without_flags() {
    let finder = CubiomesFinder::new(42, 21, 0);
    assert_eq!(finder.setup(), GeneratorSetup { version: 21, flags: 0 });
}

#[test]
fn finder_setup_reads_the_version_as_signed() {
    assert_eq!(CubiomesFinder::new(0, 0, 0).setup().version, 0);
    assert_eq!(CubiomesFinder::new(0, 0x7fff_ffff, 0).setup().version, i32::MAX);
    assert_eq!(CubiomesFinder::new(0, 0x8000_0000, 0).setup().version, i32::MIN);
    assert_eq!(CubiomesFinder::new(0, u32::MAX, 0).setup().version, -1);
    assert_eq!(CubiomesFinder::new(0, 3_000_000_000, 0).setup().version, -1_294_967_296);
}

#[test]
fn finder_seeding_reads_the_seed_as_unsigned() {
    assert_eq!(CubiomesFinder::new(0, 21, 0).seeding(), SeedApplication { dim: 0, seed: 0 });
    assert_eq!(CubiomesFinder::new(42, 21, 1).seeding(), SeedApplication { dim: 1, seed: 42 });
    assert_eq!(CubiomesFinder::new(i64::MAX, 21, 0).seeding().seed, 0x7fff_ffff_ffff_ffff);
    assert_eq!(CubiomesFinder::new(-1, 21, -1).seeding(), SeedApplication { dim: -1, seed: u64::MAX });
    assert_eq!(CubiomesFinder::new(i64::MIN, 21, 0).seeding().seed, 0x8000_0000_0000_0000);
    assert_eq!(CubiomesFinder::new(-4172144997902289642, 21, 0).seeding().seed, 14274599075807261974);
}

#[test]
fn apply_seed_changes_seed_and_dimension_only() {
    let mut finder = CubiomesFinder::new(1, 17, 0);
    finder.apply_seed(-7, -1);
    assert_eq!(finder.seed(), -7);
    assert_eq!(finder.dimension(), -1);
    assert_eq!(finder.version(), 17);
    assert_eq!(finder.setup(), GeneratorSetup { version: 17, flags: 0 });
    assert_eq!(finder.seeding(), SeedApplication { dim: -1, seed: u64::MAX - 6 });
    assert_eq!(finder, CubiomesFinder::new(-7, 17, -1));
}

#[test]
fn apply_seed_twice_keeps_the_last() {
    let mut finder = CubiomesFinder::new(1, 17, 0);
    finder.apply_seed(2, 1);
    finder.apply_seed(3, 0);
    assert_eq!(finder, CubiomesFinder::new(3, 17, 0));
}

#[test]
fn point_query_is_at_block_scale() {
    let finder = CubiomesFinder::new(1, 17, 0);
    assert_eq!(finder.point_query(0, 0, 0), PointQuery { scale: 1, x: 0, y: 0, z: 0 });
    assert_eq!(
        finder.point_query(-300, 63, 12_000),
        PointQuery { scale: 1, x: -300, y: 63, z: 12_000 }
    );
    assert_eq!(
        finder.point_query(i32::MIN, i32::MAX, -1),
        PointQuery { scale: 1, x: i32::MIN, y: i32::MAX, z: -1 }
    );
}
