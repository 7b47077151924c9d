use kinderdisco::sample::{rand_range_u16, rand_range_u8, sample_u16, sample_u8};
use random::Source;

#[test]
fn an_empty_range_gives_its_start() {
    let mut source = random::default(42);
    for start in [0u8, 1, 10, 200, 255] {
        assert_eq!(rand_range_u8(&mut source, &(start..start)), start);
    }
    for start in [0u16, 1, 5, 1000, u16::MAX] {
        assert_eq!(rand_range_u16(&mut source, &(start..start)), start);
    }
}

#[test]
fn a_reversed_range_gives_its_start() {
    let mut source = random::default(7);
    assert_eq!(rand_range_u8(&mut source, &(200..100)), 200);
    assert_eq!(rand_range_u8(&mut source, &(255..0)), 255);
    assert_eq!(rand_range_u8(&mut source, &(1..0)), 1);
    assert_eq!(rand_range_u16(&mut source, &(10..1)), 10);
    assert_eq!(rand_range_u16(&mut source, &(u16::MAX..0)), u16::MAX);
    assert_eq!(sample_u8(77, &(200..100)), 200);
    assert_eq!(sample_u16(77, &(10..1)), 10);
}

#[test]
fn an_empty_range_takes_nothing_from_the_stream() {
    let mut used = random::default(99);
    let mut fresh = random::default(99);
    for _ in 0..50 {
        rand_range_u8(&mut used, &(10..10));
        rand_range_u8(&mut used, &(20..3));
        rand_range_u16(&mut used, &(5..5));
    }
    for _ in 0..20 {
        assert_eq!(used.read_u64(), fresh.read_u64());
    }
}

#[test]
fn a_raw_number_selects_start_plus_remainder() {
    assert_eq!(sample_u8(0, &(10..20)), 10);
    assert_eq!(sample_u8(9, &(10..20)), 19);
    assert_eq!(sample_u8(10, &(10..20)), 10);
    assert_eq!(sample_u8(255, &(10..20)), 15);
    assert_eq!(sample_u8(255, &(0..255)), 0);
    assert_eq!(sample_u8(254, &(0..255)), 254);
    assert_eq!(sample_u8(200, &(254..255)), 254);
    assert_eq!(sample_u8(123, &(0..1)), 0);
    assert_eq!(sample_u16(0, &(1..10)), 1);
    assert_eq!(sample_u16(8, &(1..10)), 9);
    assert_eq!(sample_u16(9, &(1..10)), 1);
    assert_eq!(sample_u16(65535, &(1..10)), 7);
    assert_eq!(sample_u16(65535, &(0..65535)), 0);
    assert_eq!(sample_u16(65534, &(0..65535)), 65534);
    assert_eq!(sample_u16(300, &(100..356)), 144);
}

#[test]
fn a_draw_reads_a_number_of_the_width_of_the_range() {
    let mut source = random::default(5);
    let mut twin = random::default(5);
    for _ in 0..200 {
        let raw = twin.read::<u8>();
        assert_eq!(rand_range_u8(&mut source, &(3..250)), sample_u8(raw, &(3..250)));
        let raw = twin.read::<u16>();
        assert_eq!(rand_range_u16(&mut source, &(3..60000)), sample_u16(raw, &(3..60000)));
    }
}

#[test]
fn every_draw_lies_in_its_range() {
    let mut source = random::default(2024);
    let ranges: [(u8, u8); 6] = [(0, 255), (0, 1), (254, 255), (10, 20), (100, 228), (1, 3)];
    for (start, end) in ranges {
        for _ in 0..10_000 {
            let value = rand_range_u8(&mut source, &(start..end));
            assert!(start <= value && value < end);
        }
    }
    let wide: [(u16, u16); 5] = [(1, 10), (0, 65535), (65534, 65535), (1, 100), (500, 40000)];
    for (start, end) in wide {
        for _ in 0..10_000 {
            let value = rand_range_u16(&mut source, &(start..end));
            assert!(start <= value && value < end);
        }
    }
}

fn chi_square(counts: &[u32], draws: u32) -> f64 {
    let expected = draws as f64 / counts.len() as f64;
    counts.iter().map(|&seen| (seen as f64 - expected) * (seen as f64 - expected) / expected).sum()
}

#[test]
fn draws_of_a_colour_are_spread_evenly() {
    let mut source = random::default(42);
    let draws: u32 = 32_000;
    let mut counts = [0u32; 16];
    for _ in 0..draws {
        let value = rand_range_u8(&mut source, &(10..26));
        counts[(value - 10) as usize] += 1;
    }
    assert!(counts.iter().all(|&seen| seen > 0));
    // 15 degrees of freedom: 37.7 is passed once in a thousand runs.
    assert!(chi_square(&counts, draws) < 37.7);
}

#[test]
fn draws_of_a_delay_are_spread_evenly() {
    let mut source = random::default(43);
    let draws: u32 = 27_000;
    let mut counts = [0u32; 9];
    for _ in 0..draws {
        let value = rand_range_u16(&mut source, &(1..10));
        counts[(value - 1) as usize] += 1;
    }
    assert!(counts.iter().all(|&seen| seen > 0));
    // 8 degrees of freedom: 26.1 is passed once in a thousand runs.
    assert!(chi_square(&counts, draws) < 26.1);
}
