use catalog_index_tools::RecordCountComparison;

#[test]
fn count_comparison_can_identify_unusually_larger() {
    assert_eq!(
        RecordCountComparison::compare(14_237_145, 16_270_999),
        RecordCountComparison::UnusuallyLarger
    );
}

#[test]
fn count_comparison_can_identify_larger() {
    assert_eq!(
        RecordCountComparison::compare(16_237_145, 16_270_999),
        RecordCountComparison::Larger
    );
    assert_eq!(
        RecordCountComparison::compare(6_100_282, 6_109_211),
        RecordCountComparison::Larger
    );
    assert_eq!(
        RecordCountComparison::compare(12_633_344, 12_667_545),
        RecordCountComparison::Larger
    );
    assert_eq!(
        RecordCountComparison::compare(17_596, 17_611),
        RecordCountComparison::Larger
    );
    assert_eq!(
        RecordCountComparison::compare(2_764_337, 2_783_208),
        RecordCountComparison::Larger
    );
}

#[test]
fn count_comparison_can_identify_same() {
    assert_eq!(
        RecordCountComparison::compare(81_686, 81_686),
        RecordCountComparison::Same
    );
}

#[test]
fn count_comparison_can_identify_smaller() {
    assert_eq!(
        RecordCountComparison::compare(1_719_106, 1_718_520),
        RecordCountComparison::Smaller
    );
}

#[test]
fn count_comparison_can_identify_unusually_smaller() {
    assert_eq!(
        RecordCountComparison::compare(1_719_106, 1_218_520),
        RecordCountComparison::UnusuallySmaller
    );
}

fn upper_edge(old_count: u32) -> u32 {
    ((old_count as u64 * 403 + 200) / 400) as u32
}

fn lower_edge(old_count: u32) -> u32 {
    ((old_count as u64 * 399 + 200) / 400) as u32
}

const SAMPLES: [u32; 14] = [
    1, 2, 3, 66, 67, 199, 200, 201, 600, 1_000, 81_686, 1_719_106, 16_237_145, 4_000_000_000,
];

#[test]
fn equal_counts_are_same() {
    assert_eq!(RecordCountComparison::compare(0, 0), RecordCountComparison::Same);
    for count in SAMPLES {
        assert_eq!(
            RecordCountComparison::compare(count, count),
            RecordCountComparison::Same
        );
    }
    assert_eq!(
        RecordCountComparison::compare(u32::MAX, u32::MAX),
        RecordCountComparison::Same
    );
}

#[test]
fn zero_old_count() {
    assert_eq!(RecordCountComparison::compare(0, 0), RecordCountComparison::Same);
    assert_eq!(
        RecordCountComparison::compare(0, 1),
        RecordCountComparison::UnusuallyLarger
    );
    assert_eq!(
        RecordCountComparison::compare(0, u32::MAX),
        RecordCountComparison::UnusuallyLarger
    );
}

#[test]
fn one_above_the_upper_edge_is_unusually_larger() {
    for old_count in SAMPLES {
        let edge = upper_edge(old_count);
        assert_eq!(
            RecordCountComparison::compare(old_count, edge + 1),
            RecordCountComparison::UnusuallyLarger
        );
        assert_ne!(
            RecordCountComparison::compare(old_count, edge),
            RecordCountComparison::UnusuallyLarger
        );
    }
}

#[test]
fn one_below_the_lower_edge_is_unusually_smaller() {
    for old_count in SAMPLES {
        let edge = lower_edge(old_count);
        assert_eq!(
            RecordCountComparison::compare(old_count, edge - 1),
            RecordCountComparison::UnusuallySmaller
        );
        assert_ne!(
            RecordCountComparison::compare(old_count, edge),
            RecordCountComparison::UnusuallySmaller
        );
    }
}

#[test]
fn growth_within_the_band_is_larger() {
    // 1000 * 1.0075 = 1007.5, which rounds up to 1008.
    assert_eq!(RecordCountComparison::compare(1_000, 1_001), RecordCountComparison::Larger);
    assert_eq!(RecordCountComparison::compare(1_000, 1_008), RecordCountComparison::Larger);
    assert_eq!(
        RecordCountComparison::compare(1_000, 1_009),
        RecordCountComparison::UnusuallyLarger
    );
    for old_count in SAMPLES {
        let edge = upper_edge(old_count);
        if edge > old_count {
            assert_eq!(
                RecordCountComparison::compare(old_count, edge),
                RecordCountComparison::Larger
            );
            assert_eq!(
                RecordCountComparison::compare(old_count, old_count + 1),
                RecordCountComparison::Larger
            );
        }
    }
}

#[test]
fn shrinkage_within_the_band_is_smaller() {
    // 1000 * 0.9975 = 997.5, which rounds up to 998.
    assert_eq!(RecordCountComparison::compare(1_000, 999), RecordCountComparison::Smaller);
    assert_eq!(RecordCountComparison::compare(1_000, 998), RecordCountComparison::Smaller);
    assert_eq!(
        RecordCountComparison::compare(1_000, 997),
        RecordCountComparison::UnusuallySmaller
    );
    for old_count in SAMPLES {
        let edge = lower_edge(old_count);
        if edge < old_count {
            assert_eq!(
                RecordCountComparison::compare(old_count, edge),
                RecordCountComparison::Smaller
            );
            assert_eq!(
                RecordCountComparison::compare(old_count, old_count - 1),
                RecordCountComparison::Smaller
            );
        }
    }
}

#[test]
fn small_counts_have_no_room_inside_the_band() {
    // Up to 66 the upper edge is the old count itself.
    assert_eq!(
        RecordCountComparison::compare(66, 67),
        RecordCountComparison::UnusuallyLarger
    );
    assert_eq!(RecordCountComparison::compare(67, 68), RecordCountComparison::Larger);
    // Up to 200 the lower edge is the old count itself.
    assert_eq!(
        RecordCountComparison::compare(200, 199),
        RecordCountComparison::UnusuallySmaller
    );
    assert_eq!(RecordCountComparison::compare(201, 200), RecordCountComparison::Smaller);
    assert_eq!(
        RecordCountComparison::compare(1, 0),
        RecordCountComparison::UnusuallySmaller
    );
}

#[test]
fn halves_round_up() {
    // 200 * 1.0075 = 201.5 and 200 * 0.9975 = 199.5.
    assert_eq!(RecordCountComparison::compare(200, 202), RecordCountComparison::Larger);
    assert_eq!(
        RecordCountComparison::compare(200, 203),
        RecordCountComparison::UnusuallyLarger
    );
    assert_eq!(RecordCountComparison::compare(200, 200), RecordCountComparison::Same);
    assert_eq!(
        RecordCountComparison::compare(200, 199),
        RecordCountComparison::UnusuallySmaller
    );
    // 600 * 0.9975 = 598.5.
    assert_eq!(RecordCountComparison::compare(600, 599), RecordCountComparison::Smaller);
    assert_eq!(
        RecordCountComparison::compare(600, 598),
        RecordCountComparison::UnusuallySmaller
    );
}

#[test]
fn largest_counts() {
    assert_eq!(
        RecordCountComparison::compare(u32::MAX, u32::MAX - 1),
        RecordCountComparison::Smaller
    );
    assert_eq!(
        RecordCountComparison::compare(u32::MAX, 0),
        RecordCountComparison::UnusuallySmaller
    );
    assert_eq!(
        RecordCountComparison::compare(u32::MAX - 1, u32::MAX),
        RecordCountComparison::Larger
    );
    assert_eq!(
        RecordCountComparison::compare(4_000_000_000, u32::MAX),
        RecordCountComparison::UnusuallyLarger
    );
    assert!(!RecordCountComparison::is_too_big(u32::MAX, u32::MAX));
    assert!(!RecordCountComparison::is_too_small(u32::MAX, u32::MAX));
}

#[test]
fn too_big_and_too_small_follow_the_edges() {
    assert!(RecordCountComparison::is_too_big(14_237_145, 16_270_999));
    assert!(!RecordCountComparison::is_too_big(16_237_145, 16_270_999));
    assert!(!RecordCountComparison::is_too_small(1_719_106, 1_718_520));
    assert!(RecordCountComparison::is_too_small(1_719_106, 1_218_520));
    // 16_237_145 * 1.0075 = 16_358_923.59; 1_719_106 * 0.9975 = 1_714_808.24.
    assert!(!RecordCountComparison::is_too_big(16_237_145, 16_358_924));
    assert!(RecordCountComparison::is_too_big(16_237_145, 16_358_925));
    assert!(!RecordCountComparison::is_too_small(1_719_106, 1_714_808));
    assert!(RecordCountComparison::is_too_small(1_719_106, 1_714_807));
}

fn too_big_in_floating_point(old_count: u32, new_count: u32) -> bool {
    let threshold = ((old_count as f64) * 1.0075).round() as u32;
    new_count > threshold
}

fn too_small_in_floating_point(old_count: u32, new_count: u32) -> bool {
    let threshold = ((old_count as f64) * 0.9975).round() as u32;
    new_count < threshold
}

fn agrees_with_floating_point(old_count: u32) {
    let upper = ((old_count as u64 * 403 + 200) / 400).min(u32::MAX as u64) as u32;
    let lower = lower_edge(old_count);
    for new_count in [upper.saturating_sub(1), upper, upper.saturating_add(1)] {
        assert_eq!(
            RecordCountComparison::is_too_big(old_count, new_count),
            too_big_in_floating_point(old_count, new_count),
            "old count {old_count}, new count {new_count}"
        );
    }
    for new_count in [lower.saturating_sub(1), lower, lower.saturating_add(1)] {
        assert_eq!(
            RecordCountComparison::is_too_small(old_count, new_count),
            too_small_in_floating_point(old_count, new_count),
            "old count {old_count}, new count {new_count}"
        );
    }
}

#[test]
fn edges_agree_with_double_precision_on_halves() {
    // The products end in .5 exactly where the old count is 200 more than a
    // multiple of 400.
    let mut old_count: u64 = 200;
    while old_count <= u32::MAX as u64 {
        agrees_with_floating_point(old_count as u32);
        old_count += 400 * 97;
    }
}

#[test]
fn edges_agree_with_double_precision_on_a_sweep() {
    for old_count in 0..100_000u32 {
        agrees_with_floating_point(old_count);
    }
    let mut old_count: u64 = 100_000;
    while old_count <= u32::MAX as u64 {
        agrees_with_floating_point(old_count as u32);
        old_count += 7_919;
    }
    agrees_with_floating_point(u32::MAX);
    agrees_with_floating_point(u32::MAX - 1);
}

#[test]
fn tags_are_the_names_of_the_classifications() {
    assert_eq!(RecordCountComparison::UnusuallySmaller.tag(), "UnusuallySmaller");
    assert_eq!(RecordCountComparison::Smaller.tag(), "Smaller");
    assert_eq!(RecordCountComparison::Same.tag(), "Same");
    assert_eq!(RecordCountComparison::Larger.tag(), "Larger");
    assert_eq!(RecordCountComparison::UnusuallyLarger.tag(), "UnusuallyLarger");
    for comparison in [
        RecordCountComparison::UnusuallySmaller,
        RecordCountComparison::Smaller,
        RecordCountComparison::Same,
        RecordCountComparison::Larger,
        RecordCountComparison::UnusuallyLarger,
    ] {
        assert_eq!(comparison.tag(), format!("{:?}", comparison));
    }
}
