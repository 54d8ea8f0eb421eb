use zkbench::System;
use zkbench::format_record;
use zkbench::output_dir;
use zkbench::sample_size;

#[test]
fn sample_size_small_sizes_take_twenty() {
    assert_eq!(sample_size(0), 20);
    assert_eq!(sample_size(1), 20);
    assert_eq!(sample_size(10), 20);
    assert_eq!(sample_size(15), 20);
}

#[test]
fn sample_size_middle_sizes_take_five() {
    assert_eq!(sample_size(16), 5);
    assert_eq!(sample_size(17), 5);
    assert_eq!(sample_size(19), 5);
}

#[test]
fn sample_size_large_sizes_take_one() {
    assert_eq!(sample_size(20), 1);
    assert_eq!(sample_size(21), 1);
    assert_eq!(sample_size(usize::MAX), 1);
}

#[test]
fn display_names_are_canonical() {
    assert_eq!(System::HyperPlonk.display_name(), "hyperplonk");
    assert_eq!(System::UniHyperPlonk.display_name(), "unihyperplonk");
    assert_eq!(System::Halo2.display_name(), "halo2");
    assert_eq!(System::EspressoHyperPlonk.display_name(), "espresso_hyperplonk");
}

#[test]
fn display_names_are_pairwise_distinct() {
    let all = [
        System::HyperPlonk,
        System::UniHyperPlonk,
        System::Halo2,
        System::EspressoHyperPlonk,
    ];
    for (i, a) in all.iter().enumerate() {
        for (j, b) in all.iter().enumerate() {
            if i != j {
                assert_ne!(a.display_name(), b.display_name());
            }
        }
    }
}

#[test]
fn output_path_is_directory_slash_name() {
    let all = [
        System::HyperPlonk,
        System::UniHyperPlonk,
        System::Halo2,
        System::EspressoHyperPlonk,
    ];
    for s in all.iter() {
        let expected = format!("{}/{}", output_dir(), s.display_name());
        assert_eq!(s.output_path(), expected);
    }
    assert_eq!(System::Halo2.output_path(), "../chiquito/target/halo2");
}

#[test]
fn record_line_has_size_comma_space_millis_newline() {
    assert_eq!(format_record(10, 123), "10, 123\n");
    assert_eq!(format_record(12, 456), "12, 456\n");
    assert_eq!(format_record(0, 0), "0, 0\n");
    assert_eq!(format_record(20, 1_000_000), "20, 1000000\n");
    assert_eq!(
        format_record(usize::MAX, u128::MAX),
        format!("{}, {}\n", usize::MAX, u128::MAX)
    );
}
