use jsandbox::packaging::brotli_compress;
use jsandbox::packaging::build_arguments;
use jsandbox::packaging::build_mode;
use jsandbox::packaging::compressed_size;
use jsandbox::packaging::optimization_plan;
use jsandbox::packaging::size_unit;
use jsandbox::packaging::SizeUnit;

#[test]
fn debug_build_is_not_optimised_and_keeps_debug_info() {
    let plan = optimization_plan(false, false);
    assert_eq!(plan.shrink_level, 0);
    assert_eq!(plan.optimization_level, 0);
    assert!(plan.debug_info);
    assert!(plan.passes.is_empty());
}

#[test]
fn asyncify_raises_a_debug_build_to_level_one() {
    let plan = optimization_plan(false, true);
    assert_eq!(plan.optimization_level, 1);
    assert!(plan.debug_info);
    assert_eq!(plan.passes, vec!["asyncify"]);
}

#[test]
fn release_build_is_fully_optimised_and_stripped() {
    let plan = optimization_plan(true, false);
    assert_eq!(plan.shrink_level, 0);
    assert_eq!(plan.optimization_level, 3);
    assert!(!plan.debug_info);
    assert_eq!(plan.passes, vec!["strip-debug"]);
}

#[test]
fn release_build_with_asyncify_runs_it_before_stripping() {
    let plan = optimization_plan(true, true);
    assert_eq!(plan.optimization_level, 3);
    assert!(!plan.debug_info);
    assert_eq!(plan.passes, vec!["asyncify", "strip-debug"]);
}

#[test]
fn build_arguments_name_target_and_package() {
    assert_eq!(
        build_arguments("jsandbox", false),
        vec!["build", "--target", "wasm32-wasi", "-p", "jsandbox"]
    );
    assert_eq!(
        build_arguments("jsandbox", true),
        vec!["build", "--target", "wasm32-wasi", "-p", "jsandbox", "--release"]
    );
    assert_eq!(build_arguments("", false), vec!["build", "--target", "wasm32-wasi", "-p", ""]);
}

#[test]
fn build_mode_names_the_output_directory() {
    assert_eq!(build_mode(true), "release");
    assert_eq!(build_mode(false), "debug");
}

#[test]
fn size_unit_changes_above_each_threshold() {
    assert_eq!(size_unit(0), SizeUnit::Bytes);
    assert_eq!(size_unit(1024), SizeUnit::Bytes);
    assert_eq!(size_unit(1025), SizeUnit::Kilobytes);
    assert_eq!(size_unit(1024 * 1024), SizeUnit::Kilobytes);
    assert_eq!(size_unit(1024 * 1024 + 1), SizeUnit::Megabytes);
    assert_eq!(size_unit(usize::MAX), SizeUnit::Megabytes);
}

#[test]
fn size_units_have_suffix_and_weight() {
    assert_eq!(SizeUnit::Bytes.suffix(), "B");
    assert_eq!(SizeUnit::Kilobytes.suffix(), "KB");
    assert_eq!(SizeUnit::Megabytes.suffix(), "MB");
    assert_eq!(SizeUnit::Bytes.bytes_per_unit(), 1);
    assert_eq!(SizeUnit::Kilobytes.bytes_per_unit(), 1024);
    assert_eq!(SizeUnit::Megabytes.bytes_per_unit(), 1048576);
}

#[test]
fn compressed_size_counts_bytes_and_passes_failures_on() {
    assert_eq!(compressed_size(Ok(vec![1, 2, 3])), Ok(3));
    assert_eq!(compressed_size(Ok(vec![])), Ok(0));
    assert_eq!(compressed_size(Err("broken".to_string())), Err("broken".to_string()));
}

#[test]
fn brotli_shrinks_repetitive_data() {
    let data = vec![7u8; 100_000];
    let size = brotli_compress(&data).unwrap();
    assert!(size > 0);
    assert!(size < 1000);
}

#[test]
fn brotli_size_depends_on_the_data_alone() {
    let text = "export function run(input, caps) { return input.x + 1; }".repeat(50);
    let first = brotli_compress(text.as_bytes()).unwrap();
    let second = brotli_compress(text.as_bytes()).unwrap();
    assert_eq!(first, second);
    assert!(first < text.len());
    let empty = brotli_compress(&[]).unwrap();
    assert!(empty >= 1);
    assert!(empty < first);
}
