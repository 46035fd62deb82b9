use auto_delete_path::create_temp_path_at_directory;

#[test]
fn name_joins_directory_and_counter() {
    assert_eq!(create_temp_path_at_directory("/tmp", 1), "/tmp/rustytemp-1");
}

#[test]
fn name_keeps_relative_directory() {
    assert_eq!(
        create_temp_path_at_directory("target/scratch", 42),
        "target/scratch/rustytemp-42"
    );
}

#[test]
fn name_of_counter_zero() {
    assert_eq!(create_temp_path_at_directory("/tmp", 0), "/tmp/rustytemp-0");
}

#[test]
fn name_of_counter_with_inner_zeros() {
    assert_eq!(create_temp_path_at_directory("/var/tmp", 1005), "/var/tmp/rustytemp-1005");
    assert_eq!(create_temp_path_at_directory("/var/tmp", 10), "/var/tmp/rustytemp-10");
}

#[test]
fn name_of_largest_counter() {
    assert_eq!(create_temp_path_at_directory("/tmp", u16::MAX), "/tmp/rustytemp-65535");
}

#[test]
fn name_under_empty_directory() {
    assert_eq!(create_temp_path_at_directory("", 7), "/rustytemp-7");
}

#[test]
fn successive_counts_give_distinct_names() {
    let mut names: Vec<String> = Vec::new();
    let mut count: u16 = 1;
    for _ in 0..3000 {
        names.push(create_temp_path_at_directory("/tmp", count));
        count = count.wrapping_add(1);
    }
    let total = names.len();
    names.sort();
    names.dedup();
    assert_eq!(names.len(), total);
}

#[test]
fn counts_across_wraparound_give_distinct_names() {
    let mut names: Vec<String> = Vec::new();
    let mut count: u16 = 65530;
    for _ in 0..12 {
        names.push(create_temp_path_at_directory("/tmp", count));
        count = count.wrapping_add(1);
    }
    assert_eq!(names[5], "/tmp/rustytemp-65535");
    assert_eq!(names[6], "/tmp/rustytemp-0");
    let total = names.len();
    names.sort();
    names.dedup();
    assert_eq!(names.len(), total);
}
