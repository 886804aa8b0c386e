use process::ProcessError;
use process::get_proc_status_value;

#[test]
fn threads_field_is_second_token() {
    let blob = "Name:\tsleep\nThreads:\t7\nState:\tS (sleeping)\n";
    assert_eq!(get_proc_status_value(blob, "Threads").unwrap(), "7");
}

#[test]
fn missing_key_is_not_found() {
    let blob = "Name:\tsleep\nState:\tS (sleeping)\n";
    assert!(matches!(
        get_proc_status_value(blob, "Threads"),
        Err(ProcessError::NotFound)
    ));
}

#[test]
fn key_line_without_value_is_field_missing() {
    let blob = "Threads:\nState:\tS\n";
    assert!(matches!(
        get_proc_status_value(blob, "Threads"),
        Err(ProcessError::FieldMissing)
    ));
}

#[test]
fn key_match_anchors_at_column_zero() {
    let blob = "XThreads:\t9\nThreads:\t7\n";
    assert_eq!(get_proc_status_value(blob, "Threads").unwrap(), "7");
}

#[test]
fn first_matching_line_wins() {
    let blob = "Uid:\t1\nUid:\t2\n";
    assert_eq!(get_proc_status_value(blob, "Uid").unwrap(), "1");
}

#[test]
fn key_match_is_a_prefix_match() {
    let blob = "SigIgn:\tff\nSigCgt:\t0\n";
    assert_eq!(get_proc_status_value(blob, "Sig").unwrap(), "ff");
}

#[test]
fn state_field_keeps_only_the_letter() {
    let blob = "State:\tS (sleeping)\n";
    assert_eq!(get_proc_status_value(blob, "State").unwrap(), "S");
}
