use process::ProcessError;
use process::ProcessStat;
use process::Signal;
use process::get_process_info;

fn full_status() -> Option<String> {
    Some(
        "Uid:\t1000\nGid:\t1000\nThreads:\t3\nState:\tS (sleeping)\nSigIgn:\t0000000000000000\nSigPnd:\t0000000000000000\nSigBlk:\t0000000000000000\nSigCgt:\t0000000180000000\n"
            .to_string(),
    )
}

#[test]
fn stat_mapping_round_trip() {
    let cases = [
        ("R", ProcessStat::Running),
        ("S", ProcessStat::Sleeping),
        ("Z", ProcessStat::Zombie),
    ];
    for (token, expected) in cases {
        let st = ProcessStat::from_str(token);
        assert_eq!(st, expected);
        assert_eq!(ProcessStat::from_str(st.code()), st);
    }
}

#[test]
fn stat_mapping_accepts_words() {
    assert_eq!(ProcessStat::from_str("running"), ProcessStat::Running);
    assert_eq!(ProcessStat::from_str("sleeping"), ProcessStat::Sleeping);
    assert_eq!(ProcessStat::from_str("zombie"), ProcessStat::Zombie);
}

#[test]
fn unmodeled_state_maps_to_unknown() {
    assert_eq!(ProcessStat::from_str("T"), ProcessStat::Unknown);
    assert_eq!(ProcessStat::from_str(ProcessStat::Unknown.code()), ProcessStat::Unknown);
}

#[test]
fn build_complete_snapshot() {
    let status = full_status();
    let username = Some("alice".to_string());
    let attr = Some("user_u:user_r:user_t:s0\n".to_string());
    let cmdline = Some("/usr/bin/sleep\03600\0".to_string());
    let p = get_process_info(&status, &username, &attr, &cmdline).unwrap();
    assert_eq!(p.user, "alice");
    assert_eq!(p.gid, 1000);
    assert_eq!(p.thread_num, 3);
    assert_eq!(p.status, ProcessStat::Sleeping);
    assert_eq!(
        p.cmdline,
        vec!["/usr/bin/sleep".to_string(), "3600".to_string()]
    );
    assert!(p.sig_ign.is_empty());
    assert!(p.sig_pnd.is_empty());
    assert!(p.sig_blk.is_empty());
    assert_eq!(p.sig_cgt, vec![Signal::SIGRTMIN, Signal::UNUSED]);
    assert_eq!(p.selinux.se_user, Some("user_u".to_string()));
    assert_eq!(p.selinux.se_role, Some("user_r".to_string()));
    assert_eq!(p.selinux.se_type, Some("user_t".to_string()));
    assert_eq!(p.selinux.se_sensitivity_level, Some("s0".to_string()));
}

#[test]
fn missing_status_read_fails_cleanly() {
    let r = get_process_info(
        &None,
        &Some("alice".to_string()),
        &Some(String::new()),
        &Some(String::new()),
    );
    assert!(matches!(r, Err(ProcessError::Io)));
}

#[test]
fn status_without_uid_is_not_found() {
    let status = Some("Name:\tsleep\n".to_string());
    let r = get_process_info(
        &status,
        &Some("alice".to_string()),
        &Some(String::new()),
        &Some(String::new()),
    );
    assert!(matches!(r, Err(ProcessError::NotFound)));
}

#[test]
fn unresolved_username_reports_the_uid() {
    let r = get_process_info(&full_status(), &None, &Some(String::new()), &Some(String::new()));
    assert!(matches!(r, Err(ProcessError::UserNotFound(1000))));
}

#[test]
fn malformed_uid_is_a_parse_error() {
    let status = Some("Uid:\tabc\n".to_string());
    let r = get_process_info(
        &status,
        &Some("alice".to_string()),
        &Some(String::new()),
        &Some(String::new()),
    );
    assert!(matches!(r, Err(ProcessError::Parse)));
}

#[test]
fn oversized_thread_count_is_a_parse_error() {
    let status = Some(
        "Uid:\t1\nGid:\t1\nThreads:\t70000\nState:\tR\nSigIgn:\t0\nSigPnd:\t0\nSigBlk:\t0\nSigCgt:\t0\n"
            .to_string(),
    );
    let r = get_process_info(
        &status,
        &Some("root".to_string()),
        &Some(String::new()),
        &Some(String::new()),
    );
    assert!(matches!(r, Err(ProcessError::Parse)));
}

#[test]
fn missing_context_read_is_io() {
    let r = get_process_info(
        &full_status(),
        &Some("alice".to_string()),
        &None,
        &Some(String::new()),
    );
    assert!(matches!(r, Err(ProcessError::Io)));
}

#[test]
fn missing_cmdline_read_is_io() {
    let r = get_process_info(
        &full_status(),
        &Some("alice".to_string()),
        &Some(String::new()),
        &None,
    );
    assert!(matches!(r, Err(ProcessError::Io)));
}

#[test]
fn empty_cmdline_record_yields_no_arguments() {
    let p = get_process_info(
        &full_status(),
        &Some("alice".to_string()),
        &Some(String::new()),
        &Some(String::new()),
    )
    .unwrap();
    assert!(p.cmdline.is_empty());
    assert_eq!(p.selinux.se_user, None);
}

#[test]
fn missing_status_wins_over_missing_username() {
    let r = get_process_info(&None, &None, &None, &None);
    assert!(matches!(r, Err(ProcessError::Io)));
}
