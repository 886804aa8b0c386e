use process::ProcessError;
use process::Signal;
use process::signal::decode;
use process::signal::get_cgt_signals;
use process::signal::get_ignoring_signals;

#[test]
fn decode_zero_mask_is_empty() {
    assert_eq!(decode("0").unwrap(), Vec::<Signal>::new());
}

#[test]
fn decode_bit_for_signal_two_is_sigint() {
    assert_eq!(decode("2").unwrap(), vec![Signal::SIGINT]);
}

#[test]
fn decode_top_bit_is_sigrtmax() {
    assert_eq!(decode("8000000000000000").unwrap(), vec![Signal::SIGRTMAX]);
}

#[test]
fn decode_lowest_bit_is_sighup() {
    assert_eq!(decode("1").unwrap(), vec![Signal::SIGHUP]);
}

#[test]
fn decode_two_low_bits_ascend() {
    assert_eq!(decode("3").unwrap(), vec![Signal::SIGHUP, Signal::SIGINT]);
}

#[test]
fn decode_full_mask_counts_every_bit() {
    let sigs = decode("ffffffffffffffff").unwrap();
    assert_eq!(sigs.len(), 64);
    assert_eq!(sigs[0], Signal::SIGHUP);
    assert_eq!(sigs[30], Signal::SIGSYS);
    assert_eq!(sigs[31], Signal::SIGRTMIN);
    assert_eq!(sigs[32], Signal::UNUSED);
    assert_eq!(sigs[63], Signal::SIGRTMAX);
}

#[test]
fn decode_uppercase_hex_accepted() {
    assert_eq!(decode("A").unwrap(), vec![Signal::SIGINT, Signal::SIGILL]);
}

#[test]
fn decode_rejects_non_hex() {
    assert!(matches!(decode("xyz"), Err(ProcessError::Parse)));
}

#[test]
fn decode_rejects_empty_string() {
    assert!(matches!(decode(""), Err(ProcessError::Parse)));
}

#[test]
fn decode_rejects_overflowing_mask() {
    assert!(matches!(decode("1ffffffffffffffff"), Err(ProcessError::Parse)));
}

#[test]
fn signal_try_from_maps_the_range() {
    assert_eq!(Signal::try_from(1).unwrap(), Signal::SIGHUP);
    assert_eq!(Signal::try_from(2).unwrap(), Signal::SIGINT);
    assert_eq!(Signal::try_from(31).unwrap(), Signal::SIGSYS);
    assert_eq!(Signal::try_from(32).unwrap(), Signal::SIGRTMIN);
    assert_eq!(Signal::try_from(33).unwrap(), Signal::UNUSED);
    assert_eq!(Signal::try_from(63).unwrap(), Signal::UNUSED);
    assert_eq!(Signal::try_from(64).unwrap(), Signal::SIGRTMAX);
}

#[test]
fn signal_try_from_rejects_zero() {
    assert!(matches!(
        Signal::try_from(0),
        Err(ProcessError::SignalConversionError(0))
    ));
}

#[test]
fn signal_try_from_rejects_out_of_range() {
    assert!(matches!(
        Signal::try_from(65),
        Err(ProcessError::SignalConversionError(65))
    ));
}

#[test]
fn mask_fields_decode_from_blob() {
    let blob = "SigIgn:\t0000000000000006\nSigCgt:\t0000000180000000\n";
    assert_eq!(
        get_ignoring_signals(blob).unwrap(),
        vec![Signal::SIGINT, Signal::SIGQUIT]
    );
    assert_eq!(
        get_cgt_signals(blob).unwrap(),
        vec![Signal::SIGRTMIN, Signal::UNUSED]
    );
}

#[test]
fn mask_field_absent_is_not_found() {
    let blob = "SigIgn:\t0000000000000000\n";
    assert!(matches!(
        get_cgt_signals(blob),
        Err(ProcessError::NotFound)
    ));
}
