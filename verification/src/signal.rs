//! The symbolic signal enumeration and the decoding of 64-bit signal
//! disposition masks into ordered signal lists.

use vstd::prelude::*;

use crate::error::ProcessError;
use crate::num::hex_val;
use crate::num::parse_hex_u64;
use crate::num::valid_hex_u64;
use crate::status::get_proc_status_value;
use crate::status::spec_field;

verus! {

/// One symbolic value per standard signal number 1 through 31, plus
/// `SIGRTMIN` for 32, `SIGRTMAX` for 64, and a single `UNUSED` bucket for
/// the real-time range 33 through 63, whose numbers carry no universally
/// standard names.
#[allow(non_camel_case_types)]
#[derive(Debug, Clone, Copy, PartialEq, Eq, Structural)]
pub enum Signal {
    SIGHUP,
    SIGINT,
    SIGQUIT,
    SIGILL,
    SIGTRAP,
    SIGABRT,
    SIGBUS,
    SIGFPE,
    SIGKILL,
    SIGUSR1,
    SIGSEGV,
    SIGUSR2,
    SIGPIPE,
    SIGALRM,
    SIGTERM,
    SIGSTKFLT,
    SIGCHLD,
    SIGCONT,
    SIGSTOP,
    SIGTSTP,
    SIGTTIN,
    SIGTTOU,
    SIGURG,
    SIGXCPU,
    SIGXFSZ,
    SIGVTALRM,
    SIGPROF,
    SIGWINCH,
    SIGIO,
    SIGPWR,
    SIGSYS,
    SIGRTMIN,
    UNUSED,
    SIGRTMAX,
}

/// The fixed numeric mapping: total over 1..=64, an error outside it.
pub open spec fn spec_signal_try_from(value: u32) -> Result<Signal, ProcessError> {
    if value == 1 {
        Ok(Signal::SIGHUP)
    } else if value == 2 {
        Ok(Signal::SIGINT)
    } else if value == 3 {
        Ok(Signal::SIGQUIT)
    } else if value == 4 {
        Ok(Signal::SIGILL)
    } else if value == 5 {
        Ok(Signal::SIGTRAP)
    } else if value == 6 {
        Ok(Signal::SIGABRT)
    } else if value == 7 {
        Ok(Signal::SIGBUS)
    } else if value == 8 {
        Ok(Signal::SIGFPE)
    } else if value == 9 {
        Ok(Signal::SIGKILL)
    } else if value == 10 {
        Ok(Signal::SIGUSR1)
    } else if value == 11 {
        Ok(Signal::SIGSEGV)
    } else if value == 12 {
        Ok(Signal::SIGUSR2)
    } else if value == 13 {
        Ok(Signal::SIGPIPE)
    } else if value == 14 {
        Ok(Signal::SIGALRM)
    } else if value == 15 {
        Ok(Signal::SIGTERM)
    } else if value == 16 {
        Ok(Signal::SIGSTKFLT)
    } else if value == 17 {
        Ok(Signal::SIGCHLD)
    } else if value == 18 {
        Ok(Signal::SIGCONT)
    } else if value == 19 {
        Ok(Signal::SIGSTOP)
    } else if value == 20 {
        Ok(Signal::SIGTSTP)
    } else if value == 21 {
        Ok(Signal::SIGTTIN)
    } else if value == 22 {
        Ok(Signal::SIGTTOU)
    } else if value == 23 {
        Ok(Signal::SIGURG)
    } else if value == 24 {
        Ok(Signal::SIGXCPU)
    } else if value == 25 {
        Ok(Signal::SIGXFSZ)
    } else if value == 26 {
        Ok(Signal::SIGVTALRM)
    } else if value == 27 {
        Ok(Signal::SIGPROF)
    } else if value == 28 {
        Ok(Signal::SIGWINCH)
    } else if value == 29 {
        Ok(Signal::SIGIO)
    } else if value == 30 {
        Ok(Signal::SIGPWR)
    } else if value == 31 {
        Ok(Signal::SIGSYS)
    } else if value == 32 {
        Ok(Signal::SIGRTMIN)
    } else if 33 <= value <= 63 {
        Ok(Signal::UNUSED)
    } else if value == 64 {
        Ok(Signal::SIGRTMAX)
    } else {
        Err(ProcessError::SignalConversionError(value))
    }
}

/// The signal that bit position `i` (a 1-based signal number) stands for.
pub open spec fn spec_signal_of(i: int) -> Signal
    recommends
        1 <= i <= 64,
{
    spec_signal_try_from(i as u32)->Ok_0
}

impl Signal {
    /// Converts a signal number to its symbolic value; fails, with the
    /// offending value, outside 1..=64.
    pub fn try_from(value: u32) -> (r: Result<Signal, ProcessError>)
        ensures
            r == spec_signal_try_from(value),
    {
        match value {
            1 => Ok(Signal::SIGHUP),
            2 => Ok(Signal::SIGINT),
            3 => Ok(Signal::SIGQUIT),
            4 => Ok(Signal::SIGILL),
            5 => Ok(Signal::SIGTRAP),
            6 => Ok(Signal::SIGABRT),
            7 => Ok(Signal::SIGBUS),
            8 => Ok(Signal::SIGFPE),
            9 => Ok(Signal::SIGKILL),
            10 => Ok(Signal::SIGUSR1),
            11 => Ok(Signal::SIGSEGV),
            12 => Ok(Signal::SIGUSR2),
            13 => Ok(Signal::SIGPIPE),
            14 => Ok(Signal::SIGALRM),
            15 => Ok(Signal::SIGTERM),
            16 => Ok(Signal::SIGSTKFLT),
            17 => Ok(Signal::SIGCHLD),
            18 => Ok(Signal::SIGCONT),
            19 => Ok(Signal::SIGSTOP),
            20 => Ok(Signal::SIGTSTP),
            21 => Ok(Signal::SIGTTIN),
            22 => Ok(Signal::SIGTTOU),
            23 => Ok(Signal::SIGURG),
            24 => Ok(Signal::SIGXCPU),
            25 => Ok(Signal::SIGXFSZ),
            26 => Ok(Signal::SIGVTALRM),
            27 => Ok(Signal::SIGPROF),
            28 => Ok(Signal::SIGWINCH),
            29 => Ok(Signal::SIGIO),
            30 => Ok(Signal::SIGPWR),
            31 => Ok(Signal::SIGSYS),
            32 => Ok(Signal::SIGRTMIN),
            33..=63 => Ok(Signal::UNUSED),
            64 => Ok(Signal::SIGRTMAX),
            _ => Err(ProcessError::SignalConversionError(value)),
        }
    }
}

/// Whether bit position `i` (1-based: position 1 is the least significant
/// bit and stands for signal 1) is set in the mask `v`.
pub open spec fn bit_set(v: u64, i: int) -> bool {
    1 <= i <= 64 && (v >> ((i - 1) as u64)) & 1u64 == 1u64
}

/// The set bit positions of `v` among 1..=n, in ascending order.
pub open spec fn mask_positions(v: u64, n: int) -> Seq<u32>
    decreases n,
{
    if n <= 0 {
        Seq::empty()
    } else if bit_set(v, n) {
        mask_positions(v, n - 1).push(n as u32)
    } else {
        mask_positions(v, n - 1)
    }
}

/// How many of the bit positions 1..=n are set in `v`: the population
/// count of the mask, once `n` reaches 64.
pub open spec fn popcount_up_to(v: u64, n: int) -> int
    decreases n,
{
    if n <= 0 {
        0
    } else {
        popcount_up_to(v, n - 1) + if bit_set(v, n) {
            1int
        } else {
            0int
        }
    }
}

/// The signals of the mask `v`: its set bit positions, ascending, each
/// mapped through the fixed numeric mapping.
pub open spec fn mask_signals(v: u64) -> Seq<Signal> {
    mask_positions(v, 64).map_values(|p: u32| spec_signal_of(p as int))
}

/// The set bit positions of a mask are strictly ascending — so the decoded
/// signal list holds no duplicated bit's signal and is sorted by signal
/// number — and there are exactly as many of them as the mask's population
/// count, bit 0 ignored.
proof fn lemma_mask_positions_sorted_count(v: u64, n: int)
    requires
        0 <= n <= 64,
    ensures
        forall|a: int, b: int|
            0 <= a < b < mask_positions(v, n).len() ==> mask_positions(v, n)[a] < mask_positions(
                v,
                n,
            )[b],
        mask_positions(v, n).len() == popcount_up_to(v, n),
        forall|a: int|
            0 <= a < mask_positions(v, n).len() ==> 1 <= #[trigger] mask_positions(v, n)[a] <= n,
    decreases n,
{
    if n > 0 {
        lemma_mask_positions_sorted_count(v, n - 1);
    }
}

/// The decoded signal list of any mask is as long as the mask's population
/// count, and ascends strictly in the underlying bit positions.
pub proof fn lemma_mask_signals_count(v: u64)
    ensures
        mask_signals(v).len() == popcount_up_to(v, 64),
        forall|a: int, b: int|
            0 <= a < b < mask_positions(v, 64).len() ==> mask_positions(v, 64)[a] < mask_positions(
                v,
                64,
            )[b],
        forall|a: int|
            0 <= a < mask_signals(v).len() ==> mask_signals(v)[a] == spec_signal_of(
                mask_positions(v, 64)[a] as int,
            ),
{
    lemma_mask_positions_sorted_count(v, 64);
}

/// Decodes a 16-hex-digit (or shorter) mask string into the signals whose
/// bits are set, in strictly ascending bit-position order; fails with
/// `Parse` exactly when the string is not a valid in-range hexadecimal
/// numeral.
pub fn decode(raw_hex: &str) -> (r: Result<Vec<Signal>, ProcessError>)
    ensures
        match r {
            Ok(sigs) => valid_hex_u64(raw_hex@) && sigs@ == mask_signals(
                hex_val(raw_hex@) as u64,
            ),
            Err(e) => !valid_hex_u64(raw_hex@) && e == ProcessError::Parse,
        },
{
    let value = match parse_hex_u64(raw_hex) {
        Ok(v) => v,
        Err(e) => {
            return Err(e);
        },
    };
    let mut signals: Vec<Signal> = Vec::new();
    let mut i: u32 = 1;
    proof {
        assert(signals@ =~= mask_positions(value, 0).map_values(|p: u32| spec_signal_of(p as int)));
    }
    while i <= 64
        invariant
            1 <= i <= 65,
            signals@ == mask_positions(value, i - 1).map_values(|p: u32| spec_signal_of(p as int)),
        decreases 65 - i,
    {
        let sh: u64 = (i - 1) as u64;
        if (value >> sh) & 1 == 1 {
            match Signal::try_from(i) {
                Ok(s) => {
                    signals.push(s);
                    proof {
                        assert(signals@ =~= mask_positions(value, i as int).map_values(
                            |p: u32| spec_signal_of(p as int),
                        ));
                    }
                },
                Err(_) => {
                    proof {
                        assert(false);
                    }
                },
            }
        } else {
            proof {
                assert(mask_positions(value, i as int) == mask_positions(value, i - 1));
            }
        }
        i += 1;
    }
    Ok(signals)
}

/// Looks up the mask field `key` in the status blob and decodes it.
fn signals_of_field(status: &str, key: &str) -> (r: Result<Vec<Signal>, ProcessError>)
    ensures
        match r {
            Ok(sigs) => spec_field(status@, key@) matches Ok(raw) && valid_hex_u64(raw) && sigs@
                == mask_signals(hex_val(raw) as u64),
            Err(e) => (spec_field(status@, key@) matches Err(e2) && e == e2) || (spec_field(
                status@,
                key@,
            ) matches Ok(raw) && !valid_hex_u64(raw) && e == ProcessError::Parse),
        },
{
    let raw = match get_proc_status_value(status, key) {
        Ok(raw) => raw,
        Err(e) => {
            return Err(e);
        },
    };
    decode(raw.as_str())
}

/// The signals the process ignores: the decoded `SigIgn` field of the
/// status blob.
pub fn get_ignoring_signals(status: &str) -> (r: Result<Vec<Signal>, ProcessError>)
    ensures
        match r {
            Ok(sigs) => spec_field(status@, "SigIgn"@) matches Ok(raw) && valid_hex_u64(raw)
                && sigs@ == mask_signals(hex_val(raw) as u64),
            Err(e) => (spec_field(status@, "SigIgn"@) matches Err(e2) && e == e2) || (spec_field(
                status@,
                "SigIgn"@,
            ) matches Ok(raw) && !valid_hex_u64(raw) && e == ProcessError::Parse),
        },
{
    signals_of_field(status, "SigIgn")
}

/// The signals pending for the process: the decoded `SigPnd` field.
pub fn get_pending_signals(status: &str) -> (r: Result<Vec<Signal>, ProcessError>)
    ensures
        match r {
            Ok(sigs) => spec_field(status@, "SigPnd"@) matches Ok(raw) && valid_hex_u64(raw)
                && sigs@ == mask_signals(hex_val(raw) as u64),
            Err(e) => (spec_field(status@, "SigPnd"@) matches Err(e2) && e == e2) || (spec_field(
                status@,
                "SigPnd"@,
            ) matches Ok(raw) && !valid_hex_u64(raw) && e == ProcessError::Parse),
        },
{
    signals_of_field(status, "SigPnd")
}

/// The signals the process blocks: the decoded `SigBlk` field.
pub fn get_block_signals(status: &str) -> (r: Result<Vec<Signal>, ProcessError>)
    ensures
        match r {
            Ok(sigs) => spec_field(status@, "SigBlk"@) matches Ok(raw) && valid_hex_u64(raw)
                && sigs@ == mask_signals(hex_val(raw) as u64),
            Err(e) => (spec_field(status@, "SigBlk"@) matches Err(e2) && e == e2) || (spec_field(
                status@,
                "SigBlk"@,
            ) matches Ok(raw) && !valid_hex_u64(raw) && e == ProcessError::Parse),
        },
{
    signals_of_field(status, "SigBlk")
}

/// The signals the process catches: the decoded `SigCgt` field.
pub fn get_cgt_signals(status: &str) -> (r: Result<Vec<Signal>, ProcessError>)
    ensures
        match r {
            Ok(sigs) => spec_field(status@, "SigCgt"@) matches Ok(raw) && valid_hex_u64(raw)
                && sigs@ == mask_signals(hex_val(raw) as u64),
            Err(e) => (spec_field(status@, "SigCgt"@) matches Err(e2) && e == e2) || (spec_field(
                status@,
                "SigCgt"@,
            ) matches Ok(raw) && !valid_hex_u64(raw) && e == ProcessError::Parse),
        },
{
    signals_of_field(status, "SigCgt")
}

} // verus!
