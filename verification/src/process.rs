//! The process snapshot record, the process state enumeration, and the
//! builder that assembles a complete snapshot from the raw per-process
//! data a caller has read.

use vstd::prelude::*;

use crate::error::ProcessError;
use crate::num::dec_val;
use crate::num::parse_dec_u16;
use crate::num::parse_dec_u32;
use crate::num::valid_dec;
use crate::num::hex_val;
use crate::num::valid_hex_u64;
use crate::selinux::SElinux;
use crate::selinux::SElinuxModel;
use crate::selinux::parse_selinux_context;
use crate::selinux::spec_selinux;
use crate::signal::Signal;
use crate::signal::get_block_signals;
use crate::signal::get_cgt_signals;
use crate::signal::get_ignoring_signals;
use crate::signal::get_pending_signals;
use crate::signal::mask_signals;
use crate::status::get_proc_status_value;
use crate::status::spec_field;
use crate::text::spec_tokens;
use crate::text::str_equal;
use crate::text::tokenize;

verus! {

/// The scheduling state of a process. Any state token other than the
/// modeled three is represented as `Unknown`, never as an error.
#[derive(Debug, Clone, Copy, PartialEq, Eq, Structural)]
pub enum ProcessStat {
    Running,
    Sleeping,
    Zombie,
    Unknown,
}

/// What a state token maps to: total over all strings.
pub open spec fn spec_stat_of(s: Seq<char>) -> ProcessStat {
    if s == "S"@ || s == "sleeping"@ {
        ProcessStat::Sleeping
    } else if s == "R"@ || s == "running"@ {
        ProcessStat::Running
    } else if s == "Z"@ || s == "zombie"@ {
        ProcessStat::Zombie
    } else {
        ProcessStat::Unknown
    }
}

/// The one-letter display code of a state; `"?"` for `Unknown`.
pub open spec fn spec_stat_code(st: ProcessStat) -> Seq<char> {
    match st {
        ProcessStat::Running => "R"@,
        ProcessStat::Sleeping => "S"@,
        ProcessStat::Zombie => "Z"@,
        ProcessStat::Unknown => "?"@,
    }
}

impl ProcessStat {
    /// Maps a state token to its state: `"R"`/`"running"`, `"S"`/
    /// `"sleeping"`, `"Z"`/`"zombie"`, and `Unknown` for anything else.
    pub fn from_str(s: &str) -> (r: ProcessStat)
        ensures
            r == spec_stat_of(s@),
    {
        if str_equal(s, "S") || str_equal(s, "sleeping") {
            ProcessStat::Sleeping
        } else if str_equal(s, "R") || str_equal(s, "running") {
            ProcessStat::Running
        } else if str_equal(s, "Z") || str_equal(s, "zombie") {
            ProcessStat::Zombie
        } else {
            ProcessStat::Unknown
        }
    }

    /// The one-letter display code of this state.
    pub fn code(&self) -> (r: &'static str)
        ensures
            r@ == spec_stat_code(*self),
    {
        match self {
            ProcessStat::Running => "R",
            ProcessStat::Sleeping => "S",
            ProcessStat::Zombie => "Z",
            ProcessStat::Unknown => "?",
        }
    }
}

/// Reading a state's display code back through the state mapping returns
/// the same state, for every state.
pub proof fn lemma_stat_round_trip(st: ProcessStat)
    ensures
        spec_stat_of(spec_stat_code(st)) == st,
{
    reveal_strlit("R");
    reveal_strlit("S");
    reveal_strlit("Z");
    reveal_strlit("?");
    reveal_strlit("running");
    reveal_strlit("sleeping");
    reveal_strlit("zombie");
    assert(("R"@)[0] == 'R' && ("S"@)[0] == 'S' && ("Z"@)[0] == 'Z' && ("?"@)[0] == '?');
    assert("R"@.len() == 1 && "S"@.len() == 1 && "Z"@.len() == 1 && "?"@.len() == 1);
    assert("running"@.len() == 7 && "sleeping"@.len() == 8 && "zombie"@.len() == 6);
}

/// An immutable snapshot of one process: command line, thread count,
/// owning user and group, security context, scheduling state, and the
/// four signal disposition sets. All fields are populated at construction
/// or the build fails as a whole.
#[derive(Debug, PartialEq, Eq)]
pub struct Process {
    pub cmdline: Vec<String>,
    pub thread_num: u16,
    pub user: String,
    pub gid: u32,
    pub selinux: SElinux,
    pub status: ProcessStat,
    pub sig_ign: Vec<Signal>,
    pub sig_pnd: Vec<Signal>,
    pub sig_blk: Vec<Signal>,
    pub sig_cgt: Vec<Signal>,
}

/// Spec-level image of `Process`.
#[verifier::ext_equal]
pub ghost struct ProcessModel {
    pub cmdline: Seq<Seq<char>>,
    pub thread_num: u16,
    pub user: Seq<char>,
    pub gid: u32,
    pub selinux: SElinuxModel,
    pub status: ProcessStat,
    pub sig_ign: Seq<Signal>,
    pub sig_pnd: Seq<Signal>,
    pub sig_blk: Seq<Signal>,
    pub sig_cgt: Seq<Signal>,
}

impl View for Process {
    type V = ProcessModel;

    open spec fn view(&self) -> ProcessModel {
        ProcessModel {
            cmdline: self.cmdline.deep_view(),
            thread_num: self.thread_num,
            user: self.user@,
            gid: self.gid,
            selinux: self.selinux@,
            status: self.status,
            sig_ign: self.sig_ign@,
            sig_pnd: self.sig_pnd@,
            sig_blk: self.sig_blk@,
            sig_cgt: self.sig_cgt@,
        }
    }
}

/// The character sequence behind an optional raw input; `None` stands for
/// a read or lookup that failed.
pub open spec fn opt_seq(o: Option<String>) -> Option<Seq<char>> {
    match o {
        Some(s) => Some(s@),
        None => None,
    }
}

/// A status field read as an unsigned 32-bit decimal number.
pub open spec fn spec_u32_field(blob: Seq<char>, key: Seq<char>) -> Result<u32, ProcessError> {
    match spec_field(blob, key) {
        Ok(raw) => if valid_dec(raw, u32::MAX as int) {
            Ok(dec_val(raw) as u32)
        } else {
            Err(ProcessError::Parse)
        },
        Err(e) => Err(e),
    }
}

/// A status field read as an unsigned 16-bit decimal number.
pub open spec fn spec_u16_field(blob: Seq<char>, key: Seq<char>) -> Result<u16, ProcessError> {
    match spec_field(blob, key) {
        Ok(raw) => if valid_dec(raw, u16::MAX as int) {
            Ok(dec_val(raw) as u16)
        } else {
            Err(ProcessError::Parse)
        },
        Err(e) => Err(e),
    }
}

/// A status field read as a 64-bit signal mask and decoded into signals.
pub open spec fn spec_mask_field(blob: Seq<char>, key: Seq<char>) -> Result<
    Seq<Signal>,
    ProcessError,
> {
    match spec_field(blob, key) {
        Ok(raw) => if valid_hex_u64(raw) {
            Ok(mask_signals(hex_val(raw) as u64))
        } else {
            Err(ProcessError::Parse)
        },
        Err(e) => Err(e),
    }
}

/// What building a snapshot from the raw inputs yields, step by step in
/// build order: uid, username, gid, thread count, the four signal masks,
/// security context, command line, state. The first failing step decides
/// the error; a missing status blob, context string or command-line
/// record is a read that failed, a missing username is `UserNotFound`.
pub open spec fn spec_build(
    status: Option<Seq<char>>,
    username: Option<Seq<char>>,
    attr: Option<Seq<char>>,
    cmdline: Option<Seq<char>>,
) -> Result<ProcessModel, ProcessError> {
    match status {
        None => Err(ProcessError::Io),
        Some(blob) => match spec_u32_field(blob, "Uid"@) {
            Err(e) => Err(e),
            Ok(uid) => match username {
                None => Err(ProcessError::UserNotFound(uid)),
                Some(user) => match spec_u32_field(blob, "Gid"@) {
                    Err(e) => Err(e),
                    Ok(gid) => match spec_u16_field(blob, "Threads"@) {
                        Err(e) => Err(e),
                        Ok(thread_num) => match spec_mask_field(blob, "SigIgn"@) {
                            Err(e) => Err(e),
                            Ok(sig_ign) => match spec_mask_field(blob, "SigBlk"@) {
                                Err(e) => Err(e),
                                Ok(sig_blk) => match spec_mask_field(blob, "SigPnd"@) {
                                    Err(e) => Err(e),
                                    Ok(sig_pnd) => match spec_mask_field(blob, "SigCgt"@) {
                                        Err(e) => Err(e),
                                        Ok(sig_cgt) => match attr {
                                            None => Err(ProcessError::Io),
                                            Some(ctx) => match cmdline {
                                                None => Err(ProcessError::Io),
                                                Some(raw) => match spec_field(blob, "State"@) {
                                                    Err(e) => Err(e),
                                                    Ok(st) => Ok(
                                                        ProcessModel {
                                                            cmdline: spec_tokens(raw),
                                                            thread_num,
                                                            user,
                                                            gid,
                                                            selinux: spec_selinux(ctx),
                                                            status: spec_stat_of(st),
                                                            sig_ign,
                                                            sig_pnd,
                                                            sig_blk,
                                                            sig_cgt,
                                                        },
                                                    ),
                                                },
                                            },
                                        },
                                    },
                                },
                            },
                        },
                    },
                },
            },
        },
    }
}

/// Assembles one complete snapshot from the raw inputs: the status blob,
/// the outcome of the username lookup for the blob's uid, the raw
/// security-context attribute string, and the raw command-line record.
/// `None` stands for an underlying read or lookup that failed. The result
/// is exactly what `spec_build` yields on the same inputs: the first
/// failing step aborts the whole build, and no partial record is ever
/// returned.
pub fn get_process_info(
    status: &Option<String>,
    username: &Option<String>,
    attr: &Option<String>,
    cmdline: &Option<String>,
) -> (r: Result<Process, ProcessError>)
    ensures
        ({
            let m = spec_build(
                opt_seq(*status),
                opt_seq(*username),
                opt_seq(*attr),
                opt_seq(*cmdline),
            );
            match r {
                Ok(p) => m matches Ok(pm) && p@ == pm,
                Err(e) => m matches Err(e2) && e == e2,
            }
        }),
{
    let blob = match status {
        Some(b) => b,
        None => {
            return Err(ProcessError::Io);
        },
    };
    let uid_raw = match get_proc_status_value(blob.as_str(), "Uid") {
        Ok(v) => v,
        Err(e) => {
            return Err(e);
        },
    };
    let uid = match parse_dec_u32(uid_raw.as_str()) {
        Ok(v) => v,
        Err(e) => {
            return Err(e);
        },
    };
    let user = match username {
        Some(u) => u.clone(),
        None => {
            return Err(ProcessError::UserNotFound(uid));
        },
    };
    let gid_raw = match get_proc_status_value(blob.as_str(), "Gid") {
        Ok(v) => v,
        Err(e) => {
            return Err(e);
        },
    };
    let gid = match parse_dec_u32(gid_raw.as_str()) {
        Ok(v) => v,
        Err(e) => {
            return Err(e);
        },
    };
    let threads_raw = match get_proc_status_value(blob.as_str(), "Threads") {
        Ok(v) => v,
        Err(e) => {
            return Err(e);
        },
    };
    let thread_num = match parse_dec_u16(threads_raw.as_str()) {
        Ok(v) => v,
        Err(e) => {
            return Err(e);
        },
    };
    let sig_ign = match get_ignoring_signals(blob.as_str()) {
        Ok(v) => v,
        Err(e) => {
            return Err(e);
        },
    };
    let sig_blk = match get_block_signals(blob.as_str()) {
        Ok(v) => v,
        Err(e) => {
            return Err(e);
        },
    };
    let sig_pnd = match get_pending_signals(blob.as_str()) {
        Ok(v) => v,
        Err(e) => {
            return Err(e);
        },
    };
    let sig_cgt = match get_cgt_signals(blob.as_str()) {
        Ok(v) => v,
        Err(e) => {
            return Err(e);
        },
    };
    let ctx = match attr {
        Some(c) => c,
        None => {
            return Err(ProcessError::Io);
        },
    };
    let selinux = parse_selinux_context(ctx.as_str());
    let raw_cmd = match cmdline {
        Some(c) => c,
        None => {
            return Err(ProcessError::Io);
        },
    };
    let cmd = tokenize(raw_cmd.as_str());
    let state_raw = match get_proc_status_value(blob.as_str(), "State") {
        Ok(v) => v,
        Err(e) => {
            return Err(e);
        },
    };
    let stat = ProcessStat::from_str(state_raw.as_str());
    let p = Process {
        cmdline: cmd,
        thread_num,
        user,
        gid,
        selinux,
        status: stat,
        sig_ign,
        sig_pnd,
        sig_blk,
        sig_cgt,
    };
    proof {
        let m = spec_build(opt_seq(*status), opt_seq(*username), opt_seq(*attr), opt_seq(*cmdline));
        assert(p@ =~= m->Ok_0);
    }
    Ok(p)
}

} // verus!
