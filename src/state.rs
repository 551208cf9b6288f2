use vstd::prelude::*;
use crate::error::PrintError;
use crate::text::{contains, has_substring};

verus! {

/// Canonical printer state.
#[allow(non_camel_case_types)]
#[derive(Clone, Copy, Debug, PartialEq, Eq, Structural)]
pub enum PrinterState {
    READY,
    PRINTING,
    PAUSED,
    OFFLINE,
    UNKNOWN,
}

/// Canonical print job state.
#[allow(non_camel_case_types)]
#[derive(Clone, Copy, Debug, PartialEq, Eq, Structural)]
pub enum PrinterJobState {
    PENDING,
    PROCESSING,
    PAUSED,
    CANCELLED,
    COMPLETED,
    UNKNOWN,
}

/// Status bits that mean the device is idle or merely moving data.
pub const READY_BITS: u64 = 0x00000100 | 0x00004000;
/// Status bit that means the device is printing.
pub const PRINTING_BIT: u64 = 0x00000400;
/// Status bits that mean the device is held up: paused, error, pending
/// deletion, paper jam, paper out, manual feed.
pub const PAUSED_BITS: u64 = 0x00000001 | 0x00000002 | 0x00000004 | 0x00000008 | 0x00000010
    | 0x00000020;
/// Status bits that mean the device cannot be reached: offline, door open,
/// not available, pending deletion.
pub const OFFLINE_BITS: u64 = 0x00000080 | 0x00400000 | 0x00001000 | 0x00000004;

/// Classification of a raw status bitmask, first matching group first.
pub open spec fn state_of_bits(bits: u64) -> PrinterState {
    if bits == 0 || bits & READY_BITS != 0 {
        PrinterState::READY
    } else if bits & PRINTING_BIT != 0 {
        PrinterState::PRINTING
    } else if bits & PAUSED_BITS != 0 {
        PrinterState::PAUSED
    } else if bits & OFFLINE_BITS != 0 {
        PrinterState::OFFLINE
    } else {
        PrinterState::UNKNOWN
    }
}

/// The reason text names a condition that makes the device unreachable.
pub open spec fn reasons_say_offline(reasons: Seq<char>) -> bool {
    has_substring(reasons, "offline"@) || has_substring(reasons, "pending_deletion"@)
}

/// Canonical state of a printer from its raw status bits and reason text;
/// the reason text takes precedence over the bits.
pub open spec fn printer_state_of(bits: u64, reasons: Seq<char>) -> PrinterState {
    if reasons_say_offline(reasons) {
        PrinterState::OFFLINE
    } else {
        state_of_bits(bits)
    }
}

/// Canonical state of a job from its raw status code.
pub open spec fn job_state_of(code: u64) -> PrinterJobState {
    if code == 1 || code == 8 {
        PrinterJobState::PAUSED
    } else if code == 4 || code == 256 {
        PrinterJobState::CANCELLED
    } else if code == 16 || code == 2048 || code == 8192 {
        PrinterJobState::PROCESSING
    } else if code == 32 || code == 64 || code == 512 || code == 1024 {
        PrinterJobState::PENDING
    } else if code == 128 || code == 496 {
        PrinterJobState::COMPLETED
    } else {
        PrinterJobState::UNKNOWN
    }
}

/// Maps a printer's raw status bits and reason text to its canonical state.
pub fn normalize_printer_state(platform_state: u64, state_reasons: &str) -> (r: PrinterState)
    ensures
        r == printer_state_of(platform_state, state_reasons@),
{
    if contains(state_reasons, "offline") || contains(state_reasons, "pending_deletion") {
        return PrinterState::OFFLINE;
    }
    if platform_state == 0 || platform_state & READY_BITS != 0 {
        PrinterState::READY
    } else if platform_state & PRINTING_BIT != 0 {
        PrinterState::PRINTING
    } else if platform_state & PAUSED_BITS != 0 {
        PrinterState::PAUSED
    } else if platform_state & OFFLINE_BITS != 0 {
        PrinterState::OFFLINE
    } else {
        PrinterState::UNKNOWN
    }
}

/// Maps a job's raw status code to its canonical state; codes without a
/// mapping give `UNKNOWN`.
pub fn normalize_job_state(platform_state: u64) -> (r: PrinterJobState)
    ensures
        r == job_state_of(platform_state),
        (r == PrinterJobState::UNKNOWN) <==> !(platform_state == 1 || platform_state == 8
            || platform_state == 4 || platform_state == 256 || platform_state == 16
            || platform_state == 2048 || platform_state == 8192 || platform_state == 32
            || platform_state == 64 || platform_state == 512 || platform_state == 1024
            || platform_state == 128 || platform_state == 496),
{
    match platform_state {
        1 | 8 => PrinterJobState::PAUSED,
        4 | 256 => PrinterJobState::CANCELLED,
        16 | 2048 | 8192 => PrinterJobState::PROCESSING,
        32 | 64 | 512 | 1024 => PrinterJobState::PENDING,
        128 | 496 => PrinterJobState::COMPLETED,
        _ => PrinterJobState::UNKNOWN,
    }
}

/// A job control command understood by the spooler.
#[derive(Clone, Copy, Debug, PartialEq, Eq, Structural)]
pub enum JobCommand {
    Pause,
    Resume,
    Restart,
    Delete,
}

impl JobCommand {
    /// The spooler's numeric code of the command.
    pub open spec fn spec_code(self) -> u32 {
        match self {
            JobCommand::Pause => 1,
            JobCommand::Resume => 2,
            JobCommand::Restart => 4,
            JobCommand::Delete => 5,
        }
    }

    /// The spooler's numeric code of the command.
    pub fn code(&self) -> (r: u32)
        ensures
            r == self.spec_code(),
    {
        match self {
            JobCommand::Pause => 1,
            JobCommand::Resume => 2,
            JobCommand::Restart => 4,
            JobCommand::Delete => 5,
        }
    }
}

/// The command that moves a job to a requested state, if there is one.
pub open spec fn command_for(state: PrinterJobState) -> Option<JobCommand> {
    match state {
        PrinterJobState::PAUSED => Some(JobCommand::Pause),
        PrinterJobState::PENDING => Some(JobCommand::Restart),
        PrinterJobState::CANCELLED => Some(JobCommand::Delete),
        PrinterJobState::PROCESSING => Some(JobCommand::Resume),
        _ => None,
    }
}

/// The platform command for a requested job state. Only paused, pending,
/// cancelled and processing can be requested; other states fail with
/// `UnsupportedTransition`.
pub fn to_platform_command(state: PrinterJobState) -> (r: Result<JobCommand, PrintError>)
    ensures
        r is Ok <==> command_for(state) is Some,
        r is Ok ==> r->Ok_0 == command_for(state)->0,
        r is Err ==> r->Err_0 == PrintError::UnsupportedTransition,
        r is Err <==> (state == PrinterJobState::COMPLETED || state == PrinterJobState::UNKNOWN),
{
    match state {
        PrinterJobState::PAUSED => Ok(JobCommand::Pause),
        PrinterJobState::PENDING => Ok(JobCommand::Restart),
        PrinterJobState::CANCELLED => Ok(JobCommand::Delete),
        PrinterJobState::PROCESSING => Ok(JobCommand::Resume),
        _ => Err(PrintError::UnsupportedTransition),
    }
}

/// Status bits in the order the reasons are reported.
pub open spec fn reason_flags() -> Seq<u64> {
    seq![
        0x00000000u64,
        0x00000001u64,
        0x00000002u64,
        0x00000004u64,
        0x00000008u64,
        0x00000010u64,
        0x00000020u64,
        0x00000040u64,
        0x00000080u64,
        0x00000100u64,
        0x00000200u64,
        0x00000400u64,
        0x00000800u64,
        0x00001000u64,
        0x00002000u64,
        0x00004000u64,
        0x00008000u64,
        0x00010000u64,
        0x00020000u64,
        0x00040000u64,
        0x00080000u64,
        0x00100000u64,
        0x00200000u64,
        0x00400000u64,
        0x00800000u64,
        0x01000000u64,
    ]
}

/// Names of the status bits, in the order of `reason_flags`.
pub open spec fn reason_names() -> Seq<Seq<char>> {
    seq![
        "ready"@,
        "paused"@,
        "error"@,
        "pending_deletion"@,
        "paper_jam"@,
        "paper_out"@,
        "manual_feed"@,
        "paper_problem"@,
        "offline"@,
        "io_active"@,
        "busy"@,
        "printing"@,
        "output_bin_full"@,
        "not_available"@,
        "waiting"@,
        "processing"@,
        "initializing"@,
        "warming_up"@,
        "toner_low"@,
        "no_toner"@,
        "page_punt"@,
        "user_intervention"@,
        "out_of_memory"@,
        "door_open"@,
        "server_unknown"@,
        "power_save"@,
    ]
}

/// Names of the first `n` status bits of the table that are set in `status`.
pub open spec fn reasons_upto(status: u64, n: nat) -> Seq<Seq<char>>
    decreases n,
{
    if n == 0 {
        Seq::empty()
    } else {
        let prev = reasons_upto(status, (n - 1) as nat);
        if status & reason_flags()[n - 1] != 0 {
            prev.push(reason_names()[n - 1])
        } else {
            prev
        }
    }
}

/// Names of the status bits set in `status`, in table order.
pub open spec fn reasons_of(status: u64) -> Seq<Seq<char>> {
    reasons_upto(status, reason_flags().len())
}

/// The names of the conditions that a raw printer status reports, one per
/// set bit, in a fixed order.
pub fn state_reasons(status: u64) -> (r: Vec<String>)
    ensures
        r@.map_values(|s: String| s@) == reasons_of(status),
{
    let flags: Vec<u64> = vec![
        0x00000000u64,
        0x00000001u64,
        0x00000002u64,
        0x00000004u64,
        0x00000008u64,
        0x00000010u64,
        0x00000020u64,
        0x00000040u64,
        0x00000080u64,
        0x00000100u64,
        0x00000200u64,
        0x00000400u64,
        0x00000800u64,
        0x00001000u64,
        0x00002000u64,
        0x00004000u64,
        0x00008000u64,
        0x00010000u64,
        0x00020000u64,
        0x00040000u64,
        0x00080000u64,
        0x00100000u64,
        0x00200000u64,
        0x00400000u64,
        0x00800000u64,
        0x01000000u64,
    ];
    let names: Vec<&str> = vec![
        "ready",
        "paused",
        "error",
        "pending_deletion",
        "paper_jam",
        "paper_out",
        "manual_feed",
        "paper_problem",
        "offline",
        "io_active",
        "busy",
        "printing",
        "output_bin_full",
        "not_available",
        "waiting",
        "processing",
        "initializing",
        "warming_up",
        "toner_low",
        "no_toner",
        "page_punt",
        "user_intervention",
        "out_of_memory",
        "door_open",
        "server_unknown",
        "power_save",
    ];
    assert(flags@ =~= reason_flags());
    assert(names@.map_values(|s: &str| s@) =~= reason_names());
    assert(names@.len() == flags@.len());
    let mut r: Vec<String> = Vec::new();
    let mut i: usize = 0;
    while i < flags.len()
        invariant
            flags@ == reason_flags(),
            names@.map_values(|s: &str| s@) == reason_names(),
            names@.len() == flags@.len(),
            i <= flags@.len(),
            r@.map_values(|s: String| s@) == reasons_upto(status, i as nat),
        decreases flags@.len() - i,
    {
        if status & flags[i] != 0 {
            let name = names[i].to_owned();
            assert(names@.map_values(|s: &str| s@)[i as int] == names@[i as int]@);
            let ghost before = r@;
            r.push(name);
            assert(r@.map_values(|s: String| s@) =~= before.map_values(|s: String| s@).push(
                name@,
            ));
        }
        i = i + 1;
    }
    r
}

/// A status with the printing bit and neither ready bit reads as printing,
/// whatever else is set, unless the reason text names an offline condition.
pub proof fn lemma_printing_bit_means_printing(bits: u64, reasons: Seq<char>)
    requires
        bits & PRINTING_BIT != 0,
        bits & READY_BITS == 0,
        !has_substring(reasons, "offline"@),
        !has_substring(reasons, "pending_deletion"@),
    ensures
        printer_state_of(bits, reasons) == PrinterState::PRINTING,
{
    assert(bits & 0x400u64 != 0 ==> bits != 0) by (bit_vector);
}

/// A reason text that mentions pending deletion reads as offline, whatever the
/// status bits.
pub proof fn lemma_pending_deletion_means_offline(bits: u64, reasons: Seq<char>)
    requires
        has_substring(reasons, "pending_deletion"@),
    ensures
        printer_state_of(bits, reasons) == PrinterState::OFFLINE,
{
}

/// Every raw job code maps to exactly one canonical state, and codes outside
/// the table map to `UNKNOWN`.
pub proof fn lemma_job_state_total(code: u64)
    ensures
        job_state_of(code) == PrinterJobState::PENDING || job_state_of(code)
            == PrinterJobState::PROCESSING || job_state_of(code) == PrinterJobState::PAUSED
            || job_state_of(code) == PrinterJobState::CANCELLED || job_state_of(code)
            == PrinterJobState::COMPLETED || job_state_of(code) == PrinterJobState::UNKNOWN,
        !(code == 1 || code == 8 || code == 4 || code == 256 || code == 16 || code == 2048
            || code == 8192 || code == 32 || code == 64 || code == 512 || code == 1024 || code
            == 128 || code == 496) ==> job_state_of(code) == PrinterJobState::UNKNOWN,
{
}

} // verus!
