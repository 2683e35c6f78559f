//! The kernel's fatal-trap handler and the unwind-personality stub.
//!
//! The handler is the last line of defense: whatever unrecoverable condition
//! the runtime detects, the faulting core emits one best-effort diagnostic
//! record naming the fault's source location (or saying that none is known)
//! and then halts for good. There is no recovery, no unwinding and no second
//! transition: a halted core stays halted until an outside reset.
//!
//! Everything the handler decides and emits is here, verified; every
//! function in this crate terminates, so the terminal halt itself — an
//! unconditional infinite loop on the faulting core — is the one step left
//! to the unverified glue that registers the handler with the runtime. That
//! glue calls [`report_fault`] and then loops forever, taking no further
//! action of any kind.

use crate::decimal::{append_decimal, decimal_digits};
use crate::sink::DiagnosticSink;
use vstd::prelude::*;

verus! {

/// Where a fault was raised: source file name, line and column. The runtime
/// cannot always supply one, so the handler takes it optionally.
pub struct FaultLocation {
    pub file: String,
    pub line: u32,
    pub column: u32,
}

/// The diagnostic record for a fault whose location is known.
pub open spec fn located_fault_record(file: Seq<char>, line: u32, column: u32) -> Seq<char> {
    "paniced at \""@ + file + "\", "@ + decimal_digits(line as nat) + ":"@ + decimal_digits(
        column as nat,
    )
}

/// The diagnostic record for a fault whose location is unknown.
pub open spec fn unknown_fault_record() -> Seq<char> {
    "paniced at an unknown position"@
}

/// The one diagnostic record a fault produces, known location or not.
pub open spec fn fault_record(location: Option<&FaultLocation>) -> Seq<char> {
    match location {
        Some(l) => located_fault_record(l.file@, l.line, l.column),
        None => unknown_fault_record(),
    }
}

/// Builds the diagnostic record for a fault at `location`.
pub fn format_fault_record(location: Option<&FaultLocation>) -> (record: String)
    ensures
        record@ == fault_record(location),
{
    match location {
        Some(l) => {
            let mut record = String::from_str("paniced at \"");
            record.append(l.file.as_str());
            record.append("\", ");
            append_decimal(&mut record, l.line);
            record.append(":");
            append_decimal(&mut record, l.column);
            proof {
                assert(record@ =~= located_fault_record(l.file@, l.line, l.column));
            }
            record
        },
        None => String::from_str("paniced at an unknown position"),
    }
}

/// Emits the one diagnostic record for a fault at `location` through the
/// given facility: exactly one error-severity record is appended to the
/// facility's history, and nothing else changes. Best effort only in the
/// sense that an unconfigured facility drops the record silently; the call
/// itself never fails, whichever facility is wired in.
pub fn report_fault<S: DiagnosticSink>(location: Option<&FaultLocation>, sink: &mut S)
    ensures
        final(sink).emitted() == old(sink).emitted().push(fault_record(location)),
{
    let record = format_fault_record(location);
    sink.emit_error(record);
}

/// The unwind-personality stub. The language runtime demands some symbol for
/// the exception personality routine even though this kernel never unwinds,
/// so this routine does nothing and returns immediately.
pub fn eh_personality() {
}

} // verus!
