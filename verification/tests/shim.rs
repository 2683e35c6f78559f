use kernel_shim::mmu::{disable_mmu, initialize_mmu};
use kernel_shim::sink::{DiagnosticSink, MemorySink, NullSink};
use kernel_shim::trap::{eh_personality, format_fault_record, report_fault, FaultLocation};

fn location(file: &str, line: u32, column: u32) -> FaultLocation {
    FaultLocation { file: String::from(file), line, column }
}

#[test]
fn initialize_mmu_accepts_any_core_and_returns() {
    initialize_mmu(0);
    initialize_mmu(1);
    initialize_mmu(u32::MAX);
}

#[test]
fn disable_mmu_returns() {
    disable_mmu();
}

#[test]
fn mmu_calls_are_idempotent_in_any_interleaving() {
    initialize_mmu(0);
    initialize_mmu(0);
    disable_mmu();
    initialize_mmu(0);
    disable_mmu();
    disable_mmu();
    initialize_mmu(3);
    initialize_mmu(0);
}

#[test]
fn located_fault_produces_exactly_one_record_with_the_location() {
    let loc = location("main.rs", 42, 7);
    let mut sink = MemorySink::new();
    report_fault(Some(&loc), &mut sink);
    assert_eq!(sink.len(), 1);
    let record = sink.record(0);
    assert!(record.contains("main.rs"));
    assert!(record.contains("42"));
    assert!(record.contains("7"));
    assert_eq!(record.as_str(), "paniced at \"main.rs\", 42:7");
}

#[test]
fn unknown_fault_produces_exactly_one_unknown_position_record() {
    let mut sink = MemorySink::new();
    report_fault(None, &mut sink);
    assert_eq!(sink.len(), 1);
    let record = sink.record(0);
    assert!(record.contains("unknown position"));
    assert_eq!(record.as_str(), "paniced at an unknown position");
}

#[test]
fn reporting_without_a_configured_facility_does_not_fault() {
    let loc = location("boot.rs", 1, 1);
    let mut sink = NullSink::new();
    report_fault(Some(&loc), &mut sink);
    report_fault(None, &mut sink);
}

#[test]
fn each_report_appends_exactly_one_record_in_order() {
    let mut sink = MemorySink::new();
    report_fault(None, &mut sink);
    let loc = location("lib.rs", 9, 30);
    report_fault(Some(&loc), &mut sink);
    assert_eq!(sink.len(), 2);
    assert_eq!(sink.record(0).as_str(), "paniced at an unknown position");
    assert_eq!(sink.record(1).as_str(), "paniced at \"lib.rs\", 9:30");
}

#[test]
fn records_render_decimal_edge_values_exactly() {
    let zero = location("a.rs", 0, 0);
    assert_eq!(format_fault_record(Some(&zero)).as_str(), "paniced at \"a.rs\", 0:0");
    let largest = location("b.rs", u32::MAX, 10);
    assert_eq!(format_fault_record(Some(&largest)).as_str(), "paniced at \"b.rs\", 4294967295:10");
}

#[test]
fn record_of_empty_file_name_still_names_line_and_column() {
    let loc = location("", 1, 2);
    assert_eq!(format_fault_record(Some(&loc)).as_str(), "paniced at \"\", 1:2");
}

#[test]
fn personality_stub_returns_with_no_effect() {
    eh_personality();
    eh_personality();
}

#[test]
fn emitting_directly_records_the_given_text() {
    let mut sink = MemorySink::new();
    sink.emit_error(String::from("first"));
    sink.emit_error(String::from("second"));
    assert_eq!(sink.len(), 2);
    assert_eq!(sink.record(0).as_str(), "first");
    assert_eq!(sink.record(1).as_str(), "second");
}
