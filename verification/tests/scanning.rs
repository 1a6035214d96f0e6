use memscan::dump::DumpConfig;
use memscan::maps::MemoryRegion;
use memscan::scan::{ScanError, ScanState};

const PLAIN: DumpConfig = DumpConfig { show_ascii: false, hide_zero_lines: false };

fn scanning(start: usize, end: usize) -> ScanState {
    ScanState::Scanning { pid: 7, region: MemoryRegion { start, end }, cursor: start }
}

fn addresses(mut state: ScanState, fail_at: Option<usize>) -> Vec<usize> {
    let mut seen = Vec::new();
    while let ScanState::Scanning { cursor, .. } = state {
        let bytes = if Some(seen.len()) == fail_at { None } else { Some([0u8; 16]) };
        seen.push(cursor);
        state = state.on_window(bytes, &PLAIN).0;
    }
    assert_eq!(state, ScanState::Done);
    seen
}

#[test]
fn scan_starts_by_resolving() {
    assert_eq!(ScanState::new(), ScanState::Start);
    assert_eq!(ScanState::new().begin(), ScanState::Resolving);
    assert_eq!(ScanState::Done.begin(), ScanState::Done);
}

#[test]
fn lookup_leads_to_locating() {
    assert_eq!(ScanState::Resolving.on_lookup(b"4242\n"), ScanState::Locating { pid: 4242 });
    assert_eq!(ScanState::Resolving.on_lookup(b"9 8\n"), ScanState::Locating { pid: 9 });
}

#[test]
fn unknown_name_aborts_without_output() {
    let state = ScanState::new().begin().on_lookup(b"");
    assert_eq!(state, ScanState::Aborted { error: ScanError::NotFound });
    let (next, line) = state.on_window(Some([1; 16]), &PLAIN);
    assert_eq!(next, state);
    assert_eq!(line, None);
    assert_eq!(state.on_table(Some(b"1000-2000 rw-p [heap]\n")), state);
}

#[test]
fn malformed_lookup_aborts() {
    assert_eq!(
        ScanState::Resolving.on_lookup(b"what\n"),
        ScanState::Aborted { error: ScanError::MalformedResult }
    );
}

#[test]
fn lookup_outside_resolving_changes_nothing() {
    assert_eq!(ScanState::Start.on_lookup(b"12\n"), ScanState::Start);
    assert_eq!(ScanState::Locating { pid: 3 }.on_lookup(b"12\n"), ScanState::Locating { pid: 3 });
}

#[test]
fn table_leads_to_first_window() {
    let table = b"1000-2000 r--p /bin/x\n3000-4000 rw-p 00000000 00:00 0 [heap]\n";
    assert_eq!(
        ScanState::Locating { pid: 5 }.on_table(Some(table)),
        ScanState::Scanning {
            pid: 5,
            region: MemoryRegion { start: 0x3000, end: 0x4000 },
            cursor: 0x3000
        }
    );
}

#[test]
fn unreadable_table_aborts() {
    assert_eq!(
        ScanState::Locating { pid: 5 }.on_table(None),
        ScanState::Aborted { error: ScanError::AccessDenied }
    );
}

#[test]
fn table_without_heap_aborts() {
    assert_eq!(
        ScanState::Locating { pid: 5 }.on_table(Some(b"1000-2000 r--p /bin/x\n")),
        ScanState::Aborted { error: ScanError::HeapNotFound }
    );
    assert_eq!(
        ScanState::Locating { pid: 5 }.on_table(Some(b"[heap]\n")),
        ScanState::Aborted { error: ScanError::MalformedEntry }
    );
}

#[test]
fn empty_region_is_done_at_once() {
    assert_eq!(
        ScanState::Locating { pid: 5 }.on_table(Some(b"2000-1000 rw-p [heap]\n")),
        ScanState::Done
    );
}

#[test]
fn windows_follow_each_other_by_sixteen() {
    assert_eq!(addresses(scanning(0x1000, 0x102f), None), vec![0x1000, 0x1010, 0x1020]);
}

#[test]
fn window_at_the_end_address_is_read() {
    assert_eq!(addresses(scanning(0x1000, 0x1030), None), vec![0x1000, 0x1010, 0x1020, 0x1030]);
    assert_eq!(addresses(scanning(0x1000, 0x1000), None), vec![0x1000]);
    assert_eq!(addresses(scanning(0x1000, 0x100f), None), vec![0x1000]);
    assert_eq!(addresses(scanning(0x1000, 0x1010), None), vec![0x1000, 0x1010]);
}

#[test]
fn scan_stops_short_of_address_overflow() {
    let start = usize::MAX - 0x2f;
    assert_eq!(addresses(scanning(start, usize::MAX), None), vec![start, start + 16, start + 32]);
}

#[test]
fn failed_window_does_not_halt_the_scan() {
    for k in 0..4 {
        assert_eq!(
            addresses(scanning(0x1000, 0x1030), Some(k)),
            vec![0x1000, 0x1010, 0x1020, 0x1030]
        );
    }
}

#[test]
fn failed_window_is_reported_and_passed() {
    let (next, line) = scanning(0x1000, 0x1030).on_window(None, &PLAIN);
    assert_eq!(line, Some("ERROR: Could not read data".to_string()));
    assert_eq!(
        next,
        ScanState::Scanning {
            pid: 7,
            region: MemoryRegion { start: 0x1000, end: 0x1030 },
            cursor: 0x1010
        }
    );
}

#[test]
fn read_window_is_rendered() {
    let (next, line) = scanning(0x1020, 0x1030).on_window(Some([0; 16]), &PLAIN);
    assert_eq!(
        line,
        Some("00001020 | 00 00 00 00 00 00 00 00 00 00 00 00 00 00 00 00 ".to_string())
    );
    assert_eq!(
        next,
        ScanState::Scanning {
            pid: 7,
            region: MemoryRegion { start: 0x1020, end: 0x1030 },
            cursor: 0x1030
        }
    );
    let hidden = DumpConfig { show_ascii: false, hide_zero_lines: true };
    assert_eq!(scanning(0x1020, 0x1030).on_window(Some([0; 16]), &hidden).1, None);
}
