use printers::{
    filter_jobs, get_default_printer, get_printer_by_name, join_with_commas, DeviceCaps, JobRecord,
    PlatformPrinterGetters, PlatformPrinterJobGetters, PrintError, Printer, PrinterJob,
    PrinterJobState, PrinterRecord, PrinterState,
};

fn job(id: u64, state: PrinterJobState) -> PrinterJob {
    PrinterJob {
        id,
        name: format!("job {}", id),
        state,
        printer_name: "p".to_string(),
        media_type: "RAW".to_string(),
        created_at: 1000,
        processed_at: Some(1000),
        completed_at: Some(1000),
    }
}

fn printer(name: &str, system_name: &str) -> Printer {
    Printer {
        name: name.to_string(),
        system_name: system_name.to_string(),
        driver_name: String::new(),
        uri: String::new(),
        port_name: String::new(),
        processor: String::new(),
        data_type: String::new(),
        description: String::new(),
        location: String::new(),
        is_default: false,
        is_shared: false,
        state: PrinterState::READY,
        state_reasons: vec![],
    }
}

#[test]
fn filter_keeps_active_jobs_in_order() {
    let jobs = vec![
        job(1, PrinterJobState::PENDING),
        job(2, PrinterJobState::COMPLETED),
        job(3, PrinterJobState::PAUSED),
        job(4, PrinterJobState::CANCELLED),
        job(5, PrinterJobState::PROCESSING),
        job(6, PrinterJobState::UNKNOWN),
    ];
    let ids: Vec<u64> = filter_jobs(jobs.clone(), true).iter().map(|j| j.id).collect();
    assert_eq!(ids, vec![1, 3, 5]);
    let all: Vec<u64> = filter_jobs(jobs, false).iter().map(|j| j.id).collect();
    assert_eq!(all, vec![1, 2, 3, 4, 5, 6]);
}

#[test]
fn filter_twice_is_filter_once() {
    let jobs = vec![
        job(1, PrinterJobState::COMPLETED),
        job(2, PrinterJobState::PROCESSING),
        job(3, PrinterJobState::PENDING),
    ];
    let once: Vec<u64> = filter_jobs(jobs.clone(), true).iter().map(|j| j.id).collect();
    let twice: Vec<u64> =
        filter_jobs(filter_jobs(jobs, true), true).iter().map(|j| j.id).collect();
    assert_eq!(once, twice);
    assert!(filter_jobs(vec![], true).is_empty());
}

#[test]
fn default_printer_is_found_by_display_name() {
    let list = vec![printer("A", "a"), printer("B", "b"), printer("B", "b2")];
    let found = get_default_printer(list.clone(), &"B".to_string()).unwrap();
    assert_eq!(found.system_name, "b");
    assert!(get_default_printer(list.clone(), &"b".to_string()).is_none());
    assert!(get_default_printer(vec![], &"B".to_string()).is_none());
}

#[test]
fn printer_is_found_by_either_name() {
    let list = vec![printer("A", "sys-a"), printer("B", "sys-b")];
    assert_eq!(get_printer_by_name(list.clone(), &"sys-b".to_string()).unwrap().name, "B");
    assert_eq!(get_printer_by_name(list.clone(), &"A".to_string()).unwrap().system_name, "sys-a");
    assert!(get_printer_by_name(list, &"C".to_string()).is_none());
}

#[test]
fn caps_margins_are_what_remains_of_the_page() {
    let caps = DeviceCaps::from_measurements(600, 600, 5100, 6600, 4800, 6300, 100, 120).unwrap();
    assert_eq!(caps.margin_left, 100);
    assert_eq!(caps.margin_top, 120);
    assert_eq!(caps.margin_right, 200);
    assert_eq!(caps.margin_bottom, 180);
    assert_eq!(caps.margin_right, caps.page_width - caps.print_table_width - caps.margin_left);
    assert_eq!(caps.margin_bottom, caps.page_height - caps.print_table_height - caps.margin_top);
    assert_eq!((caps.dpi_x, caps.dpi_y), (600, 600));
}

#[test]
fn caps_zero_margins_are_consistent() {
    let caps = DeviceCaps::from_measurements(300, 300, 1000, 800, 1000, 800, 0, 0).unwrap();
    assert_eq!((caps.margin_left, caps.margin_top, caps.margin_right, caps.margin_bottom), (0, 0, 0, 0));
}

#[test]
fn caps_negative_margin_is_invalid_input() {
    let r = DeviceCaps::from_measurements(300, 300, 1000, 1000, 1100, 900, 50, 50);
    assert_eq!(r, Err(PrintError::InvalidInput));
    let r = DeviceCaps::from_measurements(300, 300, 1000, 1000, 900, 900, -1, 50);
    assert_eq!(r, Err(PrintError::InvalidInput));
}

#[test]
fn caps_out_of_range_margin_is_invalid_input() {
    let r = DeviceCaps::from_measurements(1, 1, i32::MAX, 0, i32::MIN, 0, 0, 0);
    assert_eq!(r, Err(PrintError::InvalidInput));
}

fn record(status: u64, attributes: u32) -> PrinterRecord {
    PrinterRecord {
        name: "Office".to_string(),
        driver_name: "Driver X".to_string(),
        attributes,
        status,
        location: "2nd floor".to_string(),
        port_name: "USB001".to_string(),
        print_processor: "winprint".to_string(),
        comment: "shared laser".to_string(),
        data_type: "RAW".to_string(),
    }
}

#[test]
fn printer_record_converts_to_canonical_printer() {
    let p = Printer::from_platform_printer_getters(&record(0x400, 0x8 | 0x40), &"Office".to_string());
    assert_eq!(p.name, "Office");
    assert_eq!(p.system_name, "Office");
    assert_eq!(p.driver_name, "Driver X");
    assert_eq!(p.description, "shared laser");
    assert_eq!(p.processor, "winprint");
    assert_eq!(p.uri, "");
    assert!(p.is_default);
    assert!(p.is_shared);
    assert_eq!(p.state, PrinterState::PRINTING);
    assert_eq!(p.state_reasons, vec!["printing"]);
    let q = Printer::from_platform_printer_getters(&record(0x400 | 0x80, 0), &"Other".to_string());
    assert!(!q.is_default);
    assert!(!q.is_shared);
    assert_eq!(q.state_reasons, vec!["offline", "printing"]);
    assert_eq!(q.state, PrinterState::OFFLINE);
}

#[test]
fn printer_record_getters() {
    let r = record(0x4, 0x8);
    assert_eq!(r.get_name(), "Office");
    assert_eq!(r.get_system_name(), "Office");
    assert_eq!(r.get_marker_and_model(), "Driver X");
    assert!(r.get_is_shared());
    assert_eq!(r.get_uri(), "");
    assert_eq!(r.get_location(), "2nd floor");
    assert_eq!(r.get_state(), 4);
    assert_eq!(r.get_state_reasons(), vec!["pending_deletion"]);
    assert_eq!(r.get_port_name(), "USB001");
    assert_eq!(r.get_processor(), "winprint");
    assert_eq!(r.get_description(), "shared laser");
    assert_eq!(r.get_data_type(), "RAW");
}

#[test]
fn reasons_join_with_commas() {
    assert_eq!(join_with_commas(&vec![]), "");
    assert_eq!(join_with_commas(&vec!["a".to_string()]), "a");
    assert_eq!(join_with_commas(&vec!["a".to_string(), "bc".to_string(), "".to_string()]), "a,bc,");
}

#[test]
fn job_record_converts_with_aliased_times() {
    let rec = JobRecord {
        job_id: 12,
        document: "report.pdf".to_string(),
        status: 2048,
        printer_name: "Office".to_string(),
        data_type: "RAW".to_string(),
        submitted_at: 1_700_000_000_000,
    };
    let j = PrinterJob::from_platform_printer_job_getters(&rec);
    assert_eq!(j.id, 12);
    assert_eq!(j.name, "report.pdf");
    assert_eq!(j.state, PrinterJobState::PROCESSING);
    assert_eq!(j.printer_name, "Office");
    assert_eq!(j.media_type, "RAW");
    assert_eq!(j.created_at, 1_700_000_000_000);
    assert_eq!(j.processed_at, Some(1_700_000_000_000));
    assert_eq!(j.completed_at, Some(1_700_000_000_000));
    assert_eq!(rec.get_id(), 12);
    assert_eq!(rec.get_name(), "report.pdf");
    assert_eq!(rec.get_state(), 2048);
    assert_eq!(rec.get_printer(), "Office");
    assert_eq!(rec.get_media_type(), "RAW");
    assert_eq!(rec.get_created_at(), 1_700_000_000_000);
    assert_eq!(rec.get_processed_at(), Some(1_700_000_000_000));
    assert_eq!(rec.get_completed_at(), Some(1_700_000_000_000));
}
