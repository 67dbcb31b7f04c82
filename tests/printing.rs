use raw_print::{
    debug_file_result, debug_sink_name, decode_printer_names, get_printers, resolve,
    send_print_job, spool_result, Call, Destination, JobPlan, PrintSession, Reply, SendError,
    SpoolError, Step, DEBUG_FILE_PATH, DEBUG_SINK_NAME,
};

const SINK: &str = "GUARDAR EN ARCHIVO (DEBUG)";

fn ok() -> Reply {
    Reply { ok: true, code: 0 }
}

fn fail(code: u32) -> Reply {
    Reply { ok: false, code }
}

/// Drives a session through the replies, collecting every call it asks for.
fn drive(name: &str, replies: &[Reply]) -> (Vec<Call>, Result<(), SpoolError>) {
    let (mut session, mut step) = PrintSession::begin(name);
    let mut calls = Vec::new();
    let mut next = 0;
    loop {
        match step {
            Step::Perform(call) => {
                calls.push(call);
                let reply = replies.get(next).copied().unwrap_or(ok());
                next += 1;
                step = session.advance(reply);
            }
            Step::Finish(result) => {
                assert!(session.is_finished());
                return (calls, result);
            }
        }
    }
}

#[test]
fn sink_constants() {
    assert_eq!(DEBUG_SINK_NAME, SINK);
    assert_eq!(DEBUG_FILE_PATH, "ticket_debug.bin");
    assert_eq!(debug_sink_name(), SINK.to_string());
}

#[test]
fn list_without_printers_is_only_the_sink() {
    assert_eq!(get_printers(Vec::new()), vec![SINK.to_string()]);
}

#[test]
fn list_keeps_reported_order_and_ends_with_sink() {
    let installed = vec!["EPSON TM-T20".to_string(), "Microsoft Print to PDF".to_string()];
    let list = get_printers(installed);
    assert_eq!(
        list,
        vec![
            "EPSON TM-T20".to_string(),
            "Microsoft Print to PDF".to_string(),
            SINK.to_string()
        ]
    );
    assert_eq!(list.last().unwrap(), SINK);
}

#[test]
fn decode_skips_absent_and_invalid_names() {
    let epson: Vec<u16> = "EPSON".encode_utf16().collect();
    let emoji: Vec<u16> = "Caja 😀".encode_utf16().collect();
    let records = vec![Some(epson), None, Some(vec![0xD800, 0x0041]), Some(emoji), Some(Vec::new())];
    let names = decode_printer_names(&records);
    assert_eq!(names, vec!["EPSON".to_string(), "Caja 😀".to_string(), String::new()]);
}

#[test]
fn decode_of_no_records_is_empty() {
    assert!(decode_printer_names(&Vec::new()).is_empty());
}

#[test]
fn resolve_tells_sink_from_printer() {
    assert!(matches!(resolve(SINK.to_string()), Destination::DebugSink));
    match resolve("Nonexistent Printer".to_string()) {
        Destination::Printer(p) => assert_eq!(p, "Nonexistent Printer"),
        Destination::DebugSink => panic!("a printer name selected the sink"),
    }
    assert!(matches!(resolve("guardar en archivo (debug)".to_string()), Destination::Printer(_)));
}

#[test]
fn sink_job_saves_exact_bytes() {
    for spooler in [false, true] {
        match send_print_job(SINK.to_string(), vec![0x1B, 0x40, 0x48, 0x69], spooler) {
            JobPlan::SaveToFile { path, content } => {
                assert_eq!(path, "ticket_debug.bin");
                assert_eq!(content, vec![0x1B, 0x40, 0x48, 0x69]);
            }
            other => panic!("unexpected plan {:?}", other),
        }
    }
}

#[test]
fn sink_job_with_empty_content_saves_empty_file() {
    match send_print_job(SINK.to_string(), Vec::new(), false) {
        JobPlan::SaveToFile { path, content } => {
            assert_eq!(path, "ticket_debug.bin");
            assert!(content.is_empty());
        }
        other => panic!("unexpected plan {:?}", other),
    }
}

#[test]
fn second_sink_job_carries_only_its_own_bytes() {
    let first = send_print_job(SINK.to_string(), vec![1, 2, 3, 4, 5], false);
    let second = send_print_job(SINK.to_string(), vec![9], false);
    assert!(matches!(first, JobPlan::SaveToFile { .. }));
    match second {
        JobPlan::SaveToFile { content, .. } => assert_eq!(content, vec![9]),
        other => panic!("unexpected plan {:?}", other),
    }
}

#[test]
fn printer_job_without_spooler_is_unsupported() {
    match send_print_job("Nonexistent Printer".to_string(), vec![0x00], false) {
        JobPlan::Reject(e) => {
            assert_eq!(e, SendError::Unsupported);
            assert_eq!(e.message("Nonexistent Printer"), "Impresión real solo soportada en Windows");
        }
        other => panic!("unexpected plan {:?}", other),
    }
}

#[test]
fn printer_job_with_spooler_is_spooled() {
    match send_print_job("EPSON".to_string(), vec![0x1B, 0x40], true) {
        JobPlan::Spool { printer, content } => {
            assert_eq!(printer, "EPSON");
            assert_eq!(content, vec![0x1B, 0x40]);
        }
        other => panic!("unexpected plan {:?}", other),
    }
}

#[test]
fn session_opens_with_nul_terminated_wide_name() {
    let (session, step) = PrintSession::begin("EPSON");
    assert_eq!(step, Step::Perform(Call::OpenPrinter));
    assert!(!session.is_finished());
    let mut expected: Vec<u16> = "EPSON".encode_utf16().collect();
    expected.push(0);
    assert_eq!(session.wide_name(), &expected);
}

#[test]
fn session_accepts_one_trailing_nul() {
    let (session, step) = PrintSession::begin("EPSON\0");
    assert_eq!(step, Step::Perform(Call::OpenPrinter));
    assert_eq!(session.wide_name(), &vec![0x45, 0x50, 0x53, 0x4F, 0x4E, 0]);
}

#[test]
fn session_refuses_interior_nul() {
    let (session, step) = PrintSession::begin("EPS\0ON");
    assert_eq!(step, Step::Finish(Err(SpoolError::InvalidName)));
    assert!(session.is_finished());
}

#[test]
fn successful_job_releases_in_reverse_order() {
    let (calls, result) = drive("EPSON", &[]);
    assert_eq!(
        calls,
        vec![
            Call::OpenPrinter,
            Call::StartDocument,
            Call::StartPage,
            Call::WriteData,
            Call::EndPage,
            Call::EndDocument,
            Call::ClosePrinter
        ]
    );
    assert_eq!(result, Ok(()));
}

#[test]
fn failed_open_makes_no_other_call() {
    let (calls, result) = drive("Nonexistent Printer", &[fail(1801)]);
    assert_eq!(calls, vec![Call::OpenPrinter]);
    assert_eq!(result, Err(SpoolError::Open { code: 1801 }));
    let message = SendError::Spool(SpoolError::Open { code: 1801 }).message("Nonexistent Printer");
    assert_eq!(message, "No se pudo abrir la impresora 'Nonexistent Printer'. Error: 1801");
    assert!(message.contains("1801"));
}

#[test]
fn failed_document_closes_printer() {
    let (calls, result) = drive("EPSON", &[ok(), fail(5)]);
    assert_eq!(calls, vec![Call::OpenPrinter, Call::StartDocument, Call::ClosePrinter]);
    assert_eq!(result, Err(SpoolError::StartDocument { code: 5 }));
}

#[test]
fn failed_page_ends_document_then_closes() {
    let (calls, result) = drive("EPSON", &[ok(), ok(), fail(6)]);
    assert_eq!(
        calls,
        vec![
            Call::OpenPrinter,
            Call::StartDocument,
            Call::StartPage,
            Call::EndDocument,
            Call::ClosePrinter
        ]
    );
    assert_eq!(result, Err(SpoolError::StartPage { code: 6 }));
}

#[test]
fn failed_write_unwinds_everything() {
    let (calls, result) = drive("EPSON", &[ok(), ok(), ok(), fail(1722), fail(1), fail(2), fail(3)]);
    assert_eq!(
        calls,
        vec![
            Call::OpenPrinter,
            Call::StartDocument,
            Call::StartPage,
            Call::WriteData,
            Call::EndPage,
            Call::EndDocument,
            Call::ClosePrinter
        ]
    );
    assert_eq!(result, Err(SpoolError::Write { code: 1722 }));
}

#[test]
fn finished_session_repeats_its_result() {
    let (mut session, _) = PrintSession::begin("EPSON");
    assert_eq!(session.advance(fail(2)), Step::Finish(Err(SpoolError::Open { code: 2 })));
    assert_eq!(session.advance(ok()), Step::Finish(Err(SpoolError::Open { code: 2 })));
}

#[test]
fn messages_name_each_stage() {
    let p = "EPSON";
    assert_eq!(
        SendError::CreateFile("denied".to_string()).message(p),
        "No se pudo crear el archivo: denied"
    );
    assert_eq!(
        SendError::WriteFile("disk full".to_string()).message(p),
        "Error escribiendo archivo: disk full"
    );
    assert_eq!(
        SendError::Spool(SpoolError::InvalidName).message(p),
        "Nombre de impresora inválido"
    );
    assert_eq!(
        SendError::Spool(SpoolError::StartDocument { code: 0 }).message(p),
        "No se pudo iniciar el documento de impresión. Error: 0"
    );
    assert_eq!(
        SendError::Spool(SpoolError::StartPage { code: 4294967295 }).message(p),
        "No se pudo iniciar la página de impresión. Error: 4294967295"
    );
    assert_eq!(
        SendError::Spool(SpoolError::Write { code: 87 }).message(p),
        "Error al escribir en la impresora. Error: 87"
    );
}

#[test]
fn file_results_map_each_error() {
    assert_eq!(debug_file_result(None, None), Ok(()));
    assert_eq!(
        debug_file_result(Some("denied".to_string()), Some("ignored".to_string())),
        Err(SendError::CreateFile("denied".to_string()))
    );
    assert_eq!(
        debug_file_result(None, Some("short write".to_string())),
        Err(SendError::WriteFile("short write".to_string()))
    );
}

#[test]
fn spool_results_are_wrapped() {
    assert_eq!(spool_result(Ok(())), Ok(()));
    assert_eq!(
        spool_result(Err(SpoolError::Write { code: 3 })),
        Err(SendError::Spool(SpoolError::Write { code: 3 }))
    );
}
