use vstd::prelude::*;

use crate::destination::{resolve, sink_name, Destination, DEBUG_FILE_PATH};
use crate::session::SpoolError;

verus! {

/// Why a raw job failed.
#[derive(Clone, Debug, PartialEq, Eq)]
pub enum SendError {
    /// The debug file could not be created; the system's description.
    CreateFile(String),
    /// The debug file was not written in full; the system's description.
    WriteFile(String),
    /// A spooler stage failed.
    Spool(SpoolError),
    /// Printing to a device is not available on this platform.
    Unsupported,
}

/// What the host does with a job.
#[derive(Debug)]
pub enum JobPlan {
    /// Create or truncate the file at `path` and write `content` to it whole.
    SaveToFile { path: String, content: Vec<u8> },
    /// Run a spooler session on the named printer with `content` as its data.
    Spool { printer: String, content: Vec<u8> },
    /// Fail with this error and touch nothing.
    Reject(SendError),
}

/// Routes a raw job: the debug sink's name saves the bytes to the debug file
/// on every platform; any other name goes to the spooler where there is
/// one, and is refused as unsupported where there is none.
pub fn send_print_job(printer_name: String, content: Vec<u8>, spooler_available: bool) -> (r:
    JobPlan)
    ensures
        printer_name@ == sink_name() ==> (r matches JobPlan::SaveToFile { path, content: bytes }
            && path@ == DEBUG_FILE_PATH@ && bytes@ == content@),
        printer_name@ != sink_name() && spooler_available ==> (r matches JobPlan::Spool {
            printer,
            content: bytes,
        } && printer@ == printer_name@ && bytes@ == content@),
        printer_name@ != sink_name() && !spooler_available ==> r == JobPlan::Reject(
            SendError::Unsupported,
        ),
{
    match resolve(printer_name) {
        Destination::DebugSink => JobPlan::SaveToFile {
            path: String::from_str(DEBUG_FILE_PATH),
            content,
        },
        Destination::Printer(printer) => {
            if spooler_available {
                JobPlan::Spool { printer, content }
            } else {
                JobPlan::Reject(SendError::Unsupported)
            }
        },
    }
}

/// The result of a debug-file save, from the errors that creating and
/// writing the file reported, if any.
pub fn debug_file_result(create_error: Option<String>, write_error: Option<String>) -> (r: Result<
    (),
    SendError,
>)
    ensures
        create_error matches Some(e) ==> r == Err::<(), SendError>(SendError::CreateFile(e)),
        create_error is None ==> (write_error matches Some(e) ==> r == Err::<(), SendError>(
            SendError::WriteFile(e),
        )),
        create_error is None && write_error is None ==> r is Ok,
{
    match create_error {
        Some(e) => Err(SendError::CreateFile(e)),
        None => match write_error {
            Some(e) => Err(SendError::WriteFile(e)),
            None => Ok(()),
        },
    }
}

/// The result of a spooler session as the library reports it.
pub fn spool_result(r: Result<(), SpoolError>) -> (out: Result<(), SendError>)
    ensures
        r is Ok ==> out is Ok,
        r matches Err(e) ==> out == Err::<(), SendError>(SendError::Spool(e)),
{
    match r {
        Ok(()) => Ok(()),
        Err(e) => Err(SendError::Spool(e)),
    }
}

} // verus!
