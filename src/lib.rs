//! Printer listing and raw print-job routing for a point-of-sale desktop
//! shell: the decisions are verified here, the spooler and file calls are
//! made by the host around them.

pub mod destination;
pub mod job;
pub mod message;
pub mod printers;
pub mod session;
pub mod utf16;

pub use destination::{debug_sink_name, resolve, Destination, DEBUG_FILE_PATH, DEBUG_SINK_NAME};
pub use job::{debug_file_result, send_print_job, spool_result, JobPlan, SendError};
pub use printers::{decode_printer_names, get_printers};
pub use session::{Call, Phase, PrintSession, Reply, SpoolError, Step};
