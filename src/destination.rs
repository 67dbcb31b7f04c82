use vstd::prelude::*;

verus! {

/// Name of the virtual printer that saves a job to a local file.
pub const DEBUG_SINK_NAME: &'static str = "GUARDAR EN ARCHIVO (DEBUG)";

/// File, relative to the working directory, that receives debug-sink jobs.
pub const DEBUG_FILE_PATH: &'static str = "ticket_debug.bin";

/// The debug sink's name as text.
pub open spec fn sink_name() -> Seq<char> {
    DEBUG_SINK_NAME@
}

/// Where a job goes: the local debug file, or a physical printer by name.
pub enum Destination {
    DebugSink,
    Printer(String),
}

/// The destination that a printer name selects.
pub open spec fn destination_of(name: Seq<char>) -> Option<Seq<char>> {
    if name == sink_name() {
        None
    } else {
        Some(name)
    }
}

/// The debug sink's name as an owned string.
pub fn debug_sink_name() -> (r: String)
    ensures
        r@ == sink_name(),
{
    String::from_str(DEBUG_SINK_NAME)
}

/// Resolves a printer name once: the debug sink's name selects the file,
/// every other name a printer of that name.
pub fn resolve(name: String) -> (r: Destination)
    ensures
        r is DebugSink <==> name@ == sink_name(),
        r matches Destination::Printer(p) ==> p@ == name@,
{
    let sink = debug_sink_name();
    if name == sink {
        Destination::DebugSink
    } else {
        Destination::Printer(name)
    }
}

} // verus!
