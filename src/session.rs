use vstd::prelude::*;

use crate::utf16::{has_interior_nul, nul_terminated, to_wide_nul, utf16_of};

verus! {

/// A spooler call that the host makes on the session's behalf.
#[derive(Clone, Copy, Debug, PartialEq, Eq, Structural)]
pub enum Call {
    OpenPrinter,
    StartDocument,
    StartPage,
    WriteData,
    EndPage,
    EndDocument,
    ClosePrinter,
}

/// Why a raw job did not reach the printer; each spooler stage carries the
/// error code that the system reported for it.
#[derive(Clone, Copy, Debug, PartialEq, Eq, Structural)]
pub enum SpoolError {
    InvalidName,
    Open { code: u32 },
    StartDocument { code: u32 },
    StartPage { code: u32 },
    Write { code: u32 },
}

/// What the host does next: make a spooler call, or hand back the result.
#[derive(Clone, Copy, Debug, PartialEq, Eq)]
pub enum Step {
    Perform(Call),
    Finish(Result<(), SpoolError>),
}

/// How the last spooler call went: its success flag and, on failure, the
/// system's error code.
#[derive(Clone, Copy, Debug, PartialEq, Eq, Structural)]
pub struct Reply {
    pub ok: bool,
    pub code: u32,
}

/// Where a session stands.
#[derive(Clone, Copy, Debug, PartialEq, Eq, Structural)]
pub enum Phase {
    /// The call in flight acquires the next resource.
    Acquiring,
    /// Printer, document and page are held; the data write is in flight.
    Writing,
    /// The call in flight releases the innermost resource still held.
    Releasing,
    /// Everything is released and the result is known.
    Done,
}

/// One raw print job on a named printer.
pub struct PrintSession {
    wide_name: Vec<u16>,
    held: u8,
    phase: Phase,
    failure: Option<SpoolError>,
}

/// Abstract state of a session: the printer's name in UTF-16 with its
/// terminator, how many of printer, document and page are held, the phase,
/// and the failure to report once everything is released.
pub struct SessionState {
    pub wide_name: Seq<u16>,
    pub held: nat,
    pub phase: Phase,
    pub failure: Option<SpoolError>,
}

impl View for PrintSession {
    type V = SessionState;

    closed spec fn view(&self) -> SessionState {
        SessionState {
            wide_name: self.wide_name@,
            held: self.held as nat,
            phase: self.phase,
            failure: self.failure,
        }
    }
}

/// The call that acquires the next resource when `held` are held.
pub open spec fn acquire_call(held: nat) -> Call {
    if held == 0 {
        Call::OpenPrinter
    } else if held == 1 {
        Call::StartDocument
    } else {
        Call::StartPage
    }
}

/// The call that releases the innermost of `held` resources.
pub open spec fn release_call(held: nat) -> Call {
    if held == 3 {
        Call::EndPage
    } else if held == 2 {
        Call::EndDocument
    } else {
        Call::ClosePrinter
    }
}

/// The error for a failed acquisition when `held` resources were held.
pub open spec fn stage_error(held: nat, code: u32) -> SpoolError {
    if held == 0 {
        SpoolError::Open { code }
    } else if held == 1 {
        SpoolError::StartDocument { code }
    } else {
        SpoolError::StartPage { code }
    }
}

/// The result reported for a recorded failure, or its absence.
pub open spec fn outcome(failure: Option<SpoolError>) -> Result<(), SpoolError> {
    match failure {
        Some(e) => Err(e),
        None => Ok(()),
    }
}

/// Unwinding with `held` resources still held: release the innermost one,
/// or finish once none is left.
pub open spec fn unwind(s: SessionState, held: nat, failure: Option<SpoolError>) -> (
    SessionState,
    Step,
) {
    if held == 0 {
        (SessionState { held: 0, phase: Phase::Done, failure, ..s }, Step::Finish(outcome(failure)))
    } else {
        (
            SessionState { held, phase: Phase::Releasing, failure, ..s },
            Step::Perform(release_call(held)),
        )
    }
}

/// The session's next state and step once the call in flight has replied.
pub open spec fn next(s: SessionState, reply: Reply) -> (SessionState, Step) {
    match s.phase {
        Phase::Acquiring => {
            if !reply.ok {
                unwind(s, s.held, Some(stage_error(s.held, reply.code)))
            } else if s.held + 1 == 3 {
                (SessionState { held: 3, phase: Phase::Writing, ..s }, Step::Perform(Call::WriteData))
            } else {
                (
                    SessionState { held: s.held + 1, ..s },
                    Step::Perform(acquire_call(s.held + 1)),
                )
            }
        },
        Phase::Writing => unwind(
            s,
            3,
            if reply.ok {
                None
            } else {
                Some(SpoolError::Write { code: reply.code })
            },
        ),
        Phase::Releasing => unwind(s, (s.held - 1) as nat, s.failure),
        Phase::Done => (s, Step::Finish(outcome(s.failure))),
    }
}

impl SessionState {
    /// Resources are counted from 0 to 3; a write needs all three held, and
    /// a finished session holds none.
    pub open spec fn wf(self) -> bool {
        &&& self.held <= 3
        &&& self.phase is Acquiring ==> self.held < 3 && self.failure is None
        &&& self.phase is Writing ==> self.held == 3 && self.failure is None
        &&& self.phase is Releasing ==> 1 <= self.held
        &&& self.phase is Done ==> self.held == 0
    }
}

/// The spooler calls that a session in state `s` makes as `replies` answer
/// them in turn, up to its finish.
pub open spec fn calls_from(s: SessionState, replies: Seq<Reply>) -> Seq<Call>
    decreases replies.len(),
{
    if replies.len() == 0 {
        Seq::empty()
    } else {
        let (t, step) = next(s, replies[0]);
        match step {
            Step::Perform(c) => seq![c] + calls_from(t, replies.drop_first()),
            Step::Finish(_) => Seq::empty(),
        }
    }
}

/// The result that a session in state `s` hands back once `replies` have
/// answered its calls, if it has finished by then.
pub open spec fn result_after(s: SessionState, replies: Seq<Reply>) -> Option<Result<(), SpoolError>>
    decreases replies.len(),
{
    if replies.len() == 0 {
        if s.phase is Done {
            Some(outcome(s.failure))
        } else {
            None
        }
    } else {
        let (t, step) = next(s, replies[0]);
        match step {
            Step::Perform(_) => result_after(t, replies.drop_first()),
            Step::Finish(r) => Some(r),
        }
    }
}

/// A session that is about to open its printer.
pub open spec fn is_opening(s: SessionState) -> bool {
    s.phase is Acquiring && s.held == 0 && s.failure is None
}

/// How many of printer, document and page the replies let a job acquire.
pub open spec fn acquired(replies: Seq<Reply>) -> nat {
    if !replies[0].ok {
        0
    } else if !replies[1].ok {
        1
    } else if !replies[2].ok {
        2
    } else {
        3
    }
}

/// The acquiring calls, outermost first.
pub open spec fn acquisitions() -> Seq<Call> {
    seq![Call::OpenPrinter, Call::StartDocument, Call::StartPage]
}

/// The releasing calls, innermost first.
pub open spec fn releases() -> Seq<Call> {
    seq![Call::EndPage, Call::EndDocument, Call::ClosePrinter]
}

/// The calls of a job that acquires `n` resources: every acquisition
/// attempted, the write once all three are held, and then the release of
/// exactly what was acquired, in reverse order.
pub open spec fn job_calls(n: nat) -> Seq<Call> {
    if n < 3 {
        acquisitions().take(n + 1 as int) + releases().skip(3 - n as int)
    } else {
        acquisitions() + seq![Call::WriteData] + releases()
    }
}

/// The result of a job that acquires `n` resources, given the replies.
pub open spec fn job_result(replies: Seq<Reply>, n: nat) -> Result<(), SpoolError> {
    if n < 3 {
        Err(stage_error(n, replies[n as int].code))
    } else if replies[3].ok {
        Ok(())
    } else {
        Err(SpoolError::Write { code: replies[3].code })
    }
}

/// Every job releases exactly the resources it acquired, innermost first,
/// on success and on every failure, and only then reports its result: the
/// open call, followed by the calls made as the replies come in, are
/// `job_calls` of the number acquired, and the result names the failing
/// stage with its code.
pub proof fn lemma_release_mirrors_acquisition(s: SessionState, replies: Seq<Reply>)
    requires
        is_opening(s),
        replies.len() >= 7,
    ensures
        seq![Call::OpenPrinter] + calls_from(s, replies) == job_calls(acquired(replies)),
        result_after(s, replies) == Some(job_result(replies, acquired(replies))),
{
    reveal_with_fuel(calls_from, 8);
    reveal_with_fuel(result_after, 8);
    assert(seq![Call::OpenPrinter] + calls_from(s, replies) =~= job_calls(acquired(replies)));
}

/// When the printer cannot be opened, the session makes no other spooler
/// call and reports the open stage with the system's code.
pub proof fn lemma_failed_open_ends_job(s: SessionState, code: u32, replies: Seq<Reply>)
    requires
        is_opening(s),
    ensures
        calls_from(s, seq![Reply { ok: false, code }] + replies) == Seq::<Call>::empty(),
        result_after(s, seq![Reply { ok: false, code }] + replies) == Some(
            Err::<(), SpoolError>(SpoolError::Open { code }),
        ),
{
    reveal_with_fuel(calls_from, 2);
    reveal_with_fuel(result_after, 2);
}

impl PrintSession {
    /// Starts a job on the named printer: a name that cannot be handed to
    /// the spooler finishes at once, any other opens the printer first.
    pub fn begin(printer_name: &str) -> (r: (PrintSession, Step))
        ensures
            r.0@.wf(),
            has_interior_nul(printer_name@) ==> r.0@.phase is Done && r.0@.failure == Some(
                SpoolError::InvalidName,
            ) && r.1 == Step::Finish(Err(SpoolError::InvalidName)),
            !has_interior_nul(printer_name@) ==> r.0@.phase is Acquiring && r.0@.held == 0
                && r.0@.wide_name == nul_terminated(utf16_of(printer_name@)) && r.1
                == Step::Perform(Call::OpenPrinter),
    {
        match to_wide_nul(printer_name) {
            Some(wide_name) => (
                PrintSession { wide_name, held: 0, phase: Phase::Acquiring, failure: None },
                Step::Perform(Call::OpenPrinter),
            ),
            None => (
                PrintSession {
                    wide_name: Vec::new(),
                    held: 0,
                    phase: Phase::Done,
                    failure: Some(SpoolError::InvalidName),
                },
                Step::Finish(Err(SpoolError::InvalidName)),
            ),
        }
    }

    /// The printer's name in UTF-16, nul-terminated, for the open call.
    pub fn wide_name(&self) -> (r: &Vec<u16>)
        ensures
            r@ == self@.wide_name,
    {
        &self.wide_name
    }

    /// Whether the session has handed back its result.
    pub fn is_finished(&self) -> (r: bool)
        ensures
            r == (self@.phase is Done),
    {
        matches!(self.phase, Phase::Done)
    }

    /// Takes the reply to the call in flight and says what to do next.
    pub fn advance(&mut self, reply: Reply) -> (r: Step)
        requires
            old(self)@.wf(),
        ensures
            final(self)@.wf(),
            (final(self)@, r) == next(old(self)@, reply),
    {
        match self.phase {
            Phase::Acquiring => {
                if !reply.ok {
                    let e = if self.held == 0 {
                        SpoolError::Open { code: reply.code }
                    } else if self.held == 1 {
                        SpoolError::StartDocument { code: reply.code }
                    } else {
                        SpoolError::StartPage { code: reply.code }
                    };
                    self.failure = Some(e);
                    self.unwind()
                } else if self.held == 2 {
                    self.held = 3;
                    self.phase = Phase::Writing;
                    Step::Perform(Call::WriteData)
                } else {
                    self.held = self.held + 1;
                    Step::Perform(
                        if self.held == 1 {
                            Call::StartDocument
                        } else {
                            Call::StartPage
                        },
                    )
                }
            },
            Phase::Writing => {
                if !reply.ok {
                    self.failure = Some(SpoolError::Write { code: reply.code });
                }
                self.unwind()
            },
            Phase::Releasing => {
                self.held = self.held - 1;
                self.unwind()
            },
            Phase::Done => Step::Finish(self.result()),
        }
    }

    fn result(&self) -> (r: Result<(), SpoolError>)
        ensures
            r == outcome(self@.failure),
    {
        match self.failure {
            Some(e) => Err(e),
            None => Ok(()),
        }
    }

    fn unwind(&mut self) -> (r: Step)
        requires
            old(self).held <= 3,
        ensures
            (final(self)@, r) == unwind(old(self)@, old(self)@.held, old(self)@.failure),
    {
        if self.held == 0 {
            self.phase = Phase::Done;
            Step::Finish(self.result())
        } else {
            self.phase = Phase::Releasing;
            Step::Perform(
                if self.held == 3 {
                    Call::EndPage
                } else if self.held == 2 {
                    Call::EndDocument
                } else {
                    Call::ClosePrinter
                },
            )
        }
    }
}

} // verus!
