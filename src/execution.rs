//! The decisions of one task's unit of work, and the collection of the
//! units' results in pairing order. The caller runs the tools, one unit per
//! task and all at once, and reports what each run gave.
use vstd::prelude::*;
use crate::error::{is_tool_error, ProgramError};
use crate::pairing::names;
use crate::task::{mux_program, sync_args_spec, sync_program, Invocation, MuxTask};

verus! {

/// The tool a unit is waiting on.
#[derive(Clone, Copy, Debug, PartialEq, Eq, Structural)]
pub enum Phase {
    Sync,
    Mux,
}

/// How a tool run ended: its exit code, if it had one, and what it wrote to
/// standard output.
pub struct ExitReport {
    pub code: Option<i32>,
    pub stdout: Vec<u8>,
}

/// What a unit does next: start a tool, or end with its result.
pub enum Step {
    Run(Phase, Invocation),
    Finish(Result<Vec<u8>, ProgramError>),
}

/// `s` starts the synchronisation tool of `task`.
pub open spec fn runs_sync(s: Step, task: MuxTask) -> bool {
    match s {
        Step::Run(Phase::Sync, inv) => inv.program@ == sync_program() && names(inv.args@)
            == sync_args_spec(task.video@, task.sub@),
        _ => false,
    }
}

/// `s` starts the multiplexing tool of `task`.
pub open spec fn runs_mux(s: Step, task: MuxTask) -> bool {
    match s {
        Step::Run(Phase::Mux, inv) => inv.program@ == mux_program() && names(inv.args@)
            == task.mux_args_view(),
        _ => false,
    }
}

/// `s` ends the unit with the failure of tool `program`, which exited with
/// `code`.
pub open spec fn fails_with_tool_error(s: Step, program: Seq<char>, code: Option<i32>) -> bool {
    match s {
        Step::Finish(Err(e)) => is_tool_error(e, program, code),
        _ => false,
    }
}

/// A run succeeded when the tool exited with code 0.
pub open spec fn exited_ok(report: ExitReport) -> bool {
    report.code == Some(0i32)
}

/// The first step of a task's unit: synchronise first when that is asked
/// for, else multiplex.
pub fn start(task: &MuxTask, sync: bool) -> (r: Step)
    ensures
        sync ==> runs_sync(r, *task),
        !sync ==> runs_mux(r, *task),
{
    if sync {
        Step::Run(Phase::Sync, task.sync_invocation())
    } else {
        Step::Run(Phase::Mux, task.mux_invocation())
    }
}

/// The step after the tool of `phase` ended with `outcome`. A tool that could
/// not be started, or that exited unsuccessfully, ends the unit with that
/// failure; a successful synchronisation is followed by the multiplexing; a
/// successful multiplexing ends the unit with its standard output.
pub fn advance(task: &MuxTask, phase: Phase, outcome: Result<ExitReport, ProgramError>) -> (r: Step)
    ensures
        outcome is Err ==> r == Step::Finish(Err(outcome->Err_0)),
        outcome is Ok && !exited_ok(outcome->Ok_0) ==> fails_with_tool_error(
            r,
            if phase == Phase::Sync {
                sync_program()
            } else {
                mux_program()
            },
            outcome->Ok_0.code,
        ),
        outcome is Ok && exited_ok(outcome->Ok_0) && phase == Phase::Sync ==> runs_mux(r, *task),
        outcome is Ok && exited_ok(outcome->Ok_0) && phase == Phase::Mux ==> r == Step::Finish(
            Ok(outcome->Ok_0.stdout),
        ),
{
    match outcome {
        Err(e) => Step::Finish(Err(e)),
        Ok(report) => {
            match report.code {
                Some(0i32) => {
                    match phase {
                        Phase::Sync => Step::Run(Phase::Mux, task.mux_invocation()),
                        Phase::Mux => Step::Finish(Ok(report.stdout)),
                    }
                },
                _ => {
                    let program = match phase {
                        Phase::Sync => crate::task::sync_program_name(),
                        Phase::Mux => crate::task::mux_program_name(),
                    };
                    Step::Finish(Err(ProgramError::ToolError { program, code: report.code }))
                },
            }
        },
    }
}

/// The results of a batch's units, one slot per task in pairing order, each
/// filled when its unit ends, in whatever order the units end.
pub struct ResultSlots {
    slots: Vec<Option<Result<Vec<u8>, ProgramError>>>,
}

impl View for ResultSlots {
    type V = Seq<Option<Result<Vec<u8>, ProgramError>>>;

    closed spec fn view(&self) -> Self::V {
        self.slots@
    }
}

impl ResultSlots {
    /// `n` empty slots.
    pub fn new(n: usize) -> (r: ResultSlots)
        ensures
            r@.len() == n,
            forall|i: int| 0 <= i < n ==> #[trigger] r@[i] is None,
    {
        let mut slots: Vec<Option<Result<Vec<u8>, ProgramError>>> = Vec::new();
        let mut i: usize = 0;
        while i < n
            invariant
                i <= n,
                slots@.len() == i,
                forall|k: int| 0 <= k < i ==> #[trigger] slots@[k] is None,
            decreases n - i,
        {
            slots.push(None);
            i = i + 1;
        }
        ResultSlots { slots }
    }

    /// The number of slots.
    pub fn len(&self) -> (r: usize)
        ensures
            r == self@.len(),
    {
        self.slots.len()
    }

    /// Records the result of unit `i`; every other slot is left as it was.
    pub fn fill(&mut self, i: usize, result: Result<Vec<u8>, ProgramError>)
        requires
            i < old(self)@.len(),
        ensures
            final(self)@ == old(self)@.update(i as int, Some(result)),
    {
        self.slots.set(i, Some(result));
    }

    /// Whether every unit has reported.
    pub fn is_complete(&self) -> (r: bool)
        ensures
            r == forall|i: int| 0 <= i < self@.len() ==> #[trigger] self@[i] is Some,
    {
        let n = self.slots.len();
        let mut i: usize = 0;
        while i < n
            invariant
                n == self@.len(),
                i <= n,
                forall|k: int| 0 <= k < i ==> #[trigger] self@[k] is Some,
            decreases n - i,
        {
            if self.slots[i].is_none() {
                return false;
            }
            i = i + 1;
        }
        true
    }

    /// The results, in pairing order, once every unit has reported.
    pub fn into_results(self) -> (r: Vec<Result<Vec<u8>, ProgramError>>)
        requires
            forall|i: int| 0 <= i < self@.len() ==> #[trigger] self@[i] is Some,
        ensures
            r@.len() == self@.len(),
            forall|i: int| 0 <= i < r@.len() ==> Some(#[trigger] r@[i]) == self@[i],
    {
        let ghost all = self@;
        let mut slots = self.slots;
        let mut out: Vec<Result<Vec<u8>, ProgramError>> = Vec::new();
        let n = slots.len();
        let mut i: usize = 0;
        while i < n
            invariant
                n == all.len(),
                forall|k: int| 0 <= k < all.len() ==> #[trigger] all[k] is Some,
                i <= n,
                out@.len() == i,
                slots@ == all.skip(i as int),
                forall|k: int| 0 <= k < i ==> Some(#[trigger] out@[k]) == all[k],
            decreases n - i,
        {
            let x = slots.remove(0);
            assert(x == all[i as int]);
            match x {
                Some(res) => out.push(res),
                None => {},
            }
            assert(slots@ =~= all.skip(i + 1));
            i = i + 1;
        }
        out
    }
}

} // verus!
