//! A spooler session: the calls an operation makes, in order, each judged by
//! its outcome; the resources that succeeded calls acquired are released,
//! last first, whether the operation succeeds or stops at a failed call.
//!
//! The session only decides. Whoever drives it performs each call it asks
//! for and hands back the outcome.

use vstd::prelude::*;

use crate::error::{ErrorView, PrinterError, error_option_view, unit_result_view};

verus! {

/// Returned by a size query whose buffer was too small, which is how such a query is meant to end.
pub const ERROR_INSUFFICIENT_BUFFER: u32 = 122;

/// Returned where what was asked for does not exist, such as a default printer where none is set.
pub const ERROR_FILE_NOT_FOUND: u32 = 2;

/// `PRINTER_ACCESS_ADMINISTER`
pub const PRINTER_ACCESS_ADMINISTER: u32 = 0x4;

/// `PRINTER_ACCESS_USE`
pub const PRINTER_ACCESS_USE: u32 = 0x8;

/// The access with which a printer is opened.
#[derive(Clone, Copy, Debug, PartialEq, Eq, Structural)]
pub enum PrinterAccess {
    /// Opened without a `PRINTER_DEFAULTS` structure.
    Default,
    /// `PRINTER_ACCESS_USE`
    Use,
    /// `PRINTER_ACCESS_ADMINISTER | PRINTER_ACCESS_USE`
    AdministerAndUse,
}

/// The access mask that goes into `PRINTER_DEFAULTS`, or `None` where no defaults are passed.
pub open spec fn access_mask(access: PrinterAccess) -> Option<u32> {
    match access {
        PrinterAccess::Default => None,
        PrinterAccess::Use => Some(PRINTER_ACCESS_USE),
        PrinterAccess::AdministerAndUse => Some(PRINTER_ACCESS_ADMINISTER | PRINTER_ACCESS_USE),
    }
}

impl PrinterAccess {
    /// The access mask to request, or `None` where the printer is opened without defaults.
    pub fn desired_access(self) -> (res: Option<u32>)
        ensures
            res == access_mask(self),
    {
        match self {
            PrinterAccess::Default => None,
            PrinterAccess::Use => Some(PRINTER_ACCESS_USE),
            PrinterAccess::AdministerAndUse => Some(PRINTER_ACCESS_ADMINISTER | PRINTER_ACCESS_USE),
        }
    }
}

/// A call that the driver of a session performs.
#[derive(Clone, Copy, Debug, PartialEq, Eq, Structural)]
pub enum Call {
    /// `EnumPrintersW` (local and connected printers, level 2) with no buffer: asks the size.
    EnumPrintersQuery,
    /// `EnumPrintersW` into a buffer of the size asked.
    EnumPrintersFill,
    /// `GetDefaultPrinterW` with no buffer: asks the length.
    DefaultPrinterQuery,
    /// `GetDefaultPrinterW` into a buffer of the length asked.
    DefaultPrinterFill,
    /// `SetDefaultPrinterW` with the printer's name.
    SetDefaultPrinter,
    /// `OpenPrinterW` with the printer's name.
    OpenPrinter(PrinterAccess),
    /// `ClosePrinter` on the handle that was opened.
    ClosePrinter,
    /// `GetPrinterW` level 2 with no buffer: asks the size.
    PrinterInfo2Query,
    /// `GetPrinterW` level 2 into a buffer of the size asked.
    PrinterInfo2Fill,
    /// `DeleteFormW` with the paper's name.
    DeleteForm,
    /// `AddFormW` level 1 with the paper's form.
    AddForm,
    /// `DocumentPropertiesW` with no buffers: asks the size of the device mode.
    DevModeSize,
    /// Allocates task memory for the device mode: its size and 100 bytes more.
    AllocDevMode,
    /// `DocumentPropertiesW` with `DM_OUT_BUFFER`: reads the device mode.
    ReadDevMode,
    /// Selects the paper's form in the device mode, then `DocumentPropertiesW`
    /// with `DM_IN_BUFFER | DM_OUT_BUFFER`: writes it back.
    WriteDevMode,
    /// Frees the device mode's memory.
    FreeDevMode,
    /// `GetPrinterW` level 9 with no buffer: asks the size.
    PrinterInfo9Query,
    /// Allocates task memory of the size asked for level 9.
    AllocPrinterInfo9,
    /// `GetPrinterW` level 9 into that memory.
    PrinterInfo9Fill,
    /// Points level 9 at the device mode, then `SetPrinterW` level 9.
    SetPrinterInfo9,
    /// Frees the level 9 memory.
    FreePrinterInfo9,
    /// `SendMessageTimeoutW` of `WM_SETTINGCHANGE` to all windows.
    BroadcastSettingChange,
    /// `StartDocPrinterW` level 1, a RAW document.
    StartDoc,
    /// `StartPagePrinter`
    StartPage,
    /// `WritePrinter` with the bytes to print.
    WritePrinter,
    /// `EndPagePrinter`
    EndPage,
    /// `EndDocPrinter`
    EndDoc,
}

/// What a call reports back.
#[derive(Clone, Copy, Debug, PartialEq, Eq, Structural)]
pub struct Outcome {
    /// The value the call returned: the `BOOL` or `INT` result, or 1 for an
    /// allocation that gave memory and 0 for one that did not.
    pub ret: i64,
    /// The `DWORD` the call wrote through its out-parameter: bytes or characters
    /// needed, bytes written; for `OpenPrinterW`, 1 where the handle is non-null.
    pub out: u32,
    /// The thread's last error code, read right after the call.
    pub last_error: u32,
}

/// The error that a size query beyond its limit gives.
#[derive(Clone, Copy, Debug, PartialEq, Eq, Structural)]
pub enum Oversize {
    /// `MemoryAllocFailed`
    OutOfMemory,
    /// An invalid parameter: the default printer's name is too long.
    NameTooLong,
}

/// How the outcome of a call is judged.
#[derive(Clone, Copy, Debug, PartialEq, Eq, Structural)]
pub enum Check {
    /// Passes where the call returned non-zero.
    Succeeded,
    /// A size query: fails where the call returned zero with an error other than
    /// `ERROR_INSUFFICIENT_BUFFER`, then where the size exceeds `limit`.
    SizeQuery { limit: u32, too_large: Oversize },
    /// A size query of something that may not exist: where the call returned
    /// zero with `ERROR_FILE_NOT_FOUND`, the operation ends there, successfully,
    /// with nothing to read; otherwise judged as `SizeQuery`.
    SizeQueryUnlessAbsent { limit: u32, too_large: Oversize },
    /// Passes where the call returned a non-negative value.
    NonNegative,
    /// Always passes.
    Ignored,
    /// Passes where the size written is not zero.
    NeededNonZero,
    /// Passes where memory was allocated; otherwise `MemoryAllocFailed`.
    Allocated,
    /// Passes where the call returned non-zero and the handle is non-null.
    Opened,
    /// Passes where the call returned non-zero and wrote `expected` bytes.
    WroteAll { expected: u32 },
}

/// One call of an operation: how it is judged, the name its failure reports,
/// and the call that undoes what it acquired, if it acquires anything.
#[derive(Clone, Copy, Debug)]
pub struct Stage {
    pub call: Call,
    pub check: Check,
    pub func: &'static str,
    pub release: Option<Call>,
}

pub open spec fn oversize_error(o: Oversize) -> ErrorView {
    match o {
        Oversize::OutOfMemory => ErrorView::MemoryAllocFailed,
        Oversize::NameTooLong => ErrorView::InvalidParam("默认打印机名称过长"@),
    }
}

/// Whether a stage's outcome ends the operation early, successfully: what it
/// asked for does not exist.
pub open spec fn ends_early(stage: Stage, o: Outcome) -> bool {
    stage.check is SizeQueryUnlessAbsent && o.ret == 0 && o.last_error == ERROR_FILE_NOT_FOUND
}

/// The failure that a stage's outcome gives, or `None` where it gives none.
pub open spec fn verdict(stage: Stage, o: Outcome) -> Option<ErrorView> {
    let api_failure = Some(ErrorView::WinApiError { func: stage.func@, code: o.last_error });
    match stage.check {
        Check::Succeeded => if o.ret != 0 {
            None
        } else {
            api_failure
        },
        Check::SizeQuery { limit, too_large } => if o.ret == 0 && o.last_error
            != ERROR_INSUFFICIENT_BUFFER {
            api_failure
        } else if o.out > limit {
            Some(oversize_error(too_large))
        } else {
            None
        },
        Check::SizeQueryUnlessAbsent { limit, too_large } => if o.ret == 0 && o.last_error
            == ERROR_FILE_NOT_FOUND {
            None
        } else if o.ret == 0 && o.last_error != ERROR_INSUFFICIENT_BUFFER {
            api_failure
        } else if o.out > limit {
            Some(oversize_error(too_large))
        } else {
            None
        },
        Check::NonNegative => if o.ret >= 0 {
            None
        } else {
            api_failure
        },
        Check::Ignored => None,
        Check::NeededNonZero => if o.out != 0 {
            None
        } else {
            api_failure
        },
        Check::Allocated => if o.ret != 0 {
            None
        } else {
            Some(ErrorView::MemoryAllocFailed)
        },
        Check::Opened => if o.ret != 0 && o.out != 0 {
            None
        } else {
            api_failure
        },
        Check::WroteAll { expected } => if o.ret != 0 && o.out == expected {
            None
        } else {
            api_failure
        },
    }
}

fn oversize_failure(o: Oversize) -> (res: PrinterError)
    ensures
        res@ == oversize_error(o),
{
    match o {
        Oversize::OutOfMemory => PrinterError::MemoryAllocFailed,
        Oversize::NameTooLong => PrinterError::InvalidParam(String::from_str("默认打印机名称过长")),
    }
}

/// Judges the outcome of a stage's call.
pub fn judge(stage: &Stage, o: &Outcome) -> (res: Option<PrinterError>)
    ensures
        error_option_view(res) == verdict(*stage, *o),
{
    let api_failure = PrinterError::WinApiError { func: stage.func, code: o.last_error };
    match stage.check {
        Check::Succeeded => if o.ret != 0 {
            None
        } else {
            Some(api_failure)
        },
        Check::SizeQuery { limit, too_large } => if o.ret == 0 && o.last_error
            != ERROR_INSUFFICIENT_BUFFER {
            Some(api_failure)
        } else if o.out > limit {
            Some(oversize_failure(too_large))
        } else {
            None
        },
        Check::SizeQueryUnlessAbsent { limit, too_large } => if o.ret == 0 && o.last_error
            == ERROR_FILE_NOT_FOUND {
            None
        } else if o.ret == 0 && o.last_error != ERROR_INSUFFICIENT_BUFFER {
            Some(api_failure)
        } else if o.out > limit {
            Some(oversize_failure(too_large))
        } else {
            None
        },
        Check::NonNegative => if o.ret >= 0 {
            None
        } else {
            Some(api_failure)
        },
        Check::Ignored => None,
        Check::NeededNonZero => if o.out != 0 {
            None
        } else {
            Some(api_failure)
        },
        Check::Allocated => if o.ret != 0 {
            None
        } else {
            Some(PrinterError::MemoryAllocFailed)
        },
        Check::Opened => if o.ret != 0 && o.out != 0 {
            None
        } else {
            Some(api_failure)
        },
        Check::WroteAll { expected } => if o.ret != 0 && o.out == expected {
            None
        } else {
            Some(api_failure)
        },
    }
}

/// Whether a stage's outcome ends the operation early, successfully.
pub fn stops_early(stage: &Stage, o: &Outcome) -> (res: bool)
    ensures
        res == ends_early(*stage, *o),
{
    match stage.check {
        Check::SizeQueryUnlessAbsent { .. } => o.ret == 0 && o.last_error == ERROR_FILE_NOT_FOUND,
        _ => false,
    }
}

/// Where a session stands: going forward through its stages, or releasing
/// what it holds, after all stages passed (`None`) or after the stage at
/// `next` failed or ended the operation early, with the outcome kept here.
#[derive(Clone, Copy, Debug, PartialEq, Eq, Structural)]
pub enum Phase {
    Forward,
    Unwinding(Option<Outcome>),
}

/// The state of a session: the next stage, the releases owed (the last is
/// owed first), and the phase.
pub struct SessionState {
    pub next: nat,
    pub held: Seq<Call>,
    pub phase: Phase,
}

/// What the driver is asked to do next.
pub enum Action {
    /// Perform this call and hand back its outcome.
    Perform(Call),
    /// The operation is over, with this result.
    Finish(Result<(), PrinterError>),
}

pub enum ActionView {
    Perform(Call),
    Finish(Result<(), ErrorView>),
}

impl View for Action {
    type V = ActionView;

    open spec fn view(&self) -> ActionView {
        match self {
            Action::Perform(c) => ActionView::Perform(*c),
            Action::Finish(r) => ActionView::Finish(unit_result_view(*r)),
        }
    }
}

/// The releases owed after `stage` passed.
pub open spec fn acquire(held: Seq<Call>, stage: Stage) -> Seq<Call> {
    match stage.release {
        Some(r) => held.push(r),
        None => held,
    }
}

/// The state in which a session on `plan` starts.
pub open spec fn start_state(plan: Seq<Stage>) -> SessionState {
    SessionState {
        next: 0,
        held: Seq::empty(),
        phase: if plan.len() == 0 {
            Phase::Unwinding(None)
        } else {
            Phase::Forward
        },
    }
}

/// The state after the call last asked for reported `o`.
pub open spec fn next_state(plan: Seq<Stage>, st: SessionState, o: Outcome) -> SessionState {
    match st.phase {
        Phase::Forward => {
            let stage = plan[st.next as int];
            if verdict(stage, o) is None && !ends_early(stage, o) {
                SessionState {
                    next: st.next + 1,
                    held: acquire(st.held, stage),
                    phase: if st.next + 1 < plan.len() {
                        Phase::Forward
                    } else {
                        Phase::Unwinding(None)
                    },
                }
            } else {
                SessionState { next: st.next, held: st.held, phase: Phase::Unwinding(Some(o)) }
            }
        },
        Phase::Unwinding(_) => if st.held.len() > 0 {
            SessionState { next: st.next, held: st.held.drop_last(), phase: st.phase }
        } else {
            st
        },
    }
}

/// The result that a session in state `st` reports once it has released all it holds.
pub open spec fn session_result(plan: Seq<Stage>, st: SessionState) -> Result<(), ErrorView> {
    match st.phase {
        Phase::Unwinding(Some(o)) => match verdict(plan[st.next as int], o) {
            Some(e) => Err(e),
            None => Ok(()),
        },
        _ => Ok(()),
    }
}

/// What a session in state `st` asks for.
pub open spec fn next_action(plan: Seq<Stage>, st: SessionState) -> ActionView {
    match st.phase {
        Phase::Forward => ActionView::Perform(plan[st.next as int].call),
        Phase::Unwinding(_) => if st.held.len() > 0 {
            ActionView::Perform(st.held.last())
        } else {
            ActionView::Finish(session_result(plan, st))
        },
    }
}

/// A session in progress on a plan of stages.
pub struct Session {
    plan: Vec<Stage>,
    held: Vec<Call>,
    /// The next stage and the phase.
    at: (usize, Phase),
}

impl View for Session {
    type V = SessionState;

    closed spec fn view(&self) -> SessionState {
        SessionState { next: self.at.0 as nat, held: self.held@, phase: self.at.1 }
    }
}

impl Session {
    /// The stages of the session.
    pub closed spec fn plan(&self) -> Seq<Stage> {
        self.plan@
    }

    /// The phase agrees with the position in the plan.
    #[verifier::type_invariant]
    closed spec fn wf(&self) -> bool {
        let (next, phase) = self.at;
        match phase {
            Phase::Forward => next < self.plan@.len(),
            Phase::Unwinding(None) => next == self.plan@.len(),
            Phase::Unwinding(Some(o)) => next < self.plan@.len() && (verdict(
                self.plan@[next as int],
                o,
            ) is Some || ends_early(self.plan@[next as int], o)),
        }
    }

    /// Starts a session on `plan`.
    pub fn new(plan: Vec<Stage>) -> (s: Session)
        ensures
            s.plan() == plan@,
            s@ == start_state(plan@),
    {
        let phase = if plan.len() == 0 {
            Phase::Unwinding(None)
        } else {
            Phase::Forward
        };
        Session { plan, held: Vec::new(), at: (0, phase) }
    }

    /// What the session asks for now.
    pub fn action(&self) -> (a: Action)
        ensures
            a@ == next_action(self.plan(), self@),
    {
        proof {
            use_type_invariant(self);
        }
        let (next, phase) = self.at;
        match phase {
            Phase::Forward => Action::Perform(self.plan[next].call),
            Phase::Unwinding(failure) => {
                let n = self.held.len();
                if n > 0 {
                    Action::Perform(self.held[n - 1])
                } else {
                    match failure {
                        None => Action::Finish(Ok(())),
                        Some(o) => {
                            let e = judge(&self.plan[next], &o);
                            match e {
                                Some(e) => Action::Finish(Err(e)),
                                None => Action::Finish(Ok(())),
                            }
                        },
                    }
                }
            },
        }
    }

    /// Hands the session the outcome of the call it asked for last.
    pub fn advance(&mut self, o: Outcome)
        ensures
            final(self).plan() == old(self).plan(),
            final(self)@ == next_state(old(self).plan(), old(self)@, o),
    {
        let mut taken = Session::new(Vec::new());
        std::mem::swap(self, &mut taken);
        proof {
            use_type_invariant(&taken);
        }
        let Session { plan, mut held, at } = taken;
        let (next, phase) = at;
        let at = match phase {
            Phase::Forward => {
                let stage = plan[next];
                let failure = judge(&stage, &o);
                let early = stops_early(&stage, &o);
                match failure {
                    None if !early => {
                        match stage.release {
                            Some(r) => held.push(r),
                            None => {},
                        }
                        let n = plan.len();
                        if next + 1 < n {
                            (next + 1, Phase::Forward)
                        } else {
                            (next + 1, Phase::Unwinding(None))
                        }
                    },
                    _ => (next, Phase::Unwinding(Some(o))),
                }
            },
            Phase::Unwinding(_) => {
                if held.len() > 0 {
                    held.pop();
                }
                at
            },
        };
        *self = Session { plan, held, at };
    }

    /// Whether every stage passed: the session neither failed nor ended early.
    pub fn completed(&self) -> (res: bool)
        ensures
            res == (self@.phase == Phase::Unwinding(None)),
    {
        match self.at.1 {
            Phase::Unwinding(None) => true,
            _ => false,
        }
    }
}

/// Whether stage `i` of `plan` passes, given outcome `os[i]`.
pub open spec fn passes(plan: Seq<Stage>, os: Seq<Outcome>, i: int) -> bool {
    verdict(plan[i], os[i]) is None && !ends_early(plan[i], os[i])
}

/// The first stage at or after `i` that fails, or the length of the plan where none does.
pub open spec fn first_failure_from(plan: Seq<Stage>, os: Seq<Outcome>, i: nat) -> nat
    decreases plan.len() - i,
{
    if i >= plan.len() {
        plan.len()
    } else if !passes(plan, os, i as int) {
        i
    } else {
        first_failure_from(plan, os, i + 1)
    }
}

/// The first stage that fails, or the length of the plan where none does.
pub open spec fn first_failure(plan: Seq<Stage>, os: Seq<Outcome>) -> nat {
    first_failure_from(plan, os, 0)
}

/// The releases that the first `n` stages owe once they passed, in the order the stages ran.
pub open spec fn releases(plan: Seq<Stage>, n: nat) -> Seq<Call>
    decreases n,
{
    if n == 0 || n > plan.len() {
        Seq::empty()
    } else {
        acquire(releases(plan, (n - 1) as nat), plan[n - 1])
    }
}

/// The calls of a run of stages.
pub open spec fn stage_calls(stages: Seq<Stage>) -> Seq<Call> {
    stages.map_values(|s: Stage| s.call)
}

/// The number of stages performed: up to and including the first that fails.
pub open spec fn performed(plan: Seq<Stage>, os: Seq<Outcome>) -> nat {
    let k = first_failure(plan, os);
    if k < plan.len() {
        k + 1
    } else {
        k
    }
}

/// The calls a session makes where the calls report `os`: the stages up to and
/// including the first that fails, then the releases owed by the stages that
/// passed, last first.
pub open spec fn expected_trace(plan: Seq<Stage>, os: Seq<Outcome>) -> Seq<Call> {
    stage_calls(plan.subrange(0, performed(plan, os) as int)) + releases(
        plan,
        first_failure(plan, os),
    ).reverse()
}

/// The state in which a session ends where the calls report `os`: at the
/// first stage that did not pass (or past the last), holding nothing.
pub open spec fn expected_final(plan: Seq<Stage>, os: Seq<Outcome>) -> SessionState {
    let k = first_failure(plan, os);
    SessionState {
        next: k,
        held: Seq::empty(),
        phase: if k < plan.len() {
            Phase::Unwinding(Some(os[k as int]))
        } else {
            Phase::Unwinding(None)
        },
    }
}

/// The result of a session where the calls report `os`: the failure of the
/// first stage that did not pass, success where that stage ended the
/// operation early, or success where every stage passed.
pub open spec fn expected_result(plan: Seq<Stage>, os: Seq<Outcome>) -> Result<(), ErrorView> {
    let k = first_failure(plan, os);
    if k < plan.len() {
        match verdict(plan[k as int], os[k as int]) {
            Some(e) => Err(e),
            None => Ok(()),
        }
    } else {
        Ok(())
    }
}

/// The calls that a session in state `st` asks for when the calls report `os`
/// in turn, and the state in which it finishes (`None` where `os` runs out first).
pub open spec fn run(plan: Seq<Stage>, st: SessionState, os: Seq<Outcome>) -> (Seq<Call>, Option<
    SessionState,
>)
    decreases os.len(),
{
    match next_action(plan, st) {
        ActionView::Finish(_) => (Seq::empty(), Some(st)),
        ActionView::Perform(c) => if os.len() == 0 {
            (Seq::empty(), None)
        } else {
            let rest = run(plan, next_state(plan, st, os[0]), os.drop_first());
            (seq![c] + rest.0, rest.1)
        },
    }
}

proof fn lemma_reverse_last(h: Seq<Call>)
    requires
        h.len() > 0,
    ensures
        h.reverse() == seq![h.last()] + h.drop_last().reverse(),
{
    assert(h.reverse() =~= seq![h.last()] + h.drop_last().reverse());
}

proof fn lemma_unwind(plan: Seq<Stage>, st: SessionState, os: Seq<Outcome>)
    requires
        st.phase is Unwinding,
        os.len() >= st.held.len(),
    ensures
        run(plan, st, os) == (
            st.held.reverse(),
            Some(SessionState { next: st.next, held: Seq::empty(), phase: st.phase }),
        ),
    decreases st.held.len(),
{
    if st.held.len() == 0 {
        assert(st.held.reverse() =~= Seq::<Call>::empty());
        assert(st.held =~= Seq::<Call>::empty());
    } else {
        let st2 = next_state(plan, st, os[0]);
        lemma_unwind(plan, st2, os.drop_first());
        lemma_reverse_last(st.held);
    }
}

proof fn lemma_forward(plan: Seq<Stage>, os: Seq<Outcome>, i: nat)
    requires
        i < plan.len(),
        first_failure_from(plan, os, 0) == first_failure_from(plan, os, i),
        os.len() >= expected_trace(plan, os).len(),
    ensures
        ({
            let st = SessionState { next: i, held: releases(plan, i), phase: Phase::Forward };
            run(plan, st, os.subrange(i as int, os.len() as int)) == (
                stage_calls(plan.subrange(i as int, performed(plan, os) as int)) + releases(
                    plan,
                    first_failure(plan, os),
                ).reverse(),
                Some(expected_final(plan, os)),
            )
        }),
    decreases plan.len() - i,
{
    let st = SessionState { next: i, held: releases(plan, i), phase: Phase::Forward };
    let k = first_failure(plan, os);
    let p = performed(plan, os);
    lemma_first_failure_bound(plan, os, i);
    assert(i <= k);
    assert(expected_trace(plan, os).len() >= p);
    assert(os.len() > i);
    let tail = os.subrange(i as int, os.len() as int);
    assert(tail[0] == os[i as int]);
    let st2 = next_state(plan, st, tail[0]);
    assert(tail.drop_first() =~= os.subrange((i + 1) as int, os.len() as int));
    if passes(plan, os, i as int) {
        assert(releases(plan, i + 1) == acquire(releases(plan, i), plan[i as int]));
        assert(stage_calls(plan.subrange(i as int, p as int)) =~= seq![plan[i as int].call]
            + stage_calls(plan.subrange((i + 1) as int, p as int)));
        if i + 1 < plan.len() {
            lemma_forward(plan, os, i + 1);
        } else {
            assert(first_failure_from(plan, os, (i + 1) as nat) == plan.len());
            assert(k == plan.len());
            lemma_unwind(plan, st2, tail.drop_first());
            assert(stage_calls(plan.subrange((i + 1) as int, p as int)) =~= Seq::<Call>::empty());
        }
    } else {
        assert(k == i);
        lemma_unwind(plan, st2, tail.drop_first());
        assert(stage_calls(plan.subrange(i as int, p as int)) =~= seq![plan[i as int].call]);
    }
}

proof fn lemma_first_failure_bound(plan: Seq<Stage>, os: Seq<Outcome>, i: nat)
    ensures
        first_failure_from(plan, os, i) <= plan.len(),
        i <= plan.len() ==> i <= first_failure_from(plan, os, i),
    decreases plan.len() - i,
{
    if i < plan.len() && passes(plan, os, i as int) {
        lemma_first_failure_bound(plan, os, i + 1);
    }
}

/// Law: whatever the calls report, a session performs the calls of its stages
/// in order up to and including the first one that does not pass, then
/// performs the releases owed by exactly the stages that passed, the last
/// acquired first. It finishes with the failure of the stage that did not
/// pass, with success where that stage ended the operation early, or with
/// success where every stage passed; it ends completed exactly where every
/// stage passed. No stage after one that did not pass is attempted, nothing
/// that was not acquired is released, and everything that was acquired is
/// released exactly once.
pub proof fn lemma_session_brackets(plan: Seq<Stage>, os: Seq<Outcome>)
    requires
        os.len() >= expected_trace(plan, os).len(),
    ensures
        run(plan, start_state(plan), os) == (expected_trace(plan, os), Some(expected_final(plan, os))),
        next_action(plan, expected_final(plan, os)) == ActionView::Finish(expected_result(plan, os)),
        (expected_final(plan, os).phase == Phase::Unwinding(None)) <==> first_failure(plan, os)
            == plan.len(),
{
    lemma_first_failure_bound(plan, os, 0);
    if plan.len() == 0 {
        assert(expected_trace(plan, os) =~= Seq::<Call>::empty());
        assert(start_state(plan) == expected_final(plan, os));
    } else {
        lemma_forward(plan, os, 0);
        assert(os.subrange(0, os.len() as int) =~= os);
        assert(releases(plan, 0) =~= Seq::<Call>::empty());
    }
}

} // verus!
