//! The in-process executor and the decisions of its fault handlers.
//!
//! While an input runs, the executor's crash context records it. A fault
//! handler (installed by the embedding program) reads that context and asks
//! `plan_fault` what to do: whom to notify, whether to hand a snapshot to the
//! preservation callback, and how the process ends.
use vstd::prelude::*;
use crate::inputs::BytesInput;
use crate::AflError;

verus! {

/// The result of one harness invocation.
#[derive(Clone, Copy, Debug, PartialEq, Eq, Structural)]
pub enum ExitKind {
    Normal,
    Crash,
    Timeout,
    Oom,
}

/// The exit status of a worker after a captured fatal signal (128 + SIGSEGV).
pub const CRASH_EXIT_STATUS: i32 = 139;

/// The record of the run in flight: the input executing, if any, and whether a
/// preservation callback is installed.
pub struct CrashContext {
    current_input: Option<Vec<u8>>,
    preserve_on_fault: bool,
}

/// The crash context as plain values.
pub struct CrashContextView {
    pub current_input: Option<Seq<u8>>,
    pub preserve_on_fault: bool,
}

impl View for CrashContext {
    type V = CrashContextView;

    closed spec fn view(&self) -> CrashContextView {
        CrashContextView {
            current_input: match self.current_input {
                Some(v) => Some(v@),
                None => None,
            },
            preserve_on_fault: self.preserve_on_fault,
        }
    }
}

impl CrashContext {
    /// An idle context.
    pub fn new(preserve_on_fault: bool) -> (r: CrashContext)
        ensures
            r@.current_input is None,
            r@.preserve_on_fault == preserve_on_fault,
    {
        CrashContext { current_input: None, preserve_on_fault }
    }

    /// Records `input` as executing.
    pub fn begin_run(&mut self, input: &[u8])
        ensures
            final(self)@.current_input == Some(input@),
            final(self)@.preserve_on_fault == old(self)@.preserve_on_fault,
    {
        let mut v: Vec<u8> = Vec::new();
        v.extend_from_slice(input);
        self.current_input = Some(v);
    }

    /// Clears the record after a normal return.
    pub fn end_run(&mut self)
        ensures
            final(self)@.current_input is None,
            final(self)@.preserve_on_fault == old(self)@.preserve_on_fault,
    {
        self.current_input = None;
    }

    /// Whether an input is executing.
    pub fn is_running(&self) -> (r: bool)
        ensures
            r == self@.current_input is Some,
    {
        self.current_input.is_some()
    }

    /// The input executing, if any.
    pub fn current_input(&self) -> (r: Option<&Vec<u8>>)
        ensures
            r is Some == self@.current_input is Some,
            r matches Some(v) ==> self@.current_input == Some(v@),
    {
        match &self.current_input {
            Some(v) => Some(v),
            None => None,
        }
    }
}

/// A fault delivered to the process.
#[derive(Clone, Copy, Debug, PartialEq, Eq, Structural)]
pub enum Fault {
    /// A fatal signal (segmentation fault, bus error, abort, illegal
    /// instruction, floating-point exception, broken pipe).
    Fatal { signal: i32 },
    /// The watchdog's timeout signal.
    Timeout,
}

/// How the process goes on after a fault.
#[derive(Clone, Copy, Debug, PartialEq, Eq, Structural)]
pub enum Termination {
    /// Return from the handler and keep running.
    Continue,
    /// Exit with the given status.
    Exit { status: i32 },
    /// Abort the process.
    Abort,
}

/// A notification to the event layer: an input caused a crash or a timeout.
pub struct Notification {
    pub kind: ExitKind,
    pub input: Vec<u8>,
}

/// What a fault handler does, in order: report an out-of-band fault, notify
/// the event layer, hand a snapshot to the preservation callback with the
/// given kind, end as `termination` says.
pub struct FaultPlan {
    pub report_out_of_band: bool,
    pub notify: Option<Notification>,
    pub preserve: Option<ExitKind>,
    pub termination: Termination,
}

/// The plan for `fault` in a context, as plain values: the out-of-band flag,
/// the notification (kind and input bytes), the preservation kind and the
/// termination.
pub open spec fn plan_spec(ctx: CrashContextView, fault: Fault) -> (bool, Option<(ExitKind, Seq<u8>)>, Option<ExitKind>, Termination) {
    match fault {
        Fault::Fatal { .. } => match ctx.current_input {
            None => (true, None, None, Termination::Exit { status: CRASH_EXIT_STATUS }),
            Some(input) => (
                false,
                Some((ExitKind::Crash, input)),
                if ctx.preserve_on_fault { Some(ExitKind::Crash) } else { None },
                Termination::Exit { status: CRASH_EXIT_STATUS },
            ),
        },
        Fault::Timeout => match ctx.current_input {
            None => (false, None, None, Termination::Continue),
            Some(input) => (
                false,
                Some((ExitKind::Timeout, input)),
                if ctx.preserve_on_fault { Some(ExitKind::Timeout) } else { None },
                Termination::Abort,
            ),
        },
    }
}

impl FaultPlan {
    /// The plan as plain values.
    pub open spec fn as_tuple(&self) -> (bool, Option<(ExitKind, Seq<u8>)>, Option<ExitKind>, Termination) {
        (
            self.report_out_of_band,
            match self.notify {
                Some(n) => Some((n.kind, n.input@)),
                None => None,
            },
            self.preserve,
            self.termination,
        )
    }
}

/// Decides what the handler of `fault` does in context `ctx`. A fatal signal
/// while no input runs is reported out of band and still ends the process; a
/// timeout while no input runs changes nothing.
pub fn plan_fault(ctx: &CrashContext, fault: Fault) -> (r: FaultPlan)
    ensures
        r.as_tuple() == plan_spec(ctx@, fault),
{
    let preserve = ctx.preserve_on_fault;
    match fault {
        Fault::Fatal { .. } => match &ctx.current_input {
            None => FaultPlan {
                report_out_of_band: true,
                notify: None,
                preserve: None,
                termination: Termination::Exit { status: CRASH_EXIT_STATUS },
            },
            Some(input) => FaultPlan {
                report_out_of_band: false,
                notify: Some(Notification { kind: ExitKind::Crash, input: input.clone() }),
                preserve: if preserve { Some(ExitKind::Crash) } else { None },
                termination: Termination::Exit { status: CRASH_EXIT_STATUS },
            },
        },
        Fault::Timeout => match &ctx.current_input {
            None => FaultPlan { report_out_of_band: false, notify: None, preserve: None, termination: Termination::Continue },
            Some(input) => FaultPlan {
                report_out_of_band: false,
                notify: Some(Notification { kind: ExitKind::Timeout, input: input.clone() }),
                preserve: if preserve { Some(ExitKind::Timeout) } else { None },
                termination: Termination::Abort,
            },
        },
    }
}

/// A fatal fault while an input is registered as executing gives exactly one
/// notification, a crash that carries that input, and exit status 139.
pub proof fn lemma_crash_while_running(ctx: CrashContextView, input: Seq<u8>, signal: i32)
    requires
        ctx.current_input == Some(input),
    ensures
        ({
            let (oob, notify, _preserve, termination) = plan_spec(ctx, Fault::Fatal { signal });
            &&& !oob
            &&& notify == Some((ExitKind::Crash, input))
            &&& termination == Termination::Exit { status: 139 }
        }),
{
}

/// A timeout while no input is executing is a no-op: nothing is notified or
/// preserved, and the process continues.
pub proof fn lemma_timeout_while_idle(ctx: CrashContextView)
    requires
        ctx.current_input is None,
    ensures
        plan_spec(ctx, Fault::Timeout) == (false, None::<(ExitKind, Seq<u8>)>, None::<ExitKind>, Termination::Continue),
{
}

/// The in-process executor: runs a harness on an input's bytes, with the
/// input recorded in its crash context for the duration of the call. The
/// harness sees that context, as the fault handlers do while it runs.
pub struct InMemoryExecutor<H: Fn(&CrashContext, &[u8]) -> ExitKind, OT> {
    name: String,
    harness: H,
    observers: OT,
    context: CrashContext,
}

impl<H: Fn(&CrashContext, &[u8]) -> ExitKind, OT> InMemoryExecutor<H, OT> {
    /// The crash context.
    pub closed spec fn context_spec(&self) -> CrashContextView {
        self.context@
    }

    /// The harness.
    pub closed spec fn harness_spec(&self) -> H {
        self.harness
    }

    /// The observers.
    pub closed spec fn observers_spec(&self) -> OT {
        self.observers
    }

    /// An idle executor; `preserve_on_fault` says whether a preservation
    /// callback is installed for its faults.
    pub fn new(name: &str, harness: H, observers: OT, preserve_on_fault: bool) -> (r: InMemoryExecutor<H, OT>)
        ensures
            r.context_spec().current_input is None,
            r.context_spec().preserve_on_fault == preserve_on_fault,
            r.harness_spec() == harness,
            r.observers_spec() == observers,
            r.name_spec() == name@,
    {
        InMemoryExecutor { name: name.to_owned(), harness, observers, context: CrashContext::new(preserve_on_fault) }
    }

    /// The name of the executor.
    pub closed spec fn name_spec(&self) -> Seq<char> {
        self.name@
    }

    /// The name of the executor.
    pub fn name(&self) -> (r: &str)
        ensures
            r@ == self.name_spec(),
    {
        self.name.as_str()
    }

    /// The observers.
    pub fn observers(&self) -> (r: &OT)
        ensures
            *r == self.observers_spec(),
    {
        &self.observers
    }

    /// The observers, for update between runs.
    pub fn observers_mut(&mut self) -> (r: &mut OT)
        ensures
            *r == old(self).observers_spec(),
            final(self).observers_spec() == *final(r),
            final(self).context_spec() == old(self).context_spec(),
            final(self).harness_spec() == old(self).harness_spec(),
            final(self).name_spec() == old(self).name_spec(),
    {
        &mut self.observers
    }

    /// The crash context, for the fault handlers.
    pub fn context(&self) -> (r: &CrashContext)
        ensures
            r@ == self.context_spec(),
    {
        &self.context
    }

    /// Runs the harness on the input's bytes: the input is recorded as
    /// executing before the call and cleared after it returns; the harness's
    /// exit kind is returned.
    pub fn run_target(&mut self, input: &BytesInput) -> (r: Result<ExitKind, AflError>)
        requires
            forall|c: &CrashContext, b: &[u8]| #[trigger] old(self).harness_spec().requires((c, b)),
        ensures
            r matches Ok(k) && exists|c: &CrashContext, b: &[u8]|
                c@.current_input == Some(input@)
                && c@.preserve_on_fault == old(self).context_spec().preserve_on_fault
                && b@ == input@
                && #[trigger] final(self).harness_spec().ensures((c, b), k),
            final(self).context_spec().current_input is None,
            final(self).context_spec().preserve_on_fault == old(self).context_spec().preserve_on_fault,
            final(self).harness_spec() == old(self).harness_spec(),
            final(self).observers_spec() == old(self).observers_spec(),
            final(self).name_spec() == old(self).name_spec(),
    {
        let bytes = input.target_bytes();
        self.context.begin_run(bytes);
        assert(old(self).harness_spec().requires((&self.context, bytes)));
        let ghost running = self.context;
        let ret = (self.harness)(&self.context, bytes);
        assert(self.harness_spec().ensures((&running, bytes), ret));
        assert(running@.current_input == Some(input@));
        assert(running@.preserve_on_fault == old(self).context_spec().preserve_on_fault);
        assert(bytes@ == input@);
        self.context.end_run();
        Ok(ret)
    }
}

} // verus!
