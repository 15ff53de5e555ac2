use vstd::prelude::*;
use crate::decode::Instr;
use crate::image::{ImageView, ProgramImage};
use crate::machine::{
    apply, execute, execute_spec, fetch_decode, fetch_decode_spec, Fault, MachineState, MachineView,
    Outcome,
};
use crate::script::{verify, verify_spec};
use crate::trace::{chain_step, record, TraceEntry, TraceEntryView};

verus! {

/// Where an injected fault lands.
#[derive(Clone, Copy, Debug, PartialEq, Eq, Structural)]
pub enum FaultTarget {
    /// A register, 1 to 31; other indices are ignored.
    Register(u8),
    /// The aligned word at this address, if it is mapped.
    Memory(u32),
}

/// Deliberate corruption of the state right after the instruction that
/// brings the step counter to `target_step`.
#[derive(Clone, Copy, Debug, PartialEq, Eq, Structural)]
pub struct FailConfiguration {
    pub enabled: bool,
    pub target_step: Option<u64>,
    pub target: FaultTarget,
    pub corrupted_value: u32,
}

impl FailConfiguration {
    /// No injection.
    pub fn disabled() -> (r: FailConfiguration)
        ensures
            !r.enabled,
    {
        FailConfiguration {
            enabled: false,
            target_step: None,
            target: FaultTarget::Register(0),
            corrupted_value: 0,
        }
    }
}

/// An inclusive range of step counter values.
#[derive(Clone, Copy, Debug, PartialEq, Eq, Structural)]
pub struct StepRange {
    pub first: u64,
    pub last: u64,
}

/// Options of a run.
#[derive(Clone, Copy, Debug, PartialEq, Eq, Structural)]
pub struct RunConfig {
    /// The step counter value at which the run stops; none means no bound
    /// short of the counter's range.
    pub step_limit: Option<u64>,
    /// Check every instruction against its script encoding.
    pub verify: bool,
    /// Produce trace entries.
    pub trace: bool,
    /// Produce trace entries with an empty hash and leave the chain as is.
    pub no_hash: bool,
    /// When set, only steps in this inclusive range produce trace entries;
    /// the chain still folds in every step.
    pub trace_steps: Option<StepRange>,
    pub fail: FailConfiguration,
}

/// How a run ended.
#[derive(Clone, Copy, Debug, PartialEq, Eq, Structural)]
pub enum ExecutionResult {
    /// Exit code and the number of steps, the exit call included.
    Halt(u32, u64),
    /// The step counter reached the limit.
    StepLimitReached(u64),
    /// The step counter after the instruction whose script disagreed, and
    /// the instruction.
    VerificationMismatch(u64, Instr),
    /// The step counter when the fault stopped the run.
    Fault(u64, Fault),
}

/// Everything a run leaves behind.
pub struct RunOutcome {
    pub result: ExecutionResult,
    pub trace: Seq<TraceEntryView>,
    pub state: MachineView,
    pub mem: ImageView,
    pub hash: Seq<u8>,
}

pub open spec fn limit_of(c: RunConfig) -> u64 {
    match c.step_limit {
        Some(l) => l,
        None => u64::MAX,
    }
}

/// State and image after the configured corruption, applied only when the
/// step counter equals the target step.
pub open spec fn inject(f: FailConfiguration, s: MachineView, m: ImageView) -> (MachineView, ImageView) {
    if f.enabled && f.target_step == Some(s.step) {
        match f.target {
            FaultTarget::Register(r) => if 0 < r < 32 {
                (MachineView { regs: s.regs.update(r as int, f.corrupted_value), ..s }, m)
            } else {
                (s, m)
            },
            FaultTarget::Memory(a) => match m.write(a, 4, f.corrupted_value) {
                Some(m2) => (s, m2),
                None => (s, m),
            },
        }
    } else {
        (s, m)
    }
}

pub open spec fn stop(
    result: ExecutionResult,
    trace: Seq<TraceEntryView>,
    s: MachineView,
    m: ImageView,
    h: Seq<u8>,
) -> RunOutcome {
    RunOutcome { result, trace, state: s, mem: m, hash: h }
}

pub open spec fn prepend(t: Seq<TraceEntryView>, o: RunOutcome) -> RunOutcome {
    RunOutcome { trace: t + o.trace, ..o }
}

/// The chain hash after recording `s`.
pub open spec fn next_hash(c: RunConfig, h: Seq<u8>, s: MachineView) -> Seq<u8> {
    if c.trace && !c.no_hash { chain_step(h, s) } else { h }
}

/// Whether the trace filter selects step `step`.
pub open spec fn selected(c: RunConfig, step: u64) -> bool {
    match c.trace_steps {
        Some(r) => r.first <= step <= r.last,
        None => true,
    }
}

/// The trace entries recorded for post-step state `s`.
pub open spec fn entries(c: RunConfig, h: Seq<u8>, s: MachineView) -> Seq<TraceEntryView> {
    if !c.trace || !selected(c, s.step) {
        seq![]
    } else if c.no_hash {
        seq![TraceEntryView { step: s.step, state_hash: seq![] }]
    } else {
        seq![TraceEntryView { step: s.step, state_hash: chain_step(h, s) }]
    }
}

/// The whole run from state `s`, image `m` and chain hash `h`.
pub open spec fn run_spec(c: RunConfig, s: MachineView, m: ImageView, h: Seq<u8>) -> RunOutcome
    decreases limit_of(c) - s.step,
{
    if s.halted {
        stop(ExecutionResult::Fault(s.step, Fault::Halted), seq![], s, m, h)
    } else if s.step >= limit_of(c) {
        stop(ExecutionResult::StepLimitReached(s.step), seq![], s, m, h)
    } else {
        match fetch_decode_spec(s, m) {
            Err(f) => stop(ExecutionResult::Fault(s.step, f), seq![], s, m, h),
            Ok(i) => {
                let t = execute_spec(i, s, m);
                match t.outcome {
                    Outcome::Fault(f) => stop(ExecutionResult::Fault(s.step, f), seq![], s, m, h),
                    _ => {
                        let s2 = inject(c.fail, apply(s, t), t.mem).0;
                        let m2 = inject(c.fail, apply(s, t), t.mem).1;
                        let h2 = next_hash(c, h, s2);
                        let e = entries(c, h, s2);
                        if c.verify && !verify_spec(i, s, s2, m2) {
                            stop(ExecutionResult::VerificationMismatch(s2.step, i), e, s2, m2, h2)
                        } else if let Outcome::Halt(code) = t.outcome {
                            stop(ExecutionResult::Halt(code, s2.step), e, s2, m2, h2)
                        } else {
                            prepend(e, run_spec(c, s2, m2, h2))
                        }
                    },
                }
            },
        }
    }
}

/// What a run returns: its result, the trace it recorded, the final state
/// and the last hash of the chain.
pub struct RunResult {
    pub result: ExecutionResult,
    pub trace: Vec<TraceEntry>,
    pub state: MachineState,
    pub hash: Vec<u8>,
}

pub open spec fn trace_view(t: Seq<TraceEntry>) -> Seq<TraceEntryView> {
    t.map_values(|e: TraceEntry| e@)
}

fn inject_fault(f: &FailConfiguration, st: &mut MachineState, img: &mut ProgramImage)
    requires
        old(st)@.wf(),
        old(img).wf(),
    ensures
        final(st)@.wf(),
        final(img).wf(),
        (final(st)@, final(img)@) == inject(*f, old(st)@, old(img)@),
{
    if f.enabled && f.target_step == Some(st.step) {
        match f.target {
            FaultTarget::Register(r) => {
                if 0 < r && r < 32 {
                    st.registers.set(r as usize, f.corrupted_value);
                }
            },
            FaultTarget::Memory(a) => {
                img.write(a, 4, f.corrupted_value);
            },
        }
    }
}

/// Runs the program from `start` until it halts, faults, fails
/// verification or reaches the step limit. `start_hash` is the chain hash
/// the trace continues from.
pub fn run(img: &mut ProgramImage, start: MachineState, start_hash: Vec<u8>, cfg: &RunConfig) -> (r:
    RunResult)
    requires
        old(img).wf(),
        start@.wf(),
    ensures
        final(img).wf(),
        r.state@.wf(),
        r.result == run_spec(*cfg, start@, old(img)@, start_hash@).result,
        trace_view(r.trace@) == run_spec(*cfg, start@, old(img)@, start_hash@).trace,
        r.state@ == run_spec(*cfg, start@, old(img)@, start_hash@).state,
        final(img)@ == run_spec(*cfg, start@, old(img)@, start_hash@).mem,
        r.hash@ == run_spec(*cfg, start@, old(img)@, start_hash@).hash,
{
    let ghost goal = run_spec(*cfg, start@, img@, start_hash@);
    assert(goal == run_spec(*cfg, start@, old(img)@, start_hash@));
    let limit: u64 = match cfg.step_limit {
        Some(l) => l,
        None => u64::MAX,
    };
    let mut st = start;
    let mut h = start_hash;
    let mut trace: Vec<TraceEntry> = Vec::new();
    proof {
        assert(trace_view(trace@) =~= seq![]);
        assert(goal == prepend(trace_view(trace@), run_spec(*cfg, st@, img@, h@)));
    }
    loop
        invariant
            img.wf(),
            st@.wf(),
            limit == limit_of(*cfg),
            goal == run_spec(*cfg, start@, old(img)@, start_hash@),
            goal == prepend(trace_view(trace@), run_spec(*cfg, st@, img@, h@)),
        decreases limit - st.step,
    {
        proof {
            assert(trace_view(trace@) + Seq::<TraceEntryView>::empty() =~= trace_view(trace@));
        }
        if st.halted {
            return RunResult { result: ExecutionResult::Fault(st.step, Fault::Halted), trace, state: st, hash: h };
        }
        if st.step >= limit {
            return RunResult { result: ExecutionResult::StepLimitReached(st.step), trace, state: st, hash: h };
        }
        let i = match fetch_decode(&st, img) {
            Err(f) => {
                return RunResult { result: ExecutionResult::Fault(st.step, f), trace, state: st, hash: h };
            },
            Ok(i) => i,
        };
        let ghost s0 = st@;
        let ghost m0 = img@;
        let ghost h0 = h@;
        let ghost t0 = trace@;
        let pre = st.copy();
        let out = execute(i, &mut st, img);
        if let Outcome::Fault(f) = out {
            return RunResult { result: ExecutionResult::Fault(pre.step, f), trace, state: st, hash: h };
        }
        inject_fault(&cfg.fail, &mut st, img);
        if cfg.trace {
            let keep = match cfg.trace_steps {
                Some(r) => r.first <= st.step && st.step <= r.last,
                None => true,
            };
            if cfg.no_hash {
                if keep {
                    trace.push(TraceEntry { step: st.step, state_hash: Vec::new() });
                }
            } else {
                let (h2, e) = record(&h, &st);
                h = h2;
                if keep {
                    trace.push(e);
                }
            }
        }
        proof {
            assert(trace_view(trace@) =~= trace_view(t0) + entries(*cfg, h0, st@));
            assert(h@ == next_hash(*cfg, h0, st@));
        }
        if cfg.verify && !verify(i, &pre, &st, img) {
            return RunResult {
                result: ExecutionResult::VerificationMismatch(st.step, i),
                trace,
                state: st,
                hash: h,
            };
        }
        if let Outcome::Halt(code) = out {
            return RunResult { result: ExecutionResult::Halt(code, st.step), trace, state: st, hash: h };
        }
        proof {
            let rest = run_spec(*cfg, st@, img@, h@);
            assert(trace_view(t0) + (entries(*cfg, h0, st@) + rest.trace) =~= trace_view(trace@) + rest.trace);
        }
    }
}

} // verus!
