use vstd::prelude::*;
use crate::policy::{
    base_max_rate, base_rate_spec, choose_rate, chosen_rate, idle_rate_write, is_warm, next_delay,
    resolve_target_temp, resolved_target, trim_request, trim_request_spec, trimmed_rate,
    trimmed_rate_spec, RateMapping, TrimRequest, IDLE_RATE, LONG_DELAY_MS, RETRY_DELAY_MS, SHORT_DELAY_MS,
    STATUS_IDLE,
};
use crate::registers::{RegisterId, REGISTER_COUNT, register_at};
use crate::snapshot::{snapshot_of, BoilerSnapshot};

verus! {

/// A failed register transaction.
#[derive(Clone, Copy, Debug, PartialEq, Eq, Structural)]
pub enum BusError {
    /// No answer within the operation's time bound.
    Timeout,
    /// A malformed or rejected transaction.
    Protocol,
}

/// A failed telemetry delivery.
#[derive(Clone, Copy, Debug, PartialEq, Eq, Structural)]
pub enum SinkError {
    /// Appending to the local log failed.
    Persistence,
    /// Sending the datagram failed.
    Send,
}

/// An error that aborts a cycle.
#[derive(Clone, Copy, Debug, PartialEq, Eq, Structural)]
pub enum CycleError {
    Bus(BusError),
    Telemetry(SinkError),
}

/// How a cycle ended.
#[derive(Clone, Copy, Debug, PartialEq, Eq, Structural)]
pub enum CycleOutcome {
    /// The cycle completed; wait this many milliseconds before the next.
    Sleep(u64),
    /// The cycle was aborted by an error.
    Failed(CycleError),
}

/// The milliseconds to wait after a cycle with this outcome.
pub open spec fn delay_after_spec(o: CycleOutcome) -> u64 {
    match o {
        CycleOutcome::Sleep(ms) => ms,
        CycleOutcome::Failed(_) => RETRY_DELAY_MS,
    }
}

/// The wait before the next cycle: the cycle's own, or the fixed retry delay.
pub fn delay_after(o: CycleOutcome) -> (r: u64)
    ensures
        r == delay_after_spec(o),
{
    match o {
        CycleOutcome::Sleep(ms) => ms,
        CycleOutcome::Failed(_) => RETRY_DELAY_MS,
    }
}

/// Settings fixed at process start.
#[derive(Clone, Copy, Debug, PartialEq, Eq, Structural)]
pub struct ControlConfig {
    /// Whether decisions are written to the device (else only computed).
    pub control: bool,
    /// A maximum rate that replaces any computed one.
    pub override_rate: Option<u16>,
    /// The mapping from supply target to base maximum rate.
    pub mapping: RateMapping,
}

/// What the caller reports back after performing an action.
#[derive(Clone, Copy, Debug, PartialEq, Eq)]
pub enum Event {
    /// The result of reading the requested register.
    Read(Result<u16, BusError>),
    /// The result of delivering the telemetry record.
    Emitted(Result<(), SinkError>),
    /// The trimmer's output, rounded down to an integer.
    Trimmed(i64),
    /// The trimmer's integral term was zeroed.
    IntegralReset,
    /// The result of writing the requested register.
    Written(Result<(), BusError>),
}

/// What the caller must do next.
#[derive(Clone, Copy, Debug, PartialEq, Eq)]
pub enum Action {
    /// Read one register.
    ReadRegister(RegisterId),
    /// Deliver the snapshot to the telemetry sink.
    Emit(BoilerSnapshot),
    /// Advance the feedback trimmer on this indoor reading (thousandths of a degree).
    Trim(i32),
    /// Zero the feedback trimmer's integral term.
    ResetIntegral,
    /// Write one register.
    WriteRegister(RegisterId, u16),
    /// The cycle is over.
    Done(CycleOutcome),
}

/// Where a cycle stands.
#[derive(Clone, Copy, Debug, PartialEq, Eq)]
pub enum Phase {
    Reading,
    Emitting(BoilerSnapshot),
    AwaitTrim(BoilerSnapshot, u16),
    AwaitActiveReset(BoilerSnapshot, u16),
    AwaitIdleReset(BoilerSnapshot),
    AwaitRateWrite(BoilerSnapshot, bool),
    AwaitAdjustWrite(BoilerSnapshot),
    Finished(CycleOutcome),
}

/// The abstract state of a cycle.
pub struct CycleState {
    pub config: ControlConfig,
    pub indoor_milli: Option<i32>,
    pub captured_at_micros: i64,
    pub reads: Seq<u16>,
    pub phase: Phase,
}

/// Reads are gathered only while fewer than all registers have been read,
/// the rate mapping is well formed, and a trim waits on a base rate no
/// lower than the mapping's floor.
pub open spec fn state_wf(st: CycleState) -> bool {
    &&& st.config.mapping.wf()
    &&& st.phase is Reading ==> st.reads.len() < REGISTER_COUNT
    &&& match st.phase {
        Phase::AwaitTrim(_, base) => st.config.mapping.floor <= base,
        _ => true,
    }
}

/// Whether an event answers the action that the phase waits on.
pub open spec fn accepts_spec(phase: Phase, e: Event) -> bool {
    match phase {
        Phase::Reading => e is Read,
        Phase::Emitting(_) => e is Emitted,
        Phase::AwaitTrim(_, _) => e is Trimmed,
        Phase::AwaitActiveReset(_, _) => e is IntegralReset,
        Phase::AwaitIdleReset(_) => e is IntegralReset,
        Phase::AwaitRateWrite(_, _) => e is Written,
        Phase::AwaitAdjustWrite(_) => e is Written,
        Phase::Finished(_) => false,
    }
}

/// The delay owed after a completed cycle on this snapshot.
pub open spec fn completed_delay(s: BoilerSnapshot) -> u64 {
    if is_warm(s) {
        LONG_DELAY_MS
    } else {
        SHORT_DELAY_MS
    }
}

/// Ends the cycle successfully.
pub open spec fn complete(s: BoilerSnapshot) -> (Phase, Action) {
    (
        Phase::Finished(CycleOutcome::Sleep(completed_delay(s))),
        Action::Done(CycleOutcome::Sleep(completed_delay(s))),
    )
}

/// Aborts the cycle.
pub open spec fn abort(e: CycleError) -> (Phase, Action) {
    (Phase::Finished(CycleOutcome::Failed(e)), Action::Done(CycleOutcome::Failed(e)))
}

/// A running boiler, once its rate before override is known.
pub open spec fn settle_active(cfg: ControlConfig, s: BoilerSnapshot, rate: u16) -> (Phase, Action) {
    let chosen = chosen_rate(cfg.override_rate, rate);
    if chosen != s.max_rate && cfg.control {
        (Phase::AwaitRateWrite(s, false), Action::WriteRegister(RegisterId::MaxRate, chosen))
    } else {
        complete(s)
    }
}

/// An idle boiler, after the outdoor-adjust offset has been looked at.
pub open spec fn idle_adjust(cfg: ControlConfig, s: BoilerSnapshot) -> (Phase, Action) {
    if s.outdoor_temp_adjust != 0 && cfg.control {
        (Phase::AwaitAdjustWrite(s), Action::WriteRegister(RegisterId::OdAdjust, 0))
    } else {
        complete(s)
    }
}

/// An idle boiler, once the trimmer's integral term is zeroed.
pub open spec fn idle_after_reset(cfg: ControlConfig, s: BoilerSnapshot) -> (Phase, Action) {
    if s.max_rate < IDLE_RATE && cfg.control {
        (Phase::AwaitRateWrite(s, true), Action::WriteRegister(RegisterId::MaxRate, IDLE_RATE))
    } else {
        idle_adjust(cfg, s)
    }
}

/// The policy, entered once telemetry has been delivered.
pub open spec fn policy_start(cfg: ControlConfig, s: BoilerSnapshot) -> (Phase, Action) {
    if s.boiler_status != STATUS_IDLE {
        let base = base_rate_spec(cfg.mapping, resolved_target(s)) as u16;
        match trim_request_spec(base as int, s.indoor_milli) {
            TrimRequest::Compute(t) => (Phase::AwaitTrim(s, base), Action::Trim(t)),
            TrimRequest::ResetIntegral => (
                Phase::AwaitActiveReset(s, base),
                Action::ResetIntegral,
            ),
            TrimRequest::Leave => settle_active(cfg, s, base),
        }
    } else {
        (Phase::AwaitIdleReset(s), Action::ResetIntegral)
    }
}

/// The phase and action that follow an accepted event. (An event that the
/// phase does not accept is refused by `Cycle::step`; the arms for it only
/// complete the definition.)
pub open spec fn phase_step(st: CycleState, e: Event) -> (Phase, Action) {
    match st.phase {
        Phase::Reading => match e {
            Event::Read(Ok(v)) => {
                let rs = st.reads.push(v);
                if rs.len() < REGISTER_COUNT {
                    (Phase::Reading, Action::ReadRegister(register_at(rs.len() as int)))
                } else {
                    let s = snapshot_of(rs, st.indoor_milli, st.captured_at_micros);
                    (Phase::Emitting(s), Action::Emit(s))
                }
            },
            Event::Read(Err(b)) => abort(CycleError::Bus(b)),
            _ => (st.phase, Action::ResetIntegral),
        },
        Phase::Emitting(s) => match e {
            Event::Emitted(Ok(_)) => policy_start(st.config, s),
            Event::Emitted(Err(k)) => abort(CycleError::Telemetry(k)),
            _ => (st.phase, Action::ResetIntegral),
        },
        Phase::AwaitTrim(s, base) => match e {
            Event::Trimmed(o) => settle_active(
                st.config,
                s,
                trimmed_rate_spec(st.config.mapping.floor as int, base as int, o as int) as u16,
            ),
            _ => (st.phase, Action::ResetIntegral),
        },
        Phase::AwaitActiveReset(s, base) => settle_active(st.config, s, base),
        Phase::AwaitIdleReset(s) => idle_after_reset(st.config, s),
        Phase::AwaitRateWrite(s, idle) => match e {
            Event::Written(Err(b)) => abort(CycleError::Bus(b)),
            _ => if idle {
                idle_adjust(st.config, s)
            } else {
                complete(s)
            },
        },
        Phase::AwaitAdjustWrite(s) => complete(s),
        Phase::Finished(_) => (st.phase, Action::ResetIntegral),
    }
}

/// The reads held after an accepted event.
pub open spec fn reads_step(st: CycleState, e: Event) -> Seq<u16> {
    match (st.phase, e) {
        (Phase::Reading, Event::Read(Ok(v))) => st.reads.push(v),
        _ => st.reads,
    }
}

/// One control cycle: reads the snapshot, delivers telemetry, applies the
/// modulation-rate policy and settles on the delay before the next cycle.
pub struct Cycle {
    config: ControlConfig,
    indoor_milli: Option<i32>,
    captured_at_micros: i64,
    reads: Vec<u16>,
    phase: Phase,
}

impl View for Cycle {
    type V = CycleState;

    closed spec fn view(&self) -> CycleState {
        CycleState {
            config: self.config,
            indoor_milli: self.indoor_milli,
            captured_at_micros: self.captured_at_micros,
            reads: self.reads@,
            phase: self.phase,
        }
    }
}

fn complete_exec(s: BoilerSnapshot) -> (r: (Phase, Action))
    ensures
        r == complete(s),
{
    let o = CycleOutcome::Sleep(next_delay(&s));
    (Phase::Finished(o), Action::Done(o))
}

fn settle_active_exec(cfg: ControlConfig, s: BoilerSnapshot, rate: u16) -> (r: (Phase, Action))
    ensures
        r == settle_active(cfg, s, rate),
{
    let chosen = choose_rate(cfg.override_rate, rate);
    if chosen != s.max_rate && cfg.control {
        (Phase::AwaitRateWrite(s, false), Action::WriteRegister(RegisterId::MaxRate, chosen))
    } else {
        complete_exec(s)
    }
}

fn idle_adjust_exec(cfg: ControlConfig, s: BoilerSnapshot) -> (r: (Phase, Action))
    ensures
        r == idle_adjust(cfg, s),
{
    if s.outdoor_temp_adjust != 0 && cfg.control {
        (Phase::AwaitAdjustWrite(s), Action::WriteRegister(RegisterId::OdAdjust, 0))
    } else {
        complete_exec(s)
    }
}

fn idle_after_reset_exec(cfg: ControlConfig, s: BoilerSnapshot) -> (r: (Phase, Action))
    ensures
        r == idle_after_reset(cfg, s),
{
    match idle_rate_write(s.max_rate) {
        Some(rate) if cfg.control => (
            Phase::AwaitRateWrite(s, true),
            Action::WriteRegister(RegisterId::MaxRate, rate),
        ),
        _ => idle_adjust_exec(cfg, s),
    }
}

fn policy_start_exec(cfg: ControlConfig, s: BoilerSnapshot) -> (r: (Phase, Action))
    requires
        cfg.mapping.wf(),
    ensures
        r == policy_start(cfg, s),
        match r.0 {
            Phase::AwaitTrim(_, base) => cfg.mapping.floor <= base,
            _ => true,
        },
{
    if s.boiler_status != STATUS_IDLE {
        let base = base_max_rate(&cfg.mapping, resolve_target_temp(&s));
        match trim_request(base, s.indoor_milli) {
            TrimRequest::Compute(t) => (Phase::AwaitTrim(s, base), Action::Trim(t)),
            TrimRequest::ResetIntegral => (
                Phase::AwaitActiveReset(s, base),
                Action::ResetIntegral,
            ),
            TrimRequest::Leave => settle_active_exec(cfg, s, base),
        }
    } else {
        (Phase::AwaitIdleReset(s), Action::ResetIntegral)
    }
}

impl Cycle {
    pub open spec fn wf(&self) -> bool {
        state_wf(self@)
    }

    /// Begins a cycle; the first action reads the first register.
    pub fn start(config: ControlConfig, indoor_milli: Option<i32>, captured_at_micros: i64) -> (r: (
        Cycle,
        Action,
    ))
        requires
            config.mapping.wf(),
        ensures
            r.0.wf(),
            r.0@.config == config,
            r.0@.indoor_milli == indoor_milli,
            r.0@.captured_at_micros == captured_at_micros,
            r.0@.reads.len() == 0,
            r.0@.phase == Phase::Reading,
            r.1 == Action::ReadRegister(register_at(0)),
    {
        let c = Cycle { config, indoor_milli, captured_at_micros, reads: Vec::new(), phase: Phase::Reading };
        (c, Action::ReadRegister(RegisterId::in_snapshot_order(0)))
    }

    /// Whether the cycle waits for this kind of event.
    pub fn accepts(&self, e: &Event) -> (r: bool)
        ensures
            r == accepts_spec(self@.phase, *e),
    {
        match (self.phase, e) {
            (Phase::Reading, Event::Read(_)) => true,
            (Phase::Emitting(_), Event::Emitted(_)) => true,
            (Phase::AwaitTrim(_, _), Event::Trimmed(_)) => true,
            (Phase::AwaitActiveReset(_, _), Event::IntegralReset) => true,
            (Phase::AwaitIdleReset(_), Event::IntegralReset) => true,
            (Phase::AwaitRateWrite(_, _), Event::Written(_)) => true,
            (Phase::AwaitAdjustWrite(_), Event::Written(_)) => true,
            _ => false,
        }
    }

    /// Whether the cycle is over, and how it ended.
    pub fn outcome(&self) -> (r: Option<CycleOutcome>)
        ensures
            r == (match self@.phase {
                Phase::Finished(o) => Some(o),
                _ => None::<CycleOutcome>,
            }),
    {
        match self.phase {
            Phase::Finished(o) => Some(o),
            _ => None,
        }
    }

    /// Takes the result of the last action and returns the next one.
    pub fn step(&mut self, e: Event) -> (r: Action)
        requires
            old(self).wf(),
            accepts_spec(old(self)@.phase, e),
        ensures
            final(self).wf(),
            final(self)@.config == old(self)@.config,
            final(self)@.indoor_milli == old(self)@.indoor_milli,
            final(self)@.captured_at_micros == old(self)@.captured_at_micros,
            final(self)@.reads == reads_step(old(self)@, e),
            (final(self)@.phase, r) == phase_step(old(self)@, e),
    {
        let cfg = self.config;
        let next: (Phase, Action) = match self.phase {
            Phase::Reading => match e {
                Event::Read(Ok(v)) => {
                    self.reads.push(v);
                    if self.reads.len() < REGISTER_COUNT {
                        (
                            Phase::Reading,
                            Action::ReadRegister(RegisterId::in_snapshot_order(self.reads.len())),
                        )
                    } else {
                        let s = BoilerSnapshot::from_reads(
                            &self.reads,
                            self.indoor_milli,
                            self.captured_at_micros,
                        );
                        (Phase::Emitting(s), Action::Emit(s))
                    }
                },
                Event::Read(Err(b)) => {
                    let o = CycleOutcome::Failed(CycleError::Bus(b));
                    (Phase::Finished(o), Action::Done(o))
                },
                _ => (self.phase, Action::ResetIntegral),
            },
            Phase::Emitting(s) => match e {
                Event::Emitted(Ok(_)) => policy_start_exec(cfg, s),
                Event::Emitted(Err(k)) => {
                    let o = CycleOutcome::Failed(CycleError::Telemetry(k));
                    (Phase::Finished(o), Action::Done(o))
                },
                _ => (self.phase, Action::ResetIntegral),
            },
            Phase::AwaitTrim(s, base) => match e {
                Event::Trimmed(o) => {
                    settle_active_exec(cfg, s, trimmed_rate(cfg.mapping.floor, base, o))
                },
                _ => (self.phase, Action::ResetIntegral),
            },
            Phase::AwaitActiveReset(s, base) => settle_active_exec(cfg, s, base),
            Phase::AwaitIdleReset(s) => idle_after_reset_exec(cfg, s),
            Phase::AwaitRateWrite(s, idle) => match e {
                Event::Written(Err(b)) => {
                    let o = CycleOutcome::Failed(CycleError::Bus(b));
                    (Phase::Finished(o), Action::Done(o))
                },
                _ => if idle {
                    idle_adjust_exec(cfg, s)
                } else {
                    complete_exec(s)
                },
            },
            Phase::AwaitAdjustWrite(s) => complete_exec(s),
            Phase::Finished(_) => (self.phase, Action::ResetIntegral),
        };
        self.phase = next.0;
        next.1
    }
}

/// With feedback engaged, the rate taken from the trimmer lies between the
/// floor and the base rate; without an override, that is the rate written.
pub proof fn lemma_feedback_rate_within_base(st: CycleState, o: i64)
    requires
        state_wf(st),
        st.phase is AwaitTrim,
    ensures
        ({
            let base = st.phase->AwaitTrim_1;
            let rate = trimmed_rate_spec(st.config.mapping.floor as int, base as int, o as int);
            &&& st.config.mapping.floor <= rate <= base
            &&& st.config.override_rate is None ==> match phase_step(st, Event::Trimmed(o)).1 {
                Action::WriteRegister(id, v) => id == RegisterId::MaxRate && v == rate,
                _ => true,
            }
        }),
{
}

/// An override replaces whatever rate was computed: it is the only rate a
/// running boiler is ever written.
pub proof fn lemma_override_wins(cfg: ControlConfig, s: BoilerSnapshot, rate: u16)
    requires
        cfg.override_rate is Some,
    ensures
        settle_active(cfg, s, rate).1 == (if cfg.override_rate->0 != s.max_rate && cfg.control {
            Action::WriteRegister(RegisterId::MaxRate, cfg.override_rate->0)
        } else {
            Action::Done(CycleOutcome::Sleep(completed_delay(s)))
        }),
{
}

/// An idle boiler always has the trimmer's integral zeroed; then a maximum
/// rate below the idle rate is raised to it, and a higher one is not written.
pub proof fn lemma_idle_raises_only_low_rate(cfg: ControlConfig, s: BoilerSnapshot)
    requires
        s.boiler_status == STATUS_IDLE,
        cfg.control,
    ensures
        policy_start(cfg, s) == (Phase::AwaitIdleReset(s), Action::ResetIntegral),
        s.max_rate < IDLE_RATE ==> idle_after_reset(cfg, s).1 == Action::WriteRegister(
            RegisterId::MaxRate,
            IDLE_RATE,
        ),
        s.max_rate >= IDLE_RATE ==> match idle_after_reset(cfg, s).1 {
            Action::WriteRegister(id, _) => id != RegisterId::MaxRate,
            _ => true,
        },
{
}

/// An idle boiler with a nonzero outdoor-adjust offset has it written to
/// zero, and a failure of that write still completes the cycle.
pub proof fn lemma_idle_adjust_reset_is_not_critical(st: CycleState, b: BusError)
    requires
        st.config.control,
    ensures
        (st.phase is AwaitIdleReset && st.phase->AwaitIdleReset_0.max_rate >= IDLE_RATE
            && st.phase->AwaitIdleReset_0.outdoor_temp_adjust != 0) ==> phase_step(
            st,
            Event::IntegralReset,
        ).1 == Action::WriteRegister(RegisterId::OdAdjust, 0),
        (st.phase is AwaitRateWrite && st.phase->AwaitRateWrite_1
            && st.phase->AwaitRateWrite_0.outdoor_temp_adjust != 0) ==> phase_step(
            st,
            Event::Written(Ok(())),
        ).1 == Action::WriteRegister(RegisterId::OdAdjust, 0),
        st.phase is AwaitAdjustWrite ==> phase_step(st, Event::Written(Err(b))) == complete(
            st.phase->AwaitAdjustWrite_0,
        ),
{
}

/// A failed register read ends the cycle at once with that error: no
/// telemetry is delivered and the policy is not run, since a finished cycle
/// accepts no further event.
pub proof fn lemma_read_failure_aborts(st: CycleState, b: BusError, e: Event)
    requires
        st.phase is Reading,
    ensures
        phase_step(st, Event::Read(Err(b))) == abort(CycleError::Bus(b)),
        !accepts_spec(abort(CycleError::Bus(b)).0, e),
{
}

/// Telemetry is emitted only once every register has been read, and it
/// carries exactly those reads.
pub proof fn lemma_emit_needs_all_reads(st: CycleState, e: Event)
    requires
        state_wf(st),
        st.phase is Reading,
        phase_step(st, e).1 is Emit,
    ensures
        e is Read && e->Read_0 is Ok,
        reads_step(st, e).len() == REGISTER_COUNT,
        phase_step(st, e).1 == Action::Emit(
            snapshot_of(reads_step(st, e), st.indoor_milli, st.captured_at_micros),
        ),
{
}

} // verus!
