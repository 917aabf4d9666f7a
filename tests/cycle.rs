use boilercontrol::cycle::{
    delay_after, Action, BusError, ControlConfig, Cycle, CycleError, CycleOutcome, Event, SinkError,
};
use boilercontrol::policy::RateMapping;
use boilercontrol::registers::RegisterId;
use boilercontrol::snapshot::BoilerSnapshot;

struct Device {
    status: u16,
    target: u16,
    outdoor: u16,
    od_adjust: u16,
    max_rate: u16,
}

impl Device {
    fn value(&self, id: RegisterId) -> u16 {
        match id {
            RegisterId::BoilerStatus => self.status,
            RegisterId::BoilerTargetTemp => self.target,
            RegisterId::OutdoorTemp => self.outdoor,
            RegisterId::OdAdjust => self.od_adjust,
            RegisterId::MaxRate => self.max_rate,
            _ => 7,
        }
    }
}

/// Answers every read from the device and returns the cycle with the
/// action that follows the last read, after checking the emitted snapshot.
fn read_all(config: ControlConfig, indoor: Option<i32>, dev: &Device) -> (Cycle, BoilerSnapshot) {
    let (mut cycle, mut action) = Cycle::start(config, indoor, 1_000);
    let mut n = 0;
    loop {
        match action {
            Action::ReadRegister(id) => {
                n += 1;
                action = cycle.step(Event::Read(Ok(dev.value(id))));
            }
            Action::Emit(s) => {
                assert_eq!(n, 18);
                assert_eq!(s.max_rate, dev.max_rate);
                assert_eq!(s.boiler_status, dev.status);
                assert_eq!(s.indoor_milli, indoor);
                assert_eq!(s.captured_at_micros, 1_000);
                return (cycle, s);
            }
            other => panic!("unexpected action {:?}", other),
        }
    }
}

fn emit_ok(cycle: &mut Cycle) -> Action {
    let e = Event::Emitted(Ok(()));
    assert!(cycle.accepts(&e));
    cycle.step(e)
}

fn control() -> ControlConfig {
    ControlConfig { control: true, override_rate: None, mapping: RateMapping::standard() }
}

#[test]
fn internal_reset_without_indoor_writes_mapped_rate() {
    let dev = Device { status: 131, target: 130, outdoor: 40, od_adjust: 0, max_rate: 30 };
    let (mut cycle, _) = read_all(control(), None, &dev);
    assert_eq!(emit_ok(&mut cycle), Action::WriteRegister(RegisterId::MaxRate, 41));
    assert_eq!(cycle.step(Event::Written(Ok(()))), Action::Done(CycleOutcome::Sleep(30_000)));
    assert_eq!(cycle.outcome(), Some(CycleOutcome::Sleep(30_000)));
}

#[test]
fn internal_reset_rate_already_set_writes_nothing() {
    let dev = Device { status: 131, target: 130, outdoor: 40, od_adjust: 0, max_rate: 41 };
    let (mut cycle, _) = read_all(control(), None, &dev);
    assert_eq!(emit_ok(&mut cycle), Action::Done(CycleOutcome::Sleep(30_000)));
}

#[test]
fn near_setpoint_invokes_trimmer_and_clamps() {
    // outdoor 0 -> target 155 -> base 66
    let dev = Device { status: 5, target: 0, outdoor: 0, od_adjust: 0, max_rate: 30 };
    let (mut cycle, _) = read_all(control(), Some(19_800), &dev);
    assert_eq!(emit_ok(&mut cycle), Action::Trim(19_800));
    assert_eq!(cycle.step(Event::Trimmed(500)), Action::WriteRegister(RegisterId::MaxRate, 66));

    let (mut cycle, _) = read_all(control(), Some(19_800), &dev);
    emit_ok(&mut cycle);
    assert_eq!(cycle.step(Event::Trimmed(-80)), Action::WriteRegister(RegisterId::MaxRate, 21));

    let (mut cycle, _) = read_all(control(), Some(19_800), &dev);
    emit_ok(&mut cycle);
    assert_eq!(cycle.step(Event::Trimmed(20)), Action::WriteRegister(RegisterId::MaxRate, 41));
}

#[test]
fn small_base_rate_resets_integral() {
    // device target 100 -> base 21, not above 24
    let dev = Device { status: 131, target: 100, outdoor: 0, od_adjust: 0, max_rate: 21 };
    let (mut cycle, _) = read_all(control(), Some(19_700), &dev);
    assert_eq!(emit_ok(&mut cycle), Action::ResetIntegral);
    assert_eq!(cycle.step(Event::IntegralReset), Action::Done(CycleOutcome::Sleep(30_000)));
}

#[test]
fn override_always_wins() {
    let config = ControlConfig { control: true, override_rate: Some(33), mapping: RateMapping::standard() };
    let dev = Device { status: 5, target: 0, outdoor: 0, od_adjust: 0, max_rate: 30 };
    let (mut cycle, _) = read_all(config, Some(19_800), &dev);
    emit_ok(&mut cycle);
    assert_eq!(cycle.step(Event::Trimmed(3)), Action::WriteRegister(RegisterId::MaxRate, 33));

    let (mut cycle, _) = read_all(config, None, &dev);
    assert_eq!(emit_ok(&mut cycle), Action::WriteRegister(RegisterId::MaxRate, 33));
}

#[test]
fn tuned_mapping_drives_rate() {
    let steep = RateMapping { low_target: 110, high_target: 125, floor: 21, step: 2, ceiling: 96 };
    let config = ControlConfig { control: true, override_rate: None, mapping: steep };
    let dev = Device { status: 131, target: 120, outdoor: 40, od_adjust: 0, max_rate: 30 };
    let (mut cycle, _) = read_all(config, None, &dev);
    assert_eq!(emit_ok(&mut cycle), Action::WriteRegister(RegisterId::MaxRate, 41));
}

#[test]
fn dry_run_writes_nothing() {
    let config = ControlConfig { control: false, override_rate: None, mapping: RateMapping::standard() };
    let dev = Device { status: 131, target: 130, outdoor: 40, od_adjust: 3, max_rate: 30 };
    let (mut cycle, _) = read_all(config, None, &dev);
    assert_eq!(emit_ok(&mut cycle), Action::Done(CycleOutcome::Sleep(30_000)));

    let idle = Device { status: 0, target: 0, outdoor: 40, od_adjust: 3, max_rate: 30 };
    let (mut cycle, _) = read_all(config, None, &idle);
    assert_eq!(emit_ok(&mut cycle), Action::ResetIntegral);
    assert_eq!(cycle.step(Event::IntegralReset), Action::Done(CycleOutcome::Sleep(30_000)));
}

#[test]
fn idle_low_rate_is_raised_to_fifty() {
    let dev = Device { status: 0, target: 0, outdoor: 40, od_adjust: 0, max_rate: 30 };
    let (mut cycle, _) = read_all(control(), None, &dev);
    assert_eq!(emit_ok(&mut cycle), Action::ResetIntegral);
    assert_eq!(cycle.step(Event::IntegralReset), Action::WriteRegister(RegisterId::MaxRate, 50));
    assert_eq!(cycle.step(Event::Written(Ok(()))), Action::Done(CycleOutcome::Sleep(30_000)));
}

#[test]
fn idle_high_rate_is_left_alone() {
    let dev = Device { status: 0, target: 0, outdoor: 40, od_adjust: 0, max_rate: 60 };
    let (mut cycle, _) = read_all(control(), None, &dev);
    assert_eq!(emit_ok(&mut cycle), Action::ResetIntegral);
    assert_eq!(cycle.step(Event::IntegralReset), Action::Done(CycleOutcome::Sleep(30_000)));
}

#[test]
fn idle_adjust_write_failure_is_swallowed() {
    let dev = Device { status: 0, target: 0, outdoor: 40, od_adjust: 5, max_rate: 60 };
    let (mut cycle, _) = read_all(control(), None, &dev);
    assert_eq!(emit_ok(&mut cycle), Action::ResetIntegral);
    assert_eq!(cycle.step(Event::IntegralReset), Action::WriteRegister(RegisterId::OdAdjust, 0));
    let done = cycle.step(Event::Written(Err(BusError::Timeout)));
    assert_eq!(done, Action::Done(CycleOutcome::Sleep(30_000)));
}

#[test]
fn idle_raises_rate_then_resets_adjust() {
    let dev = Device { status: 0, target: 0, outdoor: 40, od_adjust: 5, max_rate: 30 };
    let (mut cycle, _) = read_all(control(), None, &dev);
    emit_ok(&mut cycle);
    assert_eq!(cycle.step(Event::IntegralReset), Action::WriteRegister(RegisterId::MaxRate, 50));
    assert_eq!(cycle.step(Event::Written(Ok(()))), Action::WriteRegister(RegisterId::OdAdjust, 0));
    assert_eq!(cycle.step(Event::Written(Ok(()))), Action::Done(CycleOutcome::Sleep(30_000)));
}

#[test]
fn rate_write_failure_aborts_cycle() {
    let dev = Device { status: 0, target: 0, outdoor: 40, od_adjust: 5, max_rate: 30 };
    let (mut cycle, _) = read_all(control(), None, &dev);
    emit_ok(&mut cycle);
    cycle.step(Event::IntegralReset);
    let failed = CycleOutcome::Failed(CycleError::Bus(BusError::Protocol));
    assert_eq!(cycle.step(Event::Written(Err(BusError::Protocol))), Action::Done(failed));
}

#[test]
fn read_failure_skips_telemetry_and_policy() {
    let (mut cycle, first) = Cycle::start(control(), Some(19_800), 5);
    assert_eq!(first, Action::ReadRegister(RegisterId::OutputTemp));
    assert_eq!(cycle.step(Event::Read(Ok(1))), Action::ReadRegister(RegisterId::BoilerTargetTemp));
    let failed = CycleOutcome::Failed(CycleError::Bus(BusError::Timeout));
    assert_eq!(cycle.step(Event::Read(Err(BusError::Timeout))), Action::Done(failed));
    assert!(!cycle.accepts(&Event::Emitted(Ok(()))));
    assert!(!cycle.accepts(&Event::Read(Ok(1))));
    assert_eq!(cycle.outcome(), Some(failed));
    assert_eq!(delay_after(failed), 30_000);
}

#[test]
fn telemetry_failure_aborts_cycle() {
    let dev = Device { status: 0, target: 0, outdoor: 40, od_adjust: 0, max_rate: 30 };
    let (mut cycle, _) = read_all(control(), None, &dev);
    let failed = CycleOutcome::Failed(CycleError::Telemetry(SinkError::Persistence));
    assert_eq!(cycle.step(Event::Emitted(Err(SinkError::Persistence))), Action::Done(failed));
}

#[test]
fn warm_conditions_lengthen_delay() {
    let warm_out = Device { status: 0, target: 0, outdoor: 71, od_adjust: 0, max_rate: 60 };
    let (mut cycle, _) = read_all(control(), None, &warm_out);
    emit_ok(&mut cycle);
    assert_eq!(cycle.step(Event::IntegralReset), Action::Done(CycleOutcome::Sleep(300_000)));

    let edge = Device { status: 0, target: 0, outdoor: 70, od_adjust: 0, max_rate: 60 };
    let (mut cycle, _) = read_all(control(), Some(72_001), &edge);
    emit_ok(&mut cycle);
    assert_eq!(cycle.step(Event::IntegralReset), Action::Done(CycleOutcome::Sleep(300_000)));

    let (mut cycle, _) = read_all(control(), Some(72_000), &edge);
    emit_ok(&mut cycle);
    assert_eq!(cycle.step(Event::IntegralReset), Action::Done(CycleOutcome::Sleep(30_000)));
    assert_eq!(delay_after(CycleOutcome::Sleep(300_000)), 300_000);
}

#[test]
fn snapshot_fields_follow_read_order() {
    let (mut cycle, mut action) = Cycle::start(control(), None, 9);
    let mut v: u16 = 100;
    loop {
        match action {
            Action::ReadRegister(_) => {
                action = cycle.step(Event::Read(Ok(v)));
                v += 1;
            }
            Action::Emit(s) => {
                assert_eq!(s.output_temp, 100);
                assert_eq!(s.boiler_target_temp, 101);
                assert_eq!(s.boiler_status, 102);
                assert_eq!(s.outdoor_temp, 103);
                assert_eq!(s.boiler_modulation_rate, 115);
                assert_eq!(s.outdoor_temp_adjust, 116);
                assert_eq!(s.max_rate, 117);
                assert_eq!(s.value_of(RegisterId::ReturnTemp), 114);
                break;
            }
            other => panic!("unexpected action {:?}", other),
        }
    }
}
