use board_drivers::axs5106::{self, touch_error};
use board_drivers::bus::{Fault, PanelOp, PlanRun};
use board_drivers::jd9853::{self, panel_error};
use board_drivers::qmi8658::{self, sensor_error};

fn plan() -> Vec<PanelOp> {
    vec![PanelOp::SetDc(false), PanelOp::Write(vec![0x01]), PanelOp::DelayMs(20)]
}

#[test]
fn run_hands_out_every_operation_when_all_succeed() {
    let mut run: PlanRun<PanelOp, u8, u8> = PlanRun::new(plan());
    let mut seen = Vec::new();
    while let Some(op) = run.next() {
        seen.push(op.clone());
        run.record(Ok(()));
    }
    assert_eq!(seen, plan());
    assert_eq!(run.finish(), (plan(), Ok(())));
}

#[test]
fn run_stops_at_first_failure() {
    let mut run: PlanRun<PanelOp, u8, u8> = PlanRun::new(plan());
    assert_eq!(run.next(), Some(&PanelOp::SetDc(false)));
    run.record(Ok(()));
    assert_eq!(run.next(), Some(&PanelOp::Write(vec![0x01])));
    run.record(Err(Fault::Bus(7)));
    assert_eq!(run.next(), None);
    assert_eq!(run.finish(), (vec![PanelOp::SetDc(false)], Err(Fault::Bus(7))));
}

#[test]
fn run_failing_first_operation_performs_nothing() {
    let mut run: PlanRun<PanelOp, u8, u8> = PlanRun::new(plan());
    run.record(Err(Fault::Pin(3)));
    assert_eq!(run.next(), None);
    assert_eq!(run.finish(), (vec![], Err(Fault::Pin(3))));
}

#[test]
fn empty_plan_is_finished_at_once() {
    let run: PlanRun<PanelOp, u8, u8> = PlanRun::new(vec![]);
    assert_eq!(run.next(), None);
    assert_eq!(run.finish(), (vec![], Ok(())));
}

#[test]
fn failures_map_to_driver_errors() {
    assert_eq!(panel_error::<u8, u16>(Fault::Bus(1)), jd9853::Error::Spi(1));
    assert_eq!(panel_error::<u8, u16>(Fault::Pin(2)), jd9853::Error::Pin(2));
    assert_eq!(touch_error::<u8, u16>(Fault::Bus(3)), axs5106::Error::I2c(3));
    assert_eq!(touch_error::<u8, u16>(Fault::Pin(4)), axs5106::Error::Pin(4));
    assert_eq!(sensor_error::<u8, u16>(Fault::Bus(5)), qmi8658::Error::I2c(5));
}
