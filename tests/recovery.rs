use std::cell::RefCell;
use vban_sink::sink::{
    write_with_recovery, DeviceError, VbanSink, WriteAction, WriteRecovery, WriteStage, WriteStep,
};

struct Scripted {
    writes: RefCell<Vec<Result<(), DeviceError>>>,
    recoveries: RefCell<Vec<Result<(), DeviceError>>>,
    log: RefCell<Vec<String>>,
}

impl Scripted {
    fn new(writes: Vec<Result<(), DeviceError>>, recoveries: Vec<Result<(), DeviceError>>) -> Self {
        Scripted { writes: RefCell::new(writes), recoveries: RefCell::new(recoveries), log: RefCell::new(Vec::new()) }
    }
}

impl VbanSink for Scripted {
    fn write(&self, buf: &[i16]) -> Result<(), DeviceError> {
        self.log.borrow_mut().push(format!("write {}", buf.len()));
        self.writes.borrow_mut().remove(0)
    }

    fn recover(&self, err: DeviceError) -> Result<(), DeviceError> {
        self.log.borrow_mut().push(format!("recover {}", err.errno));
        self.recoveries.borrow_mut().remove(0)
    }
}

const UNDERRUN: DeviceError = DeviceError { errno: -32 };
const BAD_STATE: DeviceError = DeviceError { errno: -77 };

#[test]
fn successful_write_needs_no_recovery() {
    let sink = Scripted::new(vec![Ok(())], vec![]);
    let (r, steps) = write_with_recovery(&sink, &[1, 2, 3]);
    assert_eq!(r, Ok(()));
    assert_eq!(steps, vec![WriteStep::Wrote(Ok(()))]);
    assert_eq!(*sink.log.borrow(), vec!["write 3"]);
}

#[test]
fn underrun_is_recovered_and_written_again() {
    let sink = Scripted::new(vec![Err(UNDERRUN), Ok(())], vec![Ok(())]);
    let (r, steps) = write_with_recovery(&sink, &[1, 2]);
    assert_eq!(r, Ok(()));
    assert_eq!(steps, vec![
        WriteStep::Wrote(Err(UNDERRUN)),
        WriteStep::Recovered(UNDERRUN, Ok(())),
        WriteStep::Wrote(Ok(())),
    ]);
    assert_eq!(*sink.log.borrow(), vec!["write 2", "recover -32", "write 2"]);
}

#[test]
fn second_failure_is_reported() {
    let sink = Scripted::new(vec![Err(UNDERRUN), Err(UNDERRUN), Ok(())], vec![Ok(()), Ok(())]);
    let (r, steps) = write_with_recovery(&sink, &[1]);
    assert_eq!(r, Err(UNDERRUN));
    assert_eq!(steps.len(), 3);
    assert_eq!(*sink.log.borrow(), vec!["write 1", "recover -32", "write 1"]);
}

#[test]
fn failed_recovery_is_reported() {
    let sink = Scripted::new(vec![Err(UNDERRUN)], vec![Err(BAD_STATE)]);
    let (r, steps) = write_with_recovery(&sink, &[1]);
    assert_eq!(r, Err(BAD_STATE));
    assert_eq!(steps, vec![WriteStep::Wrote(Err(UNDERRUN)), WriteStep::Recovered(UNDERRUN, Err(BAD_STATE))]);
    assert_eq!(*sink.log.borrow(), vec!["write 1", "recover -32"]);
}

#[test]
fn unrecoverable_fault_is_not_retried() {
    let sink = Scripted::new(vec![Err(BAD_STATE)], vec![]);
    let (r, steps) = write_with_recovery(&sink, &[1]);
    assert_eq!(r, Err(BAD_STATE));
    assert_eq!(steps, vec![WriteStep::Wrote(Err(BAD_STATE))]);
    assert_eq!(*sink.log.borrow(), vec!["write 1"]);
}

#[test]
fn recoverable_error_numbers() {
    for errno in [32, -32, 86, -86, 4, -4] {
        assert!(DeviceError { errno }.is_recoverable());
    }
    for errno in [0, 5, -77, 31] {
        assert!(!DeviceError { errno }.is_recoverable());
    }
}

#[test]
fn policy_steps() {
    let (mut p, first) = WriteRecovery::new();
    assert_eq!(first, WriteAction::Write);
    assert_eq!(p.on_write(Err(UNDERRUN)), WriteAction::Recover(UNDERRUN));
    assert_eq!(p.stage, WriteStage::Recovering);
    assert_eq!(p.on_recover(Ok(())), WriteAction::Write);
    assert_eq!(p.stage, WriteStage::SecondWrite);
    assert_eq!(p.on_write(Err(UNDERRUN)), WriteAction::GiveUp(UNDERRUN));
    assert_eq!(p.stage, WriteStage::Over);
}
