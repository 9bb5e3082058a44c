use aspeed_ddk::spi::device::{
    BusStep, ChipSelectDevice, SpiBusWithCs, SpiOpKind, TxAction, TxEvent, TxStage, TxState,
};
use aspeed_ddk::spimonitor::SpiMonitorNum;

struct Bus;

impl SpiBusWithCs for Bus {
    type Error = ();

    fn select_cs(&mut self, _cs: usize) -> Result<(), ()> {
        Ok(())
    }

    fn get_master_id(&self) -> u32 {
        1
    }
}

/// Runs a transaction over `kinds` on a bus that reports masters `first`
/// then `second` and fails the action at position `fail_at`, if any;
/// returns the actions taken.
fn run(
    dev: &ChipSelectDevice<'_, Bus>,
    kinds: &[SpiOpKind],
    first: u32,
    second: u32,
    fail_at: Option<usize>,
) -> Vec<TxAction> {
    let mut state = TxState::start();
    let mut actions = Vec::new();
    let mut queries = 0;
    loop {
        let next = kinds.get(state.next_op).copied();
        let action = dev.transaction_action(state, next);
        actions.push(action);
        let event = match action {
            TxAction::Finish | TxAction::Fail => return actions,
            _ if fail_at == Some(actions.len() - 1) => TxEvent::Failed,
            TxAction::QueryMasterId => {
                queries += 1;
                TxEvent::MasterId(if queries == 1 { first } else { second })
            }
            _ => TxEvent::Succeeded,
        };
        state = dev.transaction_advance(state, event, next);
    }
}

#[test]
fn plain_device_selects_chip_and_runs_operations() {
    let mut bus = Bus;
    let dev = ChipSelectDevice { bus: &mut bus, cs: 1, spim: None };
    let kinds = [SpiOpKind::Write, SpiOpKind::DelayNs, SpiOpKind::Read];
    assert_eq!(
        run(&dev, &kinds, 1, 1, None),
        vec![
            TxAction::Step(BusStep::SelectCs(1)),
            TxAction::RunOperation(0),
            TxAction::Continue,
            TxAction::RunOperation(2),
            TxAction::Continue,
            TxAction::Finish,
        ]
    );
}

#[test]
fn monitored_device_on_secondary_master_routes_monitor() {
    let mut bus = Bus;
    let dev = ChipSelectDevice { bus: &mut bus, cs: 0, spim: Some(SpiMonitorNum::SPIM2) };
    assert_eq!(
        run(&dev, &[SpiOpKind::Transfer], 1, 2, None),
        vec![
            TxAction::Step(BusStep::SelectCs(0)),
            TxAction::QueryMasterId,
            TxAction::Step(BusStep::ScuCtrlSet { mask: 0x8, value: 0x8 }),
            TxAction::Step(BusStep::ScuCtrlSet { mask: 0x7, value: 3 }),
            TxAction::Step(BusStep::ProprietaryPreConfig),
            TxAction::RunOperation(0),
            TxAction::Continue,
            TxAction::QueryMasterId,
            TxAction::Step(BusStep::ProprietaryPostConfig),
            TxAction::Step(BusStep::ScuCtrlClear(0xf)),
            TxAction::Finish,
        ]
    );
}

#[test]
fn monitored_device_on_master_zero_skips_routing() {
    let mut bus = Bus;
    let dev = ChipSelectDevice { bus: &mut bus, cs: 2, spim: Some(SpiMonitorNum::SPIM0) };
    assert_eq!(
        run(&dev, &[], 0, 0, None),
        vec![
            TxAction::Step(BusStep::SelectCs(2)),
            TxAction::QueryMasterId,
            TxAction::Step(BusStep::ProprietaryPreConfig),
            TxAction::Continue,
            TxAction::QueryMasterId,
            TxAction::Step(BusStep::ProprietaryPostConfig),
            TxAction::Finish,
        ]
    );
}

#[test]
fn failed_chip_select_ends_transaction() {
    let mut bus = Bus;
    let dev = ChipSelectDevice { bus: &mut bus, cs: 3, spim: Some(SpiMonitorNum::SPIM1) };
    assert_eq!(
        run(&dev, &[SpiOpKind::Read], 1, 1, Some(0)),
        vec![TxAction::Step(BusStep::SelectCs(3)), TxAction::Fail]
    );
}

#[test]
fn failed_operation_skips_remaining_operations_and_release() {
    let mut bus = Bus;
    let dev = ChipSelectDevice { bus: &mut bus, cs: 0, spim: Some(SpiMonitorNum::SPIM3) };
    let kinds = [SpiOpKind::Write, SpiOpKind::Read];
    let actions = run(&dev, &kinds, 0, 0, Some(3));
    assert_eq!(
        actions,
        vec![
            TxAction::Step(BusStep::SelectCs(0)),
            TxAction::QueryMasterId,
            TxAction::Step(BusStep::ProprietaryPreConfig),
            TxAction::RunOperation(0),
            TxAction::Fail,
        ]
    );
}

#[test]
fn finished_and_failed_states_are_final() {
    let mut bus = Bus;
    let dev = ChipSelectDevice { bus: &mut bus, cs: 0, spim: None };
    let done = TxState { stage: TxStage::Complete, master: 0, next_op: 0 };
    assert_eq!(dev.transaction_advance(done, TxEvent::Failed, None), done);
    let failed = TxState { stage: TxStage::Failed, master: 0, next_op: 1 };
    assert_eq!(dev.transaction_action(failed, None), TxAction::Fail);
    assert_eq!(dev.transaction_advance(failed, TxEvent::Succeeded, None), failed);
}
