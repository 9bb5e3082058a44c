//! Chip-select devices: one SPI chip select on a shared bus, optionally
//! routed through a SPI monitor.
//!
//! A transaction on a chip-select device selects the chip, and when the
//! device sits behind a SPI monitor, asks the bus for its master, switches
//! the monitor's SCU routing to the device (only when the master is not
//! controller 0) and applies the monitor's proprietary configuration; then
//! it runs the bus operations in order (delays are left to the controller's
//! timing); and at the end, behind a monitor, asks for the master again,
//! undoes the monitor configuration and (master not 0) the routing. A
//! failed chip select or bus operation ends the transaction at once.
//!
//! The transaction is a state machine: [`ChipSelectDevice::transaction_action`]
//! says what to do next, and [`ChipSelectDevice::transaction_advance`] takes
//! the outcome and gives the next state. The bus driver performs the actions.

use vstd::prelude::*;

use crate::spimonitor::{spim_index, SpiMonitorNum};

verus! {

/// A SPI bus controller that can drive several chip selects.
pub trait SpiBusWithCs {
    type Error;

    /// Assert chip select `cs` for the following bus operations.
    fn select_cs(&mut self, cs: usize) -> Result<(), Self::Error>;

    /// Identifier of the controller acting as bus master.
    fn get_master_id(&self) -> u32;
}

/// One chip select `cs` of `bus`, routed through SPI monitor `spim` when
/// there is one.
pub struct ChipSelectDevice<'a, B> where B: SpiBusWithCs {
    pub bus: &'a mut B,
    pub cs: usize,
    pub spim: Option<SpiMonitorNum>,
}

/// A step of a chip-select transaction outside the bus operations.
#[derive(Debug, Clone, Copy, PartialEq, Eq, Structural)]
pub enum BusStep {
    /// Assert chip select `cs` on the bus.
    SelectCs(usize),
    /// Set the SPI-monitor routing bits `mask` of the SCU control register to `value`.
    ScuCtrlSet { mask: u32, value: u32 },
    /// Clear the SPI-monitor routing bits `mask` of the SCU control register.
    ScuCtrlClear(u32),
    /// Apply the SPI monitor's proprietary pre-transfer configuration.
    ProprietaryPreConfig,
    /// Undo it after the transfer.
    ProprietaryPostConfig,
}

/// Where a transaction stands.
#[derive(Debug, Clone, Copy, PartialEq, Eq, Structural)]
pub enum TxStage {
    /// The chip is to be selected.
    SelectChip,
    /// The bus master is to be asked for, before the monitor is set up.
    QueryMaster,
    /// The monitor routing is to be enabled.
    RouteEnable,
    /// The monitor is to be selected in the routing.
    RouteSelect,
    /// The monitor's pre-transfer configuration is to be applied.
    PreConfig,
    /// Bus operation `next_op` is next, if there is one.
    Operations,
    /// The bus master is to be asked for, before the monitor is released.
    QueryMasterAgain,
    /// The monitor's configuration is to be undone.
    PostConfig,
    /// The monitor routing is to be cleared.
    RouteClear,
    /// The transaction has completed.
    Complete,
    /// A chip select or bus operation failed; the transaction has ended.
    Failed,
}

/// The state of a transaction: its stage, the bus master last reported,
/// and the position of the next bus operation.
#[derive(Debug, Clone, Copy, PartialEq, Eq, Structural)]
pub struct TxState {
    pub stage: TxStage,
    pub master: u32,
    pub next_op: usize,
}

/// The outcome of the last action, as the bus driver reports it.
#[derive(Debug, Clone, Copy, PartialEq, Eq, Structural)]
pub enum TxEvent {
    /// The action was performed successfully.
    Succeeded,
    /// The action (a chip select or a bus operation) failed.
    Failed,
    /// The bus reported master identifier `id`.
    MasterId(u32),
}

/// What the bus driver is to do next.
#[derive(Debug, Clone, Copy, PartialEq, Eq, Structural)]
pub enum TxAction {
    /// Perform a register or chip-select step.
    Step(BusStep),
    /// Ask the bus for its master identifier.
    QueryMasterId,
    /// Pass operation `index` of the transaction to the bus.
    RunOperation(usize),
    /// Nothing to do on the bus (a delay, or the end of the operations).
    Continue,
    /// The transaction has completed successfully.
    Finish,
    /// The transaction has failed.
    Fail,
}

/// The kinds of bus operation a transaction may hold.
#[derive(Debug, Clone, Copy, PartialEq, Eq, Structural)]
pub enum SpiOpKind {
    Read,
    Write,
    Transfer,
    TransferInPlace,
    DelayNs,
}

/// Whether an operation of this kind goes to the bus (delays do not: the
/// controller handles timing).
pub open spec fn reaches_bus(kind: SpiOpKind) -> bool {
    kind != SpiOpKind::DelayNs
}

/// The state in which every transaction starts.
pub open spec fn tx_start() -> TxState {
    TxState { stage: TxStage::SelectChip, master: 0, next_op: 0 }
}

/// The master identifier that an event reports (0 for other events).
pub open spec fn reported_master(event: TxEvent) -> u32 {
    match event {
        TxEvent::MasterId(id) => id,
        _ => 0,
    }
}

/// What to do in `state`, for a device at chip select `cs` behind `spim`;
/// `next` is the kind of the transaction's operation at `state.next_op`,
/// if there is one.
pub open spec fn tx_action(
    cs: usize,
    spim: Option<SpiMonitorNum>,
    state: TxState,
    next: Option<SpiOpKind>,
) -> TxAction {
    match state.stage {
        TxStage::SelectChip => TxAction::Step(BusStep::SelectCs(cs)),
        TxStage::QueryMaster => TxAction::QueryMasterId,
        TxStage::RouteEnable => TxAction::Step(BusStep::ScuCtrlSet { mask: 0x8, value: 0x8 }),
        TxStage::RouteSelect => TxAction::Step(
            BusStep::ScuCtrlSet {
                mask: 0x7,
                value: (1 + match spim {
                    Some(n) => spim_index(n),
                    None => 0,
                }) as u32,
            },
        ),
        TxStage::PreConfig => TxAction::Step(BusStep::ProprietaryPreConfig),
        TxStage::Operations => match next {
            Some(kind) => if reaches_bus(kind) {
                TxAction::RunOperation(state.next_op)
            } else {
                TxAction::Continue
            },
            None => TxAction::Continue,
        },
        TxStage::QueryMasterAgain => TxAction::QueryMasterId,
        TxStage::PostConfig => TxAction::Step(BusStep::ProprietaryPostConfig),
        TxStage::RouteClear => TxAction::Step(BusStep::ScuCtrlClear(0xf)),
        TxStage::Complete => TxAction::Finish,
        TxStage::Failed => TxAction::Fail,
    }
}

/// The state after the action of `state` had outcome `event`, for a device
/// behind `spim`; `next` as in [`tx_action`].
pub open spec fn tx_advance(
    spim: Option<SpiMonitorNum>,
    state: TxState,
    event: TxEvent,
    next: Option<SpiOpKind>,
) -> TxState {
    if event == TxEvent::Failed && state.stage != TxStage::Complete {
        TxState { stage: TxStage::Failed, ..state }
    } else {
        match state.stage {
            TxStage::SelectChip => if spim is Some {
                TxState { stage: TxStage::QueryMaster, ..state }
            } else {
                TxState { stage: TxStage::Operations, next_op: 0, ..state }
            },
            TxStage::QueryMaster => if reported_master(event) != 0 {
                TxState { stage: TxStage::RouteEnable, master: reported_master(event), ..state }
            } else {
                TxState { stage: TxStage::PreConfig, master: 0, ..state }
            },
            TxStage::RouteEnable => TxState { stage: TxStage::RouteSelect, ..state },
            TxStage::RouteSelect => TxState { stage: TxStage::PreConfig, ..state },
            TxStage::PreConfig => TxState { stage: TxStage::Operations, next_op: 0, ..state },
            TxStage::Operations => match next {
                Some(_) => TxState { next_op: (state.next_op + 1) as usize, ..state },
                None => if spim is Some {
                    TxState { stage: TxStage::QueryMasterAgain, ..state }
                } else {
                    TxState { stage: TxStage::Complete, ..state }
                },
            },
            TxStage::QueryMasterAgain => TxState {
                stage: TxStage::PostConfig,
                master: reported_master(event),
                ..state
            },
            TxStage::PostConfig => if state.master != 0 {
                TxState { stage: TxStage::RouteClear, ..state }
            } else {
                TxState { stage: TxStage::Complete, ..state }
            },
            TxStage::RouteClear => TxState { stage: TxStage::Complete, ..state },
            TxStage::Complete => state,
            TxStage::Failed => state,
        }
    }
}

impl TxState {
    /// The state in which a transaction starts.
    pub fn start() -> (r: TxState)
        ensures
            r == tx_start(),
    {
        TxState { stage: TxStage::SelectChip, master: 0, next_op: 0 }
    }
}

impl<'a, B> ChipSelectDevice<'a, B> where B: SpiBusWithCs {
    /// What the bus driver is to do next in `state`; `next` is the kind of
    /// the transaction's operation at `state.next_op`, if there is one.
    pub fn transaction_action(&self, state: TxState, next: Option<SpiOpKind>) -> (r: TxAction)
        ensures
            r == tx_action(self.cs, self.spim, state, next),
    {
        match state.stage {
            TxStage::SelectChip => TxAction::Step(BusStep::SelectCs(self.cs)),
            TxStage::QueryMaster => TxAction::QueryMasterId,
            TxStage::RouteEnable => TxAction::Step(BusStep::ScuCtrlSet { mask: 0x8, value: 0x8 }),
            TxStage::RouteSelect => {
                let index = match self.spim {
                    Some(n) => u32::from(n),
                    None => 0,
                };
                TxAction::Step(BusStep::ScuCtrlSet { mask: 0x7, value: 1 + index })
            },
            TxStage::PreConfig => TxAction::Step(BusStep::ProprietaryPreConfig),
            TxStage::Operations => match next {
                Some(SpiOpKind::DelayNs) => TxAction::Continue,
                Some(_) => TxAction::RunOperation(state.next_op),
                None => TxAction::Continue,
            },
            TxStage::QueryMasterAgain => TxAction::QueryMasterId,
            TxStage::PostConfig => TxAction::Step(BusStep::ProprietaryPostConfig),
            TxStage::RouteClear => TxAction::Step(BusStep::ScuCtrlClear(0xf)),
            TxStage::Complete => TxAction::Finish,
            TxStage::Failed => TxAction::Fail,
        }
    }

    /// The state after the action of `state` had outcome `event`; `next` as
    /// in [`ChipSelectDevice::transaction_action`]. A failure ends the
    /// transaction (except once it has completed).
    pub fn transaction_advance(&self, state: TxState, event: TxEvent, next: Option<SpiOpKind>) -> (r:
        TxState)
        requires
            state.stage == TxStage::Operations && next is Some ==> state.next_op < usize::MAX,
        ensures
            r == tx_advance(self.spim, state, event, next),
    {
        let failed = match event {
            TxEvent::Failed => true,
            _ => false,
        };
        let complete = match state.stage {
            TxStage::Complete => true,
            _ => false,
        };
        if failed && !complete {
            return TxState { stage: TxStage::Failed, ..state };
        }
        let master = match event {
            TxEvent::MasterId(id) => id,
            _ => 0,
        };
        match state.stage {
            TxStage::SelectChip => if self.spim.is_some() {
                TxState { stage: TxStage::QueryMaster, ..state }
            } else {
                TxState { stage: TxStage::Operations, next_op: 0, ..state }
            },
            TxStage::QueryMaster => if master != 0 {
                TxState { stage: TxStage::RouteEnable, master, ..state }
            } else {
                TxState { stage: TxStage::PreConfig, master: 0, ..state }
            },
            TxStage::RouteEnable => TxState { stage: TxStage::RouteSelect, ..state },
            TxStage::RouteSelect => TxState { stage: TxStage::PreConfig, ..state },
            TxStage::PreConfig => TxState { stage: TxStage::Operations, next_op: 0, ..state },
            TxStage::Operations => match next {
                Some(_) => TxState { next_op: state.next_op + 1, ..state },
                None => if self.spim.is_some() {
                    TxState { stage: TxStage::QueryMasterAgain, ..state }
                } else {
                    TxState { stage: TxStage::Complete, ..state }
                },
            },
            TxStage::QueryMasterAgain => TxState { stage: TxStage::PostConfig, master, ..state },
            TxStage::PostConfig => if state.master != 0 {
                TxState { stage: TxStage::RouteClear, ..state }
            } else {
                TxState { stage: TxStage::Complete, ..state }
            },
            TxStage::RouteClear => TxState { stage: TxStage::Complete, ..state },
            TxStage::Complete => state,
            TxStage::Failed => state,
        }
    }
}

/// A failure of a chip select or bus operation ends the transaction: the
/// next action is `Fail`, and from then on nothing else happens, whatever
/// is reported.
pub proof fn lemma_failure_ends_transaction(
    cs: usize,
    spim: Option<SpiMonitorNum>,
    state: TxState,
    next: Option<SpiOpKind>,
    later: TxEvent,
    later_next: Option<SpiOpKind>,
)
    requires
        state.stage != TxStage::Complete,
    ensures
        ({
            let failed = tx_advance(spim, state, TxEvent::Failed, next);
            &&& tx_action(cs, spim, failed, later_next) == TxAction::Fail
            &&& tx_advance(spim, failed, later, later_next) == failed
        }),
{
}


/// The kind of the operation at position `i` of `kinds`, if there is one.
pub open spec fn op_at(kinds: Seq<SpiOpKind>, i: int) -> Option<SpiOpKind> {
    if 0 <= i < kinds.len() {
        Some(kinds[i])
    } else {
        None
    }
}

/// What a bus on which everything succeeds reports for the action of
/// `state`: master `first` when first asked, `second` when asked again.
pub open spec fn all_ok_event(state: TxState, first: u32, second: u32) -> TxEvent {
    match state.stage {
        TxStage::QueryMaster => TxEvent::MasterId(first),
        TxStage::QueryMasterAgain => TxEvent::MasterId(second),
        _ => TxEvent::Succeeded,
    }
}

/// The actions of a transaction over operations `kinds`, from `state`, on
/// a bus on which everything succeeds, up to `fuel` actions or the end.
pub open spec fn run_all_ok(
    cs: usize,
    spim: Option<SpiMonitorNum>,
    kinds: Seq<SpiOpKind>,
    first: u32,
    second: u32,
    state: TxState,
    fuel: nat,
) -> Seq<TxAction>
    decreases fuel,
{
    if fuel == 0 {
        Seq::empty()
    } else {
        let next = op_at(kinds, state.next_op as int);
        let a = tx_action(cs, spim, state, next);
        if a == TxAction::Finish || a == TxAction::Fail {
            seq![a]
        } else {
            seq![a] + run_all_ok(
                cs,
                spim,
                kinds,
                first,
                second,
                tx_advance(spim, state, all_ok_event(state, first, second), next),
                (fuel - 1) as nat,
            )
        }
    }
}

/// One action per operation: the bus operations run, the delays skipped.
pub open spec fn operation_actions(kinds: Seq<SpiOpKind>) -> Seq<TxAction> {
    Seq::new(
        kinds.len(),
        |i: int|
            if reaches_bus(kinds[i]) {
                TxAction::RunOperation(i as usize)
            } else {
                TxAction::Continue
            },
    )
}

/// The actions that set up a monitor before the operations: ask for the
/// master, route the monitor when the master (`first`) is not 0, and apply
/// its configuration; nothing without a monitor.
pub open spec fn set_up_actions(spim: Option<SpiMonitorNum>, first: u32) -> Seq<TxAction> {
    match spim {
        None => Seq::empty(),
        Some(n) => seq![TxAction::QueryMasterId] + (if first != 0 {
            seq![
                TxAction::Step(BusStep::ScuCtrlSet { mask: 0x8, value: 0x8 }),
                TxAction::Step(BusStep::ScuCtrlSet { mask: 0x7, value: (1 + spim_index(n)) as u32 }),
            ]
        } else {
            Seq::empty()
        }) + seq![TxAction::Step(BusStep::ProprietaryPreConfig)],
    }
}

/// The actions that release a monitor after the operations: ask for the
/// master again, undo the configuration, and clear the routing when the
/// master (`second`) is not 0; nothing without a monitor.
pub open spec fn tear_down_actions(spim: Option<SpiMonitorNum>, second: u32) -> Seq<TxAction> {
    match spim {
        None => Seq::empty(),
        Some(_) => seq![TxAction::QueryMasterId, TxAction::Step(BusStep::ProprietaryPostConfig)]
            + if second != 0 {
            seq![TxAction::Step(BusStep::ScuCtrlClear(0xf))]
        } else {
            Seq::empty()
        },
    }
}

/// The actions of a successful transaction: select the chip, set up the
/// monitor, run the operations, release the monitor, finish.
pub open spec fn successful_run(
    cs: usize,
    spim: Option<SpiMonitorNum>,
    kinds: Seq<SpiOpKind>,
    first: u32,
    second: u32,
) -> Seq<TxAction> {
    seq![TxAction::Step(BusStep::SelectCs(cs))] + set_up_actions(spim, first) + operation_actions(
        kinds,
    ) + seq![TxAction::Continue] + tear_down_actions(spim, second) + seq![TxAction::Finish]
}

/// The state after the operations.
pub open spec fn after_operations(spim: Option<SpiMonitorNum>, master: u32, len: usize) -> TxState {
    if spim is Some {
        TxState { stage: TxStage::QueryMasterAgain, master, next_op: len }
    } else {
        TxState { stage: TxStage::Complete, master, next_op: len }
    }
}

proof fn lemma_run_operations(
    cs: usize,
    spim: Option<SpiMonitorNum>,
    kinds: Seq<SpiOpKind>,
    first: u32,
    second: u32,
    master: u32,
    i: usize,
    fuel: nat,
)
    requires
        kinds.len() < usize::MAX,
        i <= kinds.len(),
        fuel >= kinds.len() - i + 1,
    ensures
        run_all_ok(
            cs,
            spim,
            kinds,
            first,
            second,
            TxState { stage: TxStage::Operations, master, next_op: i },
            fuel,
        ) == operation_actions(kinds).skip(i as int) + seq![TxAction::Continue] + run_all_ok(
            cs,
            spim,
            kinds,
            first,
            second,
            after_operations(spim, master, kinds.len() as usize),
            (fuel - (kinds.len() - i) - 1) as nat,
        ),
    decreases kinds.len() - i,
{
    let s = TxState { stage: TxStage::Operations, master, next_op: i };
    if i == kinds.len() {
        assert(operation_actions(kinds).skip(i as int) =~= Seq::<TxAction>::empty());
        assert(tx_advance(spim, s, TxEvent::Succeeded, None) == after_operations(
            spim,
            master,
            kinds.len() as usize,
        ));
        assert(seq![TxAction::Continue] + run_all_ok(
            cs,
            spim,
            kinds,
            first,
            second,
            after_operations(spim, master, kinds.len() as usize),
            (fuel - 1) as nat,
        ) =~= Seq::<TxAction>::empty() + seq![TxAction::Continue] + run_all_ok(
            cs,
            spim,
            kinds,
            first,
            second,
            after_operations(spim, master, kinds.len() as usize),
            (fuel - 1) as nat,
        ));
    } else {
        let s2 = TxState { stage: TxStage::Operations, master, next_op: (i + 1) as usize };
        assert(tx_advance(spim, s, TxEvent::Succeeded, Some(kinds[i as int])) == s2);
        lemma_run_operations(cs, spim, kinds, first, second, master, (i + 1) as usize, (fuel
            - 1) as nat);
        let a = tx_action(cs, spim, s, Some(kinds[i as int]));
        assert(a == operation_actions(kinds)[i as int]);
        assert(operation_actions(kinds).skip(i as int) =~= seq![a] + operation_actions(kinds).skip(
            i + 1,
        ));
        let rest = run_all_ok(
            cs,
            spim,
            kinds,
            first,
            second,
            after_operations(spim, master, kinds.len() as usize),
            (fuel - (kinds.len() - i) - 1) as nat,
        );
        assert(seq![a] + (operation_actions(kinds).skip(i + 1) + seq![TxAction::Continue] + rest)
            =~= operation_actions(kinds).skip(i as int) + seq![TxAction::Continue] + rest);
    }
}

proof fn lemma_tear_down(
    cs: usize,
    spim: Option<SpiMonitorNum>,
    kinds: Seq<SpiOpKind>,
    first: u32,
    second: u32,
    master: u32,
    fuel: nat,
)
    requires
        kinds.len() < usize::MAX,
        fuel >= 4,
    ensures
        run_all_ok(
            cs,
            spim,
            kinds,
            first,
            second,
            after_operations(spim, master, kinds.len() as usize),
            fuel,
        ) == tear_down_actions(spim, second) + seq![TxAction::Finish],
{
    let n = kinds.len() as usize;
    let after = after_operations(spim, master, n);
    let nk = op_at(kinds, n as int);
    assert(nk is None);
    if spim is Some {
        let p = TxState { stage: TxStage::PostConfig, master: second, next_op: n };
        let c = TxState { stage: TxStage::Complete, master: second, next_op: n };
        let r = TxState { stage: TxStage::RouteClear, master: second, next_op: n };
        assert(tx_advance(spim, after, TxEvent::MasterId(second), nk) == p);
        if second != 0 {
            assert(tx_advance(spim, p, TxEvent::Succeeded, nk) == r);
            assert(tx_advance(spim, r, TxEvent::Succeeded, nk) == c);
            assert(run_all_ok(cs, spim, kinds, first, second, c, (fuel - 3) as nat) == seq![
                TxAction::Finish,
            ]);
            assert(run_all_ok(cs, spim, kinds, first, second, r, (fuel - 2) as nat) =~= seq![
                TxAction::Step(BusStep::ScuCtrlClear(0xf)),
                TxAction::Finish,
            ]);
            assert(run_all_ok(cs, spim, kinds, first, second, p, (fuel - 1) as nat) =~= seq![
                TxAction::Step(BusStep::ProprietaryPostConfig),
                TxAction::Step(BusStep::ScuCtrlClear(0xf)),
                TxAction::Finish,
            ]);
        } else {
            assert(tx_advance(spim, p, TxEvent::Succeeded, nk) == c);
            assert(run_all_ok(cs, spim, kinds, first, second, c, (fuel - 2) as nat) == seq![
                TxAction::Finish,
            ]);
            assert(run_all_ok(cs, spim, kinds, first, second, p, (fuel - 1) as nat) =~= seq![
                TxAction::Step(BusStep::ProprietaryPostConfig),
                TxAction::Finish,
            ]);
        }
        assert(run_all_ok(cs, spim, kinds, first, second, after, fuel) =~= tear_down_actions(
            spim,
            second,
        ) + seq![TxAction::Finish]);
    } else {
        assert(run_all_ok(cs, spim, kinds, first, second, after, fuel) =~= seq![TxAction::Finish]);
        assert(tear_down_actions(spim, second) + seq![TxAction::Finish] =~= seq![TxAction::Finish]);
    }
}

/// The master recorded once the monitor is set up.
pub open spec fn set_up_master(spim: Option<SpiMonitorNum>, first: u32) -> u32 {
    if spim is Some {
        first
    } else {
        0
    }
}

proof fn lemma_set_up(
    cs: usize,
    spim: Option<SpiMonitorNum>,
    kinds: Seq<SpiOpKind>,
    first: u32,
    second: u32,
    fuel: nat,
)
    requires
        fuel >= 6,
    ensures
        run_all_ok(cs, spim, kinds, first, second, tx_start(), fuel) == seq![
            TxAction::Step(BusStep::SelectCs(cs)),
        ] + set_up_actions(spim, first) + run_all_ok(
            cs,
            spim,
            kinds,
            first,
            second,
            TxState { stage: TxStage::Operations, master: set_up_master(spim, first), next_op: 0 },
            (fuel - 1 - set_up_actions(spim, first).len()) as nat,
        ),
{
    let start = tx_start();
    let nk = op_at(kinds, 0);
    let m = set_up_master(spim, first);
    let ops_state = TxState { stage: TxStage::Operations, master: m, next_op: 0 };
    let sel_cs = seq![TxAction::Step(BusStep::SelectCs(cs))];
    match spim {
        None => {
            assert(tx_advance(spim, start, TxEvent::Succeeded, nk) == ops_state);
            assert(set_up_actions(spim, first) =~= Seq::<TxAction>::empty());
            assert(sel_cs + set_up_actions(spim, first) =~= sel_cs);
        },
        Some(k) => {
            let q = TxState { stage: TxStage::QueryMaster, master: 0, next_op: 0 };
            let pre = TxState { stage: TxStage::PreConfig, master: m, next_op: 0 };
            let len = set_up_actions(spim, first).len();
            let f1 = (fuel - 1 - len) as nat;
            let from_ops = run_all_ok(cs, spim, kinds, first, second, ops_state, f1);
            assert(tx_advance(spim, start, TxEvent::Succeeded, nk) == q);
            assert(tx_advance(spim, pre, TxEvent::Succeeded, nk) == ops_state);
            assert(run_all_ok(cs, spim, kinds, first, second, pre, f1 + 1) == seq![
                TxAction::Step(BusStep::ProprietaryPreConfig),
            ] + from_ops);
            if first != 0 {
                let e = TxState { stage: TxStage::RouteEnable, master: first, next_op: 0 };
                let sel = TxState { stage: TxStage::RouteSelect, master: first, next_op: 0 };
                assert(tx_advance(spim, q, TxEvent::MasterId(first), nk) == e);
                assert(tx_advance(spim, e, TxEvent::Succeeded, nk) == sel);
                assert(tx_advance(spim, sel, TxEvent::Succeeded, nk) == pre);
                assert(run_all_ok(cs, spim, kinds, first, second, sel, f1 + 2) == seq![
                    TxAction::Step(
                        BusStep::ScuCtrlSet { mask: 0x7, value: (1 + spim_index(k)) as u32 },
                    ),
                ] + run_all_ok(cs, spim, kinds, first, second, pre, f1 + 1));
                assert(run_all_ok(cs, spim, kinds, first, second, e, f1 + 3) == seq![
                    TxAction::Step(BusStep::ScuCtrlSet { mask: 0x8, value: 0x8 }),
                ] + run_all_ok(cs, spim, kinds, first, second, sel, f1 + 2));
                assert(run_all_ok(cs, spim, kinds, first, second, q, f1 + 4) == seq![
                    TxAction::QueryMasterId,
                ] + run_all_ok(cs, spim, kinds, first, second, e, f1 + 3));
                assert(run_all_ok(cs, spim, kinds, first, second, q, f1 + 4) =~= set_up_actions(
                    spim,
                    first,
                ) + from_ops);
            } else {
                assert(tx_advance(spim, q, TxEvent::MasterId(first), nk) == pre);
                assert(run_all_ok(cs, spim, kinds, first, second, q, f1 + 2) == seq![
                    TxAction::QueryMasterId,
                ] + run_all_ok(cs, spim, kinds, first, second, pre, f1 + 1));
                assert(run_all_ok(cs, spim, kinds, first, second, q, f1 + 2) =~= set_up_actions(
                    spim,
                    first,
                ) + from_ops);
            }
            assert(run_all_ok(cs, spim, kinds, first, second, start, fuel) == sel_cs
                + run_all_ok(cs, spim, kinds, first, second, q, (fuel - 1) as nat));
            assert(sel_cs + (set_up_actions(spim, first) + from_ops) =~= sel_cs + set_up_actions(
                spim,
                first,
            ) + from_ops);
        },
    }
}

/// On a bus on which everything succeeds, a transaction performs exactly
/// the actions of [`successful_run`], in order, and finishes.
pub proof fn lemma_successful_transaction(
    cs: usize,
    spim: Option<SpiMonitorNum>,
    kinds: Seq<SpiOpKind>,
    first: u32,
    second: u32,
    fuel: nat,
)
    requires
        kinds.len() < usize::MAX,
        fuel >= kinds.len() + 10,
    ensures
        run_all_ok(cs, spim, kinds, first, second, tx_start(), fuel) == successful_run(
            cs,
            spim,
            kinds,
            first,
            second,
        ),
{
    let m = set_up_master(spim, first);
    let set_up = set_up_actions(spim, first);
    let f1 = (fuel - 1 - set_up.len()) as nat;
    lemma_set_up(cs, spim, kinds, first, second, fuel);
    lemma_run_operations(cs, spim, kinds, first, second, m, 0, f1);
    let f2 = (f1 - kinds.len() - 1) as nat;
    lemma_tear_down(cs, spim, kinds, first, second, m, f2);
    let ops = operation_actions(kinds);
    assert(ops.skip(0) =~= ops);
    let sel_cs = seq![TxAction::Step(BusStep::SelectCs(cs))];
    let td = tear_down_actions(spim, second) + seq![TxAction::Finish];
    assert(sel_cs + set_up + (ops + seq![TxAction::Continue] + td) =~= successful_run(
        cs,
        spim,
        kinds,
        first,
        second,
    ));
}

} // verus!
