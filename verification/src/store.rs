use vstd::prelude::*;

use crate::action::{
    outcome_fits, spec_apply_err, spec_apply_ok, spec_apply_state, Action, BackendOutcome, OpError,
};
use crate::channel::{ActionQueue, SnapshotCell};
use crate::peripheral::{rows_view, PeripheralInfo, PeripheralInfoView};
use crate::scan::{spec_props, Props};
use crate::state::{spec_refresh, StartupError, State, StateView};
use crate::ACTION_QUEUE_CAPACITY;

verus! {

/// What the driver should do after polling its queue: stop, because the
/// exit sentinel was pending, or run the rest of the tick, applying the
/// dequeued command if there was one.
#[derive(Debug)]
pub enum TickPlan {
    Stop,
    Run(Option<Action>),
}

/// The driver's store: the registry only the driver mutates, the last
/// operational error paired with the action that caused it, the command
/// queue the driver drains, and the snapshot channel it publishes to.
pub struct StateStore {
    pub state: State,
    pub last_error: Option<(Action, OpError)>,
    pub queue: ActionQueue,
    pub cell: SnapshotCell,
}

impl StateStore {
    /// The registry is bound to a valid adapter and the queue can hold
    /// something.
    pub open spec fn wf(&self) -> bool {
        self.state.wf() && 0 < self.queue.capacity
    }

    /// A store over the enumerated adapters: an empty registry bound to
    /// the first adapter, no recorded error, an empty queue, and the
    /// initial snapshot already published. Fatal when no adapter is
    /// available.
    pub fn new(adapter_count: usize) -> (r: Result<StateStore, StartupError>)
        ensures
            r is Ok <==> 0 < adapter_count,
            r is Err ==> r == Err::<StateStore, StartupError>(StartupError::NoAdapters),
            r is Ok ==> ({
                let store = r->Ok_0;
                &&& store.wf()
                &&& store.state@ == (StateView {
                    adapter_count: adapter_count as int,
                    current_adapter: 0,
                    peripherals: Seq::<PeripheralInfoView>::empty(),
                    current_peripheral_id: None,
                })
                &&& store.last_error is None
                &&& store.queue@ == Seq::<Action>::empty()
                &&& store.queue.capacity == ACTION_QUEUE_CAPACITY
                &&& store.cell@.version == 0
                &&& store.cell@.value == spec_props(store.state@)
            }),
    {
        let state = match State::new(adapter_count) {
            Ok(s) => s,
            Err(e) => {
                return Err(e);
            },
        };
        let props = Props::from_state(&state);
        Ok(
            StateStore {
                state,
                last_error: None,
                queue: ActionQueue::new(ACTION_QUEUE_CAPACITY),
                cell: SnapshotCell::new(props),
            },
        )
    }

    /// Dequeue at most one pending command, without blocking, so a stalled
    /// frontend never stalls the driver. The exit sentinel stops the driver
    /// at once: nothing is applied or published on that tick, and whatever
    /// was queued behind the sentinel stays unapplied in the queue. Nothing
    /// but the queue is touched.
    pub fn poll_action(&mut self) -> (p: TickPlan)
        ensures
            final(self).state == old(self).state,
            final(self).last_error == old(self).last_error,
            final(self).cell == old(self).cell,
            final(self).queue.capacity == old(self).queue.capacity,
            old(self).queue@.len() == 0 ==> p == TickPlan::Run(None::<Action>)
                && final(self).queue@ == old(self).queue@,
            old(self).queue@.len() > 0 ==> final(self).queue@ == old(self).queue@.drop_first(),
            (old(self).queue@.len() > 0 && (old(self).queue@[0] matches Action::Exit)) ==> p
                == TickPlan::Stop,
            (old(self).queue@.len() > 0 && !(old(self).queue@[0] matches Action::Exit)) ==> p
                == TickPlan::Run(Some(old(self).queue@[0])),
    {
        match self.queue.try_dequeue() {
            None => TickPlan::Run(None),
            Some(Action::Exit) => TickPlan::Stop,
            Some(a) => TickPlan::Run(Some(a)),
        }
    }

    /// The rest of one tick. Apply the polled command, if any, to the
    /// registry; a failure is recorded beside its action and never halts
    /// the driver. Then refresh the peripheral list best-effort from what
    /// the backend returned, build the snapshot of the registry as it now
    /// stands, and publish it over whatever the channel held.
    pub fn complete_tick(
        &mut self,
        action: Option<Action>,
        outcome: BackendOutcome,
        fetched: Result<Vec<PeripheralInfo>, String>,
    )
        requires
            match action {
                Some(a) => outcome_fits(a, outcome),
                None => outcome is NotNeeded,
            },
            old(self).cell@.version < u64::MAX,
        ensures
            ({
                let applied = match action {
                    Some(a) => spec_apply_state(old(self).state@, a, outcome),
                    None => old(self).state@,
                };
                let refreshed = spec_refresh(
                    applied,
                    match fetched {
                        Ok(ref rows) => Ok(rows_view(rows@)),
                        Err(ref e) => Err(e@),
                    },
                );
                &&& final(self).state@ == refreshed
                &&& final(self).cell@.value == spec_props(refreshed)
            }),
            final(self).cell@.version == old(self).cell@.version + 1,
            final(self).queue == old(self).queue,
            match action {
                None => final(self).last_error == old(self).last_error,
                Some(a) => if spec_apply_ok(a, outcome) {
                    final(self).last_error == old(self).last_error
                } else {
                    final(self).last_error == Some((a, spec_apply_err(a, outcome)))
                },
            },
            final(self).state.wf() == old(self).state.wf(),
    {
        match action {
            Some(a) => {
                match a.apply(&mut self.state, outcome) {
                    Ok(()) => {},
                    Err(e) => {
                        self.last_error = Some((a, e));
                    },
                }
            },
            None => {},
        }
        let _best_effort = self.state.update_peripherals(fetched);
        let props = Props::from_state(&self.state);
        self.cell.publish(props);
    }
}

} // verus!
