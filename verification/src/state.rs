use vstd::prelude::*;

use crate::peripheral::{rows_view, PeripheralId, PeripheralInfo, PeripheralInfoView};

verus! {

/// Mathematical image of the registry state.
pub struct StateView {
    pub adapter_count: int,
    pub current_adapter: int,
    pub peripherals: Seq<PeripheralInfoView>,
    pub current_peripheral_id: Option<Seq<char>>,
}

/// The registry after a selection: the same state with the selection set.
pub open spec fn spec_select(s: StateView, id: Seq<char>) -> StateView {
    StateView { current_peripheral_id: Some(id), ..s }
}

/// The registry after a refresh: a successful fetch replaces the peripheral
/// list wholesale in the backend's order; a failed one retains the previous
/// list. Everything else, the selection included, is untouched.
pub open spec fn spec_refresh(s: StateView, fetched: Result<Seq<PeripheralInfoView>, Seq<char>>) -> StateView {
    match fetched {
        Ok(rows) => StateView { peripherals: rows, ..s },
        Err(_) => s,
    }
}

/// The device registry: the enumerated scanning backends (kept by the
/// caller that owns the backend handles; the registry holds how many there
/// are and which is current), the peripherals the last successful refresh
/// returned, the sticky selection, if any.
pub struct State {
    /// How many adapters the backend enumerated at startup.
    pub adapter_count: usize,
    /// Index of the adapter in use, within the enumerated list.
    pub current_adapter: usize,
    /// The peripherals of the last successful refresh, in backend order.
    pub peripherals: Vec<PeripheralInfo>,
    /// The sticky selection: kept across refreshes even when the selected
    /// peripheral has disappeared from the list.
    pub current_peripheral_id: Option<PeripheralId>,
}

impl View for State {
    type V = StateView;

    open spec fn view(&self) -> StateView {
        StateView {
            adapter_count: self.adapter_count as int,
            current_adapter: self.current_adapter as int,
            peripherals: rows_view(self.peripherals@),
            current_peripheral_id: match self.current_peripheral_id {
                Some(ref id) => Some(id@),
                None => None,
            },
        }
    }
}

/// The one fatal startup failure: the backend enumerated no adapter to
/// bind to.
pub enum StartupError {
    NoAdapters,
}

impl State {
    /// Whether the current adapter is a valid, previously enumerated one.
    pub open spec fn wf(&self) -> bool {
        0 < self.adapter_count && self.current_adapter < self.adapter_count
    }

    /// Bind to the first of the enumerated adapters; with none available
    /// there is nothing to bind to, which is fatal.
    pub fn new(adapter_count: usize) -> (r: Result<State, StartupError>)
        ensures
            r is Ok <==> 0 < adapter_count,
            r is Err ==> r == Err::<State, StartupError>(StartupError::NoAdapters),
            r is Ok ==> r->Ok_0.wf(),
            r is Ok ==> r->Ok_0@ == (StateView {
                adapter_count: adapter_count as int,
                current_adapter: 0,
                peripherals: Seq::<PeripheralInfoView>::empty(),
                current_peripheral_id: None,
            }),
    {
        if adapter_count == 0 {
            Err(StartupError::NoAdapters)
        } else {
            let s = State {
                adapter_count,
                current_adapter: 0,
                peripherals: Vec::new(),
                current_peripheral_id: None,
            };
            proof {
                assert(s@.peripherals =~= Seq::<PeripheralInfoView>::empty());
            }
            Ok(s)
        }
    }

    /// Replace the peripheral list with what the backend returned; on a
    /// failed fetch retain the previous list and hand the failure back.
    pub fn update_peripherals(&mut self, fetched: Result<Vec<PeripheralInfo>, String>) -> (r: Result<(), String>)
        ensures
            final(self)@ == spec_refresh(old(self)@, match fetched {
                Ok(ref rows) => Ok(rows_view(rows@)),
                Err(ref e) => Err(e@),
            }),
            final(self).wf() == old(self).wf(),
            r is Ok <==> fetched is Ok,
            fetched is Err ==> r == Err::<(), String>(fetched->Err_0),
    {
        match fetched {
            Ok(rows) => {
                self.peripherals = rows;
                Ok(())
            },
            Err(e) => Err(e),
        }
    }

    /// Set the selection; no validation that the id is currently listed,
    /// and the selection persists across later refreshes.
    pub fn select(&mut self, id: PeripheralId)
        ensures
            final(self)@ == spec_select(old(self)@, id@),
            final(self).wf() == old(self).wf(),
    {
        self.current_peripheral_id = Some(id);
    }
}

/// Selecting is idempotent: selecting the same id twice leaves the registry
/// exactly as selecting it once does.
pub proof fn lemma_select_idempotent(s: StateView, id: Seq<char>)
    ensures
        spec_select(spec_select(s, id), id) == spec_select(s, id),
{
}

/// The registry after a sequence of selections, applied front to back.
pub open spec fn spec_select_all(s: StateView, ids: Seq<Seq<char>>) -> StateView
    decreases ids.len(),
{
    if ids.len() == 0 {
        s
    } else {
        spec_select_all(spec_select(s, ids[0]), ids.drop_first())
    }
}

/// Selections are applied in their given order: after a sequence of them,
/// the registry's selection is the last one's id, everything else is as it
/// was. (In particular the order is observable: the last selection wins.)
pub proof fn lemma_selects_apply_in_order(s: StateView, ids: Seq<Seq<char>>)
    requires
        0 < ids.len(),
    ensures
        spec_select_all(s, ids) == (StateView { current_peripheral_id: Some(ids.last()), ..s }),
    decreases ids.len(),
{
    if ids.len() == 1 {
        assert(ids.drop_first().len() == 0);
    } else {
        lemma_selects_apply_in_order(spec_select(s, ids[0]), ids.drop_first());
        assert(ids.drop_first().last() == ids.last());
    }
}

} // verus!
