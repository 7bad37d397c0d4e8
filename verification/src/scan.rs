use vstd::prelude::*;
use vstd::arithmetic::div_mod::{lemma_mod_multiples_vanish, lemma_mod_self_0, lemma_small_mod};

use crate::action::Action;
use crate::peripheral::{duplicate_rows, rows_view, PeripheralId, PeripheralInfo, PeripheralInfoView};
use crate::state::{State, StateView};

verus! {

/// The position of the first row carrying the given identity, if any.
pub open spec fn first_match(rows: Seq<PeripheralInfoView>, id: Seq<char>) -> Option<int>
    decreases rows.len(),
{
    if rows.len() == 0 {
        None
    } else if rows[0].id == id {
        Some(0int)
    } else {
        match first_match(rows.drop_first(), id) {
            Some(i) => Some(i + 1),
            None => None,
        }
    }
}

proof fn lemma_first_match_found(rows: Seq<PeripheralInfoView>, id: Seq<char>, i: int)
    requires
        0 <= i < rows.len(),
        rows[i].id == id,
        forall|j: int| 0 <= j < i ==> rows[j].id != id,
    ensures
        first_match(rows, id) == Some(i),
    decreases i,
{
    if i == 0 {
    } else {
        assert(rows[0].id != id);
        assert forall|j: int| 0 <= j < i - 1 implies rows.drop_first()[j].id != id by {
            assert(rows.drop_first()[j] == rows[j + 1]);
        }
        assert(rows.drop_first()[i - 1] == rows[i]);
        lemma_first_match_found(rows.drop_first(), id, i - 1);
    }
}

proof fn lemma_first_match_none(rows: Seq<PeripheralInfoView>, id: Seq<char>)
    requires
        forall|j: int| 0 <= j < rows.len() ==> rows[j].id != id,
    ensures
        first_match(rows, id) is None,
    decreases rows.len(),
{
    if rows.len() > 0 {
        assert forall|j: int| 0 <= j < rows.len() - 1 implies rows.drop_first()[j].id != id by {
            assert(rows.drop_first()[j] == rows[j + 1]);
        }
        lemma_first_match_none(rows.drop_first(), id);
    }
}

/// The snapshot's resolved current index: the position of the selected
/// peripheral when the selection names a listed one, and 0 otherwise (no
/// selection, or a sticky selection that has disappeared from the list).
pub open spec fn spec_current_index(rows: Seq<PeripheralInfoView>, cur: Option<Seq<char>>) -> int {
    match cur {
        None => 0,
        Some(id) => match first_match(rows, id) {
            Some(i) => i,
            None => 0,
        },
    }
}

/// The position of the first row carrying the given identity, if any.
pub fn position_of(rows: &Vec<PeripheralInfo>, id: &PeripheralId) -> (r: Option<usize>)
    ensures
        match r {
            Some(i) => i < rows@.len() && first_match(rows_view(rows@), id@) == Some(i as int),
            None => first_match(rows_view(rows@), id@) is None,
        },
{
    let mut i: usize = 0;
    while i < rows.len()
        invariant
            i <= rows.len(),
            forall|j: int| 0 <= j < i ==> #[trigger] rows_view(rows@)[j].id != id@,
        decreases rows.len() - i,
    {
        if rows[i].id.eq_id(id) {
            proof {
                assert(rows_view(rows@)[i as int].id == id@);
                lemma_first_match_found(rows_view(rows@), id@, i as int);
            }
            return Some(i);
        }
        proof {
            assert(rows_view(rows@)[i as int].id != id@);
        }
        i = i + 1;
    }
    proof {
        lemma_first_match_none(rows_view(rows@), id@);
    }
    None
}

/// Mathematical image of the scan pane.
pub struct ScanTabView {
    pub data: Seq<PeripheralInfoView>,
    pub current: int,
}

/// The scan pane the frontend renders: the snapshot's ordered rows and the
/// resolved current index.
pub struct ScanTab {
    pub data: Vec<PeripheralInfo>,
    pub current: usize,
}

impl View for ScanTab {
    type V = ScanTabView;

    open spec fn view(&self) -> ScanTabView {
        ScanTabView { data: rows_view(self.data@), current: self.current as int }
    }
}

/// The scan pane a registry state projects to.
pub open spec fn spec_scan_tab(s: StateView) -> ScanTabView {
    ScanTabView {
        data: s.peripherals,
        current: spec_current_index(s.peripherals, s.current_peripheral_id),
    }
}

/// Index one past the current one, wrapping at the end of the list; the
/// current index again on an empty list.
pub open spec fn spec_wrap_next(t: ScanTabView) -> int {
    if t.data.len() == 0 {
        t.current
    } else {
        (t.current + 1) % (t.data.len() as int)
    }
}

/// Index one before the current one, wrapping at the start of the list;
/// the current index again on an empty list.
pub open spec fn spec_wrap_prev(t: ScanTabView) -> int {
    if t.data.len() == 0 {
        t.current
    } else {
        (t.current + t.data.len() - 1) % (t.data.len() as int)
    }
}

/// A key as the frontend loop hands it over from its input backend.
#[derive(Clone, Copy, Debug)]
pub enum KeyInput {
    Up,
    Down,
    Quit,
    Other,
}

impl ScanTab {
    /// The current index points into the list, or sits at 0 on an empty one.
    pub open spec fn wf(&self) -> bool {
        if self.data@.len() == 0 {
            self.current == 0
        } else {
            (self.current as int) < self.data@.len()
        }
    }

    /// An empty pane.
    pub fn new() -> (r: Self)
        ensures
            r.wf(),
            r@.data.len() == 0,
            r@.current == 0,
    {
        let r = ScanTab { data: Vec::new(), current: 0 };
        proof {
            assert(r@.data =~= Seq::<PeripheralInfoView>::empty());
        }
        r
    }

    /// Project the scan pane out of a registry state: the rows as they
    /// stand, and the selection resolved to a position (0 when nothing is
    /// selected or the selected peripheral is not listed).
    pub fn from_state(state: &State) -> (r: Self)
        ensures
            r@ == spec_scan_tab(state@),
            r.wf(),
    {
        let data = duplicate_rows(&state.peripherals);
        let current: usize = match &state.current_peripheral_id {
            None => 0,
            Some(id) => match position_of(&state.peripherals, id) {
                Some(i) => i,
                None => 0,
            },
        };
        ScanTab { data, current }
    }

    /// The index one before the current one, wrapping at the start.
    fn wrap_prev_index(&self) -> (i: usize)
        requires
            self.wf(),
            0 < self.data@.len(),
        ensures
            i as int == spec_wrap_prev(self@),
            (i as int) < self.data@.len(),
    {
        let n = self.data.len();
        let i = if self.current == 0 {
            n - 1
        } else {
            self.current - 1
        };
        proof {
            if self.current == 0 {
                lemma_mod_multiples_vanish(1, n - 1, n as int);
                lemma_small_mod((n - 1) as nat, n as nat);
            } else {
                lemma_mod_multiples_vanish(1, self.current - 1, n as int);
                lemma_small_mod((self.current - 1) as nat, n as nat);
            }
        }
        i
    }

    /// The index one past the current one, wrapping at the end.
    fn wrap_next_index(&self) -> (i: usize)
        requires
            self.wf(),
            0 < self.data@.len(),
        ensures
            i as int == spec_wrap_next(self@),
            (i as int) < self.data@.len(),
    {
        let n = self.data.len();
        let i = if self.current + 1 == n {
            0
        } else {
            self.current + 1
        };
        proof {
            if self.current + 1 == n {
                lemma_mod_self_0(n as int);
            } else {
                lemma_small_mod((self.current + 1) as nat, n as nat);
            }
        }
        i
    }

    /// Move the selection to the previous row, with wraparound; a no-op on
    /// an empty list.
    pub fn prev(&mut self)
        requires
            old(self).wf(),
        ensures
            final(self).wf(),
            final(self)@.data == old(self)@.data,
            final(self)@.current == spec_wrap_prev(old(self)@),
    {
        if self.data.len() == 0 {
            return;
        }
        self.current = self.wrap_prev_index();
    }

    /// Move the selection to the next row, with wraparound; a no-op on an
    /// empty list.
    pub fn next(&mut self)
        requires
            old(self).wf(),
        ensures
            final(self).wf(),
            final(self)@.data == old(self)@.data,
            final(self)@.current == spec_wrap_next(old(self)@),
    {
        if self.data.len() == 0 {
            return;
        }
        self.current = self.wrap_next_index();
    }

    /// The action a key asks for over this pane: navigation keys select the
    /// previous or next peripheral with wraparound and do nothing on an
    /// empty list; other keys ask for nothing here.
    pub fn handle_event(&self, key: KeyInput) -> (r: Option<Action>)
        requires
            self.wf(),
        ensures
            match key {
                KeyInput::Up => {
                    if self@.data.len() == 0 {
                        r is None
                    } else {
                        r matches Some(Action::Select(id)) && id@ == self@.data[spec_wrap_prev(
                            self@,
                        )].id
                    }
                },
                KeyInput::Down => {
                    if self@.data.len() == 0 {
                        r is None
                    } else {
                        r matches Some(Action::Select(id)) && id@ == self@.data[spec_wrap_next(
                            self@,
                        )].id
                    }
                },
                _ => r is None,
            },
    {
        match key {
            KeyInput::Up => {
                if self.data.len() == 0 {
                    return None;
                }
                let i = self.wrap_prev_index();
                Some(Action::Select(self.data[i].id.duplicate()))
            },
            KeyInput::Down => {
                if self.data.len() == 0 {
                    return None;
                }
                let i = self.wrap_next_index();
                Some(Action::Select(self.data[i].id.duplicate()))
            },
            _ => None,
        }
    }
}

/// Mathematical image of the snapshot the frontend consumes.
pub struct PropsView {
    pub scan: ScanTabView,
}

/// The immutable snapshot the frontend consumes: one scan pane per tick.
pub struct Props {
    pub scan: ScanTab,
}

impl View for Props {
    type V = PropsView;

    open spec fn view(&self) -> PropsView {
        PropsView { scan: self.scan@ }
    }
}

/// The snapshot a registry state projects to.
pub open spec fn spec_props(s: StateView) -> PropsView {
    PropsView { scan: spec_scan_tab(s) }
}

impl Props {
    /// Whether the snapshot's resolved index is in range.
    pub open spec fn wf(&self) -> bool {
        self.scan.wf()
    }

    /// Project the snapshot out of a registry state.
    pub fn from_state(state: &State) -> (r: Self)
        ensures
            r@ == spec_props(state@),
            r.wf(),
    {
        Props { scan: ScanTab::from_state(state) }
    }

    /// The action a key asks for: the quit key asks to exit, navigation
    /// keys go to the scan pane, anything else asks for nothing.
    pub fn handle_event(&self, key: KeyInput) -> (r: Option<Action>)
        requires
            self.wf(),
        ensures
            match key {
                KeyInput::Quit => r == Some(Action::Exit),
                KeyInput::Up => {
                    if self@.scan.data.len() == 0 {
                        r is None
                    } else {
                        r matches Some(Action::Select(id)) && id@ == self@.scan.data[
                            spec_wrap_prev(self@.scan)].id
                    }
                },
                KeyInput::Down => {
                    if self@.scan.data.len() == 0 {
                        r is None
                    } else {
                        r matches Some(Action::Select(id)) && id@ == self@.scan.data[
                            spec_wrap_next(self@.scan)].id
                    }
                },
                KeyInput::Other => r is None,
            },
    {
        match key {
            KeyInput::Quit => Some(Action::Exit),
            _ => self.scan.handle_event(key),
        }
    }
}

} // verus!
