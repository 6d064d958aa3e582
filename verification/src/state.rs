//! The browser's selection state machine: a roster, an optional selection
//! index, and an optional "active player" snapshot, driven by keyboard
//! events one at a time.

use vstd::prelude::*;
use crate::players::Player;

verus! {

/// A keyboard event, as the front end classifies raw input.
/// `Other` stands for any unrecognized key, which changes nothing.
#[derive(Clone, Copy, PartialEq, Eq, Structural, Debug)]
pub enum InputEvent {
    Up,
    Down,
    Select,
    Deselect,
    Quit,
    Other,
}

/// A selection move: the subset of events that change the index.
#[derive(Clone, Copy, PartialEq, Eq, Structural, Debug)]
pub enum MoveOp {
    Up,
    Down,
}

/// Where the selection index lands after one move up over `n` rows.
pub open spec fn spec_move_up(sel: Option<usize>, n: nat) -> Option<usize> {
    if n == 0 {
        None
    } else {
        match sel {
            None => Some(0usize),
            Some(i) => if i == 0 {
                Some(0usize)
            } else {
                Some((i - 1) as usize)
            },
        }
    }
}

/// Where the selection index lands after one move down over `n` rows.
pub open spec fn spec_move_down(sel: Option<usize>, n: nat) -> Option<usize> {
    if n == 0 {
        None
    } else {
        match sel {
            None => Some(0usize),
            Some(i) => if i + 1 < n {
                Some((i + 1) as usize)
            } else {
                Some((n - 1) as usize)
            },
        }
    }
}

/// The selection invariant: an index, when set, lies within the roster.
pub open spec fn sel_in_bounds(sel: Option<usize>, n: nat) -> bool {
    sel matches Some(i) ==> i < n
}

pub open spec fn spec_move(sel: Option<usize>, n: nat, op: MoveOp) -> Option<usize> {
    match op {
        MoveOp::Up => spec_move_up(sel, n),
        MoveOp::Down => spec_move_down(sel, n),
    }
}

/// The selection index after a whole sequence of moves, applied in order.
pub open spec fn spec_apply_moves(sel: Option<usize>, n: nat, ops: Seq<MoveOp>) -> Option<usize>
    decreases ops.len(),
{
    if ops.len() == 0 {
        sel
    } else {
        spec_apply_moves(spec_move(sel, n, ops[0]), n, ops.subrange(1, ops.len() as int))
    }
}

/// Any sequence of moves keeps the selection index, when set, within
/// `[0, n-1]`; over an empty roster the selection stays unset.
pub proof fn lemma_moves_stay_in_bounds(sel: Option<usize>, n: nat, ops: Seq<MoveOp>)
    requires
        sel_in_bounds(sel, n),
    ensures
        sel_in_bounds(spec_apply_moves(sel, n, ops), n),
        n == 0 ==> spec_apply_moves(sel, n, ops) is None,
    decreases ops.len(),
{
    if ops.len() > 0 {
        lemma_moves_stay_in_bounds(spec_move(sel, n, ops[0]), n, ops.subrange(1, ops.len() as int));
    }
}

/// Moving up at the top row is idempotent: any run of up-moves from
/// index 0 leaves the index at 0.
pub proof fn lemma_move_up_idempotent_at_top(n: nat, ops: Seq<MoveOp>)
    requires
        n > 0,
        forall|k: int| 0 <= k < ops.len() ==> ops[k] == MoveOp::Up,
    ensures
        spec_apply_moves(Some(0usize), n, ops) == Some(0usize),
    decreases ops.len(),
{
    if ops.len() > 0 {
        assert(spec_move(Some(0usize), n, ops[0]) == Some(0usize));
        lemma_move_up_idempotent_at_top(n, ops.subrange(1, ops.len() as int));
    }
}

/// Moving down at the bottom row is idempotent: any run of down-moves
/// from index n-1 leaves the index at n-1.
pub proof fn lemma_move_down_idempotent_at_bottom(n: nat, ops: Seq<MoveOp>)
    requires
        0 < n <= usize::MAX,
        forall|k: int| 0 <= k < ops.len() ==> ops[k] == MoveOp::Down,
    ensures
        spec_apply_moves(Some((n - 1) as usize), n, ops) == Some((n - 1) as usize),
    decreases ops.len(),
{
    if ops.len() > 0 {
        assert(spec_move(Some((n - 1) as usize), n, ops[0]) == Some((n - 1) as usize));
        lemma_move_down_idempotent_at_bottom(n, ops.subrange(1, ops.len() as int));
    }
}

/// The mathematical model of the browser state.
#[verifier::ext_equal]
pub struct AppStateView {
    pub players: Seq<Player>,
    pub selected: Option<usize>,
    pub active_player: Option<Player>,
}

impl AppStateView {
    /// The state invariant: the selection index, when set, is within the roster.
    pub open spec fn wf(self) -> bool {
        sel_in_bounds(self.selected, self.players.len())
    }

    pub open spec fn after_move_up(self) -> AppStateView {
        AppStateView { selected: spec_move_up(self.selected, self.players.len()), ..self }
    }

    pub open spec fn after_move_down(self) -> AppStateView {
        AppStateView { selected: spec_move_down(self.selected, self.players.len()), ..self }
    }

    pub open spec fn after_select(self) -> AppStateView {
        match self.selected {
            Some(i) => if i < self.players.len() {
                AppStateView { active_player: Some(self.players[i as int]), ..self }
            } else {
                self
            },
            None => self,
        }
    }

    pub open spec fn after_deselect(self) -> AppStateView {
        AppStateView { active_player: None, ..self }
    }

    /// The state after one keyboard event is dispatched.
    pub open spec fn after_event(self, ev: InputEvent) -> AppStateView {
        match ev {
            InputEvent::Up => self.after_move_up(),
            InputEvent::Down => self.after_move_down(),
            InputEvent::Select => self.after_select(),
            InputEvent::Deselect => self.after_deselect(),
            InputEvent::Quit => self,
            InputEvent::Other => self,
        }
    }
}

/// Every event preserves the state invariant.
pub proof fn lemma_event_preserves_wf(v: AppStateView, ev: InputEvent)
    requires
        v.wf(),
    ensures
        v.after_event(ev).wf(),
{
}

/// Selecting and then immediately deselecting leaves no active player
/// and alters neither the selection index nor the roster.
pub proof fn lemma_select_then_deselect(v: AppStateView)
    ensures
        v.after_select().after_deselect().active_player is None,
        v.after_select().after_deselect().selected == v.selected,
        v.after_select().after_deselect().players == v.players,
{
}

/// On an empty roster with nothing selected, every non-quit event is a
/// no-op: moves, select and deselect all leave the state as it was.
pub proof fn lemma_empty_roster_inert(v: AppStateView, ev: InputEvent)
    requires
        v.players.len() == 0,
        v.selected is None,
        v.active_player is None,
    ensures
        v.after_event(ev) == v,
{
    assert(v.after_event(ev) =~= v);
}

/// The mutable browser state over a fetched roster.
pub struct AppState {
    pub players: Vec<Player>,
    pub selected: Option<usize>,
    pub active_player: Option<Player>,
}

impl View for AppState {
    type V = AppStateView;

    open spec fn view(&self) -> AppStateView {
        AppStateView {
            players: self.players@,
            selected: self.selected,
            active_player: self.active_player,
        }
    }
}

impl AppState {
    /// A fresh browser over a fetched roster: nothing selected, no snapshot.
    pub fn new(players: Vec<Player>) -> (r: Self)
        ensures
            r@.players == players@,
            r@.selected is None,
            r@.active_player is None,
            r@.wf(),
    {
        AppState { players, selected: None, active_player: None }
    }

    /// Move the selection up one row, clamping at the top; on an empty
    /// roster the selection stays unset.
    pub fn move_up(&mut self)
        ensures
            final(self)@ == old(self)@.after_move_up(),
    {
        if self.players.len() == 0 {
            self.selected = None;
        } else {
            self.selected = match self.selected {
                Some(v) => if v == 0 {
                    Some(v)
                } else {
                    Some(v - 1)
                },
                None => Some(0),
            };
        }
        proof {
            assert(self@ =~= old(self)@.after_move_up());
        }
    }

    /// Move the selection down one row, clamping at the bottom; on an
    /// empty roster the selection stays unset.
    pub fn move_down(&mut self)
        ensures
            final(self)@ == old(self)@.after_move_down(),
    {
        if self.players.len() == 0 {
            self.selected = None;
        } else {
            let last: usize = self.players.len() - 1;
            self.selected = match self.selected {
                Some(v) => if v >= last {
                    Some(last)
                } else {
                    Some(v + 1)
                },
                None => Some(0),
            };
        }
        proof {
            assert(self@ =~= old(self)@.after_move_down());
        }
    }

    /// Snapshot the player at the selection into the active-player slot;
    /// with no valid selection this is a no-op.
    pub fn select_player(&mut self)
        ensures
            final(self)@ == old(self)@.after_select(),
    {
        match self.selected {
            Some(i) => {
                if i < self.players.len() {
                    self.active_player = Some(self.players[i].clone());
                }
            },
            None => {},
        }
        proof {
            assert(self@ =~= old(self)@.after_select());
        }
    }

    /// Clear the active-player snapshot; the selection index is kept.
    pub fn deselect_player(&mut self)
        ensures
            final(self)@ == old(self)@.after_deselect(),
    {
        self.active_player = None;
        proof {
            assert(self@ =~= old(self)@.after_deselect());
        }
    }

    /// Apply one keyboard event; returns true exactly when the event
    /// asks to quit, in which case the state is unchanged.
    pub fn handle_event(&mut self, ev: InputEvent) -> (quit: bool)
        ensures
            final(self)@ == old(self)@.after_event(ev),
            quit == (ev == InputEvent::Quit),
    {
        match ev {
            InputEvent::Up => {
                self.move_up();
                false
            },
            InputEvent::Down => {
                self.move_down();
                false
            },
            InputEvent::Select => {
                self.select_player();
                false
            },
            InputEvent::Deselect => {
                self.deselect_player();
                false
            },
            InputEvent::Quit => true,
            InputEvent::Other => false,
        }
    }
}

} // verus!
