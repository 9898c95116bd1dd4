//! The session controller: wires input events to the bound actions, runs at
//! most one of them, and ends the session.

use crate::layout::{ButtonSpec, ButtonView};
use vstd::prelude::*;

verus! {

/// Where the session stands. There is no way back to `Idle`.
#[derive(Clone, Copy, Debug, PartialEq, Eq, Structural)]
pub enum Phase {
    /// Waiting for input.
    Idle,
    /// A button's command has been started.
    Firing,
    /// The windows are closing and the event loop is asked to exit.
    Terminated,
}

/// What the input layer reports.
pub enum InputEvent {
    /// A pointer click on the button at this position of the layout.
    ButtonClicked(usize),
    /// Keyboard activation (Enter, Space) of the button at this position.
    ButtonActivated(usize),
    /// A key was released on a window that holds the buttons; its symbolic
    /// name, when it has one.
    KeyReleased(Option<String>),
    /// A key was released on a backdrop window, which holds no buttons.
    BackdropKeyReleased(Option<String>),
    /// A pointer click on the background of a window.
    BackgroundClicked,
    /// The command started by `Effect::RunCommand` has completed, whatever
    /// its exit status.
    CommandFinished,
}

pub enum EventView {
    ButtonClicked(usize),
    ButtonActivated(usize),
    KeyReleased(Option<Seq<char>>),
    BackdropKeyReleased(Option<Seq<char>>),
    BackgroundClicked,
    CommandFinished,
}

impl View for InputEvent {
    type V = EventView;

    open spec fn view(&self) -> EventView {
        match self {
            InputEvent::ButtonClicked(i) => EventView::ButtonClicked(*i),
            InputEvent::ButtonActivated(i) => EventView::ButtonActivated(*i),
            InputEvent::KeyReleased(k) => EventView::KeyReleased(
                match k {
                    Some(s) => Some(s@),
                    None => None,
                },
            ),
            InputEvent::BackdropKeyReleased(k) => EventView::BackdropKeyReleased(
                match k {
                    Some(s) => Some(s@),
                    None => None,
                },
            ),
            InputEvent::BackgroundClicked => EventView::BackgroundClicked,
            InputEvent::CommandFinished => EventView::CommandFinished,
        }
    }
}

/// What the caller must do after an event.
#[derive(Clone, Copy, Debug, PartialEq, Eq, Structural)]
pub enum Effect {
    Nothing,
    /// Run the command of the button at this position, then report
    /// `InputEvent::CommandFinished`.
    RunCommand(usize),
    /// Close every window and leave the event loop.
    CloseAllAndQuit,
}

/// The one controller of a session; its `handle` is the only thing that
/// changes it.
pub struct SessionController {
    phase: Phase,
    fired: Option<usize>,
    pointer_enabled: bool,
    keybinds: Vec<Option<String>>,
}

pub struct SessionView {
    pub phase: Phase,
    /// The button whose command was started, once one was.
    pub fired: Option<usize>,
    pub pointer_enabled: bool,
    /// The keybind of each button, in layout order.
    pub keybinds: Seq<Option<Seq<char>>>,
}

impl View for SessionController {
    type V = SessionView;

    closed spec fn view(&self) -> SessionView {
        SessionView {
            phase: self.phase,
            fired: self.fired,
            pointer_enabled: self.pointer_enabled,
            keybinds: self.keybinds@.map_values(|k: Option<String>| opt_view(k)),
        }
    }
}

pub open spec fn opt_view(k: Option<String>) -> Option<Seq<char>> {
    match k {
        Some(s) => Some(s@),
        None => None,
    }
}

/// Name of the key that cancels the session.
pub open spec fn escape_key() -> Seq<char> {
    "Escape"@
}

/// A released key matches a keybind when both are present and equal,
/// character for character.
pub open spec fn key_match(key: Option<Seq<char>>, keybind: Option<Seq<char>>) -> bool {
    match (key, keybind) {
        (Some(k), Some(b)) => k == b,
        _ => false,
    }
}

/// The first button, in layout order, whose keybind matches `key`.
pub open spec fn first_bound(keybinds: Seq<Option<Seq<char>>>, key: Seq<char>) -> Option<int>
    decreases keybinds.len(),
{
    if keybinds.len() == 0 {
        None
    } else {
        let prev = first_bound(keybinds.drop_last(), key);
        if prev is Some {
            prev
        } else if key_match(Some(key), keybinds.last()) {
            Some(keybinds.len() - 1)
        } else {
            None
        }
    }
}

/// Starts the command of button `i`.
pub open spec fn fire(s: SessionView, i: int) -> (SessionView, Effect) {
    (SessionView { phase: Phase::Firing, fired: Some(i as usize), ..s }, Effect::RunCommand(i as usize))
}

/// Ends the session without running anything.
pub open spec fn cancel(s: SessionView) -> (SessionView, Effect) {
    (SessionView { phase: Phase::Terminated, ..s }, Effect::CloseAllAndQuit)
}

/// One transition of the session.
pub open spec fn step(s: SessionView, ev: EventView) -> (SessionView, Effect) {
    match s.phase {
        Phase::Idle => match ev {
            EventView::ButtonClicked(i) => if s.pointer_enabled && i < s.keybinds.len() {
                fire(s, i as int)
            } else {
                (s, Effect::Nothing)
            },
            EventView::ButtonActivated(i) => if i < s.keybinds.len() {
                fire(s, i as int)
            } else {
                (s, Effect::Nothing)
            },
            EventView::KeyReleased(Some(k)) => if k == escape_key() {
                cancel(s)
            } else {
                match first_bound(s.keybinds, k) {
                    Some(i) => fire(s, i),
                    None => (s, Effect::Nothing),
                }
            },
            EventView::KeyReleased(None) => (s, Effect::Nothing),
            EventView::BackdropKeyReleased(Some(k)) => if k == escape_key() {
                cancel(s)
            } else {
                (s, Effect::Nothing)
            },
            EventView::BackdropKeyReleased(None) => (s, Effect::Nothing),
            EventView::BackgroundClicked => if s.pointer_enabled {
                cancel(s)
            } else {
                (s, Effect::Nothing)
            },
            EventView::CommandFinished => (s, Effect::Nothing),
        },
        Phase::Firing => match ev {
            EventView::CommandFinished => (
                SessionView { phase: Phase::Terminated, ..s },
                Effect::CloseAllAndQuit,
            ),
            _ => (s, Effect::Nothing),
        },
        Phase::Terminated => (s, Effect::Nothing),
    }
}

/// Exact, case-sensitive comparison of a released key with a keybind; an
/// absent keybind never matches.
pub fn keybind_matches(key: &Option<String>, keybind: &Option<String>) -> (r: bool)
    ensures
        r == key_match(opt_view(*key), opt_view(*keybind)),
{
    match (key, keybind) {
        (Some(k), Some(b)) => *k == *b,
        _ => false,
    }
}

impl SessionController {
    pub open spec fn wf(&self) -> bool {
        consistent(self@)
    }

    /// A fresh session over the buttons of a layout, in layout order.
    pub fn new(buttons: &Vec<ButtonSpec>, pointer_enabled: bool) -> (r: Self)
        ensures
            r.wf(),
            r@.phase == Phase::Idle,
            r@.fired is None,
            r@.pointer_enabled == pointer_enabled,
            r@.keybinds == buttons@.map_values(|b: ButtonSpec| b@.keybind),
    {
        let mut keybinds: Vec<Option<String>> = Vec::new();
        let mut i: usize = 0;
        while i < buttons.len()
            invariant
                i <= buttons@.len(),
                keybinds@.len() == i,
                forall|k: int| 0 <= k < i ==> opt_view(#[trigger] keybinds@[k]) == buttons@[k]@.keybind,
            decreases buttons@.len() - i,
        {
            keybinds.push(buttons[i].keybind.clone());
            i = i + 1;
        }
        let r = SessionController { phase: Phase::Idle, fired: None, pointer_enabled, keybinds };
        assert(r@.keybinds.len() == r.keybinds@.len());
        assert(r@.keybinds =~= buttons@.map_values(|b: ButtonSpec| b@.keybind));
        r
    }

    pub fn phase(&self) -> (r: Phase)
        ensures
            r == self@.phase,
    {
        self.phase
    }

    /// Whether a command has been started in this session.
    pub fn has_fired(&self) -> (r: bool)
        ensures
            r == self@.fired is Some,
    {
        self.fired.is_some()
    }

    fn first_bound_exec(&self, key: &String) -> (r: Option<usize>)
        ensures
            match r {
                Some(i) => first_bound(self@.keybinds, key@) == Some(i as int),
                None => first_bound(self@.keybinds, key@) is None,
            },
    {
        let ghost kb = self@.keybinds;
        let mut found: Option<usize> = None;
        let mut i: usize = 0;
        while i < self.keybinds.len()
            invariant
                i <= self.keybinds@.len(),
                kb == self@.keybinds,
                kb.len() == self.keybinds@.len(),
                match found {
                    Some(j) => first_bound(kb.take(i as int), key@) == Some(j as int),
                    None => first_bound(kb.take(i as int), key@) is None,
                },
            decreases self.keybinds@.len() - i,
        {
            assert(kb.take(i as int + 1).drop_last() =~= kb.take(i as int));
            assert(kb[i as int] == opt_view(self.keybinds@[i as int]));
            if found.is_none() {
                let bound = match &self.keybinds[i] {
                    Some(b) => *b == *key,
                    None => false,
                };
                if bound {
                    found = Some(i);
                }
            }
            i = i + 1;
        }
        assert(kb.take(kb.len() as int) =~= kb);
        found
    }

    /// Feeds one event to the session: the first trigger while idle starts
    /// its button's command, Escape or a background click (when the pointer
    /// is enabled) while idle cancels, and the end of the command closes the
    /// session. Every other event changes nothing.
    pub fn handle(&mut self, ev: &InputEvent) -> (r: Effect)
        requires
            old(self).wf(),
        ensures
            final(self).wf(),
            (final(self)@, r) == step(old(self)@, ev@),
    {
        let ghost kb = self.keybinds@;
        assert(self@.keybinds.len() == kb.len());
        match self.phase {
            Phase::Idle => match ev {
                InputEvent::ButtonClicked(i) => {
                    if self.pointer_enabled && *i < self.keybinds.len() {
                        self.phase = Phase::Firing;
                        self.fired = Some(*i);
                        Effect::RunCommand(*i)
                    } else {
                        Effect::Nothing
                    }
                },
                InputEvent::ButtonActivated(i) => {
                    if *i < self.keybinds.len() {
                        self.phase = Phase::Firing;
                        self.fired = Some(*i);
                        Effect::RunCommand(*i)
                    } else {
                        Effect::Nothing
                    }
                },
                InputEvent::KeyReleased(Some(k)) => {
                    if *k == "Escape".to_owned() {
                        self.phase = Phase::Terminated;
                        Effect::CloseAllAndQuit
                    } else {
                        match self.first_bound_exec(k) {
                            Some(i) => {
                                proof {
                                    lemma_first_bound_in_range(self@.keybinds, k@);
                                }
                                self.phase = Phase::Firing;
                                self.fired = Some(i);
                                Effect::RunCommand(i)
                            },
                            None => Effect::Nothing,
                        }
                    }
                },
                InputEvent::KeyReleased(None) => Effect::Nothing,
                InputEvent::BackdropKeyReleased(Some(k)) => {
                    if *k == "Escape".to_owned() {
                        self.phase = Phase::Terminated;
                        Effect::CloseAllAndQuit
                    } else {
                        Effect::Nothing
                    }
                },
                InputEvent::BackdropKeyReleased(None) => Effect::Nothing,
                InputEvent::BackgroundClicked => {
                    if self.pointer_enabled {
                        self.phase = Phase::Terminated;
                        Effect::CloseAllAndQuit
                    } else {
                        Effect::Nothing
                    }
                },
                InputEvent::CommandFinished => Effect::Nothing,
            },
            Phase::Firing => match ev {
                InputEvent::CommandFinished => {
                    self.phase = Phase::Terminated;
                    Effect::CloseAllAndQuit
                },
                _ => Effect::Nothing,
            },
            Phase::Terminated => Effect::Nothing,
        }
    }
}

proof fn lemma_first_bound_in_range(keybinds: Seq<Option<Seq<char>>>, key: Seq<char>)
    ensures
        first_bound(keybinds, key) matches Some(i) ==> 0 <= i < keybinds.len(),
    decreases keybinds.len(),
{
    if keybinds.len() > 0 {
        lemma_first_bound_in_range(keybinds.drop_last(), key);
    }
}

/// The state after feeding `evs` in order.
pub open spec fn run_state(s: SessionView, evs: Seq<EventView>) -> SessionView
    decreases evs.len(),
{
    if evs.len() == 0 {
        s
    } else {
        run_state(step(s, evs[0]).0, evs.drop_first())
    }
}

/// The effects of feeding `evs` in order, one per event.
pub open spec fn run_effects(s: SessionView, evs: Seq<EventView>) -> Seq<Effect>
    decreases evs.len(),
{
    if evs.len() == 0 {
        Seq::empty()
    } else {
        seq![step(s, evs[0]).1] + run_effects(step(s, evs[0]).0, evs.drop_first())
    }
}

/// How many commands a list of effects starts.
pub open spec fn runs_in(effects: Seq<Effect>) -> nat
    decreases effects.len(),
{
    if effects.len() == 0 {
        0
    } else {
        (if effects[0] is RunCommand {
            1nat
        } else {
            0nat
        }) + runs_in(effects.drop_first())
    }
}

/// An idle session has started nothing, and its buttons can be counted in a `usize`.
pub open spec fn consistent(s: SessionView) -> bool {
    &&& s.phase == Phase::Idle ==> s.fired is None
    &&& s.keybinds.len() <= usize::MAX
}

proof fn lemma_runs_in_append(a: Seq<Effect>, b: Seq<Effect>)
    ensures
        runs_in(a + b) == runs_in(a) + runs_in(b),
    decreases a.len(),
{
    if a.len() > 0 {
        assert((a + b).drop_first() =~= a.drop_first() + b);
        lemma_runs_in_append(a.drop_first(), b);
    } else {
        assert(a + b =~= b);
    }
}

/// Whatever events arrive, in whatever order, a session starts at most one
/// command, none at all unless it is idle, and once one has started the
/// session keeps naming that one.
pub proof fn lemma_fires_at_most_once(s: SessionView, evs: Seq<EventView>)
    requires
        consistent(s),
    ensures
        runs_in(run_effects(s, evs)) <= (if s.phase == Phase::Idle {
            1nat
        } else {
            0nat
        }),
        consistent(run_state(s, evs)),
        s.fired is Some ==> run_state(s, evs).fired == s.fired,
        s.phase != Phase::Idle ==> run_state(s, evs).phase != Phase::Idle,
    decreases evs.len(),
{
    if evs.len() > 0 {
        let (next, eff) = step(s, evs[0]);
        lemma_fires_at_most_once(next, evs.drop_first());
        assert(run_effects(s, evs) == seq![eff] + run_effects(next, evs.drop_first()));
        lemma_runs_in_append(seq![eff], run_effects(next, evs.drop_first()));
        assert(runs_in(seq![eff]) == (if eff is RunCommand {
            1nat
        } else {
            0nat
        })) by {
            assert(seq![eff].drop_first() =~= Seq::<Effect>::empty());
            assert(runs_in(Seq::<Effect>::empty()) == 0);
            assert(seq![eff][0] == eff);
        }
    }
}

/// Escape, released on any window, or a background click when the pointer
/// is enabled, ends an idle session at once, and no command runs then or
/// after, whatever follows.
pub proof fn lemma_cancel_runs_nothing(s: SessionView, ev: EventView, rest: Seq<EventView>)
    requires
        s.phase == Phase::Idle,
        consistent(s),
        ev == EventView::KeyReleased(Some(escape_key())) || ev == EventView::BackdropKeyReleased(
            Some(escape_key()),
        ) || (ev == EventView::BackgroundClicked && s.pointer_enabled),
    ensures
        step(s, ev) == (SessionView { phase: Phase::Terminated, ..s }, Effect::CloseAllAndQuit),
        runs_in(run_effects(step(s, ev).0, rest)) == 0,
        run_state(step(s, ev).0, rest).fired is None,
{
    lemma_stays_terminated(step(s, ev).0, rest);
}

proof fn lemma_stays_terminated(s: SessionView, evs: Seq<EventView>)
    requires
        s.phase == Phase::Terminated,
    ensures
        runs_in(run_effects(s, evs)) == 0,
        run_state(s, evs) == s,
    decreases evs.len(),
{
    if evs.len() > 0 {
        lemma_stays_terminated(s, evs.drop_first());
        assert(run_effects(s, evs).drop_first() =~= run_effects(s, evs.drop_first()));
    }
}

/// A released key matches a keybind exactly when the two names are the same
/// sequence of characters: a name that differs in the case of one character,
/// or that is longer or shorter, never matches.
pub proof fn lemma_keybind_exact(key: Seq<char>, keybind: Seq<char>)
    ensures
        key_match(Some(key), Some(keybind)) <==> key == keybind,
        key.len() != keybind.len() ==> !key_match(Some(key), Some(keybind)),
        forall|i: int|
            0 <= i < key.len() && i < keybind.len() && key[i] != keybind[i] ==> !key_match(
                Some(key),
                Some(keybind),
            ),
        !key_match(Some(key), None),
{
}

proof fn lemma_first_bound_is_first(keybinds: Seq<Option<Seq<char>>>, key: Seq<char>, i: int)
    ensures
        first_bound(keybinds, key) == Some(i) <==> (0 <= i < keybinds.len() && key_match(
            Some(key),
            keybinds[i],
        ) && forall|j: int| 0 <= j < i ==> !key_match(Some(key), #[trigger] keybinds[j])),
        first_bound(keybinds, key) is None <==> forall|j: int|
            0 <= j < keybinds.len() ==> !key_match(Some(key), #[trigger] keybinds[j]),
    decreases keybinds.len(),
{
    if keybinds.len() > 0 {
        let prefix = keybinds.drop_last();
        lemma_first_bound_is_first(prefix, key, i);
        lemma_first_bound_in_range(prefix, key);
        if let Some(p) = first_bound(prefix, key) {
            lemma_first_bound_is_first(prefix, key, p);
        }
        assert forall|j: int| 0 <= j < prefix.len() implies prefix[j] == keybinds[j] by {}
    }
}

/// While the session is idle, releasing a key other than Escape on a window
/// with buttons starts the command of button `i` exactly when `i`'s keybind
/// equals the key's name, character for character, and no earlier button's
/// does; it starts nothing when no keybind equals it. An absent keybind
/// never matches.
pub proof fn lemma_key_release_fires_first_match(s: SessionView, key: Seq<char>, i: int)
    requires
        s.phase == Phase::Idle,
        consistent(s),
        key != escape_key(),
    ensures
        (0 <= i < s.keybinds.len() && step(s, EventView::KeyReleased(Some(key))).1
            == Effect::RunCommand(i as usize)) <==> (0 <= i < s.keybinds.len() && s.keybinds[i]
            == Some(key) && forall|j: int| 0 <= j < i ==> #[trigger] s.keybinds[j] != Some(key)),
        step(s, EventView::KeyReleased(Some(key))).1 == Effect::Nothing <==> forall|j: int|
            0 <= j < s.keybinds.len() ==> #[trigger] s.keybinds[j] != Some(key),
{
    lemma_first_bound_is_first(s.keybinds, key, i);
    lemma_first_bound_in_range(s.keybinds, key);
    if let Some(p) = first_bound(s.keybinds, key) {
        lemma_first_bound_is_first(s.keybinds, key, p);
        assert(!key_match(Some(key), s.keybinds[p]) ==> false);
    }
    assert forall|j: int| 0 <= j < s.keybinds.len() implies (key_match(Some(key), s.keybinds[j])
        <==> s.keybinds[j] == Some(key)) by {}
}

} // verus!
