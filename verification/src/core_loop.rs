//! The per-frame execution loop.
//!
//! Each frame the loop drains the platform's event batch, updates the
//! accumulated [`InputState`] while independently forwarding every raw event
//! to the bound core, then scans the shortcut table in registration order.
//! The first satisfied entry is the single match of the frame: the input
//! state is cleared immediately and the entry's command is handed to the
//! caller for execution. The command's result decides how the loop goes on:
//! a quit result exits at once, any other result continues and rebuilds the
//! shortcut table.

use vstd::prelude::*;

use crate::input::{AxisRef, ButtonRef, CoreInput, Event, InputState, InputView, empty_view};
use crate::platform::Core;
use crate::shortcut::Shortcut;

verus! {

/// Name of one user-configurable command; what it does is the surrounding
/// application's affair.
#[derive(Clone, Copy, Debug, PartialEq, Eq, Structural)]
pub struct CommandId(pub u32);

/// One entry of the shortcut table: a command bound to a trigger condition.
#[derive(Debug)]
pub struct ShortcutEntry {
    pub command: CommandId,
    pub shortcut: Shortcut,
}

/// What executing a command yielded.
#[derive(Debug)]
pub enum CommandResult {
    /// The command succeeded.
    Success,
    /// The command failed; reported, non-fatal, the loop continues.
    Error(String),
    /// The active core is to be quit; the loop exits immediately.
    QuitCore,
}

/// How the loop goes on after a command executed.
#[derive(Clone, Copy, Debug, PartialEq, Eq, Structural)]
pub enum LoopDirective {
    /// Keep looping; when `rebuild_shortcuts`, the shortcut table must be
    /// rebuilt because command execution may have changed configuration.
    Continue { rebuild_shortcuts: bool },
    /// Exit the loop immediately, skipping everything else this frame.
    Exit,
}

/// The platform events collected in one loop iteration.
#[derive(Debug)]
pub struct EventLoopState {
    events: Vec<Event>,
}

impl View for EventLoopState {
    type V = Seq<Event>;

    closed spec fn view(&self) -> Seq<Event> {
        self.events@
    }
}

impl EventLoopState {
    /// Wrap one frame's drained events.
    pub fn new(events: Vec<Event>) -> (r: EventLoopState)
        ensures
            r@ == events@,
    {
        EventLoopState { events }
    }

    /// The events of this batch, in arrival order.
    pub fn events(&self) -> (r: &Vec<Event>)
        ensures
            r@ == self@,
    {
        &self.events
    }
}

/// Controller identifiers arriving from the platform are 1-based.
pub open spec fn event_ok(ev: Event) -> bool {
    match ev {
        Event::ControllerButtonDown { which, .. } => which >= 1,
        Event::ControllerButtonUp { which, .. } => which >= 1,
        Event::ControllerAxisMotion { which, .. } => which >= 1,
        _ => true,
    }
}

/// Whether every event of the batch is well-formed.
pub open spec fn batch_ok(evs: Seq<Event>) -> bool {
    forall|i: int| 0 <= i < evs.len() ==> event_ok(#[trigger] evs[i])
}

/// The 0-based controller index forwarded for a 1-based platform
/// identifier: the identifier minus one, truncated to the index's width.
pub open spec fn index_of_id(which: u32) -> u8
    recommends
        which >= 1,
{
    (((which - 1) as int % 256) as u8)
}

/// How one event changes the input-state model: key repeats are suppressed,
/// key-ups always register, controller events always register.
pub open spec fn apply_event(v: InputView, ev: Event) -> InputView {
    match ev {
        Event::KeyDown { scancode, repeat } => if !repeat {
            InputView { keys: v.keys.insert(scancode), ..v }
        } else {
            v
        },
        Event::KeyUp { scancode } => InputView { keys: v.keys.remove(scancode), ..v },
        Event::ControllerButtonDown { which, button } => InputView {
            buttons: v.buttons.insert(ButtonRef { which, button }),
            ..v
        },
        Event::ControllerButtonUp { which, button } => InputView {
            buttons: v.buttons.remove(ButtonRef { which, button }),
            ..v
        },
        Event::ControllerAxisMotion { which, axis, value } => InputView {
            axes: v.axes.insert(AxisRef { which, axis }, value),
            ..v
        },
        Event::Other => v,
    }
}

/// How a whole batch, applied in order, changes the input-state model.
pub open spec fn apply_events(v: InputView, evs: Seq<Event>) -> InputView
    decreases evs.len(),
{
    if evs.len() == 0 {
        v
    } else {
        apply_event(apply_events(v, evs.drop_last()), evs.last())
    }
}

/// What one event forwards to the core, raw and unfiltered: every physical
/// key repeat and every raw axis sample, with controller identifiers
/// converted to 0-based indices. Events the engine does not route forward
/// nothing.
pub open spec fn forward_of_event(ev: Event) -> Seq<CoreInput> {
    match ev {
        Event::KeyDown { scancode, .. } => seq![CoreInput::KeyDown { scancode }],
        Event::KeyUp { scancode } => seq![CoreInput::KeyUp { scancode }],
        Event::ControllerButtonDown { which, button } => seq![
            CoreInput::ButtonDown { index: index_of_id(which), button },
        ],
        Event::ControllerButtonUp { which, button } => seq![
            CoreInput::ButtonUp { index: index_of_id(which), button },
        ],
        Event::ControllerAxisMotion { which, axis, value } => seq![
            CoreInput::AxisMotion { index: index_of_id(which), axis, value },
        ],
        Event::Other => Seq::empty(),
    }
}

/// What a whole batch forwards to the core, in order.
pub open spec fn forward_of(evs: Seq<Event>) -> Seq<CoreInput>
    decreases evs.len(),
{
    if evs.len() == 0 {
        Seq::empty()
    } else {
        forward_of(evs.drop_last()) + forward_of_event(evs.last())
    }
}

/// Whether `i` is the index of the first table entry satisfied by `v`.
pub open spec fn is_first_match(table: Seq<ShortcutEntry>, v: InputView, i: int) -> bool {
    &&& 0 <= i < table.len()
    &&& table[i].shortcut.spec_matches(v)
    &&& forall|j: int| 0 <= j < i ==> !(#[trigger] table[j]).shortcut.spec_matches(v)
}

/// The single match a frame considers: the first entry, in registration
/// order, whose trigger condition is satisfied.
pub open spec fn spec_first_match(table: Seq<ShortcutEntry>, v: InputView) -> Option<int> {
    if exists|i: int| is_first_match(table, v, i) {
        Some(choose|i: int| is_first_match(table, v, i))
    } else {
        None
    }
}

/// At most one index is the first match.
pub proof fn lemma_first_match_unique(table: Seq<ShortcutEntry>, v: InputView, i: int, j: int)
    requires
        is_first_match(table, v, i),
        is_first_match(table, v, j),
    ensures
        i == j,
{
}

/// If any entry matches, some entry is the first match.
pub proof fn lemma_exists_first_match(table: Seq<ShortcutEntry>, v: InputView, i: int)
    requires
        0 <= i < table.len(),
        table[i].shortcut.spec_matches(v),
    ensures
        spec_first_match(table, v) is Some,
        spec_first_match(table, v)->Some_0 <= i,
    decreases i,
{
    if forall|j: int| 0 <= j < i ==> !(#[trigger] table[j]).shortcut.spec_matches(v) {
        assert(is_first_match(table, v, i));
        lemma_first_match_unique(table, v, i, spec_first_match(table, v)->Some_0);
    } else {
        let j = choose|j: int| 0 <= j < i && (#[trigger] table[j]).shortcut.spec_matches(v);
        lemma_exists_first_match(table, v, j);
    }
}

/// Of two shortcuts whose trigger conditions are both satisfied by the same
/// input state, only the first-registered one's command is considered.
pub proof fn lemma_first_registered_wins(table: Seq<ShortcutEntry>, v: InputView, i: int, j: int)
    requires
        0 <= i < j < table.len(),
        table[i].shortcut.spec_matches(v),
        table[j].shortcut.spec_matches(v),
    ensures
        spec_first_match(table, v) is Some,
        spec_first_match(table, v)->Some_0 <= i,
        spec_first_match(table, v)->Some_0 != j,
{
    lemma_exists_first_match(table, v, i);
}

/// Entries registered after a frame's match never change that frame's
/// outcome: once an earlier entry fires, a later registration is not
/// evaluated.
pub proof fn lemma_later_registration_irrelevant(
    table: Seq<ShortcutEntry>,
    extra: ShortcutEntry,
    v: InputView,
)
    requires
        spec_first_match(table, v) is Some,
    ensures
        spec_first_match(table.push(extra), v) == spec_first_match(table, v),
{
    let i = spec_first_match(table, v)->Some_0;
    assert(is_first_match(table, v, i));
    assert(table.push(extra)[i] == table[i]);
    assert forall|j: int| 0 <= j < i implies !(#[trigger] table.push(extra)[j]).shortcut.spec_matches(
        v,
    ) by {
        assert(table.push(extra)[j] == table[j]);
    }
    assert(is_first_match(table.push(extra), v, i));
    lemma_first_match_unique(table.push(extra), v, i, spec_first_match(table.push(extra), v)->Some_0);
}

/// Whether an event is a key-down of the given key.
pub open spec fn is_key_down_of(ev: Event, k: u32) -> bool {
    match ev {
        Event::KeyDown { scancode, .. } => scancode == k,
        _ => false,
    }
}

/// Repeated key-downs of the same key without an intervening key-up
/// register exactly one pressed transition in the input state — after the
/// first down the model never changes again — while the core receives one
/// forwarded event per physical key-down, repeats included.
pub proof fn lemma_key_repeat_debounce(v: InputView, evs: Seq<Event>, k: u32)
    requires
        evs.len() > 0,
        forall|i: int| 0 <= i < evs.len() ==> is_key_down_of(#[trigger] evs[i], k),
        evs[0] == (Event::KeyDown { scancode: k, repeat: false }),
    ensures
        apply_events(v, evs) == (InputView { keys: v.keys.insert(k), ..v }),
        forall|n: int| 1 <= n <= evs.len() ==> apply_events(v, #[trigger] evs.take(n))
            == (InputView { keys: v.keys.insert(k), ..v }),
        forward_of(evs).len() == evs.len(),
        forall|i: int| 0 <= i < evs.len() ==> forward_of(evs)[i] == (CoreInput::KeyDown {
            scancode: k,
        }),
    decreases evs.len(),
{
    let target = InputView { keys: v.keys.insert(k), ..v };
    if evs.len() == 1 {
        reveal_with_fuel(apply_events, 2);
        reveal_with_fuel(forward_of, 2);
        assert(evs.drop_last() =~= Seq::empty());
        assert(evs.last() == evs[0]);
        assert(evs.take(1) =~= evs);
        assert(forward_of(evs) =~= forward_of_event(evs[0]));
    } else {
        let prefix = evs.drop_last();
        assert(prefix[0] == evs[0]);
        lemma_key_repeat_debounce(v, prefix, k);
        assert(target.keys.insert(k) =~= target.keys);
        assert(apply_event(target, evs.last()) == target);
        assert forall|n: int| 1 <= n <= evs.len() implies apply_events(v, #[trigger] evs.take(n))
            == target by {
            if n < evs.len() {
                assert(evs.take(n) =~= prefix.take(n));
            } else {
                assert(evs.take(n) =~= evs);
            }
        }
        assert(forward_of(evs) == forward_of(prefix) + forward_of_event(evs.last()));
    }
}

/// The forwarded index of a controller event is the reported identifier
/// minus one: identifier 1 maps to index 0, identifier 2 to index 1.
pub proof fn lemma_controller_index(which: u32)
    requires
        1 <= which <= 256,
    ensures
        index_of_id(which) == (which - 1) as u8,
{
}

/// The directive a command's result dictates: quitting exits the loop
/// before anything else happens this frame; success and failure alike
/// continue and rebuild the shortcut table.
pub open spec fn spec_directive(result: CommandResult) -> LoopDirective {
    match result {
        CommandResult::QuitCore => LoopDirective::Exit,
        _ => LoopDirective::Continue { rebuild_shortcuts: true },
    }
}

/// Decide how the loop goes on after a command executed.
pub fn directive_for(result: &CommandResult) -> (r: LoopDirective)
    ensures
        r == spec_directive(*result),
{
    match result {
        CommandResult::QuitCore => LoopDirective::Exit,
        _ => LoopDirective::Continue { rebuild_shortcuts: true },
    }
}

/// State of one execution-loop invocation: the accumulated input state, the
/// shortcut table in registration order, and the frame counter that paces
/// amortized housekeeping.
#[derive(Debug)]
pub struct CoreLoop {
    inputs: InputState,
    table: Vec<ShortcutEntry>,
    frame: u64,
}

impl CoreLoop {
    /// Internal consistency of the accumulated input state.
    pub closed spec fn wf(&self) -> bool {
        self.inputs.wf()
    }

    /// The model of the accumulated input state.
    pub closed spec fn inputs_view(&self) -> InputView {
        self.inputs@
    }

    /// The shortcut table, in registration order.
    pub closed spec fn table_view(&self) -> Seq<ShortcutEntry> {
        self.table@
    }

    /// The number of frames processed so far.
    pub closed spec fn frame_no(&self) -> u64 {
        self.frame
    }

    /// A fresh loop over the given shortcut table, with nothing pressed.
    pub fn new(table: Vec<ShortcutEntry>) -> (r: CoreLoop)
        ensures
            r.wf(),
            r.inputs_view() == empty_view(),
            r.table_view() == table@,
            r.frame_no() == 0,
    {
        CoreLoop { inputs: InputState::new(), table, frame: 0 }
    }

    /// The accumulated input state.
    pub fn inputs(&self) -> (r: &InputState)
        ensures
            r@ == self.inputs_view(),
    {
        &self.inputs
    }

    /// The shortcut table, in registration order.
    pub fn shortcuts(&self) -> (r: &Vec<ShortcutEntry>)
        ensures
            r@ == self.table_view(),
    {
        &self.table
    }

    /// Route one raw event: update the input state (debounced) and
    /// independently forward the raw event to the bound core.
    pub fn process_event<C: Core>(&mut self, core: &mut C, ev: &Event)
        requires
            old(self).wf(),
            event_ok(*ev),
        ensures
            final(self).wf(),
            final(self).inputs_view() == apply_event(old(self).inputs_view(), *ev),
            final(self).table_view() == old(self).table_view(),
            final(self).frame_no() == old(self).frame_no(),
            final(core).forwarded() == old(core).forwarded() + forward_of_event(*ev),
    {
        match *ev {
            Event::KeyDown { scancode, repeat } => {
                if !repeat {
                    self.inputs.key_down(scancode);
                }
                core.key_down(scancode);
                proof {
                    assert(final(core).forwarded() =~= old(core).forwarded() + forward_of_event(
                        *ev,
                    ));
                }
            },
            Event::KeyUp { scancode } => {
                self.inputs.key_up(scancode);
                core.key_up(scancode);
                proof {
                    assert(final(core).forwarded() =~= old(core).forwarded() + forward_of_event(
                        *ev,
                    ));
                }
            },
            Event::ControllerButtonDown { which, button } => {
                self.inputs.controller_button_down(which, button);
                let index: u8 = ((which - 1) % 256) as u8;
                core.sdl_button_down(index, button);
                proof {
                    assert(final(core).forwarded() =~= old(core).forwarded() + forward_of_event(
                        *ev,
                    ));
                }
            },
            Event::ControllerButtonUp { which, button } => {
                self.inputs.controller_button_up(which, button);
                let index: u8 = ((which - 1) % 256) as u8;
                core.sdl_button_up(index, button);
                proof {
                    assert(final(core).forwarded() =~= old(core).forwarded() + forward_of_event(
                        *ev,
                    ));
                }
            },
            Event::ControllerAxisMotion { which, axis, value } => {
                self.inputs.controller_axis_motion(which, axis, value);
                let index: u8 = ((which - 1) % 256) as u8;
                core.sdl_axis_motion(index, axis, value);
                proof {
                    assert(final(core).forwarded() =~= old(core).forwarded() + forward_of_event(
                        *ev,
                    ));
                }
            },
            Event::Other => {
                proof {
                    assert(final(core).forwarded() =~= old(core).forwarded() + forward_of_event(
                        *ev,
                    ));
                }
            },
        }
    }

    /// Drain one frame's event batch: every event updates the input state
    /// and is independently forwarded, raw, to the bound core.
    pub fn process_batch<C: Core>(&mut self, core: &mut C, batch: &EventLoopState)
        requires
            old(self).wf(),
            batch_ok(batch@),
        ensures
            final(self).wf(),
            final(self).inputs_view() == apply_events(old(self).inputs_view(), batch@),
            final(self).table_view() == old(self).table_view(),
            final(self).frame_no() == old(self).frame_no(),
            final(core).forwarded() == old(core).forwarded() + forward_of(batch@),
    {
        let events = batch.events();
        let mut i: usize = 0;
        proof {
            assert(batch@.take(0) =~= Seq::empty());
            assert(old(core).forwarded() + forward_of(Seq::empty()) =~= old(core).forwarded());
        }
        while i < events.len()
            invariant
                i <= events@.len(),
                events@ == batch@,
                batch_ok(batch@),
                self.wf(),
                self.inputs_view() == apply_events(old(self).inputs_view(), batch@.take(i as int)),
                self.table_view() == old(self).table_view(),
                self.frame_no() == old(self).frame_no(),
                core.forwarded() == old(core).forwarded() + forward_of(batch@.take(i as int)),
            decreases events@.len() - i,
        {
            let ghost prefix = batch@.take(i as int);
            let ev = events[i];
            self.process_event(core, &ev);
            proof {
                let next = batch@.take(i as int + 1);
                assert(next.drop_last() =~= prefix);
                assert(next.last() == batch@[i as int]);
                assert(forward_of(next) == forward_of(prefix) + forward_of_event(batch@[i as int]));
                assert(core.forwarded() =~= old(core).forwarded() + forward_of(next));
            }
            i = i + 1;
        }
        proof {
            assert(batch@.take(batch@.len() as int) =~= batch@);
        }
    }

    /// Scan the shortcut table in registration order for the frame's single
    /// match. On a match the input state is cleared immediately — whatever
    /// the command's outcome will be — and the bound command is returned for
    /// execution. At most one command per frame is ever returned.
    pub fn fire_shortcut(&mut self) -> (r: Option<CommandId>)
        requires
            old(self).wf(),
        ensures
            final(self).wf(),
            final(self).table_view() == old(self).table_view(),
            final(self).frame_no() == old(self).frame_no(),
            ({
                let m = spec_first_match(old(self).table_view(), old(self).inputs_view());
                match r {
                    Some(c) => m is Some && c == old(self).table_view()[m->Some_0].command
                        && final(self).inputs_view() == empty_view(),
                    None => m is None && *final(self) == *old(self),
                }
            }),
    {
        let mut i: usize = 0;
        while i < self.table.len()
            invariant
                i <= self.table@.len(),
                self.wf(),
                *self == *old(self),
                forall|j: int| 0 <= j < i ==> !(#[trigger] self.table@[j]).shortcut.spec_matches(
                    self.inputs@,
                ),
            decreases self.table@.len() - i,
        {
            if self.table[i].shortcut.matches(&self.inputs) {
                proof {
                    assert(is_first_match(self.table@, self.inputs@, i as int));
                    lemma_first_match_unique(
                        self.table@,
                        self.inputs@,
                        i as int,
                        spec_first_match(self.table@, self.inputs@)->Some_0,
                    );
                }
                let command = self.table[i].command;
                self.inputs.clear();
                return Some(command);
            }
            i = i + 1;
        }
        None
    }

    /// Run one whole frame up to command selection: count the frame, drain
    /// the batch — updating the input state and forwarding every raw event
    /// to the bound core — and fire the frame's single shortcut match, if
    /// any, clearing the input state. The returned command, if any, is for
    /// the caller to execute; its result then goes to [`directive_for`].
    pub fn run_frame<C: Core>(&mut self, core: &mut C, batch: &EventLoopState) -> (r: Option<
        CommandId,
    >)
        requires
            old(self).wf(),
            batch_ok(batch@),
        ensures
            final(self).wf(),
            final(self).table_view() == old(self).table_view(),
            final(self).frame_no() == if old(self).frame_no() == u64::MAX {
                0u64
            } else {
                (old(self).frame_no() + 1) as u64
            },
            final(core).forwarded() == old(core).forwarded() + forward_of(batch@),
            ({
                let applied = apply_events(old(self).inputs_view(), batch@);
                let m = spec_first_match(old(self).table_view(), applied);
                match r {
                    Some(c) => m is Some && c == old(self).table_view()[m->Some_0].command
                        && final(self).inputs_view() == empty_view(),
                    None => m is None && final(self).inputs_view() == applied,
                }
            }),
    {
        self.advance_frame();
        self.process_batch(core, batch);
        self.fire_shortcut()
    }

    /// Replace the shortcut table, as after a configuration change or a
    /// command execution.
    pub fn reload_shortcuts(&mut self, table: Vec<ShortcutEntry>)
        requires
            old(self).wf(),
        ensures
            final(self).wf(),
            final(self).table_view() == table@,
            final(self).inputs_view() == old(self).inputs_view(),
            final(self).frame_no() == old(self).frame_no(),
    {
        self.table = table;
    }

    /// Count one more frame; the counter wraps around at its limit.
    pub fn advance_frame(&mut self)
        requires
            old(self).wf(),
        ensures
            final(self).wf(),
            final(self).inputs_view() == old(self).inputs_view(),
            final(self).table_view() == old(self).table_view(),
            final(self).frame_no() == if old(self).frame_no() == u64::MAX {
                0u64
            } else {
                (old(self).frame_no() + 1) as u64
            },
    {
        self.frame = if self.frame == u64::MAX {
            0
        } else {
            self.frame + 1
        };
    }

    /// Whether this frame is one of the amortized housekeeping frames on
    /// which the non-blocking configuration-change check runs.
    pub fn housekeeping_due(&self) -> (r: bool)
        ensures
            r == (self.frame_no() % 100 == 0),
    {
        self.frame % 100 == 0
    }
}

} // verus!
