//! Platform input events and the accumulated input state.
//!
//! An [`Event`] is one raw platform input event as the event loop drains it.
//! [`InputState`] is the accumulator of currently-considered-pressed keys,
//! controller buttons and controller axis values; it debounces key repeats,
//! while raw forwarding to the core (see [`crate::platform::Core`]) is
//! unfiltered. [`CoreInput`] is one raw event as the core receives it, with
//! the platform's 1-based controller identifier already converted to the
//! core's 0-based index.

use vstd::prelude::*;
use vstd::pervasive::VecAdditionalExecFns;

verus! {

/// One raw platform input event, as drained from the event batch.
#[derive(Clone, Copy, Debug, PartialEq, Eq, Structural)]
pub enum Event {
    /// A key went down; `repeat` marks a platform-generated key repeat.
    KeyDown { scancode: u32, repeat: bool },
    /// A key went up.
    KeyUp { scancode: u32 },
    /// A controller button went down; `which` is the 1-based identifier.
    ControllerButtonDown { which: u32, button: u8 },
    /// A controller button went up; `which` is the 1-based identifier.
    ControllerButtonUp { which: u32, button: u8 },
    /// A controller axis moved; `which` is the 1-based identifier.
    ControllerAxisMotion { which: u32, axis: u8, value: i16 },
    /// Any other platform event; ignored by the engine.
    Other,
}

/// One raw input event as the bound core receives it. Controller events
/// carry the 0-based index.
#[derive(Clone, Copy, Debug, PartialEq, Eq, Structural)]
pub enum CoreInput {
    KeyDown { scancode: u32 },
    KeyUp { scancode: u32 },
    ButtonDown { index: u8, button: u8 },
    ButtonUp { index: u8, button: u8 },
    AxisMotion { index: u8, axis: u8, value: i16 },
}

/// A pressed controller button, keyed by the 1-based controller identifier.
#[derive(Clone, Copy, Debug, PartialEq, Eq, Structural)]
pub struct ButtonRef {
    pub which: u32,
    pub button: u8,
}

/// One controller axis, keyed by the 1-based controller identifier.
#[derive(Clone, Copy, Debug, PartialEq, Eq, Structural)]
pub struct AxisRef {
    pub which: u32,
    pub axis: u8,
}

/// The latest sample of one controller axis.
#[derive(Clone, Copy, Debug, PartialEq, Eq, Structural)]
pub struct AxisSample {
    pub which: u32,
    pub axis: u8,
    pub value: i16,
}

impl AxisSample {
    /// The axis this sample belongs to.
    pub open spec fn key(self) -> AxisRef {
        AxisRef { which: self.which, axis: self.axis }
    }
}

/// The mathematical model of an input state: the set of pressed keys, the
/// set of pressed controller buttons, and the latest value of each axis
/// that has reported motion.
pub ghost struct InputView {
    pub keys: Set<u32>,
    pub buttons: Set<ButtonRef>,
    pub axes: Map<AxisRef, i16>,
}

/// The model of an input state holding nothing.
pub open spec fn empty_view() -> InputView {
    InputView { keys: Set::empty(), buttons: Set::empty(), axes: Map::empty() }
}

/// The latest value a sequence of axis samples holds for `k`, searching the
/// most recent sample first.
pub open spec fn axis_lookup(s: Seq<AxisSample>, k: AxisRef) -> Option<i16>
    decreases s.len(),
{
    if s.len() == 0 {
        None
    } else if s.last().key() == k {
        Some(s.last().value)
    } else {
        axis_lookup(s.drop_last(), k)
    }
}

/// Whether each axis occurs at most once among the samples.
pub open spec fn axes_unique(s: Seq<AxisSample>) -> bool {
    forall|p: int, q: int|
        0 <= p < q < s.len() ==> (#[trigger] s[p]).key() != (#[trigger] s[q]).key()
}

/// Accumulator of currently-considered-pressed keys, controller buttons and
/// controller axis values, scoped to one execution-loop invocation.
#[derive(Debug)]
pub struct InputState {
    keys: Vec<u32>,
    buttons: Vec<ButtonRef>,
    axes: Vec<AxisSample>,
}

impl View for InputState {
    type V = InputView;

    closed spec fn view(&self) -> InputView {
        InputView {
            keys: self.keys@.to_set(),
            buttons: self.buttons@.to_set(),
            axes: Map::new(
                |k: AxisRef| axis_lookup(self.axes@, k) is Some,
                |k: AxisRef| axis_lookup(self.axes@, k)->Some_0,
            ),
        }
    }
}

/// Pushing an element grows a sequence's set by that element.
proof fn lemma_to_set_push<A>(s: Seq<A>, x: A)
    ensures
        s.push(x).to_set() == s.to_set().insert(x),
{
    assert forall|y: A| #[trigger]
        s.push(x).to_set().contains(y) implies s.to_set().insert(x).contains(y) by {
        let i = choose|i: int| 0 <= i < s.push(x).len() && s.push(x)[i] == y;
        if i < s.len() {
            assert(s[i] == y);
        } else {
            assert(y == x);
        }
    }
    assert forall|y: A| #[trigger]
        s.to_set().insert(x).contains(y) implies s.push(x).to_set().contains(y) by {
        if s.contains(y) {
            let i = choose|i: int| 0 <= i < s.len() && s[i] == y;
            assert(s.push(x)[i] == y);
        } else {
            assert(s.push(x)[s.len() as int] == x);
        }
    }
    assert(s.push(x).to_set() =~= s.to_set().insert(x));
}

/// Removing the only occurrence of an element shrinks a sequence's set by
/// that element.
proof fn lemma_to_set_remove<A>(s: Seq<A>, i: int)
    requires
        s.no_duplicates(),
        0 <= i < s.len(),
    ensures
        s.remove(i).to_set() == s.to_set().remove(s[i]),
{
    let x = s[i];
    let t = s.remove(i);
    s.remove_ensures(i);
    assert forall|y: A| #[trigger] t.to_set().contains(y) implies s.to_set().remove(x).contains(
        y,
    ) by {
        let j = choose|j: int| 0 <= j < t.len() && t[j] == y;
        if j < i {
            assert(s[j] == y);
            assert(y != x);
        } else {
            assert(s[j + 1] == y);
            assert(y != x);
        }
    }
    assert forall|y: A| #[trigger]
        s.to_set().remove(x).contains(y) implies t.to_set().contains(y) by {
        let j = choose|j: int| 0 <= j < s.len() && s[j] == y;
        if j < i {
            assert(t[j] == y);
        } else {
            assert(j != i);
            assert(t[j - 1] == y);
        }
    }
    assert(t.to_set() =~= s.to_set().remove(x));
}

/// A sequence's set is empty exactly when the sequence is.
proof fn lemma_to_set_empty_iff<A>(s: Seq<A>)
    ensures
        (s.to_set() == Set::<A>::empty()) <==> s.len() == 0,
{
    if s.len() == 0 {
        assert(s.to_set() =~= Set::empty());
    } else {
        assert(s.to_set().contains(s[0]));
    }
}

/// Looking an axis up after pushing a sample of a different axis is
/// unchanged.
proof fn lemma_axis_lookup_push_other(s: Seq<AxisSample>, e: AxisSample, k: AxisRef)
    requires
        k != e.key(),
    ensures
        axis_lookup(s.push(e), k) == axis_lookup(s, k),
{
    assert(s.push(e).last() == e);
    assert(s.push(e).drop_last() =~= s);
}

/// Updating the sample at index `i` in place changes the lookup of that
/// axis to the new value and leaves every other axis unchanged.
proof fn lemma_axis_lookup_update(s: Seq<AxisSample>, i: int, v: i16, k: AxisRef)
    requires
        axes_unique(s),
        0 <= i < s.len(),
    ensures
        axis_lookup(s.update(i, AxisSample { value: v, ..s[i] }), s[i].key()) == Some(v),
        k != s[i].key() ==> axis_lookup(s.update(i, AxisSample { value: v, ..s[i] }), k)
            == axis_lookup(s, k),
    decreases s.len(),
{
    let e = AxisSample { value: v, ..s[i] };
    let t = s.update(i, e);
    assert(t.len() == s.len());
    if i == s.len() - 1 {
        assert(t.last() == e);
        assert(t.drop_last() =~= s.drop_last());
        if k != s[i].key() {
            assert(axis_lookup(s, k) == axis_lookup(s.drop_last(), k));
        }
    } else {
        assert(t.last() == s.last());
        assert(t.drop_last() =~= s.drop_last().update(i, e));
        assert(s.drop_last()[i] == s[i]);
        assert(axes_unique(s.drop_last()));
        lemma_axis_lookup_update(s.drop_last(), i, v, k);
        assert(s.last().key() != s[i].key());
    }
}

/// An axis never sampled looks up to nothing.
proof fn lemma_axis_lookup_absent(s: Seq<AxisSample>, k: AxisRef)
    requires
        forall|j: int| 0 <= j < s.len() ==> (#[trigger] s[j]).key() != k,
    ensures
        axis_lookup(s, k) is None,
    decreases s.len(),
{
    if s.len() > 0 {
        assert(s.last() == s[s.len() - 1]);
        assert(s.drop_last() =~= s.subrange(0, s.len() - 1));
        lemma_axis_lookup_absent(s.drop_last(), k);
    }
}

impl InputState {
    /// Internal consistency: no key, button or axis occurs twice.
    pub closed spec fn wf(&self) -> bool {
        &&& self.keys@.no_duplicates()
        &&& self.buttons@.no_duplicates()
        &&& axes_unique(self.axes@)
    }

    /// A fresh accumulator holding nothing.
    pub fn new() -> (r: InputState)
        ensures
            r.wf(),
            r@ == empty_view(),
    {
        let r = InputState { keys: Vec::new(), buttons: Vec::new(), axes: Vec::new() };
        proof {
            assert(r@.keys =~= Set::empty());
            assert(r@.buttons =~= Set::empty());
            assert(r@.axes =~= Map::empty());
        }
        r
    }

    /// Register a key as pressed. Registering an already-pressed key changes
    /// nothing: only the first down-transition registers.
    pub fn key_down(&mut self, scancode: u32)
        requires
            old(self).wf(),
        ensures
            final(self).wf(),
            final(self)@ == (InputView { keys: old(self)@.keys.insert(scancode), ..old(self)@ }),
    {
        let found = find_key(&self.keys, scancode);
        if found.is_none() {
            self.keys.push(scancode);
            proof {
                lemma_to_set_push(old(self).keys@, scancode);
            }
        } else {
            proof {
                assert(old(self)@.keys.insert(scancode) =~= old(self)@.keys);
            }
        }
    }

    /// Register a key as released. Releasing a key that is not pressed
    /// changes nothing.
    pub fn key_up(&mut self, scancode: u32)
        requires
            old(self).wf(),
        ensures
            final(self).wf(),
            final(self)@ == (InputView { keys: old(self)@.keys.remove(scancode), ..old(self)@ }),
    {
        let found = find_key(&self.keys, scancode);
        match found {
            Some(i) => {
                self.keys.remove(i);
                proof {
                    lemma_to_set_remove(old(self).keys@, i as int);
                    old(self).keys@.remove_ensures(i as int);
                    assert(self.keys@.no_duplicates());
                }
            },
            None => {
                proof {
                    assert(old(self)@.keys.remove(scancode) =~= old(self)@.keys);
                }
            },
        }
    }

    /// Register a controller button as pressed.
    pub fn controller_button_down(&mut self, which: u32, button: u8)
        requires
            old(self).wf(),
        ensures
            final(self).wf(),
            final(self)@ == (InputView {
                buttons: old(self)@.buttons.insert(ButtonRef { which, button }),
                ..old(self)@
            }),
    {
        let b = ButtonRef { which, button };
        let found = find_button(&self.buttons, which, button);
        if found.is_none() {
            self.buttons.push(b);
            proof {
                lemma_to_set_push(old(self).buttons@, b);
            }
        } else {
            proof {
                assert(old(self)@.buttons.insert(b) =~= old(self)@.buttons);
            }
        }
    }

    /// Register a controller button as released.
    pub fn controller_button_up(&mut self, which: u32, button: u8)
        requires
            old(self).wf(),
        ensures
            final(self).wf(),
            final(self)@ == (InputView {
                buttons: old(self)@.buttons.remove(ButtonRef { which, button }),
                ..old(self)@
            }),
    {
        let b = ButtonRef { which, button };
        let found = find_button(&self.buttons, which, button);
        match found {
            Some(i) => {
                self.buttons.remove(i);
                proof {
                    lemma_to_set_remove(old(self).buttons@, i as int);
                    old(self).buttons@.remove_ensures(i as int);
                    assert(self.buttons@.no_duplicates());
                }
            },
            None => {
                proof {
                    assert(old(self)@.buttons.remove(b) =~= old(self)@.buttons);
                }
            },
        }
    }

    /// Record the latest sample of a controller axis, replacing any earlier
    /// sample of the same axis.
    pub fn controller_axis_motion(&mut self, which: u32, axis: u8, value: i16)
        requires
            old(self).wf(),
        ensures
            final(self).wf(),
            final(self)@ == (InputView {
                axes: old(self)@.axes.insert(AxisRef { which, axis }, value),
                ..old(self)@
            }),
    {
        let k = AxisRef { which, axis };
        let found = find_axis(&self.axes, which, axis);
        match found {
            Some(i) => {
                let sample = AxisSample { which: self.axes[i].which, axis: self.axes[i].axis, value };
                self.axes.set(i, sample);
                proof {
                    assert(sample == (AxisSample { value, ..old(self).axes@[i as int] }));
                    assert forall|k2: AxisRef| true implies #[trigger] axis_lookup(
                        self.axes@,
                        k2,
                    ) == (if k2 == k {
                        Some(value)
                    } else {
                        axis_lookup(old(self).axes@, k2)
                    }) by {
                        lemma_axis_lookup_update(old(self).axes@, i as int, value, k2);
                    }
                    assert(self@.axes =~= old(self)@.axes.insert(k, value));
                    assert(axes_unique(self.axes@));
                }
            },
            None => {
                let sample = AxisSample { which, axis, value };
                self.axes.push(sample);
                proof {
                    assert forall|k2: AxisRef| true implies #[trigger] axis_lookup(
                        self.axes@,
                        k2,
                    ) == (if k2 == k {
                        Some(value)
                    } else {
                        axis_lookup(old(self).axes@, k2)
                    }) by {
                        if k2 == k {
                            assert(self.axes@.last() == sample);
                        } else {
                            lemma_axis_lookup_push_other(old(self).axes@, sample, k2);
                        }
                    }
                    assert(self@.axes =~= old(self)@.axes.insert(k, value));
                    assert(axes_unique(self.axes@));
                }
            },
        }
    }

    /// Forget everything: no key, button or axis value remains.
    pub fn clear(&mut self)
        ensures
            final(self).wf(),
            final(self)@ == empty_view(),
    {
        self.keys = Vec::new();
        self.buttons = Vec::new();
        self.axes = Vec::new();
        proof {
            assert(self@.keys =~= Set::empty());
            assert(self@.buttons =~= Set::empty());
            assert(self@.axes =~= Map::empty());
        }
    }

    /// Whether nothing is currently registered.
    pub fn is_empty(&self) -> (r: bool)
        ensures
            r == (self@ == empty_view()),
    {
        let r = self.keys.len() == 0 && self.buttons.len() == 0 && self.axes.len() == 0;
        proof {
            lemma_to_set_empty_iff(self.keys@);
            lemma_to_set_empty_iff(self.buttons@);
            if self.axes@.len() == 0 {
                assert(self@.axes =~= Map::empty());
            } else {
                assert(axis_lookup(self.axes@, self.axes@.last().key()) is Some);
                assert(self@.axes.dom().contains(self.axes@.last().key()));
                assert(!(self@.axes == Map::<AxisRef, i16>::empty()));
            }
            if r {
                assert(self@ == empty_view());
            } else {
                if self.keys@.len() != 0 {
                    assert(self@.keys != empty_view().keys);
                } else if self.buttons@.len() != 0 {
                    assert(self@.buttons != empty_view().buttons);
                }
            }
        }
        r
    }

    /// Whether this key is currently considered pressed.
    pub fn key_pressed(&self, scancode: u32) -> (r: bool)
        ensures
            r == self@.keys.contains(scancode),
    {
        find_key(&self.keys, scancode).is_some()
    }

    /// Whether this controller button is currently considered pressed.
    pub fn button_pressed(&self, which: u32, button: u8) -> (r: bool)
        ensures
            r == self@.buttons.contains(ButtonRef { which, button }),
    {
        find_button(&self.buttons, which, button).is_some()
    }

    /// The latest recorded value of a controller axis, if any.
    pub fn axis_value(&self, which: u32, axis: u8) -> (r: Option<i16>)
        requires
            self.wf(),
        ensures
            ({
                let k = AxisRef { which, axis };
                r == if self@.axes.dom().contains(k) {
                    Some(self@.axes[k])
                } else {
                    None::<i16>
                }
            }),
    {
        let found = find_axis(&self.axes, which, axis);
        let k = Ghost(AxisRef { which, axis });
        match found {
            Some(i) => {
                proof {
                    lemma_axis_lookup_present(self.axes@, i as int);
                }
                Some(self.axes[i].value)
            },
            None => {
                proof {
                    lemma_axis_lookup_absent(self.axes@, k@);
                }
                None
            },
        }
    }
}

impl Default for InputState {
    /// A fresh accumulator holding nothing.
    fn default() -> (r: InputState)
        ensures
            r.wf(),
            r@ == empty_view(),
    {
        InputState::new()
    }
}

/// A sampled axis looks up to the value of its unique sample.
proof fn lemma_axis_lookup_present(s: Seq<AxisSample>, i: int)
    requires
        axes_unique(s),
        0 <= i < s.len(),
    ensures
        axis_lookup(s, s[i].key()) == Some(s[i].value),
    decreases s.len(),
{
    if i == s.len() - 1 {
        assert(s.last() == s[i]);
    } else {
        assert(s.last().key() != s[i].key());
        assert(s.drop_last()[i] == s[i]);
        assert(axes_unique(s.drop_last()));
        lemma_axis_lookup_present(s.drop_last(), i);
    }
}

/// First index of a key in the pressed-keys vector.
fn find_key(v: &Vec<u32>, scancode: u32) -> (r: Option<usize>)
    ensures
        match r {
            Some(i) => i < v@.len() && v@[i as int] == scancode,
            None => !v@.contains(scancode),
        },
{
    let mut i: usize = 0;
    while i < v.len()
        invariant
            i <= v@.len(),
            forall|j: int| 0 <= j < i ==> v@[j] != scancode,
        decreases v@.len() - i,
    {
        if v[i] == scancode {
            return Some(i);
        }
        i = i + 1;
    }
    None
}

/// First index of a controller button in the pressed-buttons vector.
fn find_button(v: &Vec<ButtonRef>, which: u32, button: u8) -> (r: Option<usize>)
    ensures
        match r {
            Some(i) => i < v@.len() && v@[i as int] == (ButtonRef { which, button }),
            None => !v@.contains(ButtonRef { which, button }),
        },
{
    let mut i: usize = 0;
    while i < v.len()
        invariant
            i <= v@.len(),
            forall|j: int| 0 <= j < i ==> v@[j] != (ButtonRef { which, button }),
        decreases v@.len() - i,
    {
        if v[i].which == which && v[i].button == button {
            return Some(i);
        }
        i = i + 1;
    }
    None
}

/// Index of an axis among the samples, if it has reported motion.
fn find_axis(v: &Vec<AxisSample>, which: u32, axis: u8) -> (r: Option<usize>)
    ensures
        match r {
            Some(i) => i < v@.len() && v@[i as int].key() == (AxisRef { which, axis }),
            None => forall|j: int|
                0 <= j < v@.len() ==> (#[trigger] v@[j]).key() != (AxisRef { which, axis }),
        },
{
    let mut i: usize = 0;
    while i < v.len()
        invariant
            i <= v@.len(),
            forall|j: int| 0 <= j < i ==> (#[trigger] v@[j]).key() != (AxisRef { which, axis }),
        decreases v@.len() - i,
    {
        if v[i].which == which && v[i].axis == axis {
            return Some(i);
        }
        i = i + 1;
    }
    None
}

} // verus!
