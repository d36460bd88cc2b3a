//! Touch-input state machine.
//!
//! Raw per-channel touch activity, sampled on a fixed cadence by a
//! hardware-driven worker outside the library, is debounced here into
//! discrete key events: press, release, long press with optional
//! periodic repeat, and an Up+Down combination.  Events accumulate in
//! a FIFO queue the consumer drains atomically.  Time enters as a
//! monotonic millisecond clock supplied by the caller.

use vstd::prelude::*;

verus! {

/// One logical key of the touch panel.
#[derive(Clone, Copy, Debug, PartialEq, Eq, Structural)]
pub enum Key {
    /// The up key.
    Up,
    /// The down key.
    Down,
    /// The left key.
    Left,
    /// The right key.
    Right,
    /// The center key.
    Center,
}

/// A discrete, debounced input event.
#[derive(Clone, Copy, Debug, PartialEq, Eq, Structural)]
pub enum KeyEvent {
    /// Up key pressed.
    UpKeyDown,
    /// Up key released.
    UpKeyUp,
    /// Up key held past its long-press threshold.
    UpKeyDownLong,
    /// Down key pressed.
    DownKeyDown,
    /// Down key released.
    DownKeyUp,
    /// Down key held past its long-press threshold.
    DownKeyDownLong,
    /// Left key pressed.
    LeftKeyDown,
    /// Left key released.
    LeftKeyUp,
    /// Left key held past its long-press threshold.
    LeftKeyDownLong,
    /// Right key pressed.
    RightKeyDown,
    /// Right key released.
    RightKeyUp,
    /// Right key held past its long-press threshold.
    RightKeyDownLong,
    /// Center key pressed.
    CenterKeyDown,
    /// Center key released.
    CenterKeyUp,
    /// Center key held past its long-press threshold.
    CenterKeyDownLong,
    /// Up and Down active in the same sample.
    UpDownKeyCombinationDown,
}

/// The raw activity of every channel in one sample.
#[derive(Clone, Copy, Debug, PartialEq, Eq, Structural)]
pub struct KeyActivation {
    /// Up channel active.
    pub up: bool,
    /// Down channel active.
    pub down: bool,
    /// Left channel active.
    pub left: bool,
    /// Right channel active.
    pub right: bool,
    /// Center channel active.
    pub center: bool,
}

/// The debounce state of one logical key.
#[derive(Clone, Copy, Debug, PartialEq, Eq, Structural)]
pub struct KeyInfo {
    /// Raw channel activity of the latest sample.
    pub active: bool,
    /// Debounced pressed state.
    pub press: bool,
    /// When the key was last pressed (or last re-armed by a long
    /// press), in clock milliseconds.
    pub press_time_ms: u64,
    /// When the key was last released, in clock milliseconds.
    pub release_time_ms: u64,
    /// Length of the last completed press, in milliseconds.
    pub press_duration_ms: u32,
    /// Gap between the previous release and the current press, in
    /// milliseconds.
    pub release_duration_ms: u32,
    /// Long-press threshold in milliseconds; 0 disables long presses.
    pub press_threshold_ms: u32,
    /// Whether a held key re-fires its long-press event periodically.
    pub allow_repeat: bool,
    /// Long-press events fired during the current press.
    pub repeat_count: u32,
}

/// An elapsed time capped to the 32-bit millisecond fields.
pub open spec fn duration32(elapsed: int) -> u32 {
    if elapsed > u32::MAX {
        u32::MAX
    } else {
        elapsed as u32
    }
}

/// A key's stored clock readings never run ahead of the current time.
pub open spec fn key_wf(k: KeyInfo, now: u64) -> bool {
    k.press_time_ms <= now && k.release_time_ms <= now
}

/// The debounce transition of one key for one activity sample:
/// going active records the press time and the gap since the previous
/// release and going inactive records the press length and clears the
/// repeat count; otherwise only the raw activity is stored.
pub open spec fn key_step(k: KeyInfo, active: bool, now: u64) -> KeyInfo {
    if active && !k.press {
        KeyInfo {
            active: true,
            press: true,
            press_time_ms: now,
            press_duration_ms: 0,
            release_duration_ms: duration32(now - k.release_time_ms),
            ..k
        }
    } else if !active && k.press {
        KeyInfo {
            active: false,
            press: false,
            press_duration_ms: duration32(now - k.press_time_ms),
            release_time_ms: now,
            release_duration_ms: 0,
            repeat_count: 0,
            ..k
        }
    } else {
        KeyInfo { active, ..k }
    }
}

/// The events one key's debounce transition emits: exactly one
/// key-down on going active, exactly one key-up on going inactive,
/// none otherwise.
pub open spec fn key_step_events(k: KeyInfo, active: bool, down_ev: KeyEvent, up_ev: KeyEvent) -> Seq<
    KeyEvent,
> {
    if active && !k.press {
        seq![down_ev]
    } else if !active && k.press {
        seq![up_ev]
    } else {
        Seq::empty()
    }
}

/// Whether a long press fires for a key now: a positive threshold, a
/// held key, the repeat gate (a first fire, or a re-fire when repeats
/// are allowed), and more time than the threshold since the press was
/// recorded or last re-armed.
pub open spec fn long_press_fires(k: KeyInfo, now: u64) -> bool {
    &&& k.press_threshold_ms > 0
    &&& k.press
    &&& (k.repeat_count == 0 || (k.allow_repeat && k.repeat_count > 0))
    &&& now - k.press_time_ms > k.press_threshold_ms
}

/// The long-press transition: a firing key is re-armed at the current
/// time and its repeat count grows (saturating); otherwise nothing
/// changes.
pub open spec fn long_press_step(k: KeyInfo, now: u64) -> KeyInfo {
    if long_press_fires(k, now) {
        KeyInfo {
            press_time_ms: now,
            repeat_count: if k.repeat_count < u32::MAX {
                (k.repeat_count + 1) as u32
            } else {
                k.repeat_count
            },
            ..k
        }
    } else {
        k
    }
}

/// The events one key's long-press check emits.
pub open spec fn long_press_events(k: KeyInfo, now: u64, long_ev: KeyEvent) -> Seq<KeyEvent> {
    if long_press_fires(k, now) {
        seq![long_ev]
    } else {
        Seq::empty()
    }
}

/// Whether a sample triggers the Up+Down combination, which suppresses
/// every individual key transition for the cycle.
pub open spec fn combination_active(act: KeyActivation) -> bool {
    act.up && act.down
}

/// What one activity sample does to one key: under the combination
/// only the raw activity is stored, otherwise the debounce transition
/// runs.
pub open spec fn polled_key(k: KeyInfo, active: bool, comb: bool, now: u64) -> KeyInfo {
    if comb {
        KeyInfo { active, ..k }
    } else {
        key_step(k, active, now)
    }
}

/// The debounced key state and the pending event queue, shared between
/// the sampling worker and the consumer.
pub struct TouchPad {
    /// The up key.
    pub up: KeyInfo,
    /// The down key.
    pub down: KeyInfo,
    /// The left key.
    pub left: KeyInfo,
    /// The right key.
    pub right: KeyInfo,
    /// The center key.
    pub center: KeyInfo,
    /// Pending events in emission order.
    pub key_event: Vec<KeyEvent>,
}

/// The events one activity sample emits: the combination alone when it
/// holds, otherwise each key's transition event in the fixed key order
/// up, down, left, right, center.
pub open spec fn poll_events(t: TouchPad, act: KeyActivation, now: u64) -> Seq<KeyEvent> {
    if combination_active(act) {
        seq![KeyEvent::UpDownKeyCombinationDown]
    } else {
        key_step_events(t.up, act.up, KeyEvent::UpKeyDown, KeyEvent::UpKeyUp) + key_step_events(
            t.down,
            act.down,
            KeyEvent::DownKeyDown,
            KeyEvent::DownKeyUp,
        ) + key_step_events(t.left, act.left, KeyEvent::LeftKeyDown, KeyEvent::LeftKeyUp)
            + key_step_events(t.right, act.right, KeyEvent::RightKeyDown, KeyEvent::RightKeyUp)
            + key_step_events(
            t.center,
            act.center,
            KeyEvent::CenterKeyDown,
            KeyEvent::CenterKeyUp,
        )
    }
}

/// The events one long-press check emits, in the fixed key order.
pub open spec fn long_press_poll_events(t: TouchPad, now: u64) -> Seq<KeyEvent> {
    long_press_events(t.up, now, KeyEvent::UpKeyDownLong) + long_press_events(
        t.down,
        now,
        KeyEvent::DownKeyDownLong,
    ) + long_press_events(t.left, now, KeyEvent::LeftKeyDownLong) + long_press_events(
        t.right,
        now,
        KeyEvent::RightKeyDownLong,
    ) + long_press_events(t.center, now, KeyEvent::CenterKeyDownLong)
}

/// Runs one key's debounce transition in place, appending its events.
fn step_key(k: &mut KeyInfo, active: bool, now_ms: u64, queue: &mut Vec<KeyEvent>, down_ev: KeyEvent, up_ev: KeyEvent)
    requires
        key_wf(*old(k), now_ms),
    ensures
        *final(k) == key_step(*old(k), active, now_ms),
        final(queue)@ == old(queue)@ + key_step_events(*old(k), active, down_ev, up_ev),
        key_wf(*final(k), now_ms),
{
    if active && !k.press {
        k.press = true;
        let gap: u64 = now_ms - k.release_time_ms;
        k.press_time_ms = now_ms;
        k.press_duration_ms = 0;
        k.release_duration_ms = if gap > u32::MAX as u64 {
            u32::MAX
        } else {
            gap as u32
        };
        k.active = active;
        queue.push(down_ev);
        assert(final(queue)@ =~= old(queue)@ + key_step_events(*old(k), active, down_ev, up_ev));
    } else if !active && k.press {
        k.press = false;
        let held: u64 = now_ms - k.press_time_ms;
        k.press_duration_ms = if held > u32::MAX as u64 {
            u32::MAX
        } else {
            held as u32
        };
        k.release_time_ms = now_ms;
        k.release_duration_ms = 0;
        k.repeat_count = 0;
        k.active = active;
        queue.push(up_ev);
        assert(final(queue)@ =~= old(queue)@ + key_step_events(*old(k), active, down_ev, up_ev));
    } else {
        k.active = active;
        assert(final(queue)@ =~= old(queue)@ + key_step_events(*old(k), active, down_ev, up_ev));
    }
}

/// Runs one key's long-press check in place, appending its event.
fn long_press_key(k: &mut KeyInfo, now_ms: u64, queue: &mut Vec<KeyEvent>, long_ev: KeyEvent)
    requires
        key_wf(*old(k), now_ms),
    ensures
        *final(k) == long_press_step(*old(k), now_ms),
        final(queue)@ == old(queue)@ + long_press_events(*old(k), now_ms, long_ev),
        key_wf(*final(k), now_ms),
{
    if k.press_threshold_ms > 0 && k.press && (k.repeat_count == 0 || (k.allow_repeat
        && k.repeat_count > 0)) {
        let held: u64 = now_ms - k.press_time_ms;
        if held > k.press_threshold_ms as u64 {
            queue.push(long_ev);
            k.press_time_ms = now_ms;
            if k.repeat_count < u32::MAX {
                k.repeat_count = k.repeat_count + 1;
            }
            assert(final(queue)@ =~= old(queue)@ + long_press_events(*old(k), now_ms, long_ev));
            return;
        }
    }
    assert(final(queue)@ =~= old(queue)@ + long_press_events(*old(k), now_ms, long_ev));
}

impl TouchPad {
    /// Every key's stored clock readings are at or before the given
    /// time.
    pub open spec fn wf(self, now: u64) -> bool {
        &&& key_wf(self.up, now)
        &&& key_wf(self.down, now)
        &&& key_wf(self.left, now)
        &&& key_wf(self.right, now)
        &&& key_wf(self.center, now)
    }

    /// The state of one logical key.
    pub open spec fn key_info_of(self, key: Key) -> KeyInfo {
        match key {
            Key::Up => self.up,
            Key::Down => self.down,
            Key::Left => self.left,
            Key::Right => self.right,
            Key::Center => self.center,
        }
    }

    /// A fresh pad: every key released and idle at the given time, no
    /// pending events.
    pub fn new(now_ms: u64) -> (r: TouchPad)
        ensures
            r.wf(now_ms),
            r.up == fresh_key(now_ms),
            r.down == fresh_key(now_ms),
            r.left == fresh_key(now_ms),
            r.right == fresh_key(now_ms),
            r.center == fresh_key(now_ms),
            r.key_event@ == Seq::<KeyEvent>::empty(),
    {
        let k = KeyInfo {
            active: false,
            press: false,
            press_time_ms: now_ms,
            release_time_ms: now_ms,
            press_duration_ms: 0,
            release_duration_ms: 0,
            press_threshold_ms: 0,
            allow_repeat: false,
            repeat_count: 0,
        };
        TouchPad { up: k, down: k, left: k, right: k, center: k, key_event: Vec::new() }
    }

    /// Stores the raw activity of every channel without running any
    /// transition (the combination cycle).
    fn store_activity(&mut self, act: KeyActivation)
        ensures
            final(self).up == (KeyInfo { active: act.up, ..old(self).up }),
            final(self).down == (KeyInfo { active: act.down, ..old(self).down }),
            final(self).left == (KeyInfo { active: act.left, ..old(self).left }),
            final(self).right == (KeyInfo { active: act.right, ..old(self).right }),
            final(self).center == (KeyInfo { active: act.center, ..old(self).center }),
            final(self).key_event@ == old(self).key_event@,
    {
        self.up.active = act.up;
        self.down.active = act.down;
        self.left.active = act.left;
        self.right.active = act.right;
        self.center.active = act.center;
    }

    /// Runs every key's debounce transition for one sample, queueing
    /// the events in the fixed key order.
    fn step_all_keys(&mut self, act: KeyActivation, now_ms: u64)
        requires
            old(self).wf(now_ms),
        ensures
            final(self).wf(now_ms),
            final(self).up == key_step(old(self).up, act.up, now_ms),
            final(self).down == key_step(old(self).down, act.down, now_ms),
            final(self).left == key_step(old(self).left, act.left, now_ms),
            final(self).right == key_step(old(self).right, act.right, now_ms),
            final(self).center == key_step(old(self).center, act.center, now_ms),
            final(self).key_event@ == old(self).key_event@ + key_step_events(
                old(self).up,
                act.up,
                KeyEvent::UpKeyDown,
                KeyEvent::UpKeyUp,
            ) + key_step_events(
                old(self).down,
                act.down,
                KeyEvent::DownKeyDown,
                KeyEvent::DownKeyUp,
            ) + key_step_events(
                old(self).left,
                act.left,
                KeyEvent::LeftKeyDown,
                KeyEvent::LeftKeyUp,
            ) + key_step_events(
                old(self).right,
                act.right,
                KeyEvent::RightKeyDown,
                KeyEvent::RightKeyUp,
            ) + key_step_events(
                old(self).center,
                act.center,
                KeyEvent::CenterKeyDown,
                KeyEvent::CenterKeyUp,
            ),
    {
        step_key(
            &mut self.up,
            act.up,
            now_ms,
            &mut self.key_event,
            KeyEvent::UpKeyDown,
            KeyEvent::UpKeyUp,
        );
        step_key(
            &mut self.down,
            act.down,
            now_ms,
            &mut self.key_event,
            KeyEvent::DownKeyDown,
            KeyEvent::DownKeyUp,
        );
        step_key(
            &mut self.left,
            act.left,
            now_ms,
            &mut self.key_event,
            KeyEvent::LeftKeyDown,
            KeyEvent::LeftKeyUp,
        );
        step_key(
            &mut self.right,
            act.right,
            now_ms,
            &mut self.key_event,
            KeyEvent::RightKeyDown,
            KeyEvent::RightKeyUp,
        );
        step_key(
            &mut self.center,
            act.center,
            now_ms,
            &mut self.key_event,
            KeyEvent::CenterKeyDown,
            KeyEvent::CenterKeyUp,
        );
    }

    /// Feeds one raw activity sample: under the Up+Down combination a
    /// single combination event is queued and every individual
    /// transition is suppressed for the cycle; otherwise each key runs
    /// its debounce transition and its events are queued in the fixed
    /// key order.
    #[verifier::spinoff_prover]
    #[verifier::rlimit(100)]
    pub fn poll_active(&mut self, act: KeyActivation, now_ms: u64)
        requires
            old(self).wf(now_ms),
        ensures
            final(self).wf(now_ms),
            final(self).up == polled_key(old(self).up, act.up, combination_active(act), now_ms),
            final(self).down == polled_key(
                old(self).down,
                act.down,
                combination_active(act),
                now_ms,
            ),
            final(self).left == polled_key(
                old(self).left,
                act.left,
                combination_active(act),
                now_ms,
            ),
            final(self).right == polled_key(
                old(self).right,
                act.right,
                combination_active(act),
                now_ms,
            ),
            final(self).center == polled_key(
                old(self).center,
                act.center,
                combination_active(act),
                now_ms,
            ),
            final(self).key_event@ == old(self).key_event@ + poll_events(
                *old(self),
                act,
                now_ms,
            ),
    {
        if act.up && act.down {
            self.store_activity(act);
            self.key_event.push(KeyEvent::UpDownKeyCombinationDown);
            assert(self.key_event@ =~= old(self).key_event@ + poll_events(
                *old(self),
                act,
                now_ms,
            ));
        } else {
            self.step_all_keys(act, now_ms);
            assert(self.key_event@ =~= old(self).key_event@ + poll_events(
                *old(self),
                act,
                now_ms,
            ));
        }
    }

    /// Runs the periodic long-press check: every held key past its
    /// threshold (and through its repeat gate) fires its long-press
    /// event, is re-armed at the current time, and counts the fire.
    pub fn poll_long_press(&mut self, now_ms: u64)
        requires
            old(self).wf(now_ms),
        ensures
            final(self).wf(now_ms),
            final(self).up == long_press_step(old(self).up, now_ms),
            final(self).down == long_press_step(old(self).down, now_ms),
            final(self).left == long_press_step(old(self).left, now_ms),
            final(self).right == long_press_step(old(self).right, now_ms),
            final(self).center == long_press_step(old(self).center, now_ms),
            final(self).key_event@ == old(self).key_event@ + long_press_poll_events(
                *old(self),
                now_ms,
            ),
    {
        long_press_key(&mut self.up, now_ms, &mut self.key_event, KeyEvent::UpKeyDownLong);
        long_press_key(&mut self.down, now_ms, &mut self.key_event, KeyEvent::DownKeyDownLong);
        long_press_key(&mut self.left, now_ms, &mut self.key_event, KeyEvent::LeftKeyDownLong);
        long_press_key(&mut self.right, now_ms, &mut self.key_event, KeyEvent::RightKeyDownLong);
        long_press_key(
            &mut self.center,
            now_ms,
            &mut self.key_event,
            KeyEvent::CenterKeyDownLong,
        );
        assert(final(self).key_event@ =~= old(self).key_event@ + long_press_poll_events(
            *old(self),
            now_ms,
        ));
    }

    /// The debounced pressed state of one key.
    pub fn get_touchpad_status(&self, key: Key) -> (r: bool)
        ensures
            r == self.key_info_of(key).press,
    {
        match key {
            Key::Up => self.up.press,
            Key::Down => self.down.press,
            Key::Left => self.left.press,
            Key::Right => self.right.press,
            Key::Center => self.center.press,
        }
    }

    /// The length of one key's last completed press, in milliseconds.
    pub fn get_button_press_time(&self, key: Key) -> (r: u32)
        ensures
            r == self.key_info_of(key).press_duration_ms,
    {
        match key {
            Key::Up => self.up.press_duration_ms,
            Key::Down => self.down.press_duration_ms,
            Key::Left => self.left.press_duration_ms,
            Key::Right => self.right.press_duration_ms,
            Key::Center => self.center.press_duration_ms,
        }
    }

    /// Discards every pending event; the key states are untouched.
    pub fn clear_all_button_event(&mut self)
        ensures
            final(self).key_event@ == Seq::<KeyEvent>::empty(),
            final(self).up == old(self).up,
            final(self).down == old(self).down,
            final(self).left == old(self).left,
            final(self).right == old(self).right,
            final(self).center == old(self).center,
    {
        self.key_event.clear();
    }

    /// Drains the event queue atomically: the pending events are
    /// returned in emission order and the queue is left empty — never
    /// partially consumed.
    pub fn get_key_event_and_clear(&mut self) -> (r: Vec<KeyEvent>)
        ensures
            r@ == old(self).key_event@,
            final(self).key_event@ == Seq::<KeyEvent>::empty(),
            final(self).up == old(self).up,
            final(self).down == old(self).down,
            final(self).left == old(self).left,
            final(self).right == old(self).right,
            final(self).center == old(self).center,
    {
        let mut out: Vec<KeyEvent> = Vec::new();
        core::mem::swap(&mut out, &mut self.key_event);
        out
    }

    /// Configures one key's long-press threshold and repeat policy;
    /// everything else is untouched.
    pub fn set_press_threshold(&mut self, key: Key, threshold_ms: u32, allow_repeat: bool)
        ensures
            final(self).key_info_of(key) == (KeyInfo {
                press_threshold_ms: threshold_ms,
                allow_repeat,
                ..old(self).key_info_of(key)
            }),
            forall|other: Key|
                other != key ==> final(self).key_info_of(other) == old(self).key_info_of(other),
            final(self).key_event@ == old(self).key_event@,
    {
        match key {
            Key::Up => {
                self.up.press_threshold_ms = threshold_ms;
                self.up.allow_repeat = allow_repeat;
            },
            Key::Down => {
                self.down.press_threshold_ms = threshold_ms;
                self.down.allow_repeat = allow_repeat;
            },
            Key::Left => {
                self.left.press_threshold_ms = threshold_ms;
                self.left.allow_repeat = allow_repeat;
            },
            Key::Right => {
                self.right.press_threshold_ms = threshold_ms;
                self.right.allow_repeat = allow_repeat;
            },
            Key::Center => {
                self.center.press_threshold_ms = threshold_ms;
                self.center.allow_repeat = allow_repeat;
            },
        }
    }
}

/// Whether every key of the pad is in its released state.
pub open spec fn all_released(t: TouchPad) -> bool {
    !t.up.press && !t.down.press && !t.left.press && !t.right.press && !t.center.press
}

/// The key states after one activity sample; the queue field is
/// carried through unchanged (the emitted events are `poll_events`).
pub open spec fn polled_pad(t: TouchPad, act: KeyActivation, now: u64) -> TouchPad {
    TouchPad {
        up: polled_key(t.up, act.up, combination_active(act), now),
        down: polled_key(t.down, act.down, combination_active(act), now),
        left: polled_key(t.left, act.left, combination_active(act), now),
        right: polled_key(t.right, act.right, combination_active(act), now),
        center: polled_key(t.center, act.center, combination_active(act), now),
        ..t
    }
}

/// Well-formedness survives the clock moving forward.
pub proof fn lemma_wf_monotonic(t: TouchPad, now1: u64, now2: u64)
    requires
        t.wf(now1),
        now1 <= now2,
    ensures
        t.wf(now2),
{
}

/// One press/release cycle of a key emits exactly one key-down and
/// then exactly one key-up, and leaves the key released with a cleared
/// repeat count.
pub proof fn lemma_press_release_cycle(
    k0: KeyInfo,
    down_ev: KeyEvent,
    up_ev: KeyEvent,
    t1: u64,
    t2: u64,
)
    requires
        !k0.press,
        key_wf(k0, t1),
        t1 <= t2,
    ensures
        key_step_events(k0, true, down_ev, up_ev) == seq![down_ev],
        key_step_events(key_step(k0, true, t1), false, down_ev, up_ev) == seq![up_ev],
        !key_step(key_step(k0, true, t1), false, t2).press,
        key_step(key_step(k0, true, t1), false, t2).repeat_count == 0,
        key_step(key_step(k0, true, t1), false, t2).press_duration_ms == duration32(t2 - t1),
{
}

/// An active-inactive-active pad cycle on the up key, with every key
/// initially released and no other channel active, emits exactly one
/// key-down and then exactly one key-up.
pub proof fn lemma_single_key_cycle(t: TouchPad, t1: u64, t2: u64)
    requires
        t.wf(t1),
        t1 <= t2,
        all_released(t),
    ensures
        ({
            let act_on = KeyActivation {
                up: true,
                down: false,
                left: false,
                right: false,
                center: false,
            };
            let act_off = KeyActivation {
                up: false,
                down: false,
                left: false,
                right: false,
                center: false,
            };
            &&& poll_events(t, act_on, t1) == seq![KeyEvent::UpKeyDown]
            &&& poll_events(polled_pad(t, act_on, t1), act_off, t2) == seq![KeyEvent::UpKeyUp]
        }),
{
    let act_on = KeyActivation { up: true, down: false, left: false, right: false, center: false };
    let act_off = KeyActivation {
        up: false,
        down: false,
        left: false,
        right: false,
        center: false,
    };
    assert(poll_events(t, act_on, t1) =~= seq![KeyEvent::UpKeyDown]);
    assert(poll_events(polled_pad(t, act_on, t1), act_off, t2) =~= seq![KeyEvent::UpKeyUp]);
}

/// No long press fires while the time held is still within the
/// threshold: a key-down is never followed by a spurious long-press
/// event before the threshold elapses.
pub proof fn lemma_no_long_press_before_threshold(k: KeyInfo, long_ev: KeyEvent, now: u64)
    requires
        key_wf(k, now),
        now - k.press_time_ms <= k.press_threshold_ms,
    ensures
        !long_press_fires(k, now),
        long_press_step(k, now) == k,
        long_press_events(k, now, long_ev) == Seq::<KeyEvent>::empty(),
{
}

/// A key that has fired its long press and does not allow repeats
/// never fires again while the press persists: every later check
/// leaves the key and the event stream unchanged.
pub proof fn lemma_no_refire_without_repeat(k: KeyInfo, long_ev: KeyEvent, now: u64)
    requires
        !k.allow_repeat,
        k.repeat_count > 0,
    ensures
        !long_press_fires(k, now),
        long_press_step(k, now) == k,
        long_press_events(k, now, long_ev) == Seq::<KeyEvent>::empty(),
{
}

/// With repeats disallowed, a long press fires exactly once: the first
/// firing check emits one event and counts it, and every later check,
/// however long the press persists, emits nothing.
pub proof fn lemma_long_press_fires_once(k: KeyInfo, long_ev: KeyEvent, t1: u64, t2: u64)
    requires
        !k.allow_repeat,
        k.repeat_count == 0,
        long_press_fires(k, t1),
    ensures
        long_press_events(k, t1, long_ev) == seq![long_ev],
        long_press_step(k, t1).repeat_count == 1,
        !long_press_fires(long_press_step(k, t1), t2),
        long_press_events(long_press_step(k, t1), t2, long_ev) == Seq::<KeyEvent>::empty(),
{
    lemma_no_refire_without_repeat(long_press_step(k, t1), long_ev, t2);
}

/// The state of a key that has never been touched, as of a given time.
pub open spec fn fresh_key(now: u64) -> KeyInfo {
    KeyInfo {
        active: false,
        press: false,
        press_time_ms: now,
        release_time_ms: now,
        press_duration_ms: 0,
        release_duration_ms: 0,
        press_threshold_ms: 0,
        allow_repeat: false,
        repeat_count: 0,
    }
}

} // verus!
