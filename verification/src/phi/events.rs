//! Input-event aggregation.
//!
//! A raw, frame-ordered event batch is folded into two complementary forms:
//! a persistent "held" boolean per tracked key, and a per-frame snapshot of
//! edge transitions plus one-shot frame events. The snapshot is replaced
//! wholesale on every pump, so nothing leaks across frames.

use vstd::prelude::*;

verus! {

/// The closed set of tracked keys: the movement keys, the confirm key and
/// the cancel/escape key.
#[derive(Clone, Copy, Debug, PartialEq, Eq, Structural)]
pub enum Key {
    Escape,
    Up,
    Down,
    Left,
    Right,
    Space,
}

/// One raw event handed in by the host. `Other` stands for anything the
/// aggregation ignores: an untracked key going down or up, or any event kind
/// that is not tracked at all.
#[derive(Clone, Copy, Debug, PartialEq, Eq, Structural)]
pub enum RawEvent {
    KeyDown(Key),
    KeyUp(Key),
    Resized(u32, u32),
    Quit,
    Other,
}

/// The per-frame snapshot: for each tracked key an optional transition
/// (`Some(true)` = just pressed this frame, `Some(false)` = just released,
/// `None` = no transition), a sticky quit flag, and the last resize of the
/// frame. Lives for exactly one frame.
#[derive(Clone, Copy, Debug, PartialEq, Eq)]
pub struct ImmediateEvents {
    pub key_escape: Option<bool>,
    pub key_up: Option<bool>,
    pub key_down: Option<bool>,
    pub key_left: Option<bool>,
    pub key_right: Option<bool>,
    pub key_space: Option<bool>,
    pub quit: bool,
    pub resize: Option<(u32, u32)>,
}

impl ImmediateEvents {
    /// The snapshot with no transitions and no frame events.
    pub open spec fn empty() -> ImmediateEvents {
        ImmediateEvents {
            key_escape: None,
            key_up: None,
            key_down: None,
            key_left: None,
            key_right: None,
            key_space: None,
            quit: false,
            resize: None,
        }
    }

    pub fn new() -> (e: ImmediateEvents)
        ensures
            e == ImmediateEvents::empty(),
    {
        ImmediateEvents {
            key_escape: None,
            key_up: None,
            key_down: None,
            key_left: None,
            key_right: None,
            key_space: None,
            quit: false,
            resize: None,
        }
    }
}

/// The input aggregator: the current frame's snapshot plus one persistent
/// "currently held" boolean per tracked key.
#[derive(Clone, Copy, Debug, PartialEq, Eq)]
pub struct Events {
    pub now: ImmediateEvents,
    pub key_escape: bool,
    pub key_up: bool,
    pub key_down: bool,
    pub key_left: bool,
    pub key_right: bool,
    pub key_space: bool,
}

/// What one event does to one key's (held, transition) pair: a key-down sets
/// held and records "just pressed" only on the rising edge (never
/// overwriting an existing transition while the key is already held); a
/// key-up clears held and unconditionally records "just released" (last
/// event wins); everything else leaves the key alone.
pub open spec fn key_step(held: bool, snap: Option<bool>, ev: RawEvent, k: Key) -> (
    bool,
    Option<bool>,
) {
    match ev {
        RawEvent::KeyDown(k2) => if k2 == k {
            (true, if held { snap } else { Some(true) })
        } else {
            (held, snap)
        },
        RawEvent::KeyUp(k2) => if k2 == k {
            (false, Some(false))
        } else {
            (held, snap)
        },
        _ => (held, snap),
    }
}

/// One key's (held, transition) pair after folding a whole batch over an
/// initial held state, starting from an empty snapshot.
pub open spec fn key_fold(h0: bool, evs: Seq<RawEvent>, k: Key) -> (bool, Option<bool>)
    decreases evs.len(),
{
    if evs.len() == 0 {
        (h0, None)
    } else {
        let prev = key_fold(h0, evs.drop_last(), k);
        key_step(prev.0, prev.1, evs.last(), k)
    }
}

/// Whether a batch requests quit: sticky for the frame, set by any `Quit`
/// event and reset by nothing else.
pub open spec fn quit_fold(evs: Seq<RawEvent>) -> bool
    decreases evs.len(),
{
    if evs.len() == 0 {
        false
    } else {
        quit_fold(evs.drop_last()) || evs.last() is Quit
    }
}

/// The output size recorded by the last resize of the batch, if any.
pub open spec fn resize_fold(evs: Seq<RawEvent>) -> Option<(u32, u32)>
    decreases evs.len(),
{
    if evs.len() == 0 {
        None
    } else {
        match evs.last() {
            RawEvent::Resized(w, h) => Some((w, h)),
            _ => resize_fold(evs.drop_last()),
        }
    }
}

impl Events {
    /// The aggregator before any event arrived: nothing held, empty snapshot.
    pub open spec fn init() -> Events {
        Events {
            now: ImmediateEvents::empty(),
            key_escape: false,
            key_up: false,
            key_down: false,
            key_left: false,
            key_right: false,
            key_space: false,
        }
    }

    pub fn new() -> (e: Events)
        ensures
            e == Events::init(),
    {
        Events {
            now: ImmediateEvents::new(),
            key_escape: false,
            key_up: false,
            key_down: false,
            key_left: false,
            key_right: false,
            key_space: false,
        }
    }

    /// Drains one frame's batch of raw events. The previous snapshot is
    /// replaced wholesale by a fresh empty one before the batch is folded in;
    /// the held state persists across frames and is threaded through the
    /// fold. Bounded and non-blocking: the batch is finite and nothing waits.
    #[verifier::rlimit(100)]
    pub fn pump(&mut self, events: &Vec<RawEvent>)
        ensures
            final(self).key_escape == key_fold(old(self).key_escape, events@, Key::Escape).0,
            final(self).now.key_escape == key_fold(old(self).key_escape, events@, Key::Escape).1,
            final(self).key_up == key_fold(old(self).key_up, events@, Key::Up).0,
            final(self).now.key_up == key_fold(old(self).key_up, events@, Key::Up).1,
            final(self).key_down == key_fold(old(self).key_down, events@, Key::Down).0,
            final(self).now.key_down == key_fold(old(self).key_down, events@, Key::Down).1,
            final(self).key_left == key_fold(old(self).key_left, events@, Key::Left).0,
            final(self).now.key_left == key_fold(old(self).key_left, events@, Key::Left).1,
            final(self).key_right == key_fold(old(self).key_right, events@, Key::Right).0,
            final(self).now.key_right == key_fold(old(self).key_right, events@, Key::Right).1,
            final(self).key_space == key_fold(old(self).key_space, events@, Key::Space).0,
            final(self).now.key_space == key_fold(old(self).key_space, events@, Key::Space).1,
            final(self).now.quit == quit_fold(events@),
            final(self).now.resize == resize_fold(events@),
    {
        let ghost h0: Events = *self;
        self.now = ImmediateEvents::new();
        let mut i: usize = 0;
        while i < events.len()
            invariant
                i <= events.len(),
                self.key_escape == key_fold(h0.key_escape, events@.subrange(0, i as int), Key::Escape).0,
                self.now.key_escape == key_fold(h0.key_escape, events@.subrange(0, i as int), Key::Escape).1,
                self.key_up == key_fold(h0.key_up, events@.subrange(0, i as int), Key::Up).0,
                self.now.key_up == key_fold(h0.key_up, events@.subrange(0, i as int), Key::Up).1,
                self.key_down == key_fold(h0.key_down, events@.subrange(0, i as int), Key::Down).0,
                self.now.key_down == key_fold(h0.key_down, events@.subrange(0, i as int), Key::Down).1,
                self.key_left == key_fold(h0.key_left, events@.subrange(0, i as int), Key::Left).0,
                self.now.key_left == key_fold(h0.key_left, events@.subrange(0, i as int), Key::Left).1,
                self.key_right == key_fold(h0.key_right, events@.subrange(0, i as int), Key::Right).0,
                self.now.key_right == key_fold(h0.key_right, events@.subrange(0, i as int), Key::Right).1,
                self.key_space == key_fold(h0.key_space, events@.subrange(0, i as int), Key::Space).0,
                self.now.key_space == key_fold(h0.key_space, events@.subrange(0, i as int), Key::Space).1,
                self.now.quit == quit_fold(events@.subrange(0, i as int)),
                self.now.resize == resize_fold(events@.subrange(0, i as int)),
            decreases events.len() - i,
        {
            proof {
                assert(events@.subrange(0, i as int + 1).drop_last() =~= events@.subrange(
                    0,
                    i as int,
                ));
                assert(events@.subrange(0, i as int + 1).last() == events@[i as int]);
            }
            self.apply_event(events[i]);
            i = i + 1;
        }
        proof {
            assert(events@.subrange(0, events@.len() as int) =~= events@);
        }
    }

    /// Folds a single raw event into the held state and the frame snapshot.
    fn apply_event(&mut self, ev: RawEvent)
        ensures
            (final(self).key_escape, final(self).now.key_escape) == key_step(
                old(self).key_escape,
                old(self).now.key_escape,
                ev,
                Key::Escape,
            ),
            (final(self).key_up, final(self).now.key_up) == key_step(
                old(self).key_up,
                old(self).now.key_up,
                ev,
                Key::Up,
            ),
            (final(self).key_down, final(self).now.key_down) == key_step(
                old(self).key_down,
                old(self).now.key_down,
                ev,
                Key::Down,
            ),
            (final(self).key_left, final(self).now.key_left) == key_step(
                old(self).key_left,
                old(self).now.key_left,
                ev,
                Key::Left,
            ),
            (final(self).key_right, final(self).now.key_right) == key_step(
                old(self).key_right,
                old(self).now.key_right,
                ev,
                Key::Right,
            ),
            (final(self).key_space, final(self).now.key_space) == key_step(
                old(self).key_space,
                old(self).now.key_space,
                ev,
                Key::Space,
            ),
            final(self).now.quit == (old(self).now.quit || ev is Quit),
            final(self).now.resize == (match ev {
                RawEvent::Resized(w, h) => Some((w, h)),
                _ => old(self).now.resize,
            }),
    {
        match ev {
            RawEvent::KeyDown(k) => match k {
                Key::Escape => {
                    if !self.key_escape {
                        self.now.key_escape = Some(true);
                    }
                    self.key_escape = true;
                },
                Key::Up => {
                    if !self.key_up {
                        self.now.key_up = Some(true);
                    }
                    self.key_up = true;
                },
                Key::Down => {
                    if !self.key_down {
                        self.now.key_down = Some(true);
                    }
                    self.key_down = true;
                },
                Key::Left => {
                    if !self.key_left {
                        self.now.key_left = Some(true);
                    }
                    self.key_left = true;
                },
                Key::Right => {
                    if !self.key_right {
                        self.now.key_right = Some(true);
                    }
                    self.key_right = true;
                },
                Key::Space => {
                    if !self.key_space {
                        self.now.key_space = Some(true);
                    }
                    self.key_space = true;
                },
            },
            RawEvent::KeyUp(k) => match k {
                Key::Escape => {
                    self.now.key_escape = Some(false);
                    self.key_escape = false;
                },
                Key::Up => {
                    self.now.key_up = Some(false);
                    self.key_up = false;
                },
                Key::Down => {
                    self.now.key_down = Some(false);
                    self.key_down = false;
                },
                Key::Left => {
                    self.now.key_left = Some(false);
                    self.key_left = false;
                },
                Key::Right => {
                    self.now.key_right = Some(false);
                    self.key_right = false;
                },
                Key::Space => {
                    self.now.key_space = Some(false);
                    self.key_space = false;
                },
            },
            RawEvent::Resized(w, h) => {
                self.now.resize = Some((w, h));
            },
            RawEvent::Quit => {
                self.now.quit = true;
            },
            RawEvent::Other => {},
        }
    }
}

/// Releasing a key as the last event of a batch always leaves it not held,
/// with a "just released" snapshot transition — whatever came before in the
/// batch, including a press of the same key within the same frame.
pub proof fn lemma_release_last_wins(h0: bool, evs: Seq<RawEvent>, k: Key)
    ensures
        key_fold(h0, evs.push(RawEvent::KeyUp(k)), k) == (false, Some(false)),
{
    assert(evs.push(RawEvent::KeyUp(k)).drop_last() =~= evs);
}

/// A key held across two consecutive pumps reports "just pressed" only on
/// the first: the rising edge from not-held records `Some(true)`, a later
/// batch with no new events records no transition at all, and a key-down
/// arriving while the key is already held records nothing either.
pub proof fn lemma_held_reports_once(k: Key)
    ensures
        key_fold(false, Seq::empty().push(RawEvent::KeyDown(k)), k) == (true, Some(true)),
        key_fold(true, Seq::<RawEvent>::empty(), k) == (true, None::<bool>),
        key_fold(true, Seq::empty().push(RawEvent::KeyDown(k)), k) == (true, None::<bool>),
{
    assert(key_fold(false, Seq::<RawEvent>::empty(), k) == (false, None::<bool>));
    assert(key_fold(true, Seq::<RawEvent>::empty(), k) == (true, None::<bool>));
    assert(Seq::empty().push(RawEvent::KeyDown(k)).drop_last() =~= Seq::<RawEvent>::empty());
    assert(Seq::empty().push(RawEvent::KeyDown(k)).last() == RawEvent::KeyDown(k));
}

} // verus!
