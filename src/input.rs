use vstd::prelude::*;

verus! {

/// Identifies a key, by the numeric code that the windowing layer gives it.
#[derive(Clone, Copy, Debug, PartialEq, Eq, Structural)]
pub struct KeyCode {
    pub code: u32,
}

/// Whether a key went down or came up.
#[derive(Clone, Copy, Debug, PartialEq, Eq, Structural)]
pub enum KeyState {
    Pressed,
    Released,
}

/// A pending event of a window, as drained from the windowing layer.
#[derive(Clone, Copy, Debug, PartialEq, Eq, Structural)]
pub enum WindowEvent {
    /// The user asked to close the window.
    Closed,
    /// A key transition; `code` is `None` where the key has no known code.
    KeyboardInput { code: Option<KeyCode>, state: KeyState },
    /// Anything else (focus, motion, resizing).
    Other,
}

/// Reacts to key transitions; a window calls it once per key event, in order.
pub trait InputCallback {
    /// The key transitions this callback has been handed so far, oldest first.
    /// Implementations checked by Verus keep this log; others are held to
    /// `on_key`'s contract by their author alone.
    open spec fn received(&self) -> Seq<(KeyCode, KeyState)> {
        Seq::empty()
    }

    fn on_key(&mut self, code: KeyCode, state: KeyState)
        ensures
            final(self).received() == old(self).received().push((code, state)),
    ;
}

/// The callback that ignores every key.
pub struct NoInput {
    log: Ghost<Seq<(KeyCode, KeyState)>>,
}

impl NoInput {
    pub fn new() -> (r: NoInput)
        ensures
            r.received() == Seq::<(KeyCode, KeyState)>::empty(),
    {
        NoInput { log: Ghost(Seq::empty()) }
    }
}

impl InputCallback for NoInput {
    closed spec fn received(&self) -> Seq<(KeyCode, KeyState)> {
        self.log@
    }

    fn on_key(&mut self, code: KeyCode, state: KeyState) {
        self.log = Ghost(self.log@.push((code, state)));
    }
}

/// The key transition that an event carries, if it carries one with a code.
pub open spec fn key_of(e: WindowEvent) -> Option<(KeyCode, KeyState)> {
    match e {
        WindowEvent::KeyboardInput { code: Some(c), state } => Some((c, state)),
        _ => None,
    }
}

/// The key transitions of `events`, in the order in which they arrived.
pub open spec fn key_sequence(events: Seq<WindowEvent>) -> Seq<(KeyCode, KeyState)>
    decreases events.len(),
{
    if events.len() == 0 {
        Seq::empty()
    } else {
        let rest = key_sequence(events.drop_last());
        match key_of(events.last()) {
            Some(k) => rest.push(k),
            None => rest,
        }
    }
}

/// When every event is a key transition with a code, the transitions handed
/// on are exactly those events, one for one and in the same order.
pub proof fn lemma_keys_in_order(events: Seq<WindowEvent>)
    requires
        forall|i: int| 0 <= i < events.len() ==> (#[trigger] key_of(events[i])).is_some(),
    ensures
        key_sequence(events).len() == events.len(),
        forall|i: int|
            0 <= i < events.len() ==> key_sequence(events)[i] == (#[trigger] key_of(
                events[i],
            )).unwrap(),
    decreases events.len(),
{
    if events.len() > 0 {
        let rest = events.drop_last();
        assert forall|i: int| 0 <= i < rest.len() implies (#[trigger] key_of(rest[i])).is_some() by {
            assert(rest[i] == events[i]);
        }
        lemma_keys_in_order(rest);
        assert(key_of(events[events.len() - 1]).is_some());
        assert forall|i: int| 0 <= i < events.len() implies key_sequence(events)[i] == (
        #[trigger] key_of(events[i])).unwrap() by {
            if i < events.len() - 1 {
                assert(rest[i] == events[i]);
            }
        }
    }
}

/// Whether `events` holds a request to close the window.
pub open spec fn close_requested(events: Seq<WindowEvent>) -> bool {
    exists|i: int| 0 <= i < events.len() && events[i] == WindowEvent::Closed
}

/// The key transitions to hand to the callback, in arrival order.
pub fn key_events(events: &Vec<WindowEvent>) -> (r: Vec<(KeyCode, KeyState)>)
    ensures
        r@ == key_sequence(events@),
{
    let mut keys: Vec<(KeyCode, KeyState)> = Vec::new();
    for i in 0..events.len()
        invariant
            keys@ == key_sequence(events@.subrange(0, i as int)),
    {
        assert(events@.subrange(0, i + 1).drop_last() =~= events@.subrange(0, i as int));
        match events[i] {
            WindowEvent::KeyboardInput { code: Some(c), state } => keys.push((c, state)),
            _ => {},
        }
    }
    assert(events@.subrange(0, events@.len() as int) =~= events@);
    keys
}

/// Whether any of `events` asks to close the window.
pub fn has_close_request(events: &Vec<WindowEvent>) -> (r: bool)
    ensures
        r == close_requested(events@),
{
    for i in 0..events.len()
        invariant
            forall|j: int| 0 <= j < i ==> events@[j] != WindowEvent::Closed,
    {
        if events[i] == WindowEvent::Closed {
            return true;
        }
    }
    false
}

} // verus!
