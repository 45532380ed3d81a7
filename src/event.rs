use vstd::prelude::*;

verus! {

/// A one-shot broadcast: readers that arrive while a value is being
/// recomputed each take a listener on it, and all of them are released
/// together when the event is handed back to be notified.
#[derive(Debug)]
pub struct Event {
    description: String,
    notes: Vec<String>,
}

/// A reader's handle on an event: the note it attached and its place among
/// the event's listeners.
#[derive(Debug)]
pub struct EventListener {
    pub note: String,
    pub position: usize,
}

impl View for Event {
    /// How many listeners the event has handed out.
    type V = nat;

    closed spec fn view(&self) -> nat {
        self.notes@.len()
    }
}

impl Event {
    /// A new event with no listener yet.
    pub fn new(description: String) -> (r: Event)
        ensures
            r@ == 0,
            r.description_spec() == description@,
    {
        Event { description, notes: Vec::new() }
    }

    pub closed spec fn description_spec(&self) -> Seq<char> {
        self.description@
    }

    /// Attaches a listener that carries `note`.
    pub fn listen_with_note(&mut self, note: String) -> (r: EventListener)
        ensures
            final(self)@ == old(self)@ + 1,
            final(self).description_spec() == old(self).description_spec(),
            r.position == old(self)@,
            r.note@ == note@,
    {
        let position = self.notes.len();
        let n = note.clone();
        self.notes.push(n);
        EventListener { note, position }
    }

    /// How many listeners are waiting on this event.
    pub fn listener_count(&self) -> (r: usize)
        ensures
            r == self@,
    {
        self.notes.len()
    }

    pub fn description(&self) -> (r: &str)
        ensures
            r@ == self.description_spec(),
    {
        self.description.as_str()
    }
}

} // verus!
