use vstd::prelude::*;

verus! {

/// A JavaScript function handle; the library only stores and hands back such handles.
#[verifier::external_type_specification]
#[verifier::external_body]
pub struct ExFunction(js_sys::Function);

/// The timers and event listeners that a running game has installed, kept so
/// that they can all be removed when the game stops.
#[derive(Clone)]
pub struct Funcs {
    intervals: Vec<i32>,
    events: Vec<js_sys::Function>,
}

impl Funcs {
    /// The handle count fits in a `usize`.
    pub open spec fn wf(&self) -> bool {
        self.size() <= usize::MAX
    }

    /// Ids of the installed interval timers, oldest first.
    pub closed spec fn interval_ids(&self) -> Seq<i32> {
        self.intervals@
    }

    /// Installed event-listener callbacks, oldest first.
    pub closed spec fn listeners(&self) -> Seq<js_sys::Function> {
        self.events@
    }

    /// Number of handles held, timers and listeners together.
    pub open spec fn size(&self) -> nat {
        self.interval_ids().len() + self.listeners().len()
    }

    pub fn new() -> (r: Self)
        ensures
            r.wf(),
            r.interval_ids() == Seq::<i32>::empty(),
            r.listeners() == Seq::<js_sys::Function>::empty(),
    {
        Self { intervals: Vec::new(), events: Vec::new() }
    }

    pub fn len(&self) -> (r: usize)
        requires
            self.wf(),
        ensures
            r == self.size(),
    {
        self.intervals.len() + self.events.len()
    }

    pub fn push_interval(&mut self, id: i32)
        requires
            old(self).size() < usize::MAX,
        ensures
            final(self).wf(),
            final(self).interval_ids() == old(self).interval_ids().push(id),
            final(self).listeners() == old(self).listeners(),
    {
        self.intervals.push(id);
    }

    pub fn get_intervals(&self) -> (r: Vec<i32>)
        ensures
            r@ == self.interval_ids(),
    {
        self.intervals.clone()
    }

    pub fn remove_all(&mut self)
        ensures
            final(self).wf(),
            final(self).interval_ids() == Seq::<i32>::empty(),
            final(self).listeners() == Seq::<js_sys::Function>::empty(),
    {
        self.intervals.clear();
        self.events.clear();
    }

    pub fn push_event(&mut self, event: js_sys::Function)
        requires
            old(self).size() < usize::MAX,
        ensures
            final(self).wf(),
            final(self).listeners() == old(self).listeners().push(event),
            final(self).interval_ids() == old(self).interval_ids(),
    {
        self.events.push(event);
    }

    pub fn get_events(&self) -> (r: Vec<js_sys::Function>)
        ensures
            r@.len() == self.listeners().len(),
            forall|i: int| 0 <= i < r@.len() ==> cloned(#[trigger] self.listeners()[i], r@[i]),
    {
        self.events.clone()
    }
}

} // verus!
