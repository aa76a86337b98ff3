use vstd::prelude::*;

verus! {

/// `Q` with no matching `q`.
#[derive(Clone, Copy, Debug, PartialEq, Eq, Structural)]
pub struct StackUnderflow;

/// What a content stream does to the interpreter's state: `q`, `Q`, or
/// any operator that sets the current state to a new value.
pub enum StateEvent<T> {
    Save,
    Restore,
    Replace(T),
}

/// One event applied to the current state and the save stack; `None`
/// where a restore finds the stack empty.
pub open spec fn step<T>(st: (T, Seq<T>), e: StateEvent<T>) -> Option<(T, Seq<T>)> {
    match e {
        StateEvent::Save => Some((st.0, st.1.push(st.0))),
        StateEvent::Restore => if st.1.len() == 0 {
            None
        } else {
            Some((st.1.last(), st.1.drop_last()))
        },
        StateEvent::Replace(s) => Some((s, st.1)),
    }
}

/// The events applied in order; `None` once a restore underflows.
pub open spec fn run<T>(st: (T, Seq<T>), events: Seq<StateEvent<T>>) -> Option<(T, Seq<T>)>
    decreases events.len(),
{
    if events.len() == 0 {
        Some(st)
    } else {
        match run(st, events.drop_last()) {
            Some(s) => step(s, events.last()),
            None => None,
        }
    }
}

/// Saves minus restores.
pub open spec fn net_depth<T>(events: Seq<StateEvent<T>>) -> int
    decreases events.len(),
{
    if events.len() == 0 {
        0
    } else {
        net_depth(events.drop_last()) + match events.last() {
            StateEvent::Save => 1int,
            StateEvent::Restore => -1int,
            StateEvent::Replace(_) => 0int,
        }
    }
}

/// No prefix restores more than it saved.
pub open spec fn never_underflows<T>(events: Seq<StateEvent<T>>) -> bool {
    forall|k: int| 0 <= k <= events.len() ==> net_depth(#[trigger] events.take(k)) >= 0
}

/// Every save is matched by a later restore, and no restore comes first.
pub open spec fn well_nested<T>(events: Seq<StateEvent<T>>) -> bool {
    never_underflows(events) && net_depth(events) == 0
}

/// The current state of an interpreter with its stack of saved states.
pub struct StateStack<T> {
    current: T,
    saved: Vec<T>,
}

impl<T: Copy> StateStack<T> {
    /// The current state and the saved states, oldest first.
    pub closed spec fn view(&self) -> (T, Seq<T>) {
        (self.current, self.saved@)
    }

    /// Starts with `initial` and nothing saved.
    pub fn new(initial: T) -> (r: StateStack<T>)
        ensures
            r@ == (initial, Seq::<T>::empty()),
    {
        StateStack { current: initial, saved: Vec::new() }
    }

    /// The current state.
    pub fn current(&self) -> (r: T)
        ensures
            r == self@.0,
    {
        self.current
    }

    /// Replaces the current state.
    pub fn set(&mut self, s: T)
        ensures
            Some(final(self)@) == step(old(self)@, StateEvent::Replace(s)),
    {
        self.current = s;
    }

    /// `q`: pushes a copy of the current state.
    pub fn save(&mut self)
        ensures
            Some(final(self)@) == step(old(self)@, StateEvent::<T>::Save),
    {
        let s = self.current;
        self.saved.push(s);
    }

    /// `Q`: makes the last saved state current again; an error, with
    /// nothing changed, where nothing is saved.
    pub fn restore(&mut self) -> (r: Result<(), StackUnderflow>)
        ensures
            match step(old(self)@, StateEvent::<T>::Restore) {
                Some(s) => r == Ok::<(), StackUnderflow>(()) && final(self)@ == s,
                None => r == Err::<(), StackUnderflow>(StackUnderflow) && final(self)@ == old(self)@,
            },
    {
        match self.saved.pop() {
            Some(s) => {
                self.current = s;
                Ok(())
            },
            None => Err(StackUnderflow),
        }
    }

    /// How many states are saved.
    pub fn depth(&self) -> (r: usize)
        ensures
            r == self@.1.len(),
    {
        self.saved.len()
    }
}

proof fn lemma_run_keeps_stack<T>(st: (T, Seq<T>), events: Seq<StateEvent<T>>)
    requires
        never_underflows(events),
    ensures
        run(st, events) is Some,
        run(st, events)->Some_0.1.len() == st.1.len() + net_depth(events),
        run(st, events)->Some_0.1.take(st.1.len() as int) == st.1,
    decreases events.len(),
{
    let n = st.1.len() as int;
    if events.len() > 0 {
        let rest = events.drop_last();
        assert forall|k: int| 0 <= k <= rest.len() implies net_depth(#[trigger] rest.take(k)) >= 0 by {
            assert(rest.take(k) == events.take(k));
        }
        assert(events.take(events.len() as int) == events);
        lemma_run_keeps_stack(st, rest);
        let s = run(st, rest)->Some_0;
        match events.last() {
            StateEvent::Save => {
                assert(s.1.push(s.0).take(n) =~= s.1.take(n));
            },
            StateEvent::Restore => {
                assert(net_depth(events) >= 0);
                assert(s.1.len() >= n + 1);
                assert(s.1.drop_last().take(n) =~= s.1.take(n));
            },
            StateEvent::Replace(_) => {},
        }
    } else {
        assert(st.1.take(n) =~= st.1);
    }
}

/// A save, then events that are nested within it, then the restore that
/// matches the save: the current state and the save stack are what they
/// were before the save.
pub proof fn lemma_nested_save_restore<T>(st: (T, Seq<T>), inner: Seq<StateEvent<T>>)
    requires
        well_nested(inner),
    ensures
        run(st, seq![StateEvent::Save] + inner + seq![StateEvent::Restore]) == Some(st),
{
    let events = seq![StateEvent::Save] + inner + seq![StateEvent::Restore];
    let saved = (st.0, st.1.push(st.0));
    assert(events.drop_last() == seq![StateEvent::Save] + inner);
    lemma_run_prefix_save(st, inner);
    lemma_run_keeps_stack(saved, inner);
    let s = run(saved, inner)->Some_0;
    assert(s.1 =~= saved.1) by {
        assert(s.1.len() == saved.1.len());
        assert(s.1.take(saved.1.len() as int) =~= s.1);
    }
    assert(events.last() == StateEvent::<T>::Restore);
    assert(st.1.push(st.0).drop_last() =~= st.1);
}

proof fn lemma_run_prefix_save<T>(st: (T, Seq<T>), inner: Seq<StateEvent<T>>)
    ensures
        run(st, seq![StateEvent::Save] + inner) == run((st.0, st.1.push(st.0)), inner),
    decreases inner.len(),
{
    let events = seq![StateEvent::Save] + inner;
    if inner.len() == 0 {
        assert(events.drop_last() =~= Seq::<StateEvent<T>>::empty());
    } else {
        assert(events.drop_last() =~= seq![StateEvent::Save] + inner.drop_last());
        lemma_run_prefix_save(st, inner.drop_last());
    }
}

/// A well-nested stream that starts with nothing saved ends with nothing
/// saved.
pub proof fn lemma_well_nested_ends_empty<T>(initial: T, events: Seq<StateEvent<T>>)
    requires
        well_nested(events),
    ensures
        run((initial, Seq::<T>::empty()), events) is Some,
        run((initial, Seq::<T>::empty()), events)->Some_0.1.len() == 0,
{
    lemma_run_keeps_stack((initial, Seq::<T>::empty()), events);
}

} // verus!
