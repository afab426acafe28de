//! Handlers registered per action name. Registering for an action that already has a handler
//! replaces it and hands the previous one back, so its task can be retired.

use vstd::prelude::*;

verus! {

/// One registered handler, with the serial number its registration was given.
#[derive(Debug)]
pub struct Registration<H> {
    pub action: String,
    pub serial: u64,
    pub handler: H,
}

/// No action is registered twice.
pub open spec fn names_unique<H>(s: Seq<Registration<H>>) -> bool {
    forall|i: int, j: int|
        0 <= i < j < s.len() ==> #[trigger] s[i].action@ != #[trigger] s[j].action@
}

/// Whether some handler is registered for `action`.
pub open spec fn is_registered<H>(s: Seq<Registration<H>>, action: Seq<char>) -> bool {
    exists|i: int| 0 <= i < s.len() && #[trigger] s[i].action@ == action
}

/// Registering a handler for `action` - replacing the registration at some position by one
/// for the same action, or appending one for an action not yet registered - leaves every other
/// action registered exactly when it was before.
pub proof fn lemma_registering_keeps_other_actions<H>(
    before: Seq<Registration<H>>,
    after: Seq<Registration<H>>,
    action: Seq<char>,
)
    requires
        (exists|i: int|
            0 <= i < before.len() && #[trigger] before[i].action@ == action && after.len()
                == before.len() && after[i].action@ == action && forall|k: int|
                0 <= k < before.len() && k != i ==> after[k] == before[k]) || (after.len()
            == before.len() + 1 && after[before.len() as int].action@ == action && forall|k: int|
            0 <= k < before.len() ==> after[k] == before[k]),
    ensures
        forall|other: Seq<char>|
            other != action ==> (#[trigger] is_registered(after, other) <==> is_registered(
                before,
                other,
            )),
{
    assert forall|other: Seq<char>| other != action implies (#[trigger] is_registered(
        after,
        other,
    ) <==> is_registered(before, other)) by {
        if is_registered(after, other) {
            let k = choose|k: int| 0 <= k < after.len() && #[trigger] after[k].action@ == other;
            assert(before[k].action@ == other);
        }
        if is_registered(before, other) {
            let k = choose|k: int| 0 <= k < before.len() && #[trigger] before[k].action@ == other;
            assert(after[k].action@ == other);
        }
    }
}

/// Handlers by action name, at most one per name.
pub struct Registry<H> {
    entries: Vec<Registration<H>>,
    next_serial: u64,
}

impl<H> Registry<H> {
    /// The registrations, in registration order.
    pub closed spec fn spec_entries(&self) -> Seq<Registration<H>> {
        self.entries@
    }

    /// The serial number the next registration will get.
    pub closed spec fn spec_next_serial(&self) -> u64 {
        self.next_serial
    }

    pub open spec fn wf(&self) -> bool {
        names_unique(self.spec_entries())
    }

    /// No handlers.
    pub fn new() -> (r: Self)
        ensures
            r.wf(),
            r.spec_entries() == Seq::<Registration<H>>::empty(),
            r.spec_next_serial() == 0,
    {
        Registry { entries: Vec::new(), next_serial: 0 }
    }

    /// Where the handler for `action` is registered, if anywhere.
    pub fn find(&self, action: &String) -> (r: Option<usize>)
        requires
            self.wf(),
        ensures
            match r {
                Some(i) => i < self.spec_entries().len() && self.spec_entries()[i as int].action@
                    == action@,
                None => !is_registered(self.spec_entries(), action@),
            },
    {
        let mut i: usize = 0;
        while i < self.entries.len()
            invariant
                i <= self.entries@.len(),
                forall|k: int| 0 <= k < i ==> #[trigger] self.entries@[k].action@ != action@,
            decreases self.entries@.len() - i,
        {
            if self.entries[i].action == *action {
                return Some(i);
            }
            i = i + 1;
        }
        None
    }

    /// The registration at position `i`.
    pub fn get(&self, i: usize) -> (r: &Registration<H>)
        requires
            i < self.spec_entries().len(),
        ensures
            *r == self.spec_entries()[i as int],
    {
        &self.entries[i]
    }

    /// How many actions have a handler.
    pub fn len(&self) -> (n: usize)
        ensures
            n == self.spec_entries().len(),
    {
        self.entries.len()
    }

    /// Registers `handler` for `action`, replacing (and handing back) any handler already
    /// registered for it. The registration gets the next serial number.
    pub fn register(&mut self, action: String, handler: H) -> (r: (u64, Option<H>))
        requires
            old(self).wf(),
        ensures
            final(self).wf(),
            r.0 == old(self).spec_next_serial(),
            final(self).spec_next_serial() == old(self).spec_next_serial().wrapping_add(1),
            match r.1 {
                Some(previous) => exists|i: int|
                    0 <= i < old(self).spec_entries().len() && #[trigger] old(self).spec_entries()[i].action@ == action@ && old(self).spec_entries()[i].handler
                        == previous && final(self).spec_entries() == old(self).spec_entries().update(
                        i,
                        Registration { action, serial: r.0, handler },
                    ),
                None => !is_registered(old(self).spec_entries(), action@) && final(self).spec_entries() == old(self).spec_entries().push(
                    Registration { action, serial: r.0, handler },
                ),
            },
    {
        let serial = self.next_serial;
        self.next_serial = self.next_serial.wrapping_add(1);
        let ghost action_view = action@;
        match self.find(&action) {
            Some(i) => {
                let ghost before = self.entries@;
                let previous = self.entries.remove(i);
                self.entries.insert(i, Registration { action, serial, handler });
                assert(self.entries@ =~= before.update(
                    i as int,
                    Registration { action, serial, handler },
                ));
                assert(names_unique(self.entries@)) by {
                    assert forall|a: int, b: int| 0 <= a < b < self.entries@.len() implies
                        #[trigger] self.entries@[a].action@ != #[trigger] self.entries@[b].action@ by {
                        assert(before[a].action@ != before[b].action@);
                    }
                }
                (serial, Some(previous.handler))
            },
            None => {
                let ghost before = self.entries@;
                self.entries.push(Registration { action, serial, handler });
                assert(names_unique(self.entries@)) by {
                    assert forall|a: int, b: int| 0 <= a < b < self.entries@.len() implies
                        #[trigger] self.entries@[a].action@ != #[trigger] self.entries@[b].action@ by {
                        if b == before.len() {
                            assert(self.entries@[a] == before[a]);
                        } else {
                            assert(before[a].action@ != before[b].action@);
                        }
                    }
                }
                (serial, None)
            },
        }
    }

    /// Removes the registration for `action` only if it is still the one with `serial`: a
    /// registration that replaced it in the meantime stays. Returns whether it was removed.
    pub fn unregister_if(&mut self, action: &String, serial: u64) -> (removed: bool)
        requires
            old(self).wf(),
        ensures
            final(self).wf(),
            final(self).spec_next_serial() == old(self).spec_next_serial(),
            removed ==> exists|i: int|
                0 <= i < old(self).spec_entries().len() && #[trigger] old(self).spec_entries()[i].action@ == action@ && old(self).spec_entries()[i].serial
                    == serial && final(self).spec_entries() == old(self).spec_entries().remove(i),
            !removed ==> final(self).spec_entries() == old(self).spec_entries() && !exists|i: int|
                0 <= i < old(self).spec_entries().len() && #[trigger] old(self).spec_entries()[i].action@ == action@ && old(self).spec_entries()[i].serial
                    == serial,
    {
        match self.find(action) {
            Some(i) => {
                if self.entries[i].serial == serial {
                    let ghost before = self.entries@;
                    let _ = self.entries.remove(i);
                    assert(names_unique(self.entries@)) by {
                        assert forall|a: int, b: int| 0 <= a < b < self.entries@.len() implies
                            #[trigger] self.entries@[a].action@ != #[trigger] self.entries@[b].action@ by {
                            if b < i {
                                assert(before[a].action@ != before[b].action@);
                            } else if a < i {
                                assert(before[a].action@ != before[b + 1].action@);
                            } else {
                                assert(before[a + 1].action@ != before[b + 1].action@);
                            }
                        }
                    }
                    true
                } else {
                    assert forall|k: int|
                        0 <= k < self.entries@.len() && #[trigger] self.entries@[k].action@
                            == action@ implies self.entries@[k].serial != serial by {
                        if k != i {
                            if k < i {
                                assert(self.entries@[k].action@ != self.entries@[i as int].action@);
                            } else {
                                assert(self.entries@[i as int].action@ != self.entries@[k].action@);
                            }
                        }
                    }
                    false
                }
            },
            None => false,
        }
    }
}

} // verus!
