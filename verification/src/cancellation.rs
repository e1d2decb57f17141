use vstd::prelude::*;

use crate::error::AppError;
use crate::text::str_eq;

verus! {

/// A handle on one registered request's cancellation flag.
#[derive(Clone, Copy, Debug, PartialEq, Eq, Structural)]
pub struct CancelFlag {
    index: usize,
}

impl CancelFlag {
    pub closed spec fn slot(&self) -> nat {
        self.index as nat
    }
}

struct RegistryEntry {
    request_id: String,
    flag: usize,
}

/// The cancellation flag of every in-flight request, keyed by request id.
///
/// A flag, once handed out, is never reused: re-registering an id gives it
/// a fresh flag, and cancelling only ever raises the flag currently held
/// under that id.
pub struct CancellationRegistry {
    flags: Vec<bool>,
    entries: Vec<RegistryEntry>,
}

/// The flag registered under `id`, if any.
pub open spec fn flag_of(entries: Seq<(Seq<char>, nat)>, id: Seq<char>) -> Option<nat> {
    if exists|p: int| 0 <= p < entries.len() && #[trigger] entries[p].0 == id {
        Some(entries[choose|p: int| 0 <= p < entries.len() && #[trigger] entries[p].0 == id].1)
    } else {
        None
    }
}

/// No request id is registered twice.
pub open spec fn ids_unique(entries: Seq<(Seq<char>, nat)>) -> bool {
    forall|p: int, q: int|
        0 <= p < entries.len() && 0 <= q < entries.len() && #[trigger] entries[p].0 == #[trigger] entries[q].0
            ==> p == q
}

/// No flag is registered under two ids.
pub open spec fn slots_unique(entries: Seq<(Seq<char>, nat)>) -> bool {
    forall|p: int, q: int|
        0 <= p < entries.len() && 0 <= q < entries.len() && #[trigger] entries[p].1 == #[trigger] entries[q].1
            ==> p == q
}

/// Two different registered ids hold different flags.
proof fn lemma_distinct_ids_distinct_flags(entries: Seq<(Seq<char>, nat)>, a: Seq<char>, b: Seq<char>)
    requires
        ids_unique(entries),
        slots_unique(entries),
        a != b,
        flag_of(entries, a) is Some,
        flag_of(entries, b) is Some,
    ensures
        flag_of(entries, a) != flag_of(entries, b),
{
    let p = choose|p: int| 0 <= p < entries.len() && #[trigger] entries[p].0 == a;
    let q = choose|q: int| 0 <= q < entries.len() && #[trigger] entries[q].0 == b;
    lemma_flag_at(entries, p);
    lemma_flag_at(entries, q);
    if entries[p].1 == entries[q].1 {
        assert(p == q);
    }
}

proof fn lemma_flag_at(entries: Seq<(Seq<char>, nat)>, p: int)
    requires
        ids_unique(entries),
        0 <= p < entries.len(),
    ensures
        flag_of(entries, entries[p].0) == Some(entries[p].1),
{
    let id = entries[p].0;
    assert(entries[p].0 == id);
    let q = choose|q: int| 0 <= q < entries.len() && #[trigger] entries[q].0 == id;
    assert(entries[q].0 == entries[p].0);
}

impl CancellationRegistry {
    /// Every flag handed out so far, raised or not, by handle number.
    pub closed spec fn flags(&self) -> Seq<bool> {
        self.flags@
    }

    /// The registered request ids with their flag handles.
    pub closed spec fn entries(&self) -> Seq<(Seq<char>, nat)> {
        self.entries@.map_values(|e: RegistryEntry| (e.request_id@, e.flag as nat))
    }

    pub open spec fn wf(&self) -> bool {
        &&& ids_unique(self.entries())
        &&& slots_unique(self.entries())
        &&& forall|p: int| 0 <= p < self.entries().len() ==> #[trigger] self.entries()[p].1 < self.flags().len()
    }

    /// Whether `flag` is one of this registry's flags and has been raised.
    pub open spec fn raised(&self, flag: CancelFlag) -> bool {
        flag.slot() < self.flags().len() && self.flags()[flag.slot() as int]
    }

    pub fn new() -> (r: Self)
        ensures
            r.wf(),
            r.flags() == Seq::<bool>::empty(),
            r.entries() == Seq::<(Seq<char>, nat)>::empty(),
    {
        let r = CancellationRegistry { flags: Vec::new(), entries: Vec::new() };
        assert(r.entries() =~= Seq::<(Seq<char>, nat)>::empty());
        r
    }

    fn position(&self, request_id: &str) -> (r: Option<usize>)
        requires
            self.wf(),
        ensures
            match r {
                Some(p) => p < self.entries().len() && self.entries()[p as int].0 == request_id@,
                None => flag_of(self.entries(), request_id@) is None,
            },
    {
        let mut i: usize = 0;
        while i < self.entries.len()
            invariant
                i <= self.entries.len(),
                forall|q: int| 0 <= q < i ==> #[trigger] self.entries()[q].0 != request_id@,
            decreases self.entries.len() - i,
        {
            if str_eq(self.entries[i].request_id.as_str(), request_id) {
                return Some(i);
            }
            i = i + 1;
        }
        None
    }

    /// Registers a request and returns the fresh, lowered flag its work
    /// should poll. An id that is already registered gets a new flag in
    /// place of the old one, so nothing an earlier request does can cancel
    /// the new one.
    pub fn register(&mut self, request_id: &str) -> (r: Result<CancelFlag, AppError>)
        requires
            old(self).wf(),
            old(self).flags().len() < usize::MAX,
        ensures
            final(self).wf(),
            r matches Ok(f) && f.slot() == old(self).flags().len(),
            final(self).flags() == old(self).flags().push(false),
            flag_of(final(self).entries(), request_id@) == Some(old(self).flags().len()),
            forall|other: Seq<char>|
                other != request_id@ ==> #[trigger] flag_of(final(self).entries(), other) == flag_of(
                    old(self).entries(),
                    other,
                ),
    {
        let slot = self.flags.len();
        self.flags.push(false);
        let ghost es0 = self.entries();
        match self.position(request_id) {
            Some(p) => {
                self.entries.set(p, RegistryEntry { request_id: request_id.to_string(), flag: slot });
                proof {
                    let es1 = self.entries();
                    assert(es1 =~= es0.update(p as int, (request_id@, slot as nat)));
                    assert forall|a: int, b: int|
                        0 <= a < es1.len() && 0 <= b < es1.len() && #[trigger] es1[a].0 == #[trigger] es1[b].0 implies a
                        == b by {
                        assert(es0[a].0 == es1[a].0);
                        assert(es0[b].0 == es1[b].0);
                    }
                    assert forall|a: int, b: int|
                        0 <= a < es1.len() && 0 <= b < es1.len() && #[trigger] es1[a].1 == #[trigger] es1[b].1 implies a
                        == b by {
                        if a != p {
                            assert(es0[a].1 == es1[a].1);
                            assert(es0[a].1 < slot);
                        }
                        if b != p {
                            assert(es0[b].1 == es1[b].1);
                            assert(es0[b].1 < slot);
                        }
                    }
                    lemma_flag_at(es1, p as int);
                    assert forall|other: Seq<char>| other != request_id@ implies #[trigger] flag_of(es1, other) == flag_of(
                        es0,
                        other,
                    ) by {
                        if exists|q: int| 0 <= q < es0.len() && #[trigger] es0[q].0 == other {
                            let q = choose|q: int| 0 <= q < es0.len() && #[trigger] es0[q].0 == other;
                            lemma_flag_at(es0, q);
                            assert(es1[q] == es0[q]);
                            lemma_flag_at(es1, q);
                        } else {
                            assert forall|q: int| 0 <= q < es1.len() implies #[trigger] es1[q].0 != other by {
                                if q != p {
                                    assert(es1[q] == es0[q]);
                                }
                            }
                        }
                    }
                }
            },
            None => {
                self.entries.push(RegistryEntry { request_id: request_id.to_string(), flag: slot });
                proof {
                    let es1 = self.entries();
                    assert(es1 =~= es0.push((request_id@, slot as nat)));
                    assert forall|q: int| 0 <= q < es0.len() implies #[trigger] es0[q].0 != request_id@ by {
                        if es0[q].0 == request_id@ {
                            assert(exists|p: int| 0 <= p < es0.len() && #[trigger] es0[p].0 == request_id@);
                        }
                    }
                    assert forall|a: int, b: int|
                        0 <= a < es1.len() && 0 <= b < es1.len() && #[trigger] es1[a].0 == #[trigger] es1[b].0 implies a
                        == b by {
                        if a < es0.len() {
                            assert(es1[a] == es0[a]);
                        }
                        if b < es0.len() {
                            assert(es1[b] == es0[b]);
                        }
                    }
                    assert forall|a: int, b: int|
                        0 <= a < es1.len() && 0 <= b < es1.len() && #[trigger] es1[a].1 == #[trigger] es1[b].1 implies a
                        == b by {
                        if a < es0.len() {
                            assert(es1[a] == es0[a]);
                            assert(es0[a].1 < slot);
                        }
                        if b < es0.len() {
                            assert(es1[b] == es0[b]);
                            assert(es0[b].1 < slot);
                        }
                    }
                    lemma_flag_at(es1, es0.len() as int);
                    assert forall|other: Seq<char>| other != request_id@ implies #[trigger] flag_of(es1, other) == flag_of(
                        es0,
                        other,
                    ) by {
                        if exists|q: int| 0 <= q < es0.len() && #[trigger] es0[q].0 == other {
                            let q = choose|q: int| 0 <= q < es0.len() && #[trigger] es0[q].0 == other;
                            lemma_flag_at(es0, q);
                            assert(es1[q] == es0[q]);
                            lemma_flag_at(es1, q);
                        } else {
                            assert forall|q: int| 0 <= q < es1.len() implies #[trigger] es1[q].0 != other by {
                                if q < es0.len() {
                                    assert(es1[q] == es0[q]);
                                }
                            }
                        }
                    }
                }
            },
        }
        Ok(CancelFlag { index: slot })
    }

    /// Forgets a request. Its flag stays as it was; the id no longer names
    /// any flag. Forgetting an unknown id changes nothing.
    pub fn unregister(&mut self, request_id: &str)
        requires
            old(self).wf(),
        ensures
            final(self).wf(),
            final(self).flags() == old(self).flags(),
            flag_of(final(self).entries(), request_id@) is None,
            forall|other: Seq<char>|
                other != request_id@ ==> #[trigger] flag_of(final(self).entries(), other) == flag_of(
                    old(self).entries(),
                    other,
                ),
    {
        let ghost es0 = self.entries();
        match self.position(request_id) {
            Some(p) => {
                self.entries.remove(p);
                proof {
                    let es1 = self.entries();
                    assert(es1 =~= es0.remove(p as int));
                    assert forall|a: int, b: int|
                        0 <= a < es1.len() && 0 <= b < es1.len() && #[trigger] es1[a].0 == #[trigger] es1[b].0 implies a
                        == b by {
                        let a0 = if a < p { a } else { a + 1 };
                        let b0 = if b < p { b } else { b + 1 };
                        assert(es1[a] == es0[a0]);
                        assert(es1[b] == es0[b0]);
                    }
                    assert forall|a: int, b: int|
                        0 <= a < es1.len() && 0 <= b < es1.len() && #[trigger] es1[a].1 == #[trigger] es1[b].1 implies a
                        == b by {
                        let a0 = if a < p { a } else { a + 1 };
                        let b0 = if b < p { b } else { b + 1 };
                        assert(es1[a] == es0[a0]);
                        assert(es1[b] == es0[b0]);
                    }
                    assert forall|q: int| 0 <= q < es1.len() implies #[trigger] es1[q].0 != request_id@ by {
                        let q0 = if q < p { q } else { q + 1 };
                        assert(es1[q] == es0[q0]);
                        assert(es0[p as int].0 == request_id@);
                    }
                    assert forall|other: Seq<char>| other != request_id@ implies #[trigger] flag_of(es1, other) == flag_of(
                        es0,
                        other,
                    ) by {
                        if exists|q: int| 0 <= q < es0.len() && #[trigger] es0[q].0 == other {
                            let q = choose|q: int| 0 <= q < es0.len() && #[trigger] es0[q].0 == other;
                            lemma_flag_at(es0, q);
                            assert(q != p);
                            let q1 = if q < p { q } else { q - 1 };
                            assert(es1[q1] == es0[q]);
                            lemma_flag_at(es1, q1);
                        } else {
                            assert forall|q: int| 0 <= q < es1.len() implies #[trigger] es1[q].0 != other by {
                                let q0 = if q < p { q } else { q + 1 };
                                assert(es1[q] == es0[q0]);
                            }
                        }
                    }
                }
            },
            None => {},
        }
    }

    /// Raises the flag of `request_id`. An id that is not registered (never
    /// was, or already finished) is a no-op, not an error.
    pub fn cancel(&mut self, request_id: &str) -> (r: Result<(), AppError>)
        requires
            old(self).wf(),
        ensures
            final(self).wf(),
            r is Ok,
            final(self).entries() == old(self).entries(),
            match flag_of(old(self).entries(), request_id@) {
                Some(f) => final(self).flags() == old(self).flags().update(f as int, true),
                None => final(self).flags() == old(self).flags(),
            },
            forall|other: Seq<char>|
                other != request_id@ && #[trigger] flag_of(old(self).entries(), other) is Some ==> final(self).flags()[flag_of(
                    old(self).entries(),
                    other,
                )->0 as int] == old(self).flags()[flag_of(old(self).entries(), other)->0 as int],
    {
        match self.position(request_id) {
            Some(p) => {
                proof {
                    lemma_flag_at(self.entries(), p as int);
                    assert forall|other: Seq<char>|
                        other != request_id@ && #[trigger] flag_of(self.entries(), other) is Some implies flag_of(
                        self.entries(),
                        other,
                    ) != flag_of(self.entries(), request_id@) by {
                        lemma_distinct_ids_distinct_flags(self.entries(), other, request_id@);
                    }
                }
                let slot = self.entries[p].flag;
                self.flags.set(slot, true);
            },
            None => {},
        }
        Ok(())
    }

    /// Whether `flag` has been raised.
    pub fn is_set(&self, flag: CancelFlag) -> (r: bool)
        ensures
            r == self.raised(flag),
    {
        flag.index < self.flags.len() && self.flags[flag.index]
    }
}

/// A registered request: its id and the flag its work polls. Calling
/// [`RegisteredRequest::finish`] on every exit path forgets the id again.
pub struct RegisteredRequest {
    request_id: String,
    flag: CancelFlag,
}

impl RegisteredRequest {
    pub closed spec fn id(&self) -> Seq<char> {
        self.request_id@
    }

    pub closed spec fn handle(&self) -> CancelFlag {
        self.flag
    }

    /// The flag this request's work polls.
    pub fn flag(&self) -> (r: CancelFlag)
        ensures
            r == self.handle(),
    {
        self.flag
    }

    /// Registers `request_id` with `registry`.
    pub fn new(registry: &mut CancellationRegistry, request_id: String) -> (r: Result<Self, AppError>)
        requires
            old(registry).wf(),
            old(registry).flags().len() < usize::MAX,
        ensures
            final(registry).wf(),
            r matches Ok(g) && g.id() == request_id@ && g.handle().slot() == old(registry).flags().len(),
            final(registry).flags() == old(registry).flags().push(false),
            flag_of(final(registry).entries(), request_id@) == Some(old(registry).flags().len()),
            forall|other: Seq<char>|
                other != request_id@ ==> #[trigger] flag_of(final(registry).entries(), other) == flag_of(
                    old(registry).entries(),
                    other,
                ),
    {
        let flag = registry.register(request_id.as_str())?;
        Ok(RegisteredRequest { request_id, flag })
    }

    /// Whether this request has been cancelled.
    pub fn is_cancelled(&self, registry: &CancellationRegistry) -> (r: bool)
        ensures
            r == registry.raised(self.handle()),
    {
        registry.is_set(self.flag)
    }

    /// Ends the request: its id is forgotten by the registry.
    pub fn finish(self, registry: &mut CancellationRegistry)
        requires
            old(registry).wf(),
        ensures
            final(registry).wf(),
            final(registry).flags() == old(registry).flags(),
            flag_of(final(registry).entries(), self.id()) is None,
            forall|other: Seq<char>|
                other != self.id() ==> #[trigger] flag_of(final(registry).entries(), other) == flag_of(
                    old(registry).entries(),
                    other,
                ),
    {
        registry.unregister(self.request_id.as_str());
    }
}

} // verus!
