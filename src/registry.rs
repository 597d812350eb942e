//! The registry of live sessions, with each session's count of messages
//! queued for delivery.

use vstd::prelude::*;

verus! {

/// One live session.
#[derive(Debug)]
pub struct ClientInfo {
    pub id: String,
    pub name: Option<String>,
    pub capabilities: Vec<String>,
    /// When the session connected, as RFC 3339 text.
    pub connected_at: String,
    /// Messages queued for the session and not yet sent.
    pub pending: usize,
    /// The session's queue overflowed; it is to be torn down.
    pub overflowed: bool,
}

/// Relies on uuid::Uuid::new_v4 and its hyphenated text form: a random
/// identifier.
#[verifier::external_body]
fn fresh_id() -> (r: String) {
    uuid::Uuid::new_v4().to_string()
}

/// Relies on chrono::Utc::now, written out by DateTime::to_rfc3339: the
/// current time as text.
#[verifier::external_body]
fn now_text() -> (r: String) {
    chrono::Utc::now().to_rfc3339()
}

/// The identifiers of a sequence of sessions, in order.
pub open spec fn ids_of(s: Seq<ClientInfo>) -> Seq<Seq<char>> {
    s.map_values(|x: ClientInfo| x.id@)
}

/// `b` is `a` with one more message queued, or marked overflowed when its
/// queue of `capacity` messages was full.
pub open spec fn queued_one(a: ClientInfo, b: ClientInfo, capacity: nat) -> bool {
    &&& b.id == a.id
    &&& b.name == a.name
    &&& b.capabilities == a.capabilities
    &&& b.connected_at == a.connected_at
    &&& if a.pending < capacity {
        b.pending == a.pending + 1 && b.overflowed == a.overflowed
    } else {
        b.pending == a.pending && b.overflowed
    }
}

/// `after` is `before` once one message was published: `r` holds, in
/// order, each session's identifier and whether the message was queued
/// there, and each session took it or overflowed.
pub open spec fn published(before: ServerState, after: ServerState, r: Seq<Delivery>) -> bool {
    &&& after.wf()
    &&& after.capacity_view() == before.capacity_view()
    &&& after.issued_view() == before.issued_view()
    &&& after.departed_view() == before.departed_view()
    &&& after.count_view() == before.count_view()
    &&& after.sessions_view().len() == before.sessions_view().len()
    &&& r.len() == before.sessions_view().len()
    &&& forall|k: int|
        0 <= k < r.len() ==> {
            &&& (#[trigger] r[k]).id@ == before.ids()[k]
            &&& r[k].queued == (before.sessions_view()[k].pending < before.capacity_view())
            &&& queued_one(
                before.sessions_view()[k],
                after.sessions_view()[k],
                before.capacity_view(),
            )
        }
}

/// The live sessions are the connections made minus those that left: from
/// a new registry, after N successful connections and M disconnections of
/// live sessions, the reported count and the number of listed sessions
/// are both N - M.
pub proof fn lemma_count_after_churn(s: ServerState)
    requires
        s.wf(),
    ensures
        s.departed_view().finite(),
        s.count_view() == s.issued_view().len() - s.departed_view().len(),
        s.sessions_view().len() == s.issued_view().len() - s.departed_view().len(),
{
    s.lemma_wf();
    let joined = s.issued_view();
    let left = s.departed_view();
    joined.unique_seq_to_set();
    s.ids().unique_seq_to_set();
    vstd::set_lib::lemma_len_subset(left, joined.to_set());
    vstd::set_lib::lemma_set_difference_len(joined.to_set(), left);
    assert(joined.to_set().intersect(left) =~= left);
}

/// Removing one entry of a sequence without duplicates removes exactly
/// that value from its set.
proof fn lemma_remove_to_set(s: Seq<Seq<char>>, i: int)
    requires
        s.no_duplicates(),
        0 <= i < s.len(),
    ensures
        s.remove(i).to_set() == s.to_set().remove(s[i]),
{
    assert forall|x: Seq<char>| #[trigger]
        s.remove(i).to_set().contains(x) == s.to_set().remove(s[i]).contains(x) by {
        if s.remove(i).contains(x) {
            let j = choose|j: int| 0 <= j < s.remove(i).len() && s.remove(i)[j] == x;
            let j0 = if j < i { j } else { j + 1 };
            assert(s[j0] == x);
            assert(s.contains(x));
        }
        if s.contains(x) && x != s[i] {
            let j = choose|j: int| 0 <= j < s.len() && s[j] == x;
            let j1 = if j < i { j } else { j - 1 };
            assert(s.remove(i)[j1] == x);
        }
    }
    assert(s.remove(i).to_set() =~= s.to_set().remove(s[i]));
}

/// Publishing reaches each live session exactly once and no one else;
/// with no session live it reaches no one and changes nothing. A session
/// with room in its queue takes exactly one more message; one whose queue
/// is full takes none and is marked overflowed, to be dropped.
pub proof fn lemma_publish_reaches_each_once(
    before: ServerState,
    after: ServerState,
    r: Seq<Delivery>,
)
    requires
        before.wf(),
        published(before, after, r),
    ensures
        forall|k: int| 0 <= k < r.len() ==> before.ids().contains(#[trigger] r[k].id@),
        r.len() == before.ids().len(),
        forall|j: int| 0 <= j < before.ids().len() ==> (#[trigger] r[j]).id@ == before.ids()[j],
        forall|a: int, b: int| 0 <= a < r.len() && 0 <= b < r.len() && r[a].id@ == r[b].id@ ==> a == b,
        before.sessions_view().len() == 0 ==> r.len() == 0 && after.sessions_view().len() == 0
            && after.count_view() == 0,
        forall|k: int|
            0 <= k < r.len() ==> if (#[trigger] r[k]).queued {
                after.sessions_view()[k].pending == before.sessions_view()[k].pending + 1
            } else {
                after.sessions_view()[k].overflowed && after.sessions_view()[k].pending
                    == before.sessions_view()[k].pending
            },
{
    before.lemma_wf();
    assert forall|k: int| 0 <= k < r.len() implies before.ids().contains(#[trigger] r[k].id@) by {
        assert(before.ids()[k] == r[k].id@);
    }
    assert forall|a: int, b: int|
        0 <= a < r.len() && 0 <= b < r.len() && r[a].id@ == r[b].id@ implies a == b by {
        assert(r[a].id@ == before.ids()[a]);
        assert(r[b].id@ == before.ids()[b]);
    }
}

/// The sessions that are live, and how many there are.
pub struct ServerState {
    count: usize,
    sessions: Vec<ClientInfo>,
    capacity: usize,
    /// Every identifier ever registered, in order; none is used twice.
    issued: Vec<String>,
    /// The identifiers of the sessions that have left.
    departed: Ghost<Set<Seq<char>>>,
}

/// The texts of a sequence of strings.
pub open spec fn texts_of(s: Seq<String>) -> Seq<Seq<char>> {
    s.map_values(|x: String| x@)
}

/// What became of a message handed to one session's queue.
#[derive(Debug, Clone, Copy, PartialEq, Eq, Structural)]
pub enum Admission {
    /// The message was queued.
    Queued,
    /// The queue was full: the session is marked overflowed.
    Overflow,
    /// No such session is registered.
    Gone,
}

/// The fate of a published event at one session.
#[derive(Debug)]
pub struct Delivery {
    pub id: String,
    pub queued: bool,
}

impl ServerState {
    /// The live sessions, in order of registration.
    pub closed spec fn sessions_view(&self) -> Seq<ClientInfo> {
        self.sessions@
    }

    /// The reported number of live sessions.
    pub closed spec fn count_view(&self) -> nat {
        self.count as nat
    }

    /// How many messages each session may have queued.
    pub closed spec fn capacity_view(&self) -> nat {
        self.capacity as nat
    }

    /// Every identifier ever registered, in order.
    pub closed spec fn issued_view(&self) -> Seq<Seq<char>> {
        texts_of(self.issued@)
    }

    /// The identifiers of the sessions that have left.
    pub closed spec fn departed_view(&self) -> Set<Seq<char>> {
        self.departed@
    }

    /// The identifiers of the live sessions.
    pub open spec fn ids(&self) -> Seq<Seq<char>> {
        ids_of(self.sessions_view())
    }

    /// The count equals the number of sessions, identifiers are unique,
    /// the live ones are exactly those issued and not departed, and no
    /// queue holds more than the capacity.
    pub closed spec fn wf(&self) -> bool {
        &&& self.count == self.sessions@.len()
        &&& ids_of(self.sessions@).no_duplicates()
        &&& texts_of(self.issued@).no_duplicates()
        &&& self.departed@.subset_of(texts_of(self.issued@).to_set())
        &&& ids_of(self.sessions@).to_set() == texts_of(self.issued@).to_set().difference(
            self.departed@,
        )
        &&& forall|k: int|
            0 <= k < self.sessions@.len() ==> (#[trigger] self.sessions@[k]).pending
                <= self.capacity
    }

    /// Facts that every well-formed registry has.
    pub proof fn lemma_wf(&self)
        requires
            self.wf(),
        ensures
            self.count_view() == self.sessions_view().len(),
            self.ids().no_duplicates(),
            self.ids().len() == self.sessions_view().len(),
            self.issued_view().no_duplicates(),
            self.departed_view().subset_of(self.issued_view().to_set()),
            self.ids().to_set() == self.issued_view().to_set().difference(self.departed_view()),
            forall|k: int|
                0 <= k < self.sessions_view().len() ==> (#[trigger] self.sessions_view()[k]).pending
                    <= self.capacity_view(),
    {
    }

    /// An empty registry whose sessions may each queue `capacity` messages.
    pub fn new(capacity: usize) -> (r: ServerState)
        ensures
            r.wf(),
            r.sessions_view().len() == 0,
            r.count_view() == 0,
            r.capacity_view() == capacity,
            r.issued_view().len() == 0,
            r.departed_view() == Set::<Seq<char>>::empty(),
    {
        let r = ServerState {
            count: 0,
            sessions: Vec::new(),
            capacity,
            issued: Vec::new(),
            departed: Ghost(Set::empty()),
        };
        proof {
            assert(ids_of(r.sessions@).to_set() =~= texts_of(r.issued@).to_set().difference(
                r.departed@,
            ));
        }
        r
    }

    /// Whether `id` was ever registered.
    pub fn was_issued(&self, id: &String) -> (r: bool)
        ensures
            r == self.issued_view().contains(id@),
    {
        let mut i: usize = 0;
        while i < self.issued.len()
            invariant
                i <= self.issued@.len(),
                forall|k: int| 0 <= k < i ==> self.issued@[k]@ != id@,
            decreases self.issued@.len() - i,
        {
            if self.issued[i] == *id {
                proof {
                    assert(self.issued_view()[i as int] == id@);
                }
                return true;
            }
            i = i + 1;
        }
        proof {
            if self.issued_view().contains(id@) {
                let k = choose|k: int|
                    0 <= k < self.issued_view().len() && self.issued_view()[k] == id@;
                assert(self.issued@[k]@ == id@);
            }
        }
        false
    }

    /// The number of live sessions.
    pub fn count(&self) -> (r: usize)
        requires
            self.wf(),
        ensures
            r == self.count_view(),
            r == self.sessions_view().len(),
    {
        self.count
    }

    /// The live sessions.
    pub fn sessions(&self) -> (r: &Vec<ClientInfo>)
        ensures
            r@ == self.sessions_view(),
    {
        &self.sessions
    }

    /// The position of the session with identifier `id`, if one is live.
    pub fn position(&self, id: &String) -> (r: Option<usize>)
        requires
            self.wf(),
        ensures
            r is Some <==> self.ids().contains(id@),
            r matches Some(i) ==> i < self.sessions_view().len() && self.sessions_view()[i as int].id@
                == id@,
    {
        let mut i: usize = 0;
        while i < self.sessions.len()
            invariant
                i <= self.sessions@.len(),
                forall|k: int| 0 <= k < i ==> self.sessions@[k].id@ != id@,
            decreases self.sessions@.len() - i,
        {
            if self.sessions[i].id == *id {
                proof {
                    assert(self.ids()[i as int] == id@);
                }
                return Some(i);
            }
            i = i + 1;
        }
        proof {
            if self.ids().contains(id@) {
                let k = choose|k: int| 0 <= k < self.ids().len() && self.ids()[k] == id@;
                assert(self.sessions@[k].id@ == id@);
            }
        }
        None
    }

    /// Registers a new session under `id`, with no name and no
    /// capabilities. Refused, with nothing changed, when `id` was ever
    /// registered before (or the count is at its largest value): an
    /// identifier is never reused.
    pub fn register(&mut self, id: String, connected_at: String) -> (r: bool)
        requires
            old(self).wf(),
        ensures
            final(self).wf(),
            final(self).capacity_view() == old(self).capacity_view(),
            r == (!old(self).issued_view().contains(id@) && old(self).count_view() < usize::MAX),
            r ==> final(self).issued_view() == old(self).issued_view().push(id@),
            r ==> final(self).departed_view() == old(self).departed_view(),
            r ==> final(self).sessions_view() == old(self).sessions_view().push(
                ClientInfo {
                    id,
                    name: None,
                    capabilities: final(self).sessions_view().last().capabilities,
                    connected_at,
                    pending: 0,
                    overflowed: false,
                },
            ) && final(self).sessions_view().last().capabilities@.len() == 0,
            r ==> final(self).count_view() == old(self).count_view() + 1,
            !r ==> *final(self) == *old(self),
    {
        if self.count == usize::MAX {
            return false;
        }
        if self.was_issued(&id) {
            false
        } else {
            {
                let ghost before = self.sessions@;
                let ghost issued_before = texts_of(self.issued@);
                proof {
                    self.lemma_wf();
                    if ids_of(before).contains(id@) {
                        assert(ids_of(before).to_set().contains(id@));
                    }
                    assert(!self.departed@.contains(id@));
                }
                self.issued.push(id.clone());
                self.sessions.push(
                    ClientInfo {
                        id,
                        name: None,
                        capabilities: Vec::new(),
                        connected_at,
                        pending: 0,
                        overflowed: false,
                    },
                );
                self.count = self.count + 1;
                proof {
                    assert(ids_of(self.sessions@) =~= ids_of(before).push(id@));
                    assert(texts_of(self.issued@) =~= issued_before.push(id@));
                    ids_of(before).lemma_push_to_set_commute(id@);
                    issued_before.lemma_push_to_set_commute(id@);
                    assert(ids_of(self.sessions@).to_set() =~= texts_of(self.issued@).to_set().difference(
                        self.departed@,
                    ));
                    assert forall|k: int|
                        0 <= k < self.sessions@.len() implies (#[trigger] self.sessions@[k]).pending
                        <= self.capacity by {
                        if k < before.len() {
                            assert(self.sessions@[k] == before[k]);
                        }
                    }
                }
                true
            }
        }
    }

    /// Removes the session with identifier `id`, recording that it left; a
    /// no-op when none is live.
    pub fn unregister(&mut self, id: &String) -> (r: bool)
        requires
            old(self).wf(),
        ensures
            final(self).wf(),
            final(self).capacity_view() == old(self).capacity_view(),
            r == old(self).ids().contains(id@),
            r ==> exists|i: int|
                0 <= i < old(self).sessions_view().len() && old(self).sessions_view()[i].id@ == id@
                    && final(self).sessions_view() == old(self).sessions_view().remove(i),
            r ==> final(self).count_view() == old(self).count_view() - 1,
            r ==> !old(self).departed_view().contains(id@) && final(self).departed_view()
                == old(self).departed_view().insert(id@),
            final(self).issued_view() == old(self).issued_view(),
            !r ==> *final(self) == *old(self),
    {
        match self.position(id) {
            None => false,
            Some(i) => {
                let ghost before = self.sessions@;
                proof {
                    self.lemma_wf();
                    assert(ids_of(before)[i as int] == id@);
                    assert(ids_of(before).to_set().contains(id@));
                    lemma_remove_to_set(ids_of(before), i as int);
                }
                self.sessions.remove(i);
                self.count = self.count - 1;
                self.departed = Ghost(self.departed@.insert(id@));
                proof {
                    assert(ids_of(self.sessions@) =~= ids_of(before).remove(i as int));
                    assert(ids_of(self.sessions@).to_set() =~= texts_of(self.issued@).to_set().difference(
                        self.departed@,
                    ));
                    assert forall|k: int|
                        0 <= k < self.sessions@.len() implies (#[trigger] self.sessions@[k]).pending
                        <= self.capacity by {
                        if k < i {
                            assert(self.sessions@[k] == before[k]);
                        } else {
                            assert(self.sessions@[k] == before[k + 1]);
                        }
                    }
                    assert forall|a: int, b: int|
                        0 <= a < b < ids_of(self.sessions@).len() implies ids_of(self.sessions@)[a]
                        != ids_of(self.sessions@)[b] by {
                        let a0 = if a < i { a } else { a + 1 };
                        let b0 = if b < i { b } else { b + 1 };
                        assert(ids_of(before)[a0] != ids_of(before)[b0]);
                    }
                }
                true
            },
        }
    }

    /// Hands one message to the queue of session `id`: queued when there is
    /// room, else the session is marked overflowed. Only that session
    /// changes.
    pub fn enqueue(&mut self, id: &String) -> (r: Admission)
        requires
            old(self).wf(),
        ensures
            final(self).wf(),
            final(self).capacity_view() == old(self).capacity_view(),
            final(self).count_view() == old(self).count_view(),
            final(self).issued_view() == old(self).issued_view(),
            final(self).departed_view() == old(self).departed_view(),
            final(self).sessions_view().len() == old(self).sessions_view().len(),
            r is Gone <==> !old(self).ids().contains(id@),
            r is Gone ==> *final(self) == *old(self),
            !(r is Gone) ==> exists|i: int|
                0 <= i < old(self).sessions_view().len() && old(self).sessions_view()[i].id@ == id@
                    && queued_one(
                    old(self).sessions_view()[i],
                    final(self).sessions_view()[i],
                    old(self).capacity_view(),
                ) && (r is Queued <==> old(self).sessions_view()[i].pending
                    < old(self).capacity_view()) && final(self).sessions_view()
                    == old(self).sessions_view().update(i, final(self).sessions_view()[i]),
    {
        match self.position(id) {
            None => Admission::Gone,
            Some(i) => {
                let ghost before = self.sessions@;
                let r = if self.sessions[i].pending < self.capacity {
                    self.sessions[i].pending = self.sessions[i].pending + 1;
                    Admission::Queued
                } else {
                    self.sessions[i].overflowed = true;
                    Admission::Overflow
                };
                proof {
                    assert(ids_of(self.sessions@) =~= ids_of(before));
                    assert forall|k: int|
                        0 <= k < self.sessions@.len() implies (#[trigger] self.sessions@[k]).pending
                        <= self.capacity by {
                        if k != i {
                            assert(self.sessions@[k] == before[k]);
                        }
                    }
                    assert(self.sessions@ =~= before.update(i as int, self.sessions@[i as int]));
                }
                r
            },
        }
    }

    /// Records that one queued message of session `id` was sent.
    pub fn sent(&mut self, id: &String)
        requires
            old(self).wf(),
        ensures
            final(self).wf(),
            final(self).capacity_view() == old(self).capacity_view(),
            final(self).count_view() == old(self).count_view(),
            final(self).issued_view() == old(self).issued_view(),
            final(self).departed_view() == old(self).departed_view(),
            final(self).ids() == old(self).ids(),
            forall|k: int|
                0 <= k < old(self).sessions_view().len() ==> {
                    let (a, b) = (old(self).sessions_view()[k], #[trigger] final(self).sessions_view()[k]);
                    &&& b.id == a.id && b.name == a.name && b.capabilities == a.capabilities
                    &&& b.connected_at == a.connected_at && b.overflowed == a.overflowed
                    &&& b.pending == if a.id@ == id@ && a.pending > 0 {
                        (a.pending - 1) as usize
                    } else {
                        a.pending
                    }
                },
    {
        let ghost before = self.sessions@;
        match self.position(id) {
            None => {
                proof {
                    assert forall|k: int| 0 <= k < before.len() implies before[k].id@ != id@ by {
                        if before[k].id@ == id@ {
                            assert(self.ids()[k] == id@);
                        }
                    }
                }
            },
            Some(i) => {
                if self.sessions[i].pending > 0 {
                    self.sessions[i].pending = self.sessions[i].pending - 1;
                }
                proof {
                    assert(ids_of(self.sessions@) =~= ids_of(before));
                    assert forall|k: int|
                        0 <= k < self.sessions@.len() implies (#[trigger] self.sessions@[k]).pending
                        <= self.capacity by {
                        if k != i {
                            assert(self.sessions@[k] == before[k]);
                        }
                    }
                    assert forall|k: int| 0 <= k < before.len() && k != i implies before[k].id@ != id@ by {
                        assert(ids_of(before)[k] != ids_of(before)[i as int]);
                    }
                }
            },
        }
    }

    /// Publishes one message to every live session: each session's queue
    /// takes it when there is room, else the session is marked overflowed.
    /// Returns, in order, each session's identifier and whether the message
    /// was queued there.
    pub fn publish(&mut self) -> (r: Vec<Delivery>)
        requires
            old(self).wf(),
        ensures
            published(*old(self), *final(self), r@),
    {
        let ghost before = self.sessions@;
        let ghost cap = self.capacity;
        let ghost issued = self.issued@;
        let ghost departed = self.departed@;
        let mut out: Vec<Delivery> = Vec::new();
        let mut i: usize = 0;
        while i < self.sessions.len()
            invariant
                self.sessions@.len() == before.len(),
                i <= before.len(),
                out@.len() == i,
                self.count == before.len(),
                self.capacity == cap,
                self.issued@ == issued,
                self.departed@ == departed,
                forall|k: int| 0 <= k < before.len() ==> (#[trigger] before[k]).pending <= self.capacity,
                forall|k: int|
                    0 <= k < i ==> {
                        &&& (#[trigger] out@[k]).id@ == before[k].id@
                        &&& out@[k].queued == (before[k].pending < self.capacity)
                        &&& queued_one(before[k], self.sessions@[k], self.capacity as nat)
                    },
                forall|k: int| i <= k < before.len() ==> #[trigger] self.sessions@[k] == before[k],
            decreases before.len() - i,
        {
            let queued = self.sessions[i].pending < self.capacity;
            if queued {
                self.sessions[i].pending = self.sessions[i].pending + 1;
            } else {
                self.sessions[i].overflowed = true;
            }
            out.push(Delivery { id: self.sessions[i].id.clone(), queued });
            i = i + 1;
        }
        proof {
            assert forall|k: int| 0 <= k < before.len() implies ids_of(self.sessions@)[k] == ids_of(
                before,
            )[k] by {
                assert(out@[k].id@ == before[k].id@);
                assert(queued_one(before[k], self.sessions@[k], self.capacity as nat));
            }
            assert(ids_of(self.sessions@) =~= ids_of(before));
            assert forall|k: int|
                0 <= k < self.sessions@.len() implies (#[trigger] self.sessions@[k]).pending
                <= self.capacity by {
                assert(out@[k].id@ == before[k].id@);
                assert(queued_one(before[k], self.sessions@[k], self.capacity as nat));
            }
        }
        out
    }

    /// A consistent view of the registry: the count and the live sessions,
    /// read together.
    pub fn snapshot(&self) -> (r: (usize, &Vec<ClientInfo>))
        requires
            self.wf(),
        ensures
            r.0 == self.count_view(),
            r.1@ == self.sessions_view(),
            r.0 == r.1@.len(),
    {
        (self.count, &self.sessions)
    }

    /// The identifiers of the live sessions, in order.
    pub fn session_ids(&self) -> (r: Vec<String>)
        requires
            self.wf(),
        ensures
            texts_of(r@) == self.ids(),
    {
        let mut out: Vec<String> = Vec::new();
        let mut i: usize = 0;
        while i < self.sessions.len()
            invariant
                i <= self.sessions@.len(),
                texts_of(out@) == self.ids().subrange(0, i as int),
            decreases self.sessions@.len() - i,
        {
            let ghost prev = out@;
            let id = self.sessions[i].id.clone();
            out.push(id);
            proof {
                assert(self.ids()[i as int] == self.sessions@[i as int].id@);
                assert(prev.map_values(|s: String| s@) == self.ids().subrange(0, i as int));
                assert(out@ == prev.push(id));
                assert(texts_of(out@) =~= prev.map_values(|s: String| s@).push(id@));
            }
            i = i + 1;
            proof {
                assert(texts_of(out@) =~= self.ids().subrange(0, i as int));
            }
        }
        proof {
            assert(texts_of(out@) =~= self.ids());
        }
        out
    }

    /// Registers a newly connected client under a fresh random identifier,
    /// stamped with the current time, with no name and no capabilities. A
    /// drawn identifier that was ever registered before is never reused:
    /// another is drawn, a few times at most. While no identifier has been
    /// issued, no draw can collide, so the first one succeeds.
    pub fn connect(&mut self) -> (r: Option<String>)
        requires
            old(self).wf(),
        ensures
            final(self).wf(),
            final(self).capacity_view() == old(self).capacity_view(),
            old(self).issued_view().len() == 0 ==> r is Some,
            r matches Some(id) ==> {
                &&& !old(self).issued_view().contains(id@)
                &&& final(self).issued_view() == old(self).issued_view().push(id@)
                &&& final(self).departed_view() == old(self).departed_view()
                &&& final(self).sessions_view() == old(self).sessions_view().push(
                    final(self).sessions_view().last(),
                )
                &&& final(self).sessions_view().last().id@ == id@
                &&& final(self).sessions_view().last().name is None
                &&& final(self).sessions_view().last().capabilities@.len() == 0
                &&& final(self).sessions_view().last().pending == 0
                &&& !final(self).sessions_view().last().overflowed
                &&& final(self).count_view() == old(self).count_view() + 1
            },
            r is None ==> *final(self) == *old(self),
    {
        let mut attempt: usize = 0;
        while attempt < 4
            invariant
                *self == *old(self),
                self.wf(),
                old(self).issued_view().len() == 0 ==> attempt == 0,
            decreases 4 - attempt,
        {
            let id = fresh_id();
            proof {
                if self.issued_view().len() == 0 {
                    self.lemma_wf();
                    self.ids().unique_seq_to_set();
                    assert(self.issued_view().to_set() =~= Set::<Seq<char>>::empty());
                    assert(self.ids().to_set() =~= Set::<Seq<char>>::empty());
                    assert(!self.issued_view().contains(id@));
                }
            }
            if self.register(id.clone(), now_text()) {
                return Some(id);
            }
            attempt = attempt + 1;
        }
        None
    }
}

} // verus!
