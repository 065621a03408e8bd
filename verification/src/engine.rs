//! The persisted side of the engine: the registry of live workflow
//! instances, durable creation keyed by a caller-chosen workflow id, and
//! signal delivery into the single instance whose tags match the target.
use vstd::prelude::*;

use crate::error::EngineError;
use crate::tags::{tags_match, TagSet};

verus! {

/// Mathematical value of one delivered signal.
pub struct SignalView {
    pub signal_id: u128,
    pub signal_name: Seq<char>,
    pub body: Seq<char>,
    pub ray_id: u128,
}

/// A typed, named payload delivered at most once into one workflow
/// instance; `signal_id` is the caller's idempotency key.
pub struct SignalRecord {
    pub signal_id: u128,
    pub signal_name: String,
    pub body: String,
    pub ray_id: u128,
}

impl View for SignalRecord {
    type V = SignalView;

    open spec fn view(&self) -> SignalView {
        SignalView {
            signal_id: self.signal_id,
            signal_name: self.signal_name@,
            body: self.body@,
            ray_id: self.ray_id,
        }
    }
}

/// Mathematical value of one workflow instance.
pub struct InstanceView {
    pub workflow_id: u128,
    pub workflow_name: Seq<char>,
    pub input: Seq<char>,
    pub tags: Map<Seq<char>, Seq<char>>,
    pub received_signals: Seq<SignalView>,
}

/// A durable workflow instance: identity, type name, input payload, the tag
/// set signals are addressed by, and the signals delivered so far.
pub struct WorkflowInstance {
    pub workflow_id: u128,
    pub workflow_name: String,
    pub input: String,
    pub tags: TagSet,
    pub received_signals: Vec<SignalRecord>,
}

impl View for WorkflowInstance {
    type V = InstanceView;

    open spec fn view(&self) -> InstanceView {
        InstanceView {
            workflow_id: self.workflow_id,
            workflow_name: self.workflow_name@,
            input: self.input@,
            tags: self.tags@,
            received_signals: self.received_signals@.map_values(|s: SignalRecord| s@),
        }
    }
}

/// Whether some instance in `s` carries the workflow id `id`.
pub open spec fn contains_workflow(s: Seq<InstanceView>, id: u128) -> bool {
    exists|i: int| 0 <= i < s.len() && (#[trigger] s[i]).workflow_id == id
}

/// How many instances in `s` carry the workflow id `id`.
pub open spec fn id_count(s: Seq<InstanceView>, id: u128) -> nat
    decreases s.len(),
{
    if s.len() == 0 {
        0
    } else {
        id_count(s.drop_last(), id) + if s.last().workflow_id == id {
            1nat
        } else {
            0nat
        }
    }
}

/// Whether a signal with idempotency key `sid` is among `r`.
pub open spec fn has_signal(r: Seq<SignalView>, sid: u128) -> bool {
    exists|j: int| 0 <= j < r.len() && (#[trigger] r[j]).signal_id == sid
}

/// How many signals in `r` carry the idempotency key `sid`.
pub open spec fn sig_count(r: Seq<SignalView>, sid: u128) -> nat
    decreases r.len(),
{
    if r.len() == 0 {
        0
    } else {
        sig_count(r.drop_last(), sid) + if r.last().signal_id == sid {
            1nat
        } else {
            0nat
        }
    }
}

/// How many instances with index in `[lo, hi)` a signal targeted at `target`
/// matches.
pub open spec fn match_count(
    s: Seq<InstanceView>,
    lo: int,
    hi: int,
    target: Map<Seq<char>, Seq<char>>,
) -> nat
    decreases hi - lo,
{
    if lo >= hi {
        0
    } else {
        (if tags_match(target, s[lo].tags) {
            1nat
        } else {
            0nat
        }) + match_count(s, lo + 1, hi, target)
    }
}

/// No two signals of one instance share an idempotency key.
pub open spec fn signals_unique(r: Seq<SignalView>) -> bool {
    forall|a: int, b: int|
        0 <= a < r.len() && 0 <= b < r.len() && a != b ==> (#[trigger] r[a]).signal_id != (
        #[trigger] r[b]).signal_id
}

/// Registry invariant: workflow ids are unique and every instance's
/// delivered signals are unique by idempotency key.
pub open spec fn registry_inv(s: Seq<InstanceView>) -> bool {
    &&& forall|i: int, j: int|
        0 <= i < s.len() && 0 <= j < s.len() && i != j ==> (#[trigger] s[i]).workflow_id != (
        #[trigger] s[j]).workflow_id
    &&& forall|i: int| 0 <= i < s.len() ==> signals_unique((#[trigger] s[i]).received_signals)
}

/// The state after a durable create: unchanged when the caller-chosen id
/// already exists, else one new instance with no delivered signals.
pub open spec fn spec_create(
    s: Seq<InstanceView>,
    id: u128,
    name: Seq<char>,
    input: Seq<char>,
    tags: Map<Seq<char>, Seq<char>>,
) -> Seq<InstanceView> {
    if contains_workflow(s, id) {
        s
    } else {
        s.push(
            InstanceView {
                workflow_id: id,
                workflow_name: name,
                input: input,
                tags: tags,
                received_signals: Seq::empty(),
            },
        )
    }
}

/// An instance with one more delivered signal.
pub open spec fn with_signal(w: InstanceView, sig: SignalView) -> InstanceView {
    InstanceView {
        workflow_id: w.workflow_id,
        workflow_name: w.workflow_name,
        input: w.input,
        tags: w.tags,
        received_signals: w.received_signals.push(sig),
    }
}

/// The state after a signal delivery: unchanged unless exactly one instance
/// matches the target, and then that instance receives the signal unless it
/// already holds its idempotency key.
pub open spec fn spec_deliver(
    s: Seq<InstanceView>,
    target: Map<Seq<char>, Seq<char>>,
    sig: SignalView,
) -> Seq<InstanceView> {
    if match_count(s, 0, s.len() as int, target) == 1 {
        let i = choose|i: int| 0 <= i < s.len() && tags_match(target, (#[trigger] s[i]).tags);
        if has_signal(s[i].received_signals, sig.signal_id) {
            s
        } else {
            s.update(i, with_signal(s[i], sig))
        }
    } else {
        s
    }
}

pub proof fn lemma_match_count_split(
    s: Seq<InstanceView>,
    lo: int,
    mid: int,
    hi: int,
    target: Map<Seq<char>, Seq<char>>,
)
    requires
        lo <= mid <= hi,
    ensures
        match_count(s, lo, hi, target) == match_count(s, lo, mid, target) + match_count(
            s,
            mid,
            hi,
            target,
        ),
    decreases mid - lo,
{
    if lo < mid {
        lemma_match_count_split(s, lo + 1, mid, hi, target);
    }
}

/// A range has count zero exactly when no instance in it matches.
pub proof fn lemma_match_count_zero(
    s: Seq<InstanceView>,
    lo: int,
    hi: int,
    target: Map<Seq<char>, Seq<char>>,
)
    ensures
        (match_count(s, lo, hi, target) == 0) <==> (forall|i: int|
            lo <= i < hi ==> !tags_match(target, (#[trigger] s[i]).tags)),
    decreases hi - lo,
{
    if lo < hi {
        lemma_match_count_zero(s, lo + 1, hi, target);
    }
}

/// Two distinct matching indices force a count of at least two.
pub proof fn lemma_two_matches(
    s: Seq<InstanceView>,
    i: int,
    j: int,
    target: Map<Seq<char>, Seq<char>>,
)
    requires
        0 <= i < j < s.len(),
        tags_match(target, s[i].tags),
        tags_match(target, s[j].tags),
    ensures
        match_count(s, 0, s.len() as int, target) >= 2,
{
    let hi = s.len() as int;
    lemma_match_count_split(s, 0, i, hi, target);
    lemma_match_count_split(s, i, i + 1, hi, target);
    lemma_match_count_split(s, i + 1, j, hi, target);
    lemma_match_count_split(s, j, j + 1, hi, target);
}

/// The match count depends on the instances' tags alone.
pub proof fn lemma_match_count_frame(
    s1: Seq<InstanceView>,
    s2: Seq<InstanceView>,
    lo: int,
    hi: int,
    target: Map<Seq<char>, Seq<char>>,
)
    requires
        forall|i: int| lo <= i < hi ==> (#[trigger] s1[i]).tags == s2[i].tags,
    ensures
        match_count(s1, lo, hi, target) == match_count(s2, lo, hi, target),
    decreases hi - lo,
{
    if lo < hi {
        lemma_match_count_frame(s1, s2, lo + 1, hi, target);
    }
}

pub proof fn lemma_id_count_zero(s: Seq<InstanceView>, id: u128)
    ensures
        (id_count(s, id) == 0) <==> !contains_workflow(s, id),
    decreases s.len(),
{
    if s.len() == 0 {
    } else {
        let prefix = s.drop_last();
        lemma_id_count_zero(prefix, id);
        let last = s.len() - 1;
        if id_count(s, id) == 0 {
            assert forall|i: int| 0 <= i < s.len() implies (#[trigger] s[i]).workflow_id != id by {
                if i < last {
                    assert(prefix[i] == s[i]);
                    assert(!contains_workflow(prefix, id));
                }
            }
        } else {
            if id_count(prefix, id) > 0 {
                let i = choose|i: int|
                    0 <= i < prefix.len() && (#[trigger] prefix[i]).workflow_id == id;
                assert(s[i] == prefix[i]);
            }
        }
    }
}

pub proof fn lemma_id_count_push(s: Seq<InstanceView>, w: InstanceView, id: u128)
    ensures
        id_count(s.push(w), id) == id_count(s, id) + if w.workflow_id == id {
            1nat
        } else {
            0nat
        },
{
    assert(s.push(w).drop_last() =~= s);
    assert(s.push(w).last() == w);
}

pub proof fn lemma_sig_count_zero(r: Seq<SignalView>, sid: u128)
    ensures
        (sig_count(r, sid) == 0) <==> !has_signal(r, sid),
    decreases r.len(),
{
    if r.len() == 0 {
    } else {
        let prefix = r.drop_last();
        lemma_sig_count_zero(prefix, sid);
        let last = r.len() - 1;
        if sig_count(r, sid) == 0 {
            assert forall|j: int| 0 <= j < r.len() implies (#[trigger] r[j]).signal_id != sid by {
                if j < last {
                    assert(prefix[j] == r[j]);
                    assert(!has_signal(prefix, sid));
                }
            }
        } else {
            if sig_count(prefix, sid) > 0 {
                let j = choose|j: int|
                    0 <= j < prefix.len() && (#[trigger] prefix[j]).signal_id == sid;
                assert(r[j] == prefix[j]);
            }
        }
    }
}

pub proof fn lemma_sig_count_push(r: Seq<SignalView>, x: SignalView, sid: u128)
    ensures
        sig_count(r.push(x), sid) == sig_count(r, sid) + if x.signal_id == sid {
            1nat
        } else {
            0nat
        },
{
    assert(r.push(x).drop_last() =~= r);
    assert(r.push(x).last() == x);
}

/// Unique idempotency keys bound the count of any key by one.
pub proof fn lemma_sig_count_unique(r: Seq<SignalView>, sid: u128)
    requires
        signals_unique(r),
    ensures
        sig_count(r, sid) <= 1,
        has_signal(r, sid) ==> sig_count(r, sid) == 1,
    decreases r.len(),
{
    if r.len() == 0 {
        lemma_sig_count_zero(r, sid);
    } else {
        let prefix = r.drop_last();
        let last = r.len() - 1;
        assert forall|a: int, b: int|
            0 <= a < prefix.len() && 0 <= b < prefix.len() && a != b implies (
        #[trigger] prefix[a]).signal_id != (#[trigger] prefix[b]).signal_id by {
            assert(r[a] == prefix[a] && r[b] == prefix[b]);
        }
        lemma_sig_count_unique(prefix, sid);
        if r.last().signal_id == sid {
            assert forall|j: int| 0 <= j < prefix.len() implies (#[trigger] prefix[j]).signal_id
                != sid by {
                assert(r[j] == prefix[j]);
                assert(r[last as int].signal_id == sid);
            }
            lemma_sig_count_zero(prefix, sid);
        } else {
            if has_signal(r, sid) {
                let j = choose|j: int| 0 <= j < r.len() && (#[trigger] r[j]).signal_id == sid;
                assert(prefix[j] == r[j]);
                lemma_sig_count_zero(prefix, sid);
            }
        }
    }
}

/// Dispatching twice with the same caller-chosen workflow id never creates
/// two instances: the second dispatch leaves the registry as the first left
/// it, holding exactly one instance with that id.
pub proof fn lemma_same_id_no_duplicate(
    s: Seq<InstanceView>,
    id: u128,
    name1: Seq<char>,
    input1: Seq<char>,
    tags1: Map<Seq<char>, Seq<char>>,
    name2: Seq<char>,
    input2: Seq<char>,
    tags2: Map<Seq<char>, Seq<char>>,
)
    requires
        !contains_workflow(s, id),
    ensures
        spec_create(spec_create(s, id, name1, input1, tags1), id, name2, input2, tags2)
            == spec_create(s, id, name1, input1, tags1),
        id_count(spec_create(s, id, name1, input1, tags1), id) == 1,
{
    let w = InstanceView {
        workflow_id: id,
        workflow_name: name1,
        input: input1,
        tags: tags1,
        received_signals: Seq::empty(),
    };
    let s1 = s.push(w);
    assert(s1[s.len() as int].workflow_id == id);
    assert(contains_workflow(s1, id));
    lemma_id_count_zero(s, id);
    lemma_id_count_push(s, w, id);
}

/// Retrying a signal with the same idempotency key against a target matching
/// exactly one instance delivers it to that instance exactly once: the
/// second delivery changes nothing, and the instance holds one copy.
pub proof fn lemma_signal_retry_exactly_once(
    s: Seq<InstanceView>,
    target: Map<Seq<char>, Seq<char>>,
    sig: SignalView,
)
    requires
        registry_inv(s),
        match_count(s, 0, s.len() as int, target) == 1,
    ensures
        spec_deliver(spec_deliver(s, target, sig), target, sig) == spec_deliver(s, target, sig),
        forall|i: int|
            0 <= i < s.len() && tags_match(target, (#[trigger] s[i]).tags) ==> sig_count(
                spec_deliver(s, target, sig)[i].received_signals,
                sig.signal_id,
            ) == 1,
{
    let c = choose|i: int| 0 <= i < s.len() && tags_match(target, (#[trigger] s[i]).tags);
    lemma_match_count_zero(s, 0, s.len() as int, target);
    assert(0 <= c < s.len() && tags_match(target, s[c].tags));
    let s1 = spec_deliver(s, target, sig);
    // only c matches in s
    assert forall|i: int|
        0 <= i < s.len() && tags_match(target, (#[trigger] s[i]).tags) implies i == c by {
        if i != c {
            if i < c {
                lemma_two_matches(s, i, c, target);
            } else {
                lemma_two_matches(s, c, i, target);
            }
        }
    }
    // delivery leaves every tag set in place, so s1 still matches only at c
    assert forall|i: int| 0 <= i < s.len() implies (#[trigger] s1[i]).tags == s[i].tags by {}
    lemma_match_count_frame(s1, s, 0, s.len() as int, target);
    let c1 = choose|i: int| 0 <= i < s1.len() && tags_match(target, (#[trigger] s1[i]).tags);
    assert(tags_match(target, s1[c].tags));
    assert(0 <= c1 < s.len() && tags_match(target, s[c1].tags));
    assert(c1 == c);
    if has_signal(s[c].received_signals, sig.signal_id) {
        assert(s1 == s);
        lemma_sig_count_unique(s[c].received_signals, sig.signal_id);
    } else {
        assert(s1 == s.update(c, with_signal(s[c], sig)));
        assert(s1[c].received_signals == s[c].received_signals.push(sig));
        lemma_sig_count_zero(s[c].received_signals, sig.signal_id);
        lemma_sig_count_push(s[c].received_signals, sig, sig.signal_id);
        assert(sig_count(s1[c].received_signals, sig.signal_id) == 1);
        assert(has_signal(s1[c].received_signals, sig.signal_id)) by {
            lemma_sig_count_zero(s1[c].received_signals, sig.signal_id);
        }
    }
    assert(has_signal(s1[c1].received_signals, sig.signal_id));
}

/// The single instance in `s` carrying workflow id `id`, when one exists.
pub open spec fn workflow_at(s: Seq<InstanceView>, id: u128) -> InstanceView {
    s[choose|i: int| 0 <= i < s.len() && (#[trigger] s[i]).workflow_id == id]
}

/// Whether a signal with id `sid` is already among the delivered records.
fn vec_has_signal_id(rcv: &Vec<SignalRecord>, sid: u128) -> (r: bool)
    ensures
        r == has_signal(rcv@.map_values(|s: SignalRecord| s@), sid),
{
    let n = rcv.len();
    let mut j: usize = 0;
    while j < n
        invariant
            n == rcv@.len(),
            0 <= j <= n,
            forall|k: int| 0 <= k < j ==> (#[trigger] rcv@[k]).signal_id != sid,
        decreases n - j,
    {
        if rcv[j].signal_id == sid {
            proof {
                assert(rcv@.map_values(|s: SignalRecord| s@)[j as int].signal_id == sid);
            }
            return true;
        }
        j += 1;
    }
    proof {
        let mapped = rcv@.map_values(|s: SignalRecord| s@);
        if has_signal(mapped, sid) {
            let k = choose|k: int| 0 <= k < mapped.len() && (#[trigger] mapped[k]).signal_id == sid;
            assert(rcv@[k].signal_id == sid);
        }
    }
    false
}

/// The registry of live workflow instances: the durable store the builders
/// dispatch into.
pub struct WorkflowRegistry {
    instances: Vec<WorkflowInstance>,
}

impl View for WorkflowRegistry {
    type V = Seq<InstanceView>;

    closed spec fn view(&self) -> Seq<InstanceView> {
        self.instances@.map_values(|w: WorkflowInstance| w@)
    }
}

impl WorkflowRegistry {
    pub closed spec fn wf(&self) -> bool {
        &&& registry_inv(self@)
        &&& forall|i: int| 0 <= i < self.instances@.len() ==> (#[trigger] self.instances@[i]).tags.wf()
    }

    pub fn new() -> (r: WorkflowRegistry)
        ensures
            r.wf(),
            r@ == Seq::<InstanceView>::empty(),
    {
        let r = WorkflowRegistry { instances: Vec::new() };
        proof {
            assert(r@ =~= Seq::<InstanceView>::empty());
        }
        r
    }

    /// How many instances are live.
    pub fn instance_count(&self) -> (n: usize)
        ensures
            n == self@.len(),
    {
        self.instances.len()
    }

    /// The instance with the given workflow id: `Some` exactly when one
    /// exists. A dry-run dispatch never makes this find anything new.
    pub fn get_workflow(&self, id: u128) -> (r: Option<&WorkflowInstance>)
        requires
            self.wf(),
        ensures
            r is Some <==> contains_workflow(self@, id),
            match r {
                Some(w) => w@ == workflow_at(self@, id) && w@.workflow_id == id,
                None => true,
            },
    {
        let n = self.instances.len();
        let mut i: usize = 0;
        while i < n
            invariant
                n == self.instances@.len(),
                n == self@.len(),
                0 <= i <= n,
                self.wf(),
                forall|j: int| 0 <= j < i ==> (#[trigger] self@[j]).workflow_id != id,
            decreases n - i,
        {
            if self.instances[i].workflow_id == id {
                proof {
                    let k = choose|k: int|
                        0 <= k < self@.len() && (#[trigger] self@[k]).workflow_id == id;
                    assert(self@[i as int].workflow_id == id);
                    assert(k == i);
                }
                return Some(&self.instances[i]);
            }
            i += 1;
        }
        None
    }

    /// Durable create. With a fresh caller-chosen id the instance is
    /// persisted and subsequently found; with an id already present nothing
    /// changes and the caller gets an explicit conflict, never a silent
    /// second instance.
    pub fn create_workflow(
        &mut self,
        workflow_id: u128,
        workflow_name: String,
        input: String,
        tags: TagSet,
    ) -> (r: Result<u128, EngineError>)
        requires
            old(self).wf(),
            tags.wf(),
        ensures
            final(self).wf(),
            final(self)@ == spec_create(old(self)@, workflow_id, workflow_name@, input@, tags@),
            r == if contains_workflow(old(self)@, workflow_id) {
                Err::<u128, EngineError>(EngineError::WorkflowConflict)
            } else {
                Ok::<u128, EngineError>(workflow_id)
            },
            contains_workflow(final(self)@, workflow_id),
    {
        let exists_already = self.get_workflow(workflow_id).is_some();
        if exists_already {
            return Err(EngineError::WorkflowConflict);
        }
        let inst = WorkflowInstance {
            workflow_id,
            workflow_name,
            input,
            tags,
            received_signals: Vec::new(),
        };
        self.instances.push(inst);
        proof {
            assert(self@ =~= old(self)@.push(inst@));
            assert(inst@.received_signals =~= Seq::<SignalView>::empty());
            assert(self@[old(self)@.len() as int].workflow_id == workflow_id);
            assert forall|i: int, j: int|
                0 <= i < self@.len() && 0 <= j < self@.len() && i != j implies (
            #[trigger] self@[i]).workflow_id != (#[trigger] self@[j]).workflow_id by {
                if i < old(self)@.len() && j < old(self)@.len() {
                    assert(old(self)@[i] == self@[i] && old(self)@[j] == self@[j]);
                } else if j == old(self)@.len() {
                    assert(old(self)@[i].workflow_id != workflow_id);
                } else {
                    assert(old(self)@[j].workflow_id != workflow_id);
                }
            }
        }
        Ok(workflow_id)
    }

    /// Resolve a signal target without delivering anything: the workflow id
    /// of the unique matching instance, or the same not-found / ambiguity
    /// conditions a real delivery would report.
    pub fn resolve_signal_target(&self, target: &TagSet) -> (r: Result<u128, EngineError>)
        requires
            self.wf(),
            target.wf(),
        ensures
            match_count(self@, 0, self@.len() as int, target@) == 0 ==> r == Err::<
                u128,
                EngineError,
            >(EngineError::WorkflowNotFound),
            match_count(self@, 0, self@.len() as int, target@) > 1 ==> r == Err::<
                u128,
                EngineError,
            >(EngineError::AmbiguousSignalTarget),
            match_count(self@, 0, self@.len() as int, target@) == 1 ==> forall|i: int|
                0 <= i < self@.len() && tags_match(target@, (#[trigger] self@[i]).tags) ==> r
                    == Ok::<u128, EngineError>(self@[i].workflow_id),
    {
        let n = self.instances.len();
        let mut count: usize = 0;
        let mut found: usize = n;
        let mut i: usize = 0;
        while i < n
            invariant
                n == self.instances@.len(),
                n == self@.len(),
                0 <= i <= n,
                self.wf(),
                target.wf(),
                count == match_count(self@, 0, i as int, target@),
                count <= i,
                count > 0 ==> found < i && tags_match(target@, self@[found as int].tags),
                count == 0 ==> found == n,
            decreases n - i,
        {
            proof {
                assert(self.instances@[i as int].tags.wf());
                lemma_match_count_split(self@, 0, i as int, i + 1, target@);
                assert(match_count(self@, i + 1, i + 1, target@) == 0);
            }
            if target.matches_published(&self.instances[i].tags) {
                if count == 0 {
                    found = i;
                }
                count += 1;
            }
            i += 1;
        }
        if count == 0 {
            return Err(EngineError::WorkflowNotFound);
        }
        if count > 1 {
            return Err(EngineError::AmbiguousSignalTarget);
        }
        proof {
            assert forall|j: int|
                0 <= j < self@.len() && tags_match(target@, (#[trigger] self@[j]).tags) implies j
                == found by {
                if j != found {
                    if j < found {
                        lemma_two_matches(self@, j, found as int, target@);
                    } else {
                        lemma_two_matches(self@, found as int, j, target@);
                    }
                }
            }
        }
        Ok(self.instances[found].workflow_id)
    }

    /// Deliver a signal to the instance matching `target`. Zero matches is
    /// an explicit not-found, more than one an explicit ambiguity — never a
    /// silent drop or a broadcast. On the unique match the signal is
    /// appended unless its idempotency key was already delivered.
    pub fn deliver_signal(&mut self, signal: SignalRecord, target: &TagSet) -> (r: Result<
        u128,
        EngineError,
    >)
        requires
            old(self).wf(),
            target.wf(),
        ensures
            final(self).wf(),
            final(self)@ == spec_deliver(old(self)@, target@, signal@),
            match_count(old(self)@, 0, old(self)@.len() as int, target@) == 0 ==> r == Err::<
                u128,
                EngineError,
            >(EngineError::WorkflowNotFound),
            match_count(old(self)@, 0, old(self)@.len() as int, target@) > 1 ==> r == Err::<
                u128,
                EngineError,
            >(EngineError::AmbiguousSignalTarget),
            match_count(old(self)@, 0, old(self)@.len() as int, target@) == 1 ==> forall|i: int|
                0 <= i < old(self)@.len() && tags_match(target@, (#[trigger] old(self)@[i]).tags)
                    ==> r == Ok::<u128, EngineError>(old(self)@[i].workflow_id) && has_signal(
                    final(self)@[i].received_signals,
                    signal@.signal_id,
                ),
    {
        let n = self.instances.len();
        let mut count: usize = 0;
        let mut found: usize = n;
        let mut i: usize = 0;
        while i < n
            invariant
                n == self.instances@.len(),
                n == self@.len(),
                0 <= i <= n,
                self.wf(),
                target.wf(),
                *self == *old(self),
                count == match_count(self@, 0, i as int, target@),
                count <= i,
                count > 0 ==> found < i && tags_match(target@, self@[found as int].tags),
                count == 0 ==> found == n,
            decreases n - i,
        {
            proof {
                assert(self.instances@[i as int].tags.wf());
                lemma_match_count_split(self@, 0, i as int, i + 1, target@);
                assert(match_count(self@, i + 1, i + 1, target@) == 0);
            }
            if target.matches_published(&self.instances[i].tags) {
                if count == 0 {
                    found = i;
                }
                count += 1;
            }
            i += 1;
        }
        if count == 0 {
            proof {
                assert(spec_deliver(self@, target@, signal@) == self@);
            }
            return Err(EngineError::WorkflowNotFound);
        }
        if count > 1 {
            proof {
                assert(spec_deliver(self@, target@, signal@) == self@);
            }
            return Err(EngineError::AmbiguousSignalTarget);
        }
        let fi = found;
        proof {
            assert forall|j: int|
                0 <= j < self@.len() && tags_match(target@, (#[trigger] self@[j]).tags) implies j
                == fi by {
                if j != fi {
                    if j < fi {
                        lemma_two_matches(self@, j, fi as int, target@);
                    } else {
                        lemma_two_matches(self@, fi as int, j, target@);
                    }
                }
            }
        }
        // has the idempotency key already been delivered to this instance?
        let already = vec_has_signal_id(&self.instances[fi].received_signals, signal.signal_id);
        if already {
            let wid = self.instances[fi].workflow_id;
            proof {
                let c = choose|i: int|
                    0 <= i < self@.len() && tags_match(target@, (#[trigger] self@[i]).tags);
                assert(tags_match(target@, self@[fi as int].tags));
                assert(c == fi);
                assert(has_signal(self@[fi as int].received_signals, signal@.signal_id));
                assert(spec_deliver(self@, target@, signal@) == self@);
            }
            return Ok(wid);
        }
        proof {
            assert(!has_signal(self@[fi as int].received_signals, signal@.signal_id));
        }
        let mut inst = self.instances.remove(fi);
        let wid = inst.workflow_id;
        let ghost old_view = old(self)@;
        inst.received_signals.push(signal);
        self.instances.insert(fi, inst);
        proof {
            let v0 = old(self).instances@;
            let v2 = self.instances@;
            let removed = v0.remove(fi as int);
            v0.remove_ensures(fi as int);
            removed.insert_ensures(fi as int, v2[fi as int]);
            assert forall|i: int| 0 <= i < v2.len() && i != fi implies v2[i] == v0[i] by {
                if i < fi {
                    assert(v2[i] == removed[i]);
                } else {
                    assert(v2[i] == removed[i - 1]);
                }
            }
            assert(self@[fi as int].received_signals =~= with_signal(
                old_view[fi as int],
                signal@,
            ).received_signals);
            assert(self@[fi as int] == with_signal(old_view[fi as int], signal@));
            assert(self@ =~= old_view.update(fi as int, with_signal(old_view[fi as int], signal@)));
            let c = choose|i: int|
                0 <= i < old_view.len() && tags_match(target@, (#[trigger] old_view[i]).tags);
            assert(tags_match(target@, old_view[fi as int].tags));
            assert(c == fi);
            assert(spec_deliver(old_view, target@, signal@) == self@);
            // invariants are preserved: ids unchanged, the new signal is fresh
            assert forall|i: int| 0 <= i < self@.len() implies signals_unique(
                (#[trigger] self@[i]).received_signals,
            ) by {
                if i == fi {
                    let r0 = old_view[fi as int].received_signals;
                    let r1 = self@[fi as int].received_signals;
                    assert(r1 =~= r0.push(signal@));
                    assert forall|a: int, b: int|
                        0 <= a < r1.len() && 0 <= b < r1.len() && a != b implies (
                    #[trigger] r1[a]).signal_id != (#[trigger] r1[b]).signal_id by {
                        if a < r0.len() && b < r0.len() {
                            assert(r0[a] == r1[a] && r0[b] == r1[b]);
                        } else if b == r0.len() {
                            assert(r1[a] == r0[a]);
                            assert(r0[a].signal_id != signal@.signal_id);
                        } else {
                            assert(r1[b] == r0[b]);
                            assert(r0[b].signal_id != signal@.signal_id);
                        }
                    }
                } else {
                    assert(self@[i] == old_view[i]);
                }
            }
            assert(has_signal(self@[fi as int].received_signals, signal@.signal_id)) by {
                assert(self@[fi as int].received_signals.last().signal_id == signal@.signal_id);
            }
        }
        Ok(wid)
    }
}

} // verus!
