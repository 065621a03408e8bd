//! Message bus client model: publish, tail-read, tail-anchor and
//! subscriptions over a totally ordered per-stream log. Messages sharing a
//! tag set are observed in publish order; an anchor is a resumable offset
//! into the log.
use vstd::prelude::*;

use crate::tags::{tags_match, TagSet};

verus! {

/// Mathematical value of one published message.
pub struct MsgView {
    pub seq: u64,
    pub ts: i64,
    pub ray_id: u128,
    pub message_name: Seq<char>,
    pub tags: Map<Seq<char>, Seq<char>>,
    pub body: Seq<char>,
}

/// A message as observed by a reader: its position in the log, the tracing
/// identity of the publisher, its name, tags and payload.
pub struct MessageEnvelope {
    pub seq: u64,
    pub ts: i64,
    pub ray_id: u128,
    pub message_name: String,
    pub tags: TagSet,
    pub body: String,
}

impl View for MessageEnvelope {
    type V = MsgView;

    open spec fn view(&self) -> MsgView {
        MsgView {
            seq: self.seq,
            ts: self.ts,
            ray_id: self.ray_id,
            message_name: self.message_name@,
            tags: self.tags@,
            body: self.body@,
        }
    }
}

impl MessageEnvelope {
    pub open spec fn wf(&self) -> bool {
        self.tags.wf()
    }
}

impl Clone for MessageEnvelope {
    fn clone(&self) -> (r: Self)
        ensures
            r@ == self@,
            r.wf() == self.wf(),
    {
        MessageEnvelope {
            seq: self.seq,
            ts: self.ts,
            ray_id: self.ray_id,
            message_name: self.message_name.clone(),
            tags: self.tags.clone(),
            body: self.body.clone(),
        }
    }
}

/// A reader with name `name` and tag filter `tags` observes exactly the
/// messages whose name equals `name` and whose published tags are matched by
/// the filter (the filter is the listener set, the message tags the published
/// set).
pub open spec fn matches_filter(m: MsgView, name: Seq<char>, tags: Map<Seq<char>, Seq<char>>) -> bool {
    m.message_name == name && tags_match(tags, m.tags)
}

/// The messages of `log` with index in `[lo, hi)` that a reader filtered on
/// `(name, tags)` observes, in log (publish) order.
pub open spec fn matching_in(
    log: Seq<MsgView>,
    lo: int,
    hi: int,
    name: Seq<char>,
    tags: Map<Seq<char>, Seq<char>>,
) -> Seq<MsgView>
    decreases hi - lo,
{
    if lo >= hi {
        Seq::empty()
    } else {
        let rest = matching_in(log, lo + 1, hi, name, tags);
        if matches_filter(log[lo], name, tags) {
            seq![log[lo]] + rest
        } else {
            rest
        }
    }
}

/// Reading a range in two pieces observes the same messages as reading it
/// whole.
pub proof fn lemma_matching_split(
    log: Seq<MsgView>,
    lo: int,
    mid: int,
    hi: int,
    name: Seq<char>,
    tags: Map<Seq<char>, Seq<char>>,
)
    requires
        lo <= mid <= hi,
    ensures
        matching_in(log, lo, hi, name, tags) == matching_in(log, lo, mid, name, tags)
            + matching_in(log, mid, hi, name, tags),
    decreases mid - lo,
{
    if lo >= mid {
        assert(matching_in(log, lo, mid, name, tags) == Seq::<MsgView>::empty());
        assert(matching_in(log, lo, hi, name, tags) =~= matching_in(log, lo, mid, name, tags)
            + matching_in(log, mid, hi, name, tags));
    } else {
        lemma_matching_split(log, lo + 1, mid, hi, name, tags);
        assert(matching_in(log, lo, hi, name, tags) =~= matching_in(log, lo, mid, name, tags)
            + matching_in(log, mid, hi, name, tags));
    }
}

/// A range without a matching message is observed as empty.
pub proof fn lemma_matching_none(
    log: Seq<MsgView>,
    lo: int,
    hi: int,
    name: Seq<char>,
    tags: Map<Seq<char>, Seq<char>>,
)
    requires
        forall|i: int| lo <= i < hi ==> !matches_filter(#[trigger] log[i], name, tags),
    ensures
        matching_in(log, lo, hi, name, tags) == Seq::<MsgView>::empty(),
    decreases hi - lo,
{
    if lo < hi {
        lemma_matching_none(log, lo + 1, hi, name, tags);
    }
}

/// A range in which every message matches is observed whole and in order.
pub proof fn lemma_matching_all(
    log: Seq<MsgView>,
    lo: int,
    hi: int,
    name: Seq<char>,
    tags: Map<Seq<char>, Seq<char>>,
)
    requires
        0 <= lo <= hi <= log.len(),
        forall|i: int| lo <= i < hi ==> matches_filter(#[trigger] log[i], name, tags),
    ensures
        matching_in(log, lo, hi, name, tags) == log.subrange(lo, hi),
    decreases hi - lo,
{
    if lo < hi {
        lemma_matching_all(log, lo + 1, hi, name, tags);
        assert(matching_in(log, lo, hi, name, tags) =~= log.subrange(lo, hi));
    }
}

/// Consuming the first observed message observes the rest, in order: in a
/// log whose messages carry their index as sequence number, resuming right
/// after the first match of a range yields exactly the remaining matches.
/// Repeated `next` calls on a subscription therefore observe every matching
/// message once, in publish order.
pub proof fn lemma_next_consumes_first(
    log: Seq<MsgView>,
    lo: int,
    hi: int,
    name: Seq<char>,
    tags: Map<Seq<char>, Seq<char>>,
)
    requires
        0 <= lo <= hi <= log.len(),
        forall|i: int| 0 <= i < log.len() ==> (#[trigger] log[i]).seq == i,
        matching_in(log, lo, hi, name, tags).len() > 0,
    ensures
        ({
            let ms = matching_in(log, lo, hi, name, tags);
            matching_in(log, ms[0].seq + 1, hi, name, tags) == ms.subrange(1, ms.len() as int)
        }),
    decreases hi - lo,
{
    let ms = matching_in(log, lo, hi, name, tags);
    if matches_filter(log[lo], name, tags) {
        assert(ms == seq![log[lo]] + matching_in(log, lo + 1, hi, name, tags));
        assert(ms[0] == log[lo]);
        assert(ms[0].seq == lo);
        assert(matching_in(log, lo + 1, hi, name, tags) =~= ms.subrange(1, ms.len() as int));
    } else {
        assert(ms == matching_in(log, lo + 1, hi, name, tags));
        lemma_next_consumes_first(log, lo + 1, hi, name, tags);
    }
}

/// An opaque, resumable position marker into a message stream. Reading with
/// an anchor returns the messages published strictly after it.
#[derive(Clone, Copy, PartialEq, Eq, Structural, Debug)]
pub struct TailAnchor {
    pub offset: u64,
}

/// Where a read anchored at `offset` starts in a log of length `len`: an
/// anchor at or past the end starts at the end.
pub open spec fn anchor_start(offset: int, len: int) -> int {
    if offset <= len {
        offset
    } else {
        len
    }
}

/// Result of a tail-anchor read: the matching messages published after the
/// anchor plus a new anchor subsuming them, or an explicit nothing-new-yet.
pub enum TailAnchorResponse {
    Messages { messages: Vec<MessageEnvelope>, anchor: TailAnchor },
    NoNewMessages,
}

/// An anchor at or past the end of the log has nothing after it: re-reading
/// with the anchor a read returned, with no publish in between, observes no
/// message. Re-reading again with the same anchor observes none either.
pub proof fn lemma_anchor_idempotent_read(
    log: Seq<MsgView>,
    name: Seq<char>,
    tags: Map<Seq<char>, Seq<char>>,
    offset: int,
)
    requires
        offset >= log.len(),
    ensures
        matching_in(log, anchor_start(offset, log.len() as int), log.len() as int, name, tags)
            == Seq::<MsgView>::empty(),
{
}

/// A read anchored where the log ended before `pubs` were published, all of
/// them matching, observes exactly `pubs`, in publish order.
pub proof fn lemma_anchor_sees_publishes(
    log: Seq<MsgView>,
    pubs: Seq<MsgView>,
    name: Seq<char>,
    tags: Map<Seq<char>, Seq<char>>,
)
    requires
        forall|i: int| 0 <= i < pubs.len() ==> matches_filter(#[trigger] pubs[i], name, tags),
    ensures
        matching_in(
            log + pubs,
            anchor_start(log.len() as int, (log + pubs).len() as int),
            (log + pubs).len() as int,
            name,
            tags,
        ) == pubs,
{
    let whole = log + pubs;
    lemma_matching_all(whole, log.len() as int, whole.len() as int, name, tags);
    assert(whole.subrange(log.len() as int, whole.len() as int) =~= pubs);
}

/// State of an open listener. A subscription is created subscribed, observes
/// the matching messages published after it was opened, in order, and stops
/// observing once closed.
pub struct SubscriptionHandle {
    message_name: String,
    tags: TagSet,
    cursor: u64,
    closed: bool,
}

impl SubscriptionHandle {
    /// The message name this subscription listens for.
    pub closed spec fn filter_name(&self) -> Seq<char> {
        self.message_name@
    }

    /// The tag filter of this subscription.
    pub closed spec fn filter_tags(&self) -> Map<Seq<char>, Seq<char>> {
        self.tags@
    }

    /// The log position up to which this subscription has consumed.
    pub closed spec fn cursor(&self) -> u64 {
        self.cursor
    }

    pub closed spec fn is_open(&self) -> bool {
        !self.closed
    }

    pub closed spec fn wf(&self) -> bool {
        self.tags.wf()
    }

    /// The next matching message after the cursor, consuming it; `None` and
    /// a cursor at the end of the log when nothing matching has been
    /// published yet. Repeated calls yield the matching messages in publish
    /// order.
    pub fn next(&mut self, bus: &MessageBus) -> (r: Option<MessageEnvelope>)
        requires
            old(self).is_open(),
            old(self).wf(),
            bus.wf(),
        ensures
            final(self).is_open(),
            final(self).wf(),
            final(self).filter_name() == old(self).filter_name(),
            final(self).filter_tags() == old(self).filter_tags(),
            match r {
                None => {
                    &&& matching_in(
                        bus@,
                        anchor_start(old(self).cursor() as int, bus@.len() as int),
                        bus@.len() as int,
                        old(self).filter_name(),
                        old(self).filter_tags(),
                    ) == Seq::<MsgView>::empty()
                    &&& final(self).cursor() == bus@.len()
                },
                Some(m) => {
                    &&& m@ == matching_in(
                        bus@,
                        anchor_start(old(self).cursor() as int, bus@.len() as int),
                        bus@.len() as int,
                        old(self).filter_name(),
                        old(self).filter_tags(),
                    )[0]
                    &&& matching_in(
                        bus@,
                        anchor_start(old(self).cursor() as int, bus@.len() as int),
                        bus@.len() as int,
                        old(self).filter_name(),
                        old(self).filter_tags(),
                    ).len() > 0
                    &&& m.wf()
                    &&& final(self).cursor() == m@.seq + 1
                    &&& m@.seq < bus@.len()
                },
            },
    {
        let n = bus.log.len();
        let start = clamp_offset(self.cursor, n);
        let ghost lo = anchor_start(self.cursor as int, bus@.len() as int);
        let mut i: usize = start;
        while i < n
            invariant
                n == bus@.len(),
                lo <= i <= n,
                lo == anchor_start(self.cursor as int, bus@.len() as int),
                bus.wf(),
                self.wf(),
                self.is_open(),
                *self == *old(self),
                forall|j: int|
                    lo <= j < i ==> !matches_filter(
                        #[trigger] bus@[j],
                        self.filter_name(),
                        self.filter_tags(),
                    ),
            decreases n - i,
        {
            let e = &bus.log[i];
            if e.message_name == self.message_name && self.tags.matches_published(&e.tags) {
                proof {
                    lemma_matching_split(bus@, lo, i as int, n as int, self.filter_name(), self.filter_tags());
                    lemma_matching_none(bus@, lo, i as int, self.filter_name(), self.filter_tags());
                    assert(matching_in(bus@, lo, n as int, self.filter_name(), self.filter_tags())
                        =~= matching_in(bus@, i as int, n as int, self.filter_name(), self.filter_tags()));
                    assert(bus@[i as int].seq == i);
                }
                self.cursor = (i as u64) + 1;
                return Some(bus.log[i].clone());
            }
            i += 1;
        }
        proof {
            lemma_matching_none(bus@, lo, n as int, self.filter_name(), self.filter_tags());
        }
        self.cursor = i as u64;
        None
    }

    /// Close the subscription; it observes nothing afterwards.
    pub fn close(&mut self)
        ensures
            !final(self).is_open(),
    {
        self.closed = true;
    }

    /// Whether the subscription still observes the bus.
    pub fn is_live(&self) -> (r: bool)
        ensures
            r == self.is_open(),
    {
        !self.closed
    }
}

/// Clamp a `u64` anchor offset to a log of length `n`.
fn clamp_offset(offset: u64, n: usize) -> (r: usize)
    ensures
        r as int == anchor_start(offset as int, n as int),
{
    if offset <= n as u64 {
        offset as usize
    } else {
        n
    }
}

/// The bus: an append-only log of published messages; the message at index
/// `i` carries sequence number `i`.
pub struct MessageBus {
    log: Vec<MessageEnvelope>,
}

impl View for MessageBus {
    type V = Seq<MsgView>;

    closed spec fn view(&self) -> Seq<MsgView> {
        self.log@.map_values(|e: MessageEnvelope| e@)
    }
}

impl MessageBus {
    pub closed spec fn wf(&self) -> bool {
        forall|i: int|
            0 <= i < self.log@.len() ==> (#[trigger] self.log@[i]).seq == i && self.log@[i].wf()
    }

    pub fn new() -> (r: MessageBus)
        ensures
            r.wf(),
            r@ == Seq::<MsgView>::empty(),
    {
        let r = MessageBus { log: Vec::new() };
        proof {
            assert(r@ =~= Seq::<MsgView>::empty());
        }
        r
    }

    pub fn len(&self) -> (n: usize)
        ensures
            n == self@.len(),
    {
        self.log.len()
    }

    /// Accept a message: append it to the log with the next sequence number.
    /// Success means acceptance by the bus, nothing about consumption.
    pub fn publish(
        &mut self,
        message_name: String,
        tags: TagSet,
        body: String,
        ray_id: u128,
        ts: i64,
    ) -> (seq: u64)
        requires
            old(self).wf(),
            tags.wf(),
            old(self)@.len() < u64::MAX,
        ensures
            final(self).wf(),
            seq == old(self)@.len(),
            final(self)@ == old(self)@.push(
                MsgView {
                    seq: old(self)@.len() as u64,
                    ts: ts,
                    ray_id: ray_id,
                    message_name: message_name@,
                    tags: tags@,
                    body: body@,
                },
            ),
    {
        let seq = self.log.len() as u64;
        let env = MessageEnvelope { seq, ts, ray_id, message_name, tags, body };
        self.log.push(env);
        proof {
            assert(self@ =~= old(self)@.push(env@));
        }
        seq
    }

    /// The most recent matching message, without a standing subscription:
    /// `None` exactly when no matching message was ever published.
    pub fn tail_read(&self, message_name: &String, tags: &TagSet) -> (r: Option<&MessageEnvelope>)
        requires
            self.wf(),
            tags.wf(),
        ensures
            match r {
                None => matching_in(self@, 0, self@.len() as int, message_name@, tags@)
                    == Seq::<MsgView>::empty(),
                Some(m) => {
                    &&& matching_in(self@, 0, self@.len() as int, message_name@, tags@).len() > 0
                    &&& m@ == matching_in(self@, 0, self@.len() as int, message_name@, tags@).last()
                },
            },
    {
        let n = self.log.len();
        let mut i: usize = n;
        while i > 0
            invariant
                n == self@.len(),
                0 <= i <= n,
                self.wf(),
                tags.wf(),
                forall|j: int|
                    i <= j < n ==> !matches_filter(#[trigger] self@[j], message_name@, tags@),
            decreases i,
        {
            i -= 1;
            let e = &self.log[i];
            if e.message_name == *message_name && tags.matches_published(&e.tags) {
                proof {
                    lemma_matching_split(self@, 0, i as int, n as int, message_name@, tags@);
                    lemma_matching_split(self@, i as int, i + 1, n as int, message_name@, tags@);
                    lemma_matching_none(self@, i + 1, n as int, message_name@, tags@);
                    assert(matching_in(self@, i as int, n as int, message_name@, tags@)
                        =~= seq![self@[i as int]]);
                    assert(matching_in(self@, 0, n as int, message_name@, tags@)
                        =~= matching_in(self@, 0, i as int, message_name@, tags@) + seq![self@[i as int]]);
                }
                return Some(&self.log[i]);
            }
        }
        proof {
            lemma_matching_none(self@, 0, n as int, message_name@, tags@);
        }
        None
    }

    /// All matching messages published strictly after the anchor, in publish
    /// order, with a new anchor subsuming them; or an explicit nothing-new
    /// result exactly when there are none.
    pub fn tail_anchor(
        &self,
        message_name: &String,
        tags: &TagSet,
        anchor: &TailAnchor,
    ) -> (r: TailAnchorResponse)
        requires
            self.wf(),
            tags.wf(),
        ensures
            match r {
                TailAnchorResponse::NoNewMessages => matching_in(
                    self@,
                    anchor_start(anchor.offset as int, self@.len() as int),
                    self@.len() as int,
                    message_name@,
                    tags@,
                ) == Seq::<MsgView>::empty(),
                TailAnchorResponse::Messages { messages, anchor: new_anchor } => {
                    &&& messages@.map_values(|e: MessageEnvelope| e@) == matching_in(
                        self@,
                        anchor_start(anchor.offset as int, self@.len() as int),
                        self@.len() as int,
                        message_name@,
                        tags@,
                    )
                    &&& messages@.len() > 0
                    &&& new_anchor.offset == self@.len()
                },
            },
    {
        let n = self.log.len();
        let start = clamp_offset(anchor.offset, n);
        let ghost lo = anchor_start(anchor.offset as int, self@.len() as int);
        let mut out: Vec<MessageEnvelope> = Vec::new();
        let mut i: usize = start;
        while i < n
            invariant
                n == self@.len(),
                lo <= i <= n,
                lo == anchor_start(anchor.offset as int, self@.len() as int),
                self.wf(),
                tags.wf(),
                out@.map_values(|e: MessageEnvelope| e@) == matching_in(
                    self@,
                    lo,
                    i as int,
                    message_name@,
                    tags@,
                ),
            decreases n - i,
        {
            let e = &self.log[i];
            proof {
                lemma_matching_split(self@, lo, i as int, i + 1, message_name@, tags@);
                assert(matching_in(self@, i + 1, i + 1, message_name@, tags@)
                    =~= Seq::<MsgView>::empty());
            }
            if e.message_name == *message_name && tags.matches_published(&e.tags) {
                out.push(self.log[i].clone());
                proof {
                    assert(out@.map_values(|e: MessageEnvelope| e@) =~= matching_in(
                        self@,
                        lo,
                        i + 1,
                        message_name@,
                        tags@,
                    ));
                }
            } else {
                proof {
                    assert(out@.map_values(|e: MessageEnvelope| e@) =~= matching_in(
                        self@,
                        lo,
                        i + 1,
                        message_name@,
                        tags@,
                    ));
                }
            }
            i += 1;
        }
        if out.len() == 0 {
            proof {
                assert(matching_in(self@, lo, n as int, message_name@, tags@)
                    =~= Seq::<MsgView>::empty());
            }
            TailAnchorResponse::NoNewMessages
        } else {
            TailAnchorResponse::Messages { messages: out, anchor: TailAnchor { offset: n as u64 } }
        }
    }

    /// Open a live listener: it will observe the matching messages published
    /// from this point on, in publish order.
    pub fn subscribe(&self, message_name: String, tags: TagSet) -> (h: SubscriptionHandle)
        requires
            tags.wf(),
        ensures
            h.is_open(),
            h.wf(),
            h.filter_name() == message_name@,
            h.filter_tags() == tags@,
            h.cursor() == self@.len(),
    {
        SubscriptionHandle {
            message_name,
            tags,
            cursor: self.log.len() as u64,
            closed: false,
        }
    }
}

} // verus!
