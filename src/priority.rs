//! PRIORITY frames and the stream dependencies they carry, and the builder of
//! the ordered set of PRIORITY frames that a connection sends at its start.
use vstd::prelude::*;
use crate::frame::{Head, StreamId, Error, be32_value};
use crate::small_vec::{EntryVec, entry_items, entries_new, entries_push, entries_len, entries_get, entries_clone};

verus! {

/// Stream identifiers below this are tracked by a bitmap when deduplicating.
pub const MAX_BITMAP_STREAMS: u32 = 32;

/// The number of entries kept inline.
pub const DEFAULT_STACK_SIZE: usize = 8;

/// The most entries that a builder holds.
pub const MAX_PRIORITIES: usize = 0x1000_0000;

/// A stream dependency: the stream depended on, the weight and whether the
/// dependency is exclusive. The weight is held as 0 to 255, which stands for
/// the protocol's 1 to 256.
#[derive(Debug, Clone, Copy, PartialEq, Eq, Structural)]
pub struct StreamDependency {
    dependency_id: StreamId,
    weight: u8,
    is_exclusive: bool,
}

impl StreamDependency {
    pub closed spec fn spec_dependency_id(self) -> StreamId {
        self.dependency_id
    }

    pub closed spec fn spec_weight(self) -> u8 {
        self.weight
    }

    pub closed spec fn spec_is_exclusive(self) -> bool {
        self.is_exclusive
    }

    pub fn new(dependency_id: StreamId, weight: u8, is_exclusive: bool) -> (r: Self)
        ensures
            r.spec_dependency_id() == dependency_id,
            r.spec_weight() == weight,
            r.spec_is_exclusive() == is_exclusive,
    {
        StreamDependency { dependency_id, weight, is_exclusive }
    }

    /// Reads a dependency from a five-byte payload: the exclusive flag and a
    /// 31-bit stream identifier, then the weight.
    pub fn load(src: &[u8]) -> (r: Result<Self, Error>)
        ensures
            src@.len() != 5 ==> r == Err::<StreamDependency, Error>(Error::InvalidPayloadLength),
            src@.len() == 5 ==> (r matches Ok(d) && d.spec_dependency_id().0 == be32_value(src@) & 0x7fff_ffff
                && d.spec_is_exclusive() == (be32_value(src@) & 0x8000_0000 == 0x8000_0000)
                && d.spec_weight() == src@[4]),
    {
        if src.len() != 5 {
            return Err(Error::InvalidPayloadLength);
        }
        let (dependency_id, is_exclusive) = StreamId::parse(src);
        let weight = src[4];
        Ok(StreamDependency::new(dependency_id, weight, is_exclusive))
    }

    pub fn dependency_id(&self) -> (r: StreamId)
        ensures
            r == self.spec_dependency_id(),
    {
        self.dependency_id
    }

    pub fn weight(&self) -> (r: u8)
        ensures
            r == self.spec_weight(),
    {
        self.weight
    }

    pub fn is_exclusive(&self) -> (r: bool)
        ensures
            r == self.spec_is_exclusive(),
    {
        self.is_exclusive
    }

    /// The fixed anchor dependency that the browser profiles share: on
    /// stream 0, weight 255, exclusive.
    pub fn chrome() -> (r: Self)
        ensures
            r.spec_dependency_id().0 == 0,
            r.spec_weight() == 255,
            r.spec_is_exclusive(),
    {
        StreamDependency { dependency_id: StreamId::zero(), weight: 255, is_exclusive: true }
    }
}

/// A weight is always within 0 to 255, however the dependency was made.
pub proof fn lemma_weight_bound(d: StreamDependency)
    ensures
        0 <= d.spec_weight() <= 255,
{
}

/// A PRIORITY frame: a stream and its dependency.
#[derive(Debug, Clone, Copy, PartialEq, Eq, Structural)]
pub struct Priority {
    stream_id: StreamId,
    dependency: StreamDependency,
}

impl Priority {
    pub closed spec fn spec_stream_id(self) -> StreamId {
        self.stream_id
    }

    pub closed spec fn spec_dependency(self) -> StreamDependency {
        self.dependency
    }

    pub fn new(stream_id: StreamId, dependency: StreamDependency) -> (r: Priority)
        ensures
            r.spec_stream_id() == stream_id,
            r.spec_dependency() == dependency,
    {
        Priority { stream_id, dependency }
    }

    pub fn stream_id(&self) -> (r: StreamId)
        ensures
            r == self.spec_stream_id(),
    {
        self.stream_id
    }

    pub fn dependency(&self) -> (r: StreamDependency)
        ensures
            r == self.spec_dependency(),
    {
        self.dependency
    }

    /// Reads a received PRIORITY frame. The frame's own dependency is not
    /// honoured: the stream is given the fixed anchor dependency, since this
    /// side only emits priorities.
    pub fn load(head: Head, _payload: &[u8]) -> (r: Result<Self, Error>)
        ensures
            r matches Ok(p) && p.spec_stream_id() == head.stream_id
                && p.spec_dependency().spec_dependency_id().0 == 0
                && p.spec_dependency().spec_weight() == 255
                && p.spec_dependency().spec_is_exclusive(),
    {
        let dependency = StreamDependency::chrome();
        Ok(Priority { stream_id: head.stream_id(), dependency })
    }

    /// The entry that stores this frame.
    pub closed spec fn entry(self) -> (u32, u32, u8, bool) {
        (self.stream_id.0, self.dependency.dependency_id.0, self.dependency.weight, self.dependency.is_exclusive)
    }

    /// The frame that an entry stores.
    pub closed spec fn of_entry(e: (u32, u32, u8, bool)) -> Priority {
        Priority {
            stream_id: StreamId(e.0),
            dependency: StreamDependency { dependency_id: StreamId(e.1), weight: e.2, is_exclusive: e.3 },
        }
    }

    fn to_entry(&self) -> (r: (u32, u32, u8, bool))
        ensures
            r == self.entry(),
            Priority::of_entry(r) == *self,
            r.0 == self.spec_stream_id().0,
    {
        (self.stream_id.0, self.dependency.dependency_id.0, self.dependency.weight, self.dependency.is_exclusive)
    }

    fn from_entry(e: (u32, u32, u8, bool)) -> (r: Priority)
        ensures
            r == Priority::of_entry(e),
            r.spec_stream_id().0 == e.0,
    {
        Priority {
            stream_id: StreamId(e.0),
            dependency: StreamDependency { dependency_id: StreamId(e.1), weight: e.2, is_exclusive: e.3 },
        }
    }
}

/// The frames that entries store.
pub open spec fn priorities_of(es: Seq<(u32, u32, u8, bool)>) -> Seq<Priority> {
    es.map_values(|e: (u32, u32, u8, bool)| Priority::of_entry(e))
}

/// Whether some frame of `s` is for stream `id`.
pub open spec fn has_stream(s: Seq<Priority>, id: u32) -> bool {
    exists|i: int| 0 <= i < s.len() && (#[trigger] s[i]).spec_stream_id().0 == id
}

/// Appends `p` unless it is for stream 0 or for a stream already present.
pub open spec fn push_priority(s: Seq<Priority>, p: Priority) -> Seq<Priority> {
    if p.spec_stream_id().0 == 0 || has_stream(s, p.spec_stream_id().0) {
        s
    } else {
        s.push(p)
    }
}

/// Pushes each of `ps` in order.
pub open spec fn extend_priorities(s: Seq<Priority>, ps: Seq<Priority>) -> Seq<Priority>
    decreases ps.len(),
{
    if ps.len() == 0 {
        s
    } else {
        push_priority(extend_priorities(s, ps.drop_last()), ps.last())
    }
}

/// No frame for stream 0, and no stream twice.
pub open spec fn well_formed(s: Seq<Priority>) -> bool {
    &&& forall|i: int| 0 <= i < s.len() ==> (#[trigger] s[i]).spec_stream_id().0 != 0
    &&& forall|i: int, j: int| 0 <= i < s.len() && 0 <= j < s.len() && i != j
        ==> (#[trigger] s[i]).spec_stream_id() != (#[trigger] s[j]).spec_stream_id()
}

/// The PRIORITY frames that a connection sends at its start, in order.
#[derive(Debug, PartialEq, Eq)]
pub struct Priorities {
    priorities: EntryVec,
}

impl View for Priorities {
    type V = Seq<Priority>;

    closed spec fn view(&self) -> Seq<Priority> {
        priorities_of(entry_items(self.priorities))
    }
}

impl Priorities {
    #[verifier::type_invariant]
    spec fn inv(self) -> bool {
        well_formed(priorities_of(entry_items(self.priorities)))
    }

    /// Starts an empty builder.
    pub fn builder() -> (r: PrioritiesBuilder)
        ensures
            r@ == Seq::<Priority>::empty(),
    {
        let priorities = entries_new();
        let inserted_bitmap: u32 = 0;
        proof {
            assert(priorities_of(entry_items(priorities)) =~= Seq::<Priority>::empty());
            assert forall|id: u32| id < MAX_BITMAP_STREAMS implies
                (inserted_bitmap & (1u32 << id) != 0) == has_stream(Seq::<Priority>::empty(), id) by {
                assert(0u32 & (1u32 << id) == 0) by (bit_vector);
            }
        }
        PrioritiesBuilder { priorities, inserted_bitmap }
    }

    /// The number of frames.
    pub fn len(&self) -> (r: usize)
        ensures
            r == self@.len(),
            well_formed(self@),
    {
        proof {
            use_type_invariant(self);
        }
        entries_len(&self.priorities)
    }

    /// The frame at position `i`.
    pub fn get(&self, i: usize) -> (r: Priority)
        requires
            i < self@.len(),
        ensures
            r == self@[i as int],
    {
        Priority::from_entry(entries_get(&self.priorities, i))
    }

    /// The frames as a vector, in order.
    pub fn to_vec(&self) -> (r: Vec<Priority>)
        ensures
            r@ == self@,
    {
        let n = self.len();
        let mut r: Vec<Priority> = Vec::new();
        let mut i: usize = 0;
        while i < n
            invariant
                n == self@.len(),
                i <= n,
                r@ == self@.take(i as int),
            decreases n - i,
        {
            r.push(self.get(i));
            i += 1;
            assert(r@ =~= self@.take(i as int));
        }
        assert(r@ =~= self@);
        r
    }
}

impl Clone for Priorities {
    fn clone(&self) -> (r: Priorities)
        ensures
            r@ == self@,
    {
        proof {
            use_type_invariant(self);
        }
        Priorities { priorities: entries_clone(&self.priorities) }
    }
}

/// Builds `Priorities`, dropping frames for stream 0 and any later frame for a
/// stream already present.
#[derive(Debug)]
pub struct PrioritiesBuilder {
    priorities: EntryVec,
    inserted_bitmap: u32,
}

impl View for PrioritiesBuilder {
    type V = Seq<Priority>;

    closed spec fn view(&self) -> Seq<Priority> {
        priorities_of(entry_items(self.priorities))
    }
}

proof fn lemma_bit_set(bm: u32, a: u32, b: u32)
    requires
        a < 32,
        b < 32,
    ensures
        ((bm | (1u32 << a)) & (1u32 << b) != 0) == (a == b || bm & (1u32 << b) != 0),
        bm & (1u32 << a) != 0 ==> (bm | (1u32 << a)) == bm,
{
    assert(a < 32 && b < 32 ==> (((bm | (1u32 << a)) & (1u32 << b) != 0) == (a == b || bm & (1u32 << b) != 0))) by (bit_vector);
    assert(a < 32 && bm & (1u32 << a) != 0 ==> (bm | (1u32 << a)) == bm) by (bit_vector);
}

impl PrioritiesBuilder {
    /// The stored frames are well formed, and the bitmap has exactly the bits
    /// of the stored streams below 32.
    #[verifier::type_invariant]
    spec fn inv(self) -> bool {
        &&& well_formed(priorities_of(entry_items(self.priorities)))
        &&& entry_items(self.priorities).len() <= MAX_PRIORITIES
        &&& forall|id: u32| id < MAX_BITMAP_STREAMS ==>
            (self.inserted_bitmap & (#[trigger] (1u32 << id)) != 0) == has_stream(priorities_of(entry_items(self.priorities)), id)
    }

    /// The frames pushed so far hold no stream 0 and no stream twice.
    pub fn len(&self) -> (r: usize)
        ensures
            r == self@.len(),
            well_formed(self@),
    {
        proof {
            use_type_invariant(self);
        }
        entries_len(&self.priorities)
    }

    /// Appends `priority` unless its stream is 0 or already has a frame; the
    /// first frame for a stream wins.
    pub fn push(self, priority: Priority) -> (r: Self)
        requires
            self@.len() < MAX_PRIORITIES,
        ensures
            r@ == push_priority(self@, priority),
    {
        proof {
            use_type_invariant(&self);
        }
        let ghost s = self@;
        let PrioritiesBuilder { priorities, inserted_bitmap } = self;
        let mut priorities = priorities;
        let mut inserted_bitmap = inserted_bitmap;
        if priority.stream_id.is_zero() {
            return PrioritiesBuilder { priorities, inserted_bitmap };
        }
        let id: u32 = priority.stream_id.0;
        if id < MAX_BITMAP_STREAMS {
            let mask = 1u32 << id;
            if inserted_bitmap & mask != 0 {
                return PrioritiesBuilder { priorities, inserted_bitmap };
            }
            proof {
                assert forall|b: u32| b < MAX_BITMAP_STREAMS implies
                    ((inserted_bitmap | mask) & (#[trigger] (1u32 << b)) != 0) == (id == b || inserted_bitmap & (1u32 << b) != 0) by {
                    lemma_bit_set(inserted_bitmap, id, b);
                }
            }
            inserted_bitmap = inserted_bitmap | mask;
        } else {
            let n = entries_len(&priorities);
            let mut i: usize = 0;
            while i < n
                invariant
                    n == entry_items(priorities).len(),
                    s == priorities_of(entry_items(priorities)),
                    s == self@,
                    i <= n,
                    id == priority.spec_stream_id().0,
                    id >= MAX_BITMAP_STREAMS,
                    well_formed(s),
                    n <= MAX_PRIORITIES,
                    n < MAX_PRIORITIES,
                    forall|b: u32| b < MAX_BITMAP_STREAMS ==>
                        (inserted_bitmap & (#[trigger] (1u32 << b)) != 0) == has_stream(s, b),
                    forall|j: int| 0 <= j < i ==> (#[trigger] s[j]).spec_stream_id().0 != id,
                decreases n - i,
            {
                let e = entries_get(&priorities, i);
                if e.0 == id {
                    proof {
                        assert(entry_items(priorities)[i as int] == e);
                        assert(s[i as int] == Priority::of_entry(e));
                        assert(s[i as int].spec_stream_id().0 == id);
                        assert(has_stream(s, id));
                    }
                    return PrioritiesBuilder { priorities, inserted_bitmap };
                }
                i += 1;
            }
        }
        proof {
            assert(!has_stream(s, id));
        }
        entries_push(&mut priorities, priority.to_entry());
        proof {
            let s2 = priorities_of(entry_items(priorities));
            assert(s2 =~= s.push(priority));
            assert forall|i: int, j: int| 0 <= i < s2.len() && 0 <= j < s2.len() && i != j
                implies (#[trigger] s2[i]).spec_stream_id() != (#[trigger] s2[j]).spec_stream_id() by {
                if i < s.len() && j < s.len() {
                    assert(s2[i] == s[i] && s2[j] == s[j]);
                } else if i < s.len() {
                    assert(s2[i] == s[i]);
                } else {
                    assert(s2[j] == s[j]);
                }
            }
            assert forall|b: u32| b < MAX_BITMAP_STREAMS implies
                (inserted_bitmap & (#[trigger] (1u32 << b)) != 0) == has_stream(s2, b) by {
                if has_stream(s2, b) {
                    let k = choose|k: int| 0 <= k < s2.len() && (#[trigger] s2[k]).spec_stream_id().0 == b;
                    if k < s.len() {
                        assert(s2[k] == s[k]);
                    }
                }
                if has_stream(s, b) {
                    let k = choose|k: int| 0 <= k < s.len() && (#[trigger] s[k]).spec_stream_id().0 == b;
                    assert(s2[k] == s[k]);
                }
                assert(s2[s.len() as int] == priority);
            }
        }
        PrioritiesBuilder { priorities, inserted_bitmap }
    }

    /// Pushes each frame of `priorities` in order.
    pub fn extend(self, priorities: Vec<Priority>) -> (r: Self)
        requires
            self@.len() + priorities@.len() <= MAX_PRIORITIES,
        ensures
            r@ == extend_priorities(self@, priorities@),
    {
        let mut this = self;
        let mut i: usize = 0;
        while i < priorities.len()
            invariant
                i <= priorities@.len(),
                this@ == extend_priorities(self@, priorities@.take(i as int)),
                this@.len() <= self@.len() + i,
                self@.len() + priorities@.len() <= MAX_PRIORITIES,
            decreases priorities@.len() - i,
        {
            this = this.push(priorities[i]);
            proof {
                let t = priorities@.take(i as int + 1);
                assert(t.drop_last() =~= priorities@.take(i as int));
                assert(t.last() == priorities@[i as int]);
            }
            i += 1;
        }
        assert(priorities@.take(priorities@.len() as int) =~= priorities@);
        this
    }

    /// Finishes the set, keeping the order of the frames.
    pub fn build(self) -> (r: Priorities)
        ensures
            r@ == self@,
    {
        proof {
            use_type_invariant(&self);
        }
        Priorities { priorities: self.priorities }
    }
}

/// A frame for stream 0 is never added.
pub proof fn lemma_zero_rejected(s: Seq<Priority>, p: Priority)
    requires
        p.spec_stream_id().0 == 0,
    ensures
        push_priority(s, p) == s,
{
}

/// Pushing two frames for the same stream leaves exactly one frame for it:
/// the one that was there first.
pub proof fn lemma_priority_dedup(s: Seq<Priority>, p: Priority, q: Priority)
    requires
        well_formed(s),
        p.spec_stream_id() == q.spec_stream_id(),
        p.spec_stream_id().0 != 0,
    ensures
        push_priority(push_priority(s, p), q) == push_priority(s, p),
        has_stream(push_priority(s, p), p.spec_stream_id().0),
        !has_stream(s, p.spec_stream_id().0) ==> push_priority(s, p) == s.push(p),
        forall|i: int, j: int| 0 <= i < push_priority(s, p).len() && 0 <= j < push_priority(s, p).len()
            && (#[trigger] push_priority(s, p)[i]).spec_stream_id() == p.spec_stream_id()
            && (#[trigger] push_priority(s, p)[j]).spec_stream_id() == p.spec_stream_id() ==> i == j,
{
    let t = push_priority(s, p);
    let id = p.spec_stream_id().0;
    if !has_stream(s, id) {
        assert(t[s.len() as int] == p);
        assert(has_stream(t, id));
        assert forall|i: int, j: int| 0 <= i < t.len() && 0 <= j < t.len()
            && (#[trigger] t[i]).spec_stream_id() == p.spec_stream_id()
            && (#[trigger] t[j]).spec_stream_id() == p.spec_stream_id() implies i == j by {
            if i < s.len() {
                assert(t[i] == s[i]);
            }
            if j < s.len() {
                assert(t[j] == s[j]);
            }
        }
    }
}

} // verus!
