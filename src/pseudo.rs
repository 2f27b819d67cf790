//! The order in which a HEADERS frame carries the request pseudo-headers.
use vstd::prelude::*;

verus! {

/// The request pseudo-headers.
#[derive(Debug, Clone, Copy, PartialEq, Eq, Structural, Hash)]
pub enum PseudoId {
    /// `:method`
    Method,
    /// `:scheme`
    Scheme,
    /// `:authority`
    Authority,
    /// `:path`
    Path,
}

impl PseudoId {
    pub open spec fn spec_letter(self) -> char {
        match self {
            PseudoId::Method => 'm',
            PseudoId::Scheme => 's',
            PseudoId::Authority => 'a',
            PseudoId::Path => 'p',
        }
    }

    /// The letter that stands for the pseudo-header in an HTTP/2 fingerprint.
    pub fn letter(self) -> (r: char)
        ensures
            r == self.spec_letter(),
    {
        match self {
            PseudoId::Method => 'm',
            PseudoId::Scheme => 's',
            PseudoId::Authority => 'a',
            PseudoId::Path => 'p',
        }
    }
}

/// Appends `id` unless it is already present.
pub open spec fn push_pseudo(s: Seq<PseudoId>, id: PseudoId) -> Seq<PseudoId> {
    if s.contains(id) {
        s
    } else {
        s.push(id)
    }
}

/// An order of pseudo-headers, each at most once.
#[derive(Debug, PartialEq, Eq)]
pub struct PseudoOrder {
    ids: Vec<PseudoId>,
}

impl View for PseudoOrder {
    type V = Seq<PseudoId>;

    closed spec fn view(&self) -> Seq<PseudoId> {
        self.ids@
    }
}

impl PseudoOrder {
    #[verifier::type_invariant]
    spec fn inv(self) -> bool {
        self.ids@.no_duplicates()
    }

    /// Starts an empty builder.
    pub fn builder() -> (r: PseudoOrderBuilder)
        ensures
            r@ == Seq::<PseudoId>::empty(),
    {
        PseudoOrderBuilder { ids: Vec::new() }
    }

    /// The number of pseudo-headers; none appears twice.
    pub fn len(&self) -> (r: usize)
        ensures
            r == self@.len(),
            self@.no_duplicates(),
    {
        proof {
            use_type_invariant(self);
        }
        self.ids.len()
    }

    /// The pseudo-header at position `i`.
    pub fn get(&self, i: usize) -> (r: PseudoId)
        requires
            i < self@.len(),
        ensures
            r == self@[i as int],
    {
        self.ids[i]
    }

    /// The pseudo-headers as a vector, in order.
    pub fn to_vec(&self) -> (r: Vec<PseudoId>)
        ensures
            r@ == self@,
    {
        let n = self.len();
        let mut r: Vec<PseudoId> = Vec::new();
        let mut i: usize = 0;
        while i < n
            invariant
                n == self@.len(),
                i <= n,
                r@ == self@.take(i as int),
            decreases n - i,
        {
            r.push(self.get(i));
            i += 1;
            assert(r@ =~= self@.take(i as int));
        }
        assert(r@ =~= self@);
        r
    }
}

impl Clone for PseudoOrder {
    fn clone(&self) -> (r: PseudoOrder)
        ensures
            r@ == self@,
    {
        proof {
            use_type_invariant(self);
        }
        PseudoOrder { ids: self.to_vec() }
    }
}

/// Builds a `PseudoOrder`, keeping the first occurrence of each pseudo-header.
#[derive(Debug)]
pub struct PseudoOrderBuilder {
    ids: Vec<PseudoId>,
}

impl View for PseudoOrderBuilder {
    type V = Seq<PseudoId>;

    closed spec fn view(&self) -> Seq<PseudoId> {
        self.ids@
    }
}

impl PseudoOrderBuilder {
    #[verifier::type_invariant]
    spec fn inv(self) -> bool {
        self.ids@.no_duplicates()
    }

    /// Appends `id` unless it was pushed before.
    pub fn push(self, id: PseudoId) -> (r: Self)
        ensures
            r@ == push_pseudo(self@, id),
    {
        proof {
            use_type_invariant(&self);
        }
        let PseudoOrderBuilder { ids } = self;
        let mut ids = ids;
        let ghost s = ids@;
        let mut i: usize = 0;
        while i < ids.len()
            invariant
                s == ids@,
                s == self@,
                s.no_duplicates(),
                i <= ids@.len(),
                forall|j: int| 0 <= j < i ==> ids@[j] != id,
            decreases ids@.len() - i,
        {
            if ids[i] == id {
                assert(s[i as int] == id);
                return PseudoOrderBuilder { ids };
            }
            i += 1;
        }
        ids.push(id);
        proof {
            assert(!s.contains(id));
            assert forall|a: int, b: int| 0 <= a < ids@.len() && 0 <= b < ids@.len() && a != b implies ids@[a] != ids@[b] by {
                if a < s.len() && b < s.len() {
                    assert(ids@[a] == s[a] && ids@[b] == s[b]);
                } else if a < s.len() {
                    assert(ids@[a] == s[a]);
                } else if b < s.len() {
                    assert(ids@[b] == s[b]);
                }
            }
        }
        PseudoOrderBuilder { ids }
    }

    /// Finishes the order with the pseudo-headers pushed.
    pub fn build(self) -> (r: PseudoOrder)
        ensures
            r@ == self@,
    {
        proof {
            use_type_invariant(&self);
        }
        PseudoOrder { ids: self.ids }
    }
}

} // verus!
