use vstd::prelude::*;

verus! {

/// One entry of vendor trace state.
#[derive(Debug)]
pub struct TracePair {
    pub key: String,
    pub value: String,
}

impl TracePair {
    pub open spec fn view(&self) -> (Seq<char>, Seq<char>) {
        (self.key@, self.value@)
    }

    pub fn new(key: String, value: String) -> (r: TracePair)
        ensures
            r.key@ == key@,
            r.value@ == value@,
    {
        TracePair { key, value }
    }

    /// A copy with the same key and value.
    pub fn copy(&self) -> (r: TracePair)
        ensures
            r@ == self@,
    {
        TracePair { key: self.key.clone(), value: self.value.clone() }
    }
}

/// Vendor-specific baggage: an ordered list of key/value entries, forwarded
/// as it is. Keys need not be unique and entries are never reordered.
#[derive(Debug)]
pub struct TraceState {
    pub pairs: Vec<TracePair>,
}

impl TraceState {
    /// The entries, in order.
    pub open spec fn view(&self) -> Seq<(Seq<char>, Seq<char>)> {
        self.pairs@.map_values(|p: TracePair| p@)
    }

    /// A state with no entries.
    pub fn new() -> (r: TraceState)
        ensures
            r@ == Seq::<(Seq<char>, Seq<char>)>::empty(),
    {
        TraceState { pairs: Vec::new() }
    }

    /// Appends an entry after all the others.
    pub fn push(&mut self, key: String, value: String)
        ensures
            final(self)@ == old(self)@.push((key@, value@)),
    {
        self.pairs.push(TracePair::new(key, value));
        assert(final(self)@ =~= old(self)@.push((key@, value@)));
    }

    /// A copy with the same entries in the same order.
    pub fn copy(&self) -> (r: TraceState)
        ensures
            r@ == self@,
    {
        let mut pairs: Vec<TracePair> = Vec::new();
        let mut i: usize = 0;
        while i < self.pairs.len()
            invariant
                i <= self.pairs@.len(),
                pairs@.len() == i,
                forall|j: int| 0 <= j < i ==> #[trigger] pairs@[j]@ == self.pairs@[j]@,
            decreases self.pairs@.len() - i,
        {
            let p = self.pairs[i].copy();
            pairs.push(p);
            i = i + 1;
        }
        let r = TraceState { pairs };
        assert(r@ =~= self@);
        r
    }
}

} // verus!
