use vstd::prelude::*;

verus! {

/// The texts held by a vector of strings, in order.
pub open spec fn texts(v: Seq<String>) -> Seq<Seq<char>> {
    v.map_values(|s: String| s@)
}

/// Copies a vector of strings, keeping each text and the order.
pub fn copy_texts(v: &Vec<String>) -> (r: Vec<String>)
    ensures
        texts(r@) == texts(v@),
{
    let mut r: Vec<String> = Vec::with_capacity(v.len());
    let mut i: usize = 0;
    while i < v.len()
        invariant
            i <= v@.len(),
            texts(r@) == texts(v@.take(i as int)),
        decreases v@.len() - i,
    {
        let s = v[i].clone();
        let ghost before = r@;
        r.push(s);
        proof {
            assert(s@ == v@[i as int]@);
            assert(v@.take(i + 1) =~= v@.take(i as int).push(v@[i as int]));
            assert(texts(r@) =~= texts(before).push(s@));
            assert(texts(v@.take(i + 1)) =~= texts(v@.take(i as int)).push(v@[i as int]@));
        }
        i += 1;
    }
    proof {
        assert(v@.take(v@.len() as int) =~= v@);
    }
    r
}

/// The ordered sequence of items that the store guards: it only grows, at its end.
pub struct ItemLog {
    items: Vec<String>,
}

impl View for ItemLog {
    type V = Seq<Seq<char>>;

    closed spec fn view(&self) -> Seq<Seq<char>> {
        texts(self.items@)
    }
}

impl ItemLog {
    /// An empty log.
    pub fn new() -> (r: ItemLog)
        ensures
            r@ == Seq::<Seq<char>>::empty(),
    {
        let r = ItemLog { items: Vec::new() };
        proof {
            assert(r@ =~= Seq::<Seq<char>>::empty());
        }
        r
    }

    /// The number of items held.
    pub fn len(&self) -> (r: usize)
        ensures
            r == self@.len(),
    {
        self.items.len()
    }

    /// A copy of the items, in order; the log itself is left as it is.
    pub fn snapshot(&self) -> (r: Vec<String>)
        ensures
            texts(r@) == self@,
    {
        copy_texts(&self.items)
    }

    /// Adds `item` at the end and returns a copy of the whole resulting sequence.
    pub fn append(&mut self, item: String) -> (r: Vec<String>)
        ensures
            final(self)@ == old(self)@.push(item@),
            texts(r@) == final(self)@,
    {
        self.items.push(item);
        proof {
            assert(texts(self.items@) =~= texts(old(self).items@).push(item@));
        }
        copy_texts(&self.items)
    }
}

} // verus!
