use vstd::prelude::*;

verus! {

/// The identifiers of the records already announced in this process.
///
/// Each identifier is held once; the set only grows.
pub struct SeenSet {
    pub ids: Vec<String>,
}

impl View for SeenSet {
    type V = Set<Seq<char>>;

    open spec fn view(&self) -> Set<Seq<char>> {
        Set::new(|x: Seq<char>| exists|i: int| 0 <= i < self.ids.len() && #[trigger] self.ids@[i]@ == x)
    }
}

impl SeenSet {
    /// No identifier is held twice.
    pub open spec fn wf(&self) -> bool {
        forall|i: int, j: int|
            0 <= i < j < self.ids.len() ==> #[trigger] self.ids@[i]@ != #[trigger] self.ids@[j]@
    }

    /// An empty set.
    pub fn new() -> (r: SeenSet)
        ensures
            r.wf(),
            r@ == Set::<Seq<char>>::empty(),
    {
        let r = SeenSet { ids: Vec::new() };
        assert(r@ =~= Set::<Seq<char>>::empty());
        r
    }

    /// Whether `id` has been announced already.
    pub fn contains(&self, id: &String) -> (r: bool)
        ensures
            r == self@.contains(id@),
    {
        let mut i: usize = 0;
        while i < self.ids.len()
            invariant
                i <= self.ids.len(),
                forall|j: int| 0 <= j < i ==> self.ids@[j]@ != id@,
            decreases self.ids.len() - i,
        {
            if self.ids[i] == *id {
                assert(self.ids@[i as int]@ == id@);
                return true;
            }
            i = i + 1;
        }
        false
    }

    /// Whether `id` has not been announced yet.
    pub fn is_novel(&self, id: &String) -> (r: bool)
        ensures
            r == !self@.contains(id@),
    {
        !self.contains(id)
    }

    /// Records `id` as announced.
    pub fn mark_seen(&mut self, id: &String)
        requires
            old(self).wf(),
        ensures
            final(self).wf(),
            final(self)@ == old(self)@.insert(id@),
    {
        if !self.contains(id) {
            let ghost before = self.ids@;
            self.ids.push(id.clone());
            assert(self.ids@[before.len() as int]@ == id@);
            assert forall|x: Seq<char>| #[trigger] self@.contains(x) == old(self)@.insert(id@).contains(x) by {
                if old(self)@.contains(x) {
                    let i = choose|i: int| 0 <= i < before.len() && #[trigger] before[i]@ == x;
                    assert(self.ids@[i]@ == x);
                }
                if self@.contains(x) {
                    let i = choose|i: int| 0 <= i < self.ids.len() && #[trigger] self.ids@[i]@ == x;
                    if i < before.len() {
                        assert(before[i]@ == x);
                    }
                }
            }
            assert(self@ =~= old(self)@.insert(id@));
        } else {
            assert(old(self)@ =~= old(self)@.insert(id@));
        }
    }
}

} // verus!
