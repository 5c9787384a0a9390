use vstd::prelude::*;

verus! {

/// An association list from string keys to values, holding each key at most once.
pub struct StrMap<V> {
    entries: Vec<(String, V)>,
    contents: Ghost<Map<Seq<char>, V>>,
}

impl<V> View for StrMap<V> {
    type V = Map<Seq<char>, V>;

    closed spec fn view(&self) -> Map<Seq<char>, V> {
        self.contents@
    }
}

impl<V> StrMap<V> {
    spec fn key_at(&self, i: int) -> Seq<char> {
        self.entries@[i].0@
    }

    /// Keys are unique, every entry is in the map, and every key of the map has an entry.
    pub closed spec fn wf(&self) -> bool {
        &&& forall|i: int, j: int|
            0 <= i < self.entries@.len() && 0 <= j < self.entries@.len() && i != j
                ==> #[trigger] self.key_at(i) != #[trigger] self.key_at(j)
        &&& forall|i: int|
            0 <= i < self.entries@.len() ==> {
                &&& self.contents@.contains_key(#[trigger] self.key_at(i))
                &&& self.contents@[self.key_at(i)] == self.entries@[i].1
            }
        &&& forall|k: Seq<char>|
            #[trigger] self.contents@.contains_key(k) ==> exists|i: int|
                0 <= i < self.entries@.len() && #[trigger] self.key_at(i) == k
    }

    pub fn new() -> (r: Self)
        ensures
            r.wf(),
            r@ == Map::<Seq<char>, V>::empty(),
    {
        StrMap { entries: Vec::new(), contents: Ghost(Map::empty()) }
    }

    fn find(&self, k: &String) -> (r: Option<usize>)
        requires
            self.wf(),
        ensures
            match r {
                Some(i) => i < self.entries@.len() && self.key_at(i as int) == k@,
                None => !self@.contains_key(k@),
            },
    {
        let mut i: usize = 0;
        while i < self.entries.len()
            invariant
                i <= self.entries@.len(),
                forall|j: int| 0 <= j < i ==> self.key_at(j) != k@,
            decreases self.entries@.len() - i,
        {
            if self.entries[i].0 == *k {
                return Some(i);
            }
            i = i + 1;
        }
        None
    }

    pub fn contains_key(&self, k: &String) -> (r: bool)
        requires
            self.wf(),
        ensures
            r == self@.contains_key(k@),
    {
        self.find(k).is_some()
    }

    pub fn get(&self, k: &String) -> (r: Option<&V>)
        requires
            self.wf(),
        ensures
            r.is_some() == self@.contains_key(k@),
            r.is_some() ==> *r.unwrap() == self@[k@],
    {
        match self.find(k) {
            Some(i) => Some(&self.entries[i].1),
            None => None,
        }
    }

    pub fn remove(&mut self, k: &String) -> (r: Option<V>)
        requires
            old(self).wf(),
        ensures
            final(self).wf(),
            final(self)@ == old(self)@.remove(k@),
            r == (if old(self)@.contains_key(k@) {
                Some(old(self)@[k@])
            } else {
                None
            }),
    {
        match self.find(k) {
            None => {
                assert(self@.remove(k@) =~= self@);
                None
            },
            Some(i) => {
                let ghost pre = *self;
                let entry = self.entries.swap_remove(i);
                self.contents = Ghost(self.contents@.remove(k@));
                assert forall|j: int| 0 <= j < self.entries@.len() implies self.key_at(j)
                    == pre.key_at(if j == i { pre.entries@.len() - 1 } else { j }) by {}
                assert forall|q: Seq<char>| #[trigger] self.contents@.contains_key(q) implies exists|j: int|
                    0 <= j < self.entries@.len() && #[trigger] self.key_at(j) == q by {
                    let w = choose|j: int| 0 <= j < pre.entries@.len() && pre.key_at(j) == q;
                    if w == pre.entries@.len() - 1 {
                        assert(self.key_at(i as int) == q);
                    } else {
                        assert(self.key_at(w) == q);
                    }
                }
                Some(entry.1)
            },
        }
    }

    pub fn insert(&mut self, k: String, v: V)
        requires
            old(self).wf(),
        ensures
            final(self).wf(),
            final(self)@ == old(self)@.insert(k@, v),
    {
        let ghost pre = self@;
        let ghost kv = k@;
        let ghost val = v;
        self.remove(&k);
        let ghost mid = *self;
        self.entries.push((k, v));
        self.contents = Ghost(self.contents@.insert(kv, val));
        assert forall|j: int| 0 <= j < mid.entries@.len() implies self.key_at(j) == mid.key_at(j)
            && self.entries@[j] == mid.entries@[j] by {}
        assert(self.key_at(mid.entries@.len() as int) == kv);
        assert(self.entries@[mid.entries@.len() as int].1 == val);
        assert forall|j: int| 0 <= j < mid.entries@.len() implies #[trigger] mid.key_at(j) != kv by {
            assert(mid.contents@.contains_key(mid.key_at(j)));
        }
        assert forall|q: Seq<char>| #[trigger] self.contents@.contains_key(q) implies exists|j: int|
            0 <= j < self.entries@.len() && #[trigger] self.key_at(j) == q by {
            if q == kv {
                assert(self.key_at(mid.entries@.len() as int) == q);
            } else {
                let w = choose|j: int| 0 <= j < mid.entries@.len() && mid.key_at(j) == q;
                assert(self.key_at(w) == q);
            }
        }
        assert forall|i: int, j: int|
            0 <= i < self.entries@.len() && 0 <= j < self.entries@.len() && i != j
                implies #[trigger] self.key_at(i) != #[trigger] self.key_at(j) by {
            if i < mid.entries@.len() && j < mid.entries@.len() {
                assert(mid.key_at(i) != mid.key_at(j));
            } else if i < mid.entries@.len() {
                assert(mid.key_at(i) != kv);
            } else if j < mid.entries@.len() {
                assert(mid.key_at(j) != kv);
            }
        }
        assert forall|i: int| 0 <= i < self.entries@.len() implies {
            &&& self.contents@.contains_key(#[trigger] self.key_at(i))
            &&& self.contents@[self.key_at(i)] == self.entries@[i].1
        } by {
            if i < mid.entries@.len() {
                assert(mid.contents@.contains_key(mid.key_at(i)));
            }
        }
        assert(self@ =~= pre.insert(kv, val));
    }

    /// Hands out every entry, each key once.
    pub fn into_entries(self) -> (r: Vec<(String, V)>)
        requires
            self.wf(),
        ensures
            forall|i: int, j: int|
                0 <= i < r@.len() && 0 <= j < r@.len() && i != j ==> #[trigger] r@[i].0@
                    != #[trigger] r@[j].0@,
            forall|i: int|
                0 <= i < r@.len() ==> self@.contains_key(#[trigger] r@[i].0@) && self@[r@[i].0@]
                    == r@[i].1,
            forall|k: Seq<char>|
                #[trigger] self@.contains_key(k) ==> exists|i: int|
                    0 <= i < r@.len() && #[trigger] r@[i].0@ == k,
    {
        assert forall|i: int, j: int|
            0 <= i < self.entries@.len() && 0 <= j < self.entries@.len() && i != j
                implies #[trigger] self.entries@[i].0@ != #[trigger] self.entries@[j].0@ by {
            assert(self.key_at(i) != self.key_at(j));
        }
        assert forall|i: int| 0 <= i < self.entries@.len() implies self@.contains_key(
            #[trigger] self.entries@[i].0@,
        ) && self@[self.entries@[i].0@] == self.entries@[i].1 by {
            assert(self.contents@.contains_key(self.key_at(i)));
        }
        assert forall|k: Seq<char>| #[trigger] self@.contains_key(k) implies exists|i: int|
            0 <= i < self.entries@.len() && #[trigger] self.entries@[i].0@ == k by {
            let w = choose|i: int| 0 <= i < self.entries@.len() && self.key_at(i) == k;
            assert(self.entries@[w].0@ == k);
        }
        self.entries
    }
}

/// What the registry knows of one node.
#[derive(Clone, Debug, PartialEq, Eq)]
pub struct Record {
    pub owner: String,
    pub resolver: String,
    pub ttl: u64,
}

pub ghost struct RecordView {
    pub owner: Seq<char>,
    pub resolver: Seq<char>,
    pub ttl: u64,
}

impl View for Record {
    type V = RecordView;

    open spec fn view(&self) -> RecordView {
        RecordView { owner: self.owner@, resolver: self.resolver@, ttl: self.ttl }
    }
}

/// The registry's state: a record per known node, and for each owner the
/// operators that owner has approved or revoked.
pub ghost struct RegistryView {
    pub records: Map<Seq<char>, RecordView>,
    pub approvals: Map<Seq<char>, Map<Seq<char>, bool>>,
}

impl RegistryView {
    /// `operator` holds an approval entry from `owner` that is set to true.
    pub open spec fn is_approved(self, owner: Seq<char>, operator: Seq<char>) -> bool {
        &&& self.approvals.contains_key(owner)
        &&& self.approvals[owner].contains_key(operator)
        &&& self.approvals[owner][operator]
    }

    /// The node has a record, and `caller` is its owner or an operator its owner approved.
    /// The operator entries of `owner`; none where it has no entry.
    pub open spec fn operators_of(self, owner: Seq<char>) -> Map<Seq<char>, bool> {
        if self.approvals.contains_key(owner) {
            self.approvals[owner]
        } else {
            Map::empty()
        }
    }

    pub open spec fn authorized(self, caller: Seq<char>, node: Seq<char>) -> bool {
        &&& self.records.contains_key(node)
        &&& (self.records[node].owner == caller || self.is_approved(
            self.records[node].owner,
            caller,
        ))
    }
}

pub struct Registry {
    records: StrMap<Record>,
    operators: StrMap<StrMap<bool>>,
}

impl View for Registry {
    type V = RegistryView;

    closed spec fn view(&self) -> RegistryView {
        RegistryView {
            records: self.records@.map_values(|r: Record| r@),
            approvals: self.operators@.map_values(|m: StrMap<bool>| m@),
        }
    }
}

impl Registry {
    pub closed spec fn wf(&self) -> bool {
        &&& self.records.wf()
        &&& self.operators.wf()
        &&& forall|o: Seq<char>| #[trigger]
            self.operators@.contains_key(o) ==> self.operators@[o].wf()
    }

    pub fn new() -> (r: Self)
        ensures
            r.wf(),
            r@.records == Map::<Seq<char>, RecordView>::empty(),
            r@.approvals == Map::<Seq<char>, Map<Seq<char>, bool>>::empty(),
    {
        let r = Registry { records: StrMap::new(), operators: StrMap::new() };
        assert(r@.records =~= Map::<Seq<char>, RecordView>::empty());
        assert(r@.approvals =~= Map::<Seq<char>, Map<Seq<char>, bool>>::empty());
        r
    }

    /// The record of `node`, if it has one.
    pub fn record(&self, node: &String) -> (r: Option<&Record>)
        requires
            self.wf(),
        ensures
            r.is_some() == self@.records.contains_key(node@),
            r.is_some() ==> r.unwrap()@ == self@.records[node@],
    {
        self.records.get(node)
    }

    /// Stores `record` as the record of `node`, in place of any earlier one.
    pub fn put_record(&mut self, node: String, record: Record)
        requires
            old(self).wf(),
        ensures
            final(self).wf(),
            final(self)@.records == old(self)@.records.insert(node@, record@),
            final(self)@.approvals == old(self)@.approvals,
    {
        let ghost pre = self@;
        let ghost nv = node@;
        let ghost rv = record@;
        self.records.insert(node, record);
        assert(self@.records =~= pre.records.insert(nv, rv));
    }

    /// Whether `owner` has approved `operator`.
    pub fn is_approved(&self, owner: &String, operator: &String) -> (r: bool)
        requires
            self.wf(),
        ensures
            r == self@.is_approved(owner@, operator@),
    {
        match self.operators.get(owner) {
            None => false,
            Some(ops) => match ops.get(operator) {
                None => false,
                Some(approved) => *approved,
            },
        }
    }

    /// Records whether `owner` approves `operator`, creating the owner's entry if needed.
    pub fn set_approval(&mut self, owner: String, operator: String, approved: bool)
        requires
            old(self).wf(),
        ensures
            final(self).wf(),
            final(self)@.records == old(self)@.records,
            final(self)@.approvals == old(self)@.approvals.insert(
                owner@,
                old(self)@.operators_of(owner@).insert(operator@, approved),
            ),
    {
        let ghost pre = self@;
        let ghost ov = owner@;
        let mut ops = match self.operators.remove(&owner) {
            None => StrMap::new(),
            Some(ops) => ops,
        };
        assert(ops@ == pre.operators_of(ov));
        ops.insert(operator, approved);
        self.operators.insert(owner, ops);
        assert(self@.approvals =~= pre.approvals.insert(ov, self.operators@[ov]@));
    }

    /// Hands out the records, and for each owner the operator entries, each key once.
    pub fn into_parts(self) -> (r: (Vec<(String, Record)>, Vec<(String, StrMap<bool>)>))
        requires
            self.wf(),
        ensures
            forall|i: int| 0 <= i < r.0@.len() ==> self@.records.contains_key(#[trigger] r.0@[i].0@)
                && self@.records[r.0@[i].0@] == r.0@[i].1@,
            forall|k: Seq<char>| #[trigger] self@.records.contains_key(k) ==> exists|i: int|
                0 <= i < r.0@.len() && #[trigger] r.0@[i].0@ == k,
            forall|i: int| 0 <= i < r.1@.len() ==> self@.approvals.contains_key(#[trigger] r.1@[i].0@)
                && self@.approvals[r.1@[i].0@] == r.1@[i].1@ && r.1@[i].1.wf(),
            forall|k: Seq<char>| #[trigger] self@.approvals.contains_key(k) ==> exists|i: int|
                0 <= i < r.1@.len() && #[trigger] r.1@[i].0@ == k,
    {
        let ghost pre = self@;
        let ghost ops = self.operators@;
        let ghost rs = self.records@;
        assert(pre.records.dom() =~= rs.dom());
        assert(pre.approvals.dom() =~= ops.dom());
        let records = self.records.into_entries();
        let operators = self.operators.into_entries();
        assert forall|i: int| 0 <= i < operators@.len() implies #[trigger] operators@[i].1.wf() by {
            assert(ops.contains_key(operators@[i].0@));
        }
        let r = (records, operators);
        assert forall|k: Seq<char>| #[trigger] pre.records.contains_key(k) implies exists|i: int|
            0 <= i < r.0@.len() && #[trigger] r.0@[i].0@ == k by {
            assert(rs.contains_key(k));
            let w = choose|i: int| 0 <= i < r.0@.len() && #[trigger] r.0@[i].0@ == k;
            assert(r.0@[w].0@ == k);
        }
        assert forall|k: Seq<char>| #[trigger] pre.approvals.contains_key(k) implies exists|i: int|
            0 <= i < r.1@.len() && #[trigger] r.1@[i].0@ == k by {
            assert(ops.contains_key(k));
            let w = choose|i: int| 0 <= i < r.1@.len() && #[trigger] r.1@[i].0@ == k;
            assert(r.1@[w].0@ == k);
        }
        r
    }
}

} // verus!
