use vstd::prelude::*;

verus! {

/// One staker's position in the pool.
pub struct StakeInfo {
    pub amount_staked: u64,
    pub yield_token_id: String,
    pub stake_start_block: u64,
    pub last_claim_block: u64,
}

/// Mathematical value of a [`StakeInfo`].
pub struct StakeInfoView {
    pub amount_staked: u64,
    pub yield_token_id: Seq<char>,
    pub stake_start_block: u64,
    pub last_claim_block: u64,
}

impl View for StakeInfo {
    type V = StakeInfoView;

    open spec fn view(&self) -> StakeInfoView {
        StakeInfoView {
            amount_staked: self.amount_staked,
            yield_token_id: self.yield_token_id@,
            stake_start_block: self.stake_start_block,
            last_claim_block: self.last_claim_block,
        }
    }
}

impl StakeInfo {
    /// A copy of this position.
    pub fn copy(&self) -> (r: StakeInfo)
        ensures
            r@ == self@,
    {
        StakeInfo {
            amount_staked: self.amount_staked,
            yield_token_id: self.yield_token_id.clone(),
            stake_start_block: self.stake_start_block,
            last_claim_block: self.last_claim_block,
        }
    }
}

/// A staker's DID together with its position.
pub struct StakerEntry {
    pub staker_did: String,
    pub info: StakeInfo,
}

/// No DID occurs twice among the entries.
spec fn keys_distinct(s: Seq<StakerEntry>) -> bool {
    forall|i: int, j: int|
        0 <= i < s.len() && 0 <= j < s.len() && i != j ==> #[trigger] s[i].staker_did@
            != #[trigger] s[j].staker_did@
}

spec fn entries_map(s: Seq<StakerEntry>) -> Map<Seq<char>, StakeInfoView>
    decreases s.len(),
{
    if s.len() == 0 {
        Map::empty()
    } else {
        entries_map(s.drop_last()).insert(s.last().staker_did@, s.last().info@)
    }
}

spec fn entries_sum(s: Seq<StakerEntry>) -> int
    decreases s.len(),
{
    if s.len() == 0 {
        0
    } else {
        entries_sum(s.drop_last()) + s.last().info.amount_staked
    }
}

proof fn lemma_distinct_drop_last(s: Seq<StakerEntry>)
    requires
        s.len() > 0,
        keys_distinct(s),
    ensures
        keys_distinct(s.drop_last()),
        forall|i: int| 0 <= i < s.len() - 1 ==> #[trigger] s[i].staker_did@ != s.last().staker_did@,
{
    let d = s.drop_last();
    assert forall|i: int, j: int|
        0 <= i < d.len() && 0 <= j < d.len() && i != j implies #[trigger] d[i].staker_did@
            != #[trigger] d[j].staker_did@ by {
        assert(d[i] == s[i] && d[j] == s[j]);
    }
    assert forall|i: int| 0 <= i < s.len() - 1 implies #[trigger] s[i].staker_did@
        != s.last().staker_did@ by {
        assert(s[i].staker_did@ != s[s.len() - 1].staker_did@);
    }
}

proof fn lemma_absent(s: Seq<StakerEntry>, k: Seq<char>)
    requires
        forall|i: int| 0 <= i < s.len() ==> #[trigger] s[i].staker_did@ != k,
    ensures
        !entries_map(s).contains_key(k),
    decreases s.len(),
{
    if s.len() > 0 {
        let d = s.drop_last();
        assert forall|i: int| 0 <= i < d.len() implies #[trigger] d[i].staker_did@ != k by {
            assert(d[i] == s[i]);
        }
        lemma_absent(d, k);
        assert(s.last().staker_did@ != k);
    }
}

proof fn lemma_present(s: Seq<StakerEntry>, i: int)
    requires
        keys_distinct(s),
        0 <= i < s.len(),
    ensures
        entries_map(s).contains_key(s[i].staker_did@),
        entries_map(s)[s[i].staker_did@] == s[i].info@,
    decreases s.len(),
{
    if i < s.len() - 1 {
        let d = s.drop_last();
        lemma_distinct_drop_last(s);
        assert(d[i] == s[i]);
        lemma_present(d, i);
    }
}

proof fn lemma_len(s: Seq<StakerEntry>)
    requires
        keys_distinct(s),
    ensures
        entries_map(s).dom().finite(),
        entries_map(s).len() == s.len(),
    decreases s.len(),
{
    if s.len() > 0 {
        let d = s.drop_last();
        lemma_distinct_drop_last(s);
        lemma_len(d);
        lemma_absent(d, s.last().staker_did@);
    }
}

proof fn lemma_remove(s: Seq<StakerEntry>, i: int)
    requires
        keys_distinct(s),
        0 <= i < s.len(),
    ensures
        keys_distinct(s.remove(i)),
        entries_map(s.remove(i)) =~= entries_map(s).remove(s[i].staker_did@),
        entries_sum(s.remove(i)) == entries_sum(s) - s[i].info.amount_staked,
    decreases s.len(),
{
    let r = s.remove(i);
    assert forall|a: int, b: int|
        0 <= a < r.len() && 0 <= b < r.len() && a != b implies #[trigger] r[a].staker_did@
            != #[trigger] r[b].staker_did@ by {
        let sa = if a < i { a } else { a + 1 };
        let sb = if b < i { b } else { b + 1 };
        assert(r[a] == s[sa] && r[b] == s[sb]);
    }
    let d = s.drop_last();
    lemma_distinct_drop_last(s);
    if i == s.len() - 1 {
        assert(r =~= d);
        lemma_absent(d, s.last().staker_did@);
    } else {
        lemma_remove(d, i);
        assert(r.drop_last() =~= d.remove(i));
        assert(r.last() == s.last());
        assert(s[i] == d[i]);
        assert(s[i].staker_did@ != s.last().staker_did@);
    }
}

proof fn lemma_update(s: Seq<StakerEntry>, i: int, e: StakerEntry)
    requires
        keys_distinct(s),
        0 <= i < s.len(),
        e.staker_did@ == s[i].staker_did@,
    ensures
        keys_distinct(s.update(i, e)),
        entries_map(s.update(i, e)) =~= entries_map(s).insert(e.staker_did@, e.info@),
        entries_sum(s.update(i, e)) == entries_sum(s) - s[i].info.amount_staked
            + e.info.amount_staked,
    decreases s.len(),
{
    let u = s.update(i, e);
    assert forall|a: int, b: int|
        0 <= a < u.len() && 0 <= b < u.len() && a != b implies #[trigger] u[a].staker_did@
            != #[trigger] u[b].staker_did@ by {
        assert(u[a].staker_did@ == s[a].staker_did@);
        assert(u[b].staker_did@ == s[b].staker_did@);
    }
    let d = s.drop_last();
    lemma_distinct_drop_last(s);
    if i == s.len() - 1 {
        assert(u.drop_last() =~= d);
        lemma_absent(d, e.staker_did@);
    } else {
        lemma_update(d, i, e);
        assert(u.drop_last() =~= d.update(i, e));
        assert(u.last() == s.last());
        assert(s[i] == d[i]);
        assert(s[i].staker_did@ != s.last().staker_did@);
    }
}

proof fn lemma_push(s: Seq<StakerEntry>, e: StakerEntry)
    requires
        keys_distinct(s),
        !entries_map(s).contains_key(e.staker_did@),
    ensures
        keys_distinct(s.push(e)),
        entries_map(s.push(e)) =~= entries_map(s).insert(e.staker_did@, e.info@),
        entries_sum(s.push(e)) == entries_sum(s) + e.info.amount_staked,
{
    let p = s.push(e);
    assert(p.drop_last() =~= s);
    assert forall|a: int, b: int|
        0 <= a < p.len() && 0 <= b < p.len() && a != b implies #[trigger] p[a].staker_did@
            != #[trigger] p[b].staker_did@ by {
        if a == s.len() {
            lemma_present(s, b);
        } else if b == s.len() {
            lemma_present(s, a);
        } else {
            assert(p[a] == s[a] && p[b] == s[b]);
        }
    }
}

/// The pool's stakers, keyed by DID: a map from DID to position in which each
/// DID occurs once.
pub struct StakerTable {
    entries: Vec<StakerEntry>,
}

impl View for StakerTable {
    type V = Map<Seq<char>, StakeInfoView>;

    closed spec fn view(&self) -> Map<Seq<char>, StakeInfoView> {
        entries_map(self.entries@)
    }
}

impl StakerTable {
    #[verifier::type_invariant]
    spec fn inv(self) -> bool {
        keys_distinct(self.entries@)
    }

    /// Sum of the staked amounts of all positions.
    pub closed spec fn staked_sum(&self) -> int {
        entries_sum(self.entries@)
    }

    /// An empty table.
    pub fn new() -> (t: StakerTable)
        ensures
            t@ == Map::<Seq<char>, StakeInfoView>::empty(),
            t.staked_sum() == 0,
    {
        StakerTable { entries: Vec::new() }
    }

    /// DID stored at a position of the table.
    pub closed spec fn key_at(&self, i: int) -> Seq<char> {
        self.entries@[i].staker_did@
    }

    /// Number of stakers. Positions `0..n` list every staker exactly once.
    pub fn len(&self) -> (n: usize)
        ensures
            n == self@.len(),
            self@.dom().finite(),
            forall|i: int, j: int|
                0 <= i < n && 0 <= j < n && i != j ==> self.key_at(i) != self.key_at(j),
            forall|k: Seq<char>|
                self@.contains_key(k) ==> exists|i: int| 0 <= i < n && #[trigger] self.key_at(i) == k,
    {
        proof {
            use_type_invariant(self);
            lemma_len(self.entries@);
            assert forall|k: Seq<char>| self@.contains_key(k) implies exists|i: int|
                0 <= i < self.entries@.len() && #[trigger] self.key_at(i) == k by {
                if exists|i: int| 0 <= i < self.entries@.len() && #[trigger] self.entries@[i].staker_did@ == k {
                    let i = choose|i: int| 0 <= i < self.entries@.len() && #[trigger] self.entries@[i].staker_did@ == k;
                    assert(self.key_at(i) == k);
                } else {
                    lemma_absent(self.entries@, k);
                }
            }
        }
        self.entries.len()
    }

    fn find(&self, did: &str) -> (r: Option<usize>)
        ensures
            match r {
                Some(i) => i < self.entries@.len() && self.entries@[i as int].staker_did@ == did@,
                None => forall|i: int|
                    0 <= i < self.entries@.len() ==> #[trigger] self.entries@[i].staker_did@
                        != did@,
            },
    {
        let n = self.entries.len();
        let mut i: usize = 0;
        while i < n
            invariant
                n == self.entries@.len(),
                i <= n,
                forall|j: int| 0 <= j < i ==> #[trigger] self.entries@[j].staker_did@ != did@,
            decreases n - i,
        {
            if crate::text::str_equal(self.entries[i].staker_did.as_str(), did) {
                return Some(i);
            }
            i = i + 1;
        }
        None
    }

    /// Whether a staker has a position.
    pub fn contains_key(&self, did: &str) -> (b: bool)
        ensures
            b == self@.contains_key(did@),
    {
        proof { use_type_invariant(self); }
        match self.find(did) {
            Some(i) => {
                proof { lemma_present(self.entries@, i as int); }
                true
            },
            None => {
                proof { lemma_absent(self.entries@, did@); }
                false
            },
        }
    }

    /// A staker's position, if it has one.
    pub fn get(&self, did: &str) -> (r: Option<&StakeInfo>)
        ensures
            match r {
                Some(v) => self@.contains_key(did@) && v@ == self@[did@],
                None => !self@.contains_key(did@),
            },
    {
        proof { use_type_invariant(self); }
        match self.find(did) {
            Some(i) => {
                proof { lemma_present(self.entries@, i as int); }
                Some(&self.entries[i].info)
            },
            None => {
                proof { lemma_absent(self.entries@, did@); }
                None
            },
        }
    }

    /// Sets a staker's position, replacing the one it had.
    pub fn insert(&mut self, did: String, info: StakeInfo)
        ensures
            final(self)@ == old(self)@.insert(did@, info@),
            final(self).staked_sum() == old(self).staked_sum() + info.amount_staked - (
            if old(self)@.contains_key(did@) {
                old(self)@[did@].amount_staked as int
            } else {
                0
            }),
    {
        proof { use_type_invariant(&*self); }
        let mut entries: Vec<StakerEntry> = Vec::new();
        std::mem::swap(&mut entries, &mut self.entries);
        let ghost s = entries@;
        let found = {
            let tmp = StakerTable { entries };
            let f = tmp.find(did.as_str());
            entries = tmp.entries;
            f
        };
        let e = StakerEntry { staker_did: did, info };
        match found {
            Some(i) => {
                proof {
                    lemma_present(s, i as int);
                    lemma_update(s, i as int, e);
                }
                entries.set(i, e);
            },
            None => {
                proof {
                    lemma_absent(s, e.staker_did@);
                    lemma_push(s, e);
                }
                entries.push(e);
            },
        }
        self.entries = entries;
    }

    /// Removes a staker's position, if it has one.
    pub fn remove(&mut self, did: &str)
        ensures
            final(self)@ == old(self)@.remove(did@),
            final(self).staked_sum() == old(self).staked_sum() - (if old(self)@.contains_key(did@) {
                old(self)@[did@].amount_staked as int
            } else {
                0
            }),
    {
        proof { use_type_invariant(&*self); }
        match self.find(did) {
            Some(i) => {
                let mut entries: Vec<StakerEntry> = Vec::new();
                std::mem::swap(&mut entries, &mut self.entries);
                let ghost s = entries@;
                proof {
                    lemma_present(s, i as int);
                    lemma_remove(s, i as int);
                }
                let _ = entries.remove(i);
                self.entries = entries;
            },
            None => {
                proof {
                    lemma_absent(self.entries@, did@);
                    assert(self@.remove(did@) =~= self@);
                }
            },
        }
    }

    /// Records the block of a staker's latest yield claim.
    pub fn set_last_claim_block(&mut self, did: &str, block: u64)
        requires
            old(self)@.contains_key(did@),
        ensures
            final(self)@ == old(self)@.insert(
                did@,
                StakeInfoView { last_claim_block: block, ..old(self)@[did@] },
            ),
            final(self).staked_sum() == old(self).staked_sum(),
    {
        proof { use_type_invariant(&*self); }
        let found = self.find(did);
        match found {
            Some(i) => {
                let mut entries: Vec<StakerEntry> = Vec::new();
                std::mem::swap(&mut entries, &mut self.entries);
                let ghost s = entries@;
                let mut e = entries.remove(i);
                e.info.last_claim_block = block;
                proof {
                    lemma_present(s, i as int);
                    lemma_update(s, i as int, e);
                    assert(s.update(i as int, e) =~= s.remove(i as int).insert(i as int, e));
                }
                entries.insert(i, e);
                self.entries = entries;
            },
            None => {
                proof { lemma_absent(self.entries@, did@); }
            },
        }
    }

    /// The entry stored at a position of the table, for listing all stakers.
    pub fn entry_at(&self, i: usize) -> (e: &StakerEntry)
        requires
            i < self@.len(),
        ensures
            e.staker_did@ == self.key_at(i as int),
            self@.contains_key(e.staker_did@),
            self@[e.staker_did@] == e.info@,
    {
        proof {
            use_type_invariant(self);
            lemma_len(self.entries@);
            lemma_present(self.entries@, i as int);
        }
        &self.entries[i]
    }
}

proof fn lemma_value_within_sum(s: Seq<StakerEntry>, k: Seq<char>)
    requires
        entries_map(s).contains_key(k),
    ensures
        entries_map(s)[k].amount_staked <= entries_sum(s),
        entries_sum(s) >= 0,
    decreases s.len(),
{
    if s.len() == 0 {
        assert(!entries_map(s).contains_key(k));
    } else {
        let d = s.drop_last();
        lemma_sum_nonneg(d);
        if s.last().staker_did@ != k {
            lemma_value_within_sum(d, k);
        }
    }
}

proof fn lemma_sum_nonneg(s: Seq<StakerEntry>)
    ensures
        entries_sum(s) >= 0,
    decreases s.len(),
{
    if s.len() > 0 {
        lemma_sum_nonneg(s.drop_last());
    }
}

/// Law: no position stakes more than the sum of all positions.
pub proof fn law_position_within_sum(t: StakerTable, did: Seq<char>)
    requires
        t@.contains_key(did),
    ensures
        t@[did].amount_staked <= t.staked_sum(),
{
    lemma_value_within_sum(t.entries@, did);
}

} // verus!
