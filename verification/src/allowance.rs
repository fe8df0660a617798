//! Per-account minting quota and the table that keeps it.

use vstd::prelude::*;

verus! {

/// How many items an account has claimed out of how many it may claim.
#[derive(Clone, Copy, Debug, PartialEq, Eq, Structural)]
pub struct Allowance {
    pub claimed: u16,
    pub max: u16,
}

/// The attempt would have claimed more than the allowance has left.
#[derive(Clone, Copy, Debug, PartialEq, Eq, Structural)]
pub struct AllowanceExceeded {
    /// What was asked for.
    pub requested: u16,
    /// What was left.
    pub left: u16,
}

impl Allowance {
    /// Nothing more is claimed than the maximum allows.
    pub open spec fn wf(self) -> bool {
        self.claimed <= self.max
    }

    /// What is left to claim: the gap between the maximum and what is
    /// claimed, and zero if there is no gap.
    pub open spec fn spec_left(self) -> nat {
        if self.max >= self.claimed {
            (self.max - self.claimed) as nat
        } else {
            0
        }
    }

    /// The allowance with its maximum raised to `new_max` if that is higher.
    pub open spec fn spec_raise_max(self, new_max: u16) -> Allowance {
        Allowance { claimed: self.claimed, max: if self.max >= new_max { self.max } else { new_max } }
    }

    /// The allowance after `num` more items have been claimed.
    pub open spec fn spec_use_num(self, num: u16) -> Allowance
        recommends
            num <= self.spec_left(),
    {
        Allowance { claimed: (self.claimed + num) as u16, max: self.max }
    }

    /// The allowance after `num` claimed items were given back, or all of
    /// them if fewer are claimed.
    pub open spec fn spec_give_back(self, num: u16) -> Allowance {
        Allowance {
            claimed: if self.claimed >= num {
                (self.claimed - num) as u16
            } else {
                0
            },
            max: self.max,
        }
    }

    /// A fresh allowance of `max` items, none of them claimed.
    pub fn new(max: u16) -> (allowance: Allowance)
        ensures
            allowance == (Allowance { claimed: 0, max }),
            allowance.wf(),
    {
        Allowance { claimed: 0, max }
    }

    /// Raises the maximum to `new_max` if that is higher, and never lowers
    /// it. What is claimed stays.
    pub fn raise_max(self, new_max: u16) -> (raised: Allowance)
        ensures
            raised == self.spec_raise_max(new_max),
            self.wf() ==> raised.wf(),
    {
        Allowance { claimed: self.claimed, max: if self.max >= new_max { self.max } else { new_max } }
    }

    /// Gives back `num` claimed items, or all of them if fewer are claimed.
    pub fn give_back(&mut self, num: u16)
        ensures
            *final(self) == old(self).spec_give_back(num),
            old(self).wf() ==> final(self).wf(),
    {
        if self.claimed >= num {
            self.claimed = self.claimed - num;
        } else {
            self.claimed = 0;
        }
    }

    /// What is left to claim.
    pub fn left(&self) -> (left: u16)
        ensures
            left == self.spec_left(),
    {
        if self.max >= self.claimed {
            self.max - self.claimed
        } else {
            0
        }
    }

    /// Claims `num` items if that many are left, and changes nothing
    /// otherwise.
    pub fn use_num(&mut self, num: u16) -> (outcome: Result<(), AllowanceExceeded>)
        ensures
            outcome is Ok <==> num <= old(self).spec_left(),
            outcome is Ok ==> *final(self) == old(self).spec_use_num(num) && final(self).claimed
                == old(self).claimed + num,
            outcome is Err ==> *final(self) == *old(self) && outcome == Err::<(), AllowanceExceeded>(
                AllowanceExceeded { requested: num, left: old(self).spec_left() as u16 },
            ),
            old(self).wf() ==> final(self).wf(),
    {
        let left = self.left();
        if num <= left {
            self.claimed = self.claimed + num;
            Ok(())
        } else {
            Err(AllowanceExceeded { requested: num, left })
        }
    }
}

/// The stored allowance, or a fresh one of `default_max` items where none is
/// stored.
pub open spec fn spec_get_or_create(stored: Option<Allowance>, default_max: u16) -> Allowance {
    match stored {
        Some(allowance) => allowance,
        None => Allowance { claimed: 0, max: default_max },
    }
}

/// Returns the stored allowance, or a fresh one of `default_max` items where
/// none is stored.
pub fn get_or_create(stored: Option<Allowance>, default_max: u16) -> (allowance: Allowance)
    ensures
        allowance == spec_get_or_create(stored, default_max),
{
    match stored {
        Some(allowance) => allowance,
        None => Allowance::new(default_max),
    }
}

/// Claiming `num` items out of an allowance that has that many left lowers
/// what is left by exactly `num` and keeps the maximum.
pub proof fn lemma_use_num_debits_exactly(allowance: Allowance, num: u16)
    requires
        num <= allowance.spec_left(),
    ensures
        allowance.spec_use_num(num).spec_left() == allowance.spec_left() - num,
        allowance.spec_use_num(num).max == allowance.max,
        allowance.wf() ==> allowance.spec_use_num(num).wf(),
{
}

/// Raising the maximum never lowers what is left, whatever the new maximum.
pub proof fn lemma_raise_max_is_monotonic(allowance: Allowance, new_max: u16)
    ensures
        allowance.spec_raise_max(new_max).spec_left() >= allowance.spec_left(),
        allowance.spec_raise_max(new_max).max >= allowance.max,
        allowance.spec_raise_max(new_max).max >= new_max,
        allowance.spec_raise_max(new_max).claimed == allowance.claimed,
{
}

/// One row of the allowance table.
#[derive(Clone, Debug)]
pub struct WhitelistEntry {
    pub account: String,
    pub allowance: Allowance,
}

/// The allowance table: at most one row per account. An account that never
/// received an allowance has no row. A table is made empty and changed only
/// by [`Whitelist::insert`], which keeps it that way.
#[derive(Clone, Debug)]
pub struct Whitelist {
    entries: Vec<WhitelistEntry>,
}

/// Row `i` is the first row of `account`.
pub open spec fn is_first_row(rows: Seq<WhitelistEntry>, account: Seq<char>, i: int) -> bool {
    &&& 0 <= i < rows.len()
    &&& rows[i].account@ == account
    &&& forall|j: int| 0 <= j < i ==> (#[trigger] rows[j]).account@ != account
}

/// The map from each account that has a row to the allowance of its first
/// row.
pub open spec fn table_of(rows: Seq<WhitelistEntry>) -> Map<Seq<char>, Allowance> {
    Map::new(
        |account: Seq<char>| exists|i: int| is_first_row(rows, account, i),
        |account: Seq<char>| rows[choose|i: int| is_first_row(rows, account, i)].allowance,
    )
}

impl View for Whitelist {
    type V = Map<Seq<char>, Allowance>;

    /// The table as a map from account to allowance.
    open spec fn view(&self) -> Map<Seq<char>, Allowance> {
        table_of(self.rows())
    }
}

impl Whitelist {
    /// The rows of the table, oldest first.
    pub closed spec fn rows(&self) -> Seq<WhitelistEntry> {
        self.entries@
    }

    /// No account has two rows.
    pub open spec fn wf(&self) -> bool {
        forall|i: int, j: int|
            0 <= i < j < self.rows().len() ==> (#[trigger] self.rows()[i]).account@
                != (#[trigger] self.rows()[j]).account@
    }

    /// The empty table.
    pub fn new() -> (table: Whitelist)
        ensures
            table.rows() == Seq::<WhitelistEntry>::empty(),
            table@ == Map::<Seq<char>, Allowance>::empty(),
            table.wf(),
    {
        let table = Whitelist { entries: Vec::new() };
        assert(table@ =~= Map::<Seq<char>, Allowance>::empty());
        table
    }

    /// The first row of `account`, if it has one.
    fn find(&self, account: &String) -> (found: Option<usize>)
        ensures
            match found {
                Some(i) => is_first_row(self.rows(), account@, i as int) && self@.contains_key(
                    account@,
                ) && self@[account@] == self.rows()[i as int].allowance,
                None => !self@.contains_key(account@) && forall|j: int|
                    0 <= j < self.rows().len() ==> (#[trigger] self.rows()[j]).account@
                        != account@,
            },
    {
        let mut i: usize = 0;
        while i < self.entries.len()
            invariant
                i <= self.entries@.len(),
                forall|j: int| 0 <= j < i ==> (#[trigger] self.entries@[j]).account@ != account@,
            decreases self.entries@.len() - i,
        {
            if self.entries[i].account == *account {
                proof {
                    assert(is_first_row(self.rows(), account@, i as int));
                    let k = choose|k: int| is_first_row(self.rows(), account@, k);
                    assert(k == i);
                }
                return Some(i);
            }
            i = i + 1;
        }
        None
    }

    /// The allowance stored for `account`, if any.
    pub fn get(&self, account: &String) -> (stored: Option<Allowance>)
        ensures
            stored == (if self@.contains_key(account@) {
                Some(self@[account@])
            } else {
                None
            }),
    {
        match self.find(account) {
            Some(i) => Some(self.entries[i].allowance),
            None => None,
        }
    }

    /// The allowance stored for `account`, or a fresh one of `default_max`
    /// items where none is stored. Nothing is stored by asking.
    pub fn get_or_create(&self, account: &String, default_max: u16) -> (allowance: Allowance)
        ensures
            allowance == spec_get_or_create(
                if self@.contains_key(account@) {
                    Some(self@[account@])
                } else {
                    None
                },
                default_max,
            ),
    {
        get_or_create(self.get(account), default_max)
    }

    /// Whether `account` has a row.
    pub fn contains_key(&self, account: &String) -> (present: bool)
        ensures
            present == self@.contains_key(account@),
    {
        self.find(account).is_some()
    }

    /// Stores `allowance` for `account`, in place of what was stored for it
    /// before. The other accounts keep theirs.
    pub fn insert(&mut self, account: &String, allowance: Allowance)
        ensures
            final(self)@ == old(self)@.insert(account@, allowance),
            old(self).wf() ==> final(self).wf(),
    {
        let found = self.find(account);
        let ghost before = self.entries@;
        let entry = WhitelistEntry { account: account.clone(), allowance };
        match found {
            Some(i) => {
                self.entries.set(i, entry);
            },
            None => {
                self.entries.push(entry);
            },
        }
        proof {
            let after = self.entries@;
            let at: int = match found {
                Some(i) => i as int,
                None => before.len() as int,
            };
            assert(is_first_row(after, account@, at));
            assert forall|other: Seq<char>, j: int| other != account@ implies (is_first_row(
                after,
                other,
                j,
            ) <==> is_first_row(before, other, j)) by {
                if is_first_row(before, other, j) {
                    assert forall|k: int| 0 <= k < j implies (#[trigger] after[k]).account@
                        != other by {
                        assert(before[k].account@ != other);
                    }
                }
                if is_first_row(after, other, j) {
                    assert(j != at);
                    assert forall|k: int| 0 <= k < j implies (#[trigger] before[k]).account@
                        != other by {
                        assert(after[k].account@ != other);
                    }
                }
            }
            let k = choose|k: int| is_first_row(after, account@, k);
            assert(k == at);
            assert forall|other: Seq<char>|
                other != account@ && table_of(before).contains_key(other) implies table_of(
                after,
            )[other] == table_of(before)[other] by {
                let j = choose|j: int| is_first_row(before, other, j);
                assert(is_first_row(after, other, j));
                let j2 = choose|j2: int| is_first_row(after, other, j2);
                assert(is_first_row(before, other, j2));
                assert(j == j2);
            }
            assert(table_of(after) =~= table_of(before).insert(account@, allowance));
            if old(self).wf() {
                assert forall|i: int, j: int| 0 <= i < j < after.len() implies (#[trigger] after[i]).account@
                    != (#[trigger] after[j]).account@ by {
                    if j < before.len() {
                        assert(before[i].account@ != before[j].account@);
                    }
                }
            }
        }
    }

    /// The rows of the table, oldest first. In a table where no account has
    /// two rows, every row holds what the table holds for its account.
    pub fn entries(&self) -> (rows: &Vec<WhitelistEntry>)
        ensures
            rows@ == self.rows(),
            self.wf() ==> forall|i: int|
                0 <= i < rows@.len() ==> self@.contains_key((#[trigger] rows@[i]).account@)
                    && self@[rows@[i].account@] == rows@[i].allowance,
    {
        proof {
            if self.wf() {
                assert forall|i: int| 0 <= i < self.rows().len() implies self@.contains_key(
                    (#[trigger] self.rows()[i]).account@,
                ) && self@[self.rows()[i].account@] == self.rows()[i].allowance by {
                    let account = self.rows()[i].account@;
                    assert(is_first_row(self.rows(), account, i));
                    let k = choose|k: int| is_first_row(self.rows(), account, k);
                    if k < i {
                        assert(self.rows()[k].account@ != self.rows()[i].account@);
                    }
                    if i < k {
                        assert(self.rows()[i].account@ != account);
                    }
                }
            }
        }
        &self.entries
    }
}

} // verus!
