//! The claim ledger: one record per address that ever claimed successfully,
//! holding the time of its most recent successful claim. Modelled as a map
//! from the address's characters to its [`UserInfo`] record; entries are
//! created on first claim, overwritten on later claims, never deleted.

use vstd::prelude::*;

use crate::state::UserInfo;

verus! {

/// One ledger entry: an address and its claim record.
struct ClaimEntry {
    address: String,
    info: UserInfo,
}

/// The map described by a sequence of entries; a later entry for the same
/// address supersedes an earlier one.
spec fn ledger_map_of(s: Seq<ClaimEntry>) -> Map<Seq<char>, UserInfo>
    decreases s.len(),
{
    if s.len() == 0 {
        Map::empty()
    } else {
        ledger_map_of(s.drop_last()).insert(s.last().address@, s.last().info)
    }
}

/// `m[k]` as an `Option`: `None` where `k` is unbound.
pub open spec fn lookup(m: Map<Seq<char>, UserInfo>, k: Seq<char>) -> Option<UserInfo> {
    if m.contains_key(k) {
        Some(m[k])
    } else {
        None
    }
}

/// The claim ledger. Its view is the map from address characters to the
/// address's claim record.
pub struct ClaimLedger {
    entries: Vec<ClaimEntry>,
}

impl View for ClaimLedger {
    type V = Map<Seq<char>, UserInfo>;

    closed spec fn view(&self) -> Map<Seq<char>, UserInfo> {
        ledger_map_of(self.entries@)
    }
}

/// Replacing the last entry bound to a key rebinds that key and nothing else.
proof fn lemma_update_last_occurrence(s: Seq<ClaimEntry>, j: int, e: ClaimEntry)
    requires
        0 <= j < s.len(),
        e.address@ == s[j].address@,
        forall|k: int| j < k < s.len() ==> s[k].address@ != s[j].address@,
    ensures
        ledger_map_of(s.update(j, e)) == ledger_map_of(s).insert(e.address@, e.info),
    decreases s.len(),
{
    let su = s.update(j, e);
    if j == s.len() - 1 {
        assert(su.drop_last() =~= s.drop_last());
        assert(ledger_map_of(su) =~= ledger_map_of(s).insert(e.address@, e.info));
    } else {
        let st = s.drop_last();
        assert(su.drop_last() =~= st.update(j, e));
        lemma_update_last_occurrence(st, j, e);
        assert(su.last() == s.last());
        assert(s.last().address@ != e.address@);
        assert(ledger_map_of(su) =~= ledger_map_of(s).insert(e.address@, e.info));
    }
}

/// Entries past position `i` that do not bind `k` leave `k`'s binding to the
/// first `i` entries.
proof fn lemma_lookup_ignores_unbound_suffix(s: Seq<ClaimEntry>, i: int, k: Seq<char>)
    requires
        0 <= i <= s.len(),
        forall|j: int| i <= j < s.len() ==> s[j].address@ != k,
    ensures
        lookup(ledger_map_of(s), k) == lookup(ledger_map_of(s.take(i)), k),
    decreases s.len() - i,
{
    if i < s.len() {
        lemma_lookup_ignores_unbound_suffix(s, i + 1, k);
        assert(s.take(i + 1).drop_last() =~= s.take(i));
        assert(s.take(i + 1).last() == s[i]);
    } else {
        assert(s.take(i) =~= s);
    }
}

impl ClaimLedger {
    /// An empty ledger: no address has ever claimed.
    pub fn new() -> (r: ClaimLedger)
        ensures
            r@ == Map::<Seq<char>, UserInfo>::empty(),
    {
        ClaimLedger { entries: Vec::new() }
    }

    /// The claim record of `address`, or `None` if it never claimed.
    pub fn may_load(&self, address: &String) -> (r: Option<UserInfo>)
        ensures
            r == lookup(self@, address@),
    {
        let mut i: usize = self.entries.len();
        while i > 0
            invariant
                0 <= i <= self.entries.len(),
                forall|j: int| i <= j < self.entries@.len() ==> self.entries@[j].address@
                    != address@,
            decreases i,
        {
            i = i - 1;
            if self.entries[i].address == *address {
                proof {
                    lemma_lookup_ignores_unbound_suffix(self.entries@, i + 1, address@);
                    assert(self.entries@.take(i + 1).drop_last() =~= self.entries@.take(i as int));
                    assert(self.entries@.take(i + 1).last() == self.entries@[i as int]);
                }
                return Some(self.entries[i].info);
            }
        }
        proof {
            lemma_lookup_ignores_unbound_suffix(self.entries@, 0, address@);
            assert(self.entries@.take(0) =~= Seq::<ClaimEntry>::empty());
        }
        None
    }

    /// Binds `address` to `info`, overwriting any earlier record.
    pub fn save(&mut self, address: &String, info: UserInfo)
        ensures
            final(self)@ == old(self)@.insert(address@, info),
    {
        let mut i: usize = self.entries.len();
        while i > 0
            invariant
                self.entries@ == old(self).entries@,
                0 <= i <= self.entries.len(),
                forall|j: int| i <= j < self.entries@.len() ==> self.entries@[j].address@
                    != address@,
            decreases i,
        {
            i = i - 1;
            if self.entries[i].address == *address {
                let entry = ClaimEntry { address: address.clone(), info };
                proof {
                    lemma_update_last_occurrence(self.entries@, i as int, entry);
                }
                self.entries[i] = entry;
                return ;
            }
        }
        self.entries.push(ClaimEntry { address: address.clone(), info });
        proof {
            assert(self.entries@.drop_last() =~= old(self).entries@);
        }
    }
}

} // verus!
