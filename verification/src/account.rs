//! Accounts: principals with a nonce and a balance, resolved through the
//! session and mutated only by transaction settlement.

use vstd::prelude::*;

verus! {

/// One account: the principal that names it, its transaction counter, and
/// its balance.
pub struct Account {
    pub principal: String,
    pub nonce: u64,
    pub balance: u128,
}

/// The first account in `accounts` named by `p`, if any.
pub open spec fn spec_find(accounts: Seq<Account>, p: Seq<char>) -> Option<Account>
    decreases accounts.len(),
{
    if accounts.len() == 0 {
        None
    } else if accounts.first().principal@ == p {
        Some(accounts.first())
    } else {
        spec_find(accounts.drop_first(), p)
    }
}

/// The table of accounts a session settles against. A principal with no
/// entry is an empty account: nonce 0, balance 0.
pub struct AccountTable {
    pub accounts: Vec<Account>,
}

impl AccountTable {
    /// The (nonce, balance) state of every principal, empty accounts
    /// resolving to zero.
    pub open spec fn state_of(self) -> Map<Seq<char>, (u64, u128)> {
        Map::new(
            |p: Seq<char>| true,
            |p: Seq<char>|
                match spec_find(self.accounts@, p) {
                    Some(a) => (a.nonce, a.balance),
                    None => (0u64, 0u128),
                },
        )
    }

    pub fn new() -> (t: AccountTable)
        ensures
            forall|p: Seq<char>| t.state_of()[p] == (0u64, 0u128),
    {
        AccountTable { accounts: Vec::new() }
    }

    fn find_index(&self, p: &str) -> (r: Option<usize>)
        ensures
            r is Some <==> spec_find(self.accounts@, p@) is Some,
            r matches Some(i) ==> i < self.accounts@.len() && self.accounts@[i as int].principal@
                == p@ && spec_find(self.accounts@, p@) == Some(self.accounts@[i as int]) && (forall|
                j: int,
            | 0 <= j < i ==> self.accounts@[j].principal@ != p@),
            r is None ==> forall|j: int|
                0 <= j < self.accounts@.len() ==> self.accounts@[j].principal@ != p@,
    {
        let p_owned: String = p.to_owned();
        let n = self.accounts.len();
        let mut i: usize = 0;
        proof {
            assert(self.accounts@.skip(0) =~= self.accounts@);
        }
        while i < n
            invariant
                n == self.accounts@.len(),
                0 <= i <= n,
                p_owned@ == p@,
                spec_find(self.accounts@, p@) == spec_find(self.accounts@.skip(i as int), p@),
                forall|j: int| 0 <= j < i ==> self.accounts@[j].principal@ != p@,
            decreases n - i,
        {
            proof {
                assert(self.accounts@.skip(i as int).first() == self.accounts@[i as int]);
                assert(self.accounts@.skip(i as int).drop_first() =~= self.accounts@.skip(
                    i as int + 1,
                ));
            }
            if self.accounts[i].principal == p_owned {
                return Some(i);
            }
            i += 1;
        }
        None
    }

    /// The (nonce, balance) state of `p`: a principal with no entry yet is
    /// an empty account.
    pub fn get_account(&self, p: &str) -> (r: (u64, u128))
        ensures
            r == self.state_of()[p@],
    {
        match self.find_index(p) {
            Some(i) => (self.accounts[i].nonce, self.accounts[i].balance),
            None => (0, 0),
        }
    }

    /// Write `p`'s state, leaving every other principal alone.
    pub fn set_account(&mut self, p: &str, nonce: u64, balance: u128)
        ensures
            final(self).state_of() == old(self).state_of().insert(p@, (nonce, balance)),
    {
        match self.find_index(p) {
            Some(i) => {
                let updated = Account { principal: p.to_owned(), nonce, balance };
                let ghost upd = updated;
                let ghost before = self.accounts@;
                self.accounts.set(i, updated);
                proof {
                    assert forall|q: Seq<char>|
                        #[trigger] final(self).state_of()[q] == old(self).state_of().insert(
                            p@,
                            (nonce, balance),
                        )[q] by {
                        lemma_find_after_update(before, i as int, upd, q);
                    }
                    assert(final(self).state_of() =~= old(self).state_of().insert(
                        p@,
                        (nonce, balance),
                    ));
                }
            },
            None => {
                let added = Account { principal: p.to_owned(), nonce, balance };
                let ghost add = added;
                let ghost before = self.accounts@;
                self.accounts.push(added);
                proof {
                    assert forall|q: Seq<char>|
                        #[trigger] final(self).state_of()[q] == old(self).state_of().insert(
                            p@,
                            (nonce, balance),
                        )[q] by {
                        lemma_find_after_push(before, add, q);
                    }
                    assert(final(self).state_of() =~= old(self).state_of().insert(
                        p@,
                        (nonce, balance),
                    ));
                }
            },
        }
    }

    /// A copy of the table with the same state, used as settlement scratch
    /// so that a failing transaction leaves the table untouched.
    pub fn clone_table(&self) -> (r: AccountTable)
        ensures
            r.state_of() == self.state_of(),
    {
        let n = self.accounts.len();
        let mut out: Vec<Account> = Vec::new();
        let mut i: usize = 0;
        while i < n
            invariant
                n == self.accounts@.len(),
                0 <= i <= n,
                out@.len() == i,
                forall|j: int| 0 <= j < i ==> out@[j] == self.accounts@[j],
            decreases n - i,
        {
            let a = &self.accounts[i];
            out.push(Account { principal: a.principal.clone(), nonce: a.nonce, balance: a.balance });
            i += 1;
        }
        let r = AccountTable { accounts: out };
        proof {
            assert(r.accounts@ =~= self.accounts@);
            assert(r.state_of() =~= self.state_of());
        }
        r
    }
}

/// Updating the first entry named by a principal rewrites that principal's
/// lookup and no other.
proof fn lemma_find_after_update(accounts: Seq<Account>, i: int, a: Account, q: Seq<char>)
    requires
        0 <= i < accounts.len(),
        accounts[i].principal@ == a.principal@,
        forall|j: int| 0 <= j < i ==> accounts[j].principal@ != a.principal@,
    ensures
        spec_find(accounts.update(i, a), q) == if q == a.principal@ {
            Some(a)
        } else {
            spec_find(accounts, q)
        },
    decreases i,
{
    if i == 0 {
        assert(accounts.update(0, a).first() == a);
        assert(accounts.update(0, a).drop_first() =~= accounts.drop_first());
    } else {
        assert(accounts.update(i, a).first() == accounts.first());
        assert(accounts.update(i, a).drop_first() =~= accounts.drop_first().update(i - 1, a));
        lemma_find_after_update(accounts.drop_first(), i - 1, a, q);
    }
}

/// Appending an entry for a principal with no existing entry adds that
/// principal's lookup and no other.
proof fn lemma_find_after_push(accounts: Seq<Account>, a: Account, q: Seq<char>)
    requires
        forall|j: int| 0 <= j < accounts.len() ==> accounts[j].principal@ != a.principal@,
    ensures
        spec_find(accounts.push(a), q) == if q == a.principal@ {
            Some(a)
        } else {
            spec_find(accounts, q)
        },
    decreases accounts.len(),
{
    if accounts.len() == 0 {
        assert(accounts.push(a).first() == a);
        assert(accounts.push(a).drop_first() =~= Seq::<Account>::empty());
    } else {
        assert(accounts.push(a).first() == accounts.first());
        assert(accounts.push(a).drop_first() =~= accounts.drop_first().push(a));
        lemma_find_after_push(accounts.drop_first(), a, q);
    }
}

} // verus!
