//! Credential store: one secret string with last-writer-wins updates, gated
//! by the authorization guard and by a per-caller reentrancy guard.
//!
//! The store is an explicitly injected context object. The host keeps one
//! instance alive for the process; a caller identity sits in `pending` for
//! exactly the span of one in-flight state-mutating operation on its behalf.
use vstd::prelude::*;
use vstd::string::StrSliceExecFns;
use vstd::string::StringExecFns;

use crate::auth::is_authorized;
use crate::auth::is_authorized_caller;
use crate::auth::str_eq;

verus! {

/// The maximum accepted secret length, in characters.
pub const MAX_KEY_LEN: usize = 1000;

/// True when `pending` holds the identity `caller`.
pub open spec fn pending_has(pending: Seq<Seq<char>>, caller: Seq<char>) -> bool {
    exists|i: int| 0 <= i < pending.len() && pending[i] == caller
}

/// Well-formedness: no identity is represented twice in the pending set.
pub open spec fn pending_wf(pending: Seq<Seq<char>>) -> bool {
    forall|i: int, j: int| 0 <= i < j < pending.len() ==> pending[i] != pending[j]
}

/// How a write attempt is classified, in the order the checks are made.
pub enum SetKeyOutcome {
    /// The caller is not on the allow-list.
    Unauthorized,
    /// The new secret is the empty string.
    EmptyValue,
    /// The new secret exceeds `MAX_KEY_LEN` characters.
    TooLong,
    /// A write for this same caller identity is already in flight.
    Reentrant,
    /// The secret was overwritten.
    Stored,
}

/// Classification of `set_api_key` for a given store state and input.
pub open spec fn set_key_outcome(
    pending: Seq<Seq<char>>,
    caller: Seq<char>,
    new_key: Seq<char>,
) -> SetKeyOutcome {
    if !is_authorized(caller) {
        SetKeyOutcome::Unauthorized
    } else if new_key.len() == 0 {
        SetKeyOutcome::EmptyValue
    } else if new_key.len() > MAX_KEY_LEN {
        SetKeyOutcome::TooLong
    } else if pending_has(pending, caller) {
        SetKeyOutcome::Reentrant
    } else {
        SetKeyOutcome::Stored
    }
}

/// The stored secret after a write attempt: the new value exactly when the
/// attempt classifies as `Stored`, the old value otherwise.
pub open spec fn set_key_result(
    key: Seq<char>,
    pending: Seq<Seq<char>>,
    caller: Seq<char>,
    new_key: Seq<char>,
) -> Seq<char> {
    if set_key_outcome(pending, caller, new_key) is Stored {
        new_key
    } else {
        key
    }
}

/// Law: while a write for one caller identity is in flight (the identity is
/// in the pending set), a second write attempt from the *same* identity
/// classifies as reentrant and leaves the stored secret unchanged, whatever
/// value it carries and however the host interleaves the two.
pub proof fn lemma_same_caller_write_is_reentrant(
    key: Seq<char>,
    pending: Seq<Seq<char>>,
    caller: Seq<char>,
    new_key: Seq<char>,
)
    requires
        is_authorized(caller),
        0 < new_key.len() <= MAX_KEY_LEN,
        pending_has(pending, caller),
    ensures
        set_key_outcome(pending, caller, new_key) is Reentrant,
        set_key_result(key, pending, caller, new_key) == key,
{
}

/// Law: a write attempt from a *different* caller identity is not blocked by
/// an in-flight write: with a valid value and no in-flight write of its own,
/// it stores its value.
pub proof fn lemma_distinct_callers_do_not_block(
    key: Seq<char>,
    pending: Seq<Seq<char>>,
    first: Seq<char>,
    second: Seq<char>,
    new_key: Seq<char>,
)
    requires
        is_authorized(second),
        0 < new_key.len() <= MAX_KEY_LEN,
        first != second,
        pending_has(pending, first),
        !pending_has(pending, second),
    ensures
        set_key_outcome(pending, second, new_key) is Stored,
        set_key_result(key, pending, second, new_key) == new_key,
{
}

/// Law: the stored value after two write attempts that complete one after
/// the other is the value of whichever stored last; in particular, when the
/// later attempt stores, the earlier value is gone.
pub proof fn lemma_last_writer_wins(
    key: Seq<char>,
    pending: Seq<Seq<char>>,
    first: Seq<char>,
    first_key: Seq<char>,
    second: Seq<char>,
    second_key: Seq<char>,
)
    requires
        set_key_outcome(pending, second, second_key) is Stored,
    ensures
        set_key_result(
            set_key_result(key, pending, first, first_key),
            pending,
            second,
            second_key,
        ) == second_key,
{
}

/// Law: a write of a value of one to a thousand characters by an authorized
/// caller with no write of its own in flight always stores, and the stored
/// value is at once the one that a read by any authorized caller is owed:
/// it is exactly the written value, and it is not empty.
pub proof fn lemma_valid_write_is_stored_and_readable(
    key: Seq<char>,
    pending: Seq<Seq<char>>,
    caller: Seq<char>,
    new_key: Seq<char>,
)
    requires
        is_authorized(caller),
        0 < new_key.len() <= MAX_KEY_LEN,
        !pending_has(pending, caller),
    ensures
        set_key_outcome(pending, caller, new_key) is Stored,
        set_key_result(key, pending, caller, new_key) == new_key,
        set_key_result(key, pending, caller, new_key).len() > 0,
{
}

/// The process-wide credential state: the secret (empty means unset) and the
/// pending set of caller identities with a state-mutating call in flight.
pub struct CredentialStore {
    pub key: String,
    pub pending: Vec<String>,
}

/// An ephemeral marker that one caller identity holds the right to mutate
/// state; created on entry to a mutating operation, released on every exit.
pub struct CallerGuard {
    pub principal: String,
}

impl CallerGuard {
    /// Inserts `principal` into the pending set, refusing an identity that is
    /// already represented there.
    pub fn new(store: &mut CredentialStore, principal: &str) -> (r: Result<CallerGuard, String>)
        requires
            pending_wf(old(store).pending.deep_view()),
        ensures
            pending_wf(final(store).pending.deep_view()),
            final(store).key == old(store).key,
            pending_has(old(store).pending.deep_view(), principal@) ==> {
                &&& r matches Err(m) && m@ == "Already processing a request for principal "@
                    + principal@
                &&& *final(store) == *old(store)
            },
            !pending_has(old(store).pending.deep_view(), principal@) ==> {
                &&& r matches Ok(g) && g.principal@ == principal@
                &&& final(store).pending.deep_view() == old(store).pending.deep_view().push(
                    principal@,
                )
            },
    {
        let ghost pre = store.pending.deep_view();
        if Self::is_pending(store, principal) {
            Err(String::from_str("Already processing a request for principal ").concat(principal))
        } else {
            store.pending.push(principal.to_owned());
            proof {
                assert(store.pending.deep_view() =~= pre.push(principal@));
                assert forall|a: int, b: int|
                    0 <= a < b < store.pending.deep_view().len() implies store.pending.deep_view()[a]
                    != store.pending.deep_view()[b] by {
                    if b == pre.len() {
                        assert(!pending_has(pre, principal@));
                        assert(pre[a] != principal@);
                    }
                }
            }
            Ok(CallerGuard { principal: principal.to_owned() })
        }
    }

    /// True when a call for `principal` is in flight.
    pub fn is_pending(store: &CredentialStore, principal: &str) -> (r: bool)
        ensures
            r == pending_has(store.pending.deep_view(), principal@),
    {
        let n = store.pending.len();
        let mut i: usize = 0;
        while i < n
            invariant
                n == store.pending.len(),
                0 <= i <= n,
                forall|k: int| 0 <= k < i ==> store.pending.deep_view()[k] != principal@,
            decreases n - i,
        {
            if str_eq(store.pending[i].as_str(), principal) {
                assert(store.pending.deep_view()[i as int] == principal@);
                return true;
            }
            i += 1;
        }
        false
    }

    /// Removes the held identity from the pending set; the release that every
    /// exit path of a mutating operation owes.
    pub fn release(self, store: &mut CredentialStore)
        requires
            pending_wf(old(store).pending.deep_view()),
        ensures
            pending_wf(final(store).pending.deep_view()),
            final(store).key == old(store).key,
            !pending_has(final(store).pending.deep_view(), self.principal@),
            forall|c: Seq<char>|
                c != self.principal@ ==> pending_has(final(store).pending.deep_view(), c)
                    == pending_has(old(store).pending.deep_view(), c),
    {
        let ghost pre = store.pending.deep_view();
        let n = store.pending.len();
        let mut i: usize = 0;
        while i < n
            invariant
                n == store.pending.len(),
                0 <= i <= n,
                store.pending.deep_view() == pre,
                pre == old(store).pending.deep_view(),
                store.key == old(store).key,
                pending_wf(pre),
                forall|k: int| 0 <= k < i ==> pre[k] != self.principal@,
            decreases n - i,
        {
            if str_eq(store.pending[i].as_str(), self.principal.as_str()) {
                assert(pre[i as int] == self.principal@);
                store.pending.remove(i);
                proof {
                    let post = store.pending.deep_view();
                    assert(post =~= pre.remove(i as int));
                    assert forall|c: Seq<char>| c != self.principal@ implies pending_has(post, c)
                        == pending_has(pre, c) by {
                        if pending_has(post, c) {
                            let j = choose|j: int| 0 <= j < post.len() && post[j] == c;
                            if j < i {
                                assert(pre[j] == c);
                            } else {
                                assert(pre[j + 1] == c);
                            }
                        }
                        if pending_has(pre, c) {
                            let j = choose|j: int| 0 <= j < pre.len() && pre[j] == c;
                            assert(j != i);
                            if j < i {
                                assert(post[j] == c);
                            } else {
                                assert(post[j - 1] == c);
                            }
                        }
                    }
                    assert forall|a: int, b: int| 0 <= a < b < post.len() implies post[a]
                        != post[b] by {
                        let a0: int = if a < i { a } else { a + 1 };
                        let b0: int = if b < i { b } else { b + 1 };
                        assert(post[a] == pre[a0]);
                        assert(post[b] == pre[b0]);
                    }
                    assert(!pending_has(post, self.principal@)) by {
                        if pending_has(post, self.principal@) {
                            let j = choose|j: int|
                                0 <= j < post.len() && post[j] == self.principal@;
                            if j < i {
                                assert(pre[j] == self.principal@);
                            } else {
                                assert(pre[j + 1] == self.principal@);
                            }
                        }
                    }
                }
                return ;
            }
            i += 1;
        }
        assert(!pending_has(pre, self.principal@));
    }
}

impl CredentialStore {
    /// A fresh store: the secret unset, no call in flight.
    pub fn new() -> (r: CredentialStore)
        ensures
            r.key@.len() == 0,
            r.pending.deep_view() =~= Seq::<Seq<char>>::empty(),
    {
        CredentialStore { key: String::new(), pending: Vec::new() }
    }

    /// The stored secret, for internal use after the entry point's own
    /// authorization check; fails exactly when the secret is unset.
    pub fn current_key(&self) -> (r: Result<String, String>)
        ensures
            self.key@.len() > 0 ==> (r matches Ok(k) && k@ == self.key@),
            self.key@.len() == 0 ==> (r matches Err(m) && m@ == "API key not set"@),
    {
        if self.key.as_str().is_empty() {
            Err(String::from_str("API key not set"))
        } else {
            Ok(self.key.clone())
        }
    }

    /// Read entry point: the stored secret, to allow-listed callers only.
    pub fn get_api_key(&self, caller: &str) -> (r: Result<String, String>)
        ensures
            r is Ok <==> is_authorized(caller@) && self.key@.len() > 0,
            r matches Ok(k) ==> k@ == self.key@,
            !is_authorized(caller@) ==> (r matches Err(m) && m@
                == "Unauthorized: Caller not in authorized list"@),
            is_authorized(caller@) && self.key@.len() == 0 ==> (r matches Err(m) && m@
                == "API key not set"@),
    {
        match crate::auth::authorized_guard(caller) {
            Ok(_) => self.current_key(),
            Err(m) => Err(m),
        }
    }

    /// Write entry point: overwrites the secret, to allow-listed callers
    /// only, after validating the value and taking the per-caller reentrancy
    /// guard; the guard is released on every exit path, so the pending set is
    /// left as it was found.
    pub fn set_api_key(&mut self, caller: &str, new_key: String) -> (r: Result<(), String>)
        requires
            pending_wf(old(self).pending.deep_view()),
        ensures
            pending_wf(final(self).pending.deep_view()),
            final(self).key@ == set_key_result(
                old(self).key@,
                old(self).pending.deep_view(),
                caller@,
                new_key@,
            ),
            r is Ok <==> set_key_outcome(old(self).pending.deep_view(), caller@, new_key@)
                is Stored,
            forall|c: Seq<char>|
                pending_has(final(self).pending.deep_view(), c) == pending_has(
                    old(self).pending.deep_view(),
                    c,
                ),
            !(set_key_outcome(old(self).pending.deep_view(), caller@, new_key@) is Stored)
                ==> *final(self) == *old(self),
            match set_key_outcome(old(self).pending.deep_view(), caller@, new_key@) {
                SetKeyOutcome::Unauthorized => r matches Err(m) && m@
                    == "Unauthorized: Caller not in authorized list"@,
                SetKeyOutcome::EmptyValue => r matches Err(m) && m@
                    == "API key cannot be empty"@,
                SetKeyOutcome::TooLong => r matches Err(m) && m@
                    == "API key too long (max 1000 characters)"@,
                SetKeyOutcome::Reentrant => r matches Err(m) && m@ == "Reentrancy protection: "@
                    + ("Already processing a request for principal "@ + caller@),
                SetKeyOutcome::Stored => r is Ok,
            },
    {
        let ghost pend0 = self.pending.deep_view();
        if !is_authorized_caller(caller) {
            return Err(String::from_str("Unauthorized: Caller not in authorized list"));
        }
        if new_key.as_str().is_empty() {
            return Err(String::from_str("API key cannot be empty"));
        }
        if new_key.as_str().unicode_len() > MAX_KEY_LEN {
            return Err(String::from_str("API key too long (max 1000 characters)"));
        }
        let guard = match CallerGuard::new(self, caller) {
            Ok(g) => g,
            Err(e) => {
                return Err(String::from_str("Reentrancy protection: ").concat(e.as_str()));
            },
        };
        self.key = new_key;
        let ghost pend1 = self.pending.deep_view();
        guard.release(self);
        proof {
            assert forall|c: Seq<char>|
                pending_has(self.pending.deep_view(), c) == pending_has(pend0, c) by {
                if c == caller@ {
                    assert(!pending_has(pend0, c));
                    assert(!pending_has(self.pending.deep_view(), c));
                } else {
                    assert(pending_has(self.pending.deep_view(), c) == pending_has(pend1, c));
                    assert(pending_has(pend1, c) == pending_has(pend0, c)) by {
                        if pending_has(pend1, c) {
                            let j = choose|j: int| 0 <= j < pend1.len() && pend1[j] == c;
                            assert(j != pend0.len());
                            assert(pend0[j] == c);
                        }
                        if pending_has(pend0, c) {
                            let j = choose|j: int| 0 <= j < pend0.len() && pend0[j] == c;
                            assert(pend1[j] == c);
                        }
                    }
                }
            }
        }
        Ok(())
    }
}

} // verus!
