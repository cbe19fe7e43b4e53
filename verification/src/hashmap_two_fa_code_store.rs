use vstd::prelude::*;
use crate::data_stores::{LoginAttemptId, TwoFACode, TwoFACodeStore};
use crate::email::Email;
use crate::errors::TwoFACodeStoreError;

verus! {

/// One pending challenge: the keying email with the identifier and code.
type Entry = (Email, (LoginAttemptId, TwoFACode));

/// The challenge map a sequence of entries denotes.
spec fn map_of(v: Seq<Entry>) -> Map<Seq<char>, (Seq<char>, Seq<char>)>
    decreases v.len(),
{
    if v.len() == 0 {
        Map::empty()
    } else {
        map_of(v.drop_last()).insert(v.last().0@, (v.last().1.0@, v.last().1.1@))
    }
}

/// No two entries share an email.
spec fn keys_distinct(v: Seq<Entry>) -> bool {
    forall|i: int, j: int| 0 <= i < j < v.len() ==> #[trigger] v[i].0@ != #[trigger] v[j].0@
}

proof fn lemma_map_of_contains(v: Seq<Entry>, k: Seq<char>)
    ensures
        map_of(v).contains_key(k) <==> exists|i: int| 0 <= i < v.len() && v[i].0@ == k,
    decreases v.len(),
{
    if v.len() > 0 {
        lemma_map_of_contains(v.drop_last(), k);
        if map_of(v).contains_key(k) {
            if v.last().0@ == k {
                assert(v[v.len() - 1].0@ == k);
            } else {
                let i = choose|i: int| 0 <= i < v.len() - 1 && v.drop_last()[i].0@ == k;
                assert(v[i].0@ == k);
            }
        }
        if exists|i: int| 0 <= i < v.len() && v[i].0@ == k {
            let i = choose|i: int| 0 <= i < v.len() && v[i].0@ == k;
            if i < v.len() - 1 {
                assert(v.drop_last()[i].0@ == k);
            }
        }
    }
}

proof fn lemma_distinct_drop_last(v: Seq<Entry>)
    requires
        keys_distinct(v),
        v.len() > 0,
    ensures
        keys_distinct(v.drop_last()),
{
    assert(forall|a: int, b: int|
        0 <= a < b < v.len() - 1 ==> #[trigger] v.drop_last()[a].0@ != #[trigger] v.drop_last()[b].0@);
}

proof fn lemma_map_of_get(v: Seq<Entry>, i: int)
    requires
        keys_distinct(v),
        0 <= i < v.len(),
    ensures
        map_of(v).contains_key(v[i].0@),
        map_of(v)[v[i].0@] == (v[i].1.0@, v[i].1.1@),
    decreases v.len(),
{
    lemma_map_of_contains(v, v[i].0@);
    if i == v.len() - 1 {
        assert(v.last() == v[i]);
    } else {
        lemma_distinct_drop_last(v);
        assert(v.drop_last()[i] == v[i]);
        lemma_map_of_get(v.drop_last(), i);
        assert(v.last().0@ != v[i].0@);
    }
}

proof fn lemma_map_of_remove(v: Seq<Entry>, i: int)
    requires
        keys_distinct(v),
        0 <= i < v.len(),
    ensures
        map_of(v.remove(i)) =~= map_of(v).remove(v[i].0@),
        keys_distinct(v.remove(i)),
        !map_of(v.remove(i)).contains_key(v[i].0@),
    decreases v.len(),
{
    let k = v[i].0@;
    let w = v.remove(i);
    assert(keys_distinct(w)) by {
        assert(forall|a: int| 0 <= a < w.len() ==> #[trigger] w[a] == (if a < i {
            v[a]
        } else {
            v[a + 1]
        }));
    }
    assert(!map_of(w).contains_key(k)) by {
        lemma_map_of_contains(w, k);
        assert(forall|a: int| 0 <= a < w.len() ==> #[trigger] w[a] == (if a < i {
            v[a]
        } else {
            v[a + 1]
        }));
    }
    if i == v.len() - 1 {
        assert(w =~= v.drop_last());
        lemma_distinct_drop_last(v);
        assert(!map_of(v.drop_last()).contains_key(k)) by {
            lemma_map_of_contains(v.drop_last(), k);
        }
        assert(map_of(v) == map_of(v.drop_last()).insert(k, (v[i].1.0@, v[i].1.1@)));
        assert(map_of(v.remove(i)) =~= map_of(v).remove(k));
    } else {
        let dl = v.drop_last();
        lemma_distinct_drop_last(v);
        assert(dl[i] == v[i]);
        lemma_map_of_remove(dl, i);
        assert(w.drop_last() =~= dl.remove(i)) by {
            assert(forall|a: int| 0 <= a < w.len() ==> #[trigger] w[a] == (if a < i {
                v[a]
            } else {
                v[a + 1]
            }));
            assert(forall|a: int| 0 <= a < dl.remove(i).len() ==> #[trigger] dl.remove(i)[a] == (
            if a < i {
                dl[a]
            } else {
                dl[a + 1]
            }));
        }
        assert(w.last() == v.last());
        assert(v.last().0@ != k);
        assert(map_of(w) == map_of(dl.remove(i)).insert(v.last().0@, (v.last().1.0@, v.last().1.1@)));
        assert(map_of(w) =~= map_of(v).remove(k));
    }
}

/// The in-memory pending-challenge store: a list of entries, one per email.
pub struct HashmapTwoFACodeStore {
    codes: Vec<Entry>,
}

impl HashmapTwoFACodeStore {
    #[verifier::type_invariant]
    spec fn wf(&self) -> bool {
        keys_distinct(self.codes@)
    }

    /// The position of the entry stored under the email, if any.
    fn find(&self, email: &Email) -> (r: Option<usize>)
        ensures
            match r {
                Some(i) => i < self.codes@.len() && self.codes@[i as int].0@ == email@,
                None => !map_of(self.codes@).contains_key(email@),
            },
    {
        let n = self.codes.len();
        let mut k: usize = 0;
        while k < n
            invariant
                n == self.codes.len(),
                0 <= k <= n,
                forall|i: int| 0 <= i < k ==> self.codes@[i].0@ != email@,
            decreases n - k,
        {
            if self.codes[k].0 == *email {
                return Some(k);
            }
            k = k + 1;
        }
        proof {
            lemma_map_of_contains(self.codes@, email@);
        }
        None
    }
}

impl Default for HashmapTwoFACodeStore {
    /// An empty store.
    fn default() -> (r: Self)
        ensures
            r.codes() == Map::<Seq<char>, (Seq<char>, Seq<char>)>::empty(),
    {
        HashmapTwoFACodeStore { codes: Vec::new() }
    }
}

impl TwoFACodeStore for HashmapTwoFACodeStore {
    closed spec fn codes(&self) -> Map<Seq<char>, (Seq<char>, Seq<char>)> {
        map_of(self.codes@)
    }

    /// This store lives in memory and never fails.
    open spec fn infallible(&self) -> bool {
        true
    }

    fn add_code(&mut self, email: Email, login_attempt_id: LoginAttemptId, code: TwoFACode) -> (r:
        Result<(), TwoFACodeStoreError>)
        ensures
            r is Ok,
    {
        proof {
            use_type_invariant(&*self);
        }
        let ghost v0 = self.codes@;
        let ghost k = email@;
        let found = self.find(&email);
        let mut taken: Vec<Entry> = Vec::new();
        core::mem::swap(&mut self.codes, &mut taken);
        match found {
            Some(i) => {
                proof {
                    lemma_map_of_remove(v0, i as int);
                    lemma_map_of_contains(v0.remove(i as int), k);
                }
                taken.remove(i);
                taken.push((email, (login_attempt_id, code)));
                proof {
                    assert(taken@.drop_last() =~= v0.remove(i as int));
                    assert(keys_distinct(taken@)) by {
                        lemma_map_of_contains(v0.remove(i as int), taken@.last().0@);
                    }
                    assert(map_of(taken@) =~= map_of(v0).insert(k, (login_attempt_id@, code@)));
                }
            },
            None => {
                proof {
                    lemma_map_of_contains(v0, k);
                }
                taken.push((email, (login_attempt_id, code)));
                proof {
                    assert(taken@.drop_last() =~= v0);
                    assert(keys_distinct(taken@)) by {
                        lemma_map_of_contains(v0, taken@.last().0@);
                    }
                }
            },
        }
        core::mem::swap(&mut self.codes, &mut taken);
        Ok(())
    }

    fn remove_code(&mut self, email: &Email) -> (r: Result<(), TwoFACodeStoreError>)
        ensures
            r != Err::<(), TwoFACodeStoreError>(TwoFACodeStoreError::UnexpectedError),
    {
        proof {
            use_type_invariant(&*self);
        }
        let ghost v0 = self.codes@;
        match self.find(email) {
            Some(i) => {
                proof {
                    lemma_map_of_remove(v0, i as int);
                    lemma_map_of_get(v0, i as int);
                }
                let mut taken: Vec<Entry> = Vec::new();
                core::mem::swap(&mut self.codes, &mut taken);
                taken.remove(i);
                core::mem::swap(&mut self.codes, &mut taken);
                Ok(())
            },
            None => Err(TwoFACodeStoreError::LoginAttemptIdNotFound),
        }
    }

    fn get_code(&self, email: &Email) -> (r: Result<
        (LoginAttemptId, TwoFACode),
        TwoFACodeStoreError,
    >)
        ensures
            r != Err::<(LoginAttemptId, TwoFACode), TwoFACodeStoreError>(
                TwoFACodeStoreError::UnexpectedError,
            ),
    {
        proof {
            use_type_invariant(self);
        }
        match self.find(email) {
            Some(i) => {
                proof {
                    lemma_map_of_get(self.codes@, i as int);
                }
                let entry = &self.codes[i];
                Ok((entry.1.0.clone(), entry.1.1.clone()))
            },
            None => Err(TwoFACodeStoreError::LoginAttemptIdNotFound),
        }
    }
}

} // verus!
