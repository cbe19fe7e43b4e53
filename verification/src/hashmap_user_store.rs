use vstd::prelude::*;
use crate::data_stores::UserStore;
use crate::email::Email;
use crate::errors::UserStoreError;
use crate::password::Password;
use crate::user::User;

verus! {

/// The directory contents a sequence of records denotes; a later record
/// with the same email would win, though the store never keeps two.
spec fn map_of(v: Seq<User>) -> Map<Seq<char>, (Seq<char>, bool)>
    decreases v.len(),
{
    if v.len() == 0 {
        Map::empty()
    } else {
        map_of(v.drop_last()).insert(v.last().email@, (v.last().password@, v.last().requires_2fa))
    }
}

/// No two records share an email.
spec fn emails_distinct(v: Seq<User>) -> bool {
    forall|i: int, j: int| 0 <= i < j < v.len() ==> #[trigger] v[i].email@ != #[trigger] v[j].email@
}

proof fn lemma_map_of_contains(v: Seq<User>, k: Seq<char>)
    ensures
        map_of(v).contains_key(k) <==> exists|i: int| 0 <= i < v.len() && v[i].email@ == k,
    decreases v.len(),
{
    if v.len() > 0 {
        lemma_map_of_contains(v.drop_last(), k);
        if map_of(v).contains_key(k) {
            if v.last().email@ == k {
                assert(v[v.len() - 1].email@ == k);
            } else {
                let i = choose|i: int| 0 <= i < v.len() - 1 && v.drop_last()[i].email@ == k;
                assert(v[i].email@ == k);
            }
        }
        if exists|i: int| 0 <= i < v.len() && v[i].email@ == k {
            let i = choose|i: int| 0 <= i < v.len() && v[i].email@ == k;
            if i < v.len() - 1 {
                assert(v.drop_last()[i].email@ == k);
            }
        }
    }
}

proof fn lemma_map_of_get(v: Seq<User>, i: int)
    requires
        emails_distinct(v),
        0 <= i < v.len(),
    ensures
        map_of(v).contains_key(v[i].email@),
        map_of(v)[v[i].email@] == (v[i].password@, v[i].requires_2fa),
    decreases v.len(),
{
    lemma_map_of_contains(v, v[i].email@);
    if i == v.len() - 1 {
        assert(v.last() == v[i]);
    } else {
        assert(emails_distinct(v.drop_last())) by {
            assert(forall|a: int, b: int|
                0 <= a < b < v.len() - 1 ==> #[trigger] v.drop_last()[a].email@ != #[trigger] v.drop_last()[b].email@);
        }
        assert(v.drop_last()[i] == v[i]);
        lemma_map_of_get(v.drop_last(), i);
        assert(v.last().email@ != v[i].email@);
    }
}

/// The in-memory user directory: a list of records, one per email.
pub struct HashmapUserStore {
    users: Vec<User>,
}

impl HashmapUserStore {
    #[verifier::type_invariant]
    spec fn wf(&self) -> bool {
        emails_distinct(self.users@)
    }

    /// The position of the record stored under the email, if any.
    fn find(&self, email: &Email) -> (r: Option<usize>)
        ensures
            match r {
                Some(i) => i < self.users@.len() && self.users@[i as int].email@ == email@,
                None => !map_of(self.users@).contains_key(email@),
            },
    {
        let n = self.users.len();
        let mut k: usize = 0;
        while k < n
            invariant
                n == self.users.len(),
                0 <= k <= n,
                forall|i: int| 0 <= i < k ==> self.users@[i].email@ != email@,
            decreases n - k,
        {
            if self.users[k].email == *email {
                return Some(k);
            }
            k = k + 1;
        }
        proof {
            lemma_map_of_contains(self.users@, email@);
        }
        None
    }
}

impl Default for HashmapUserStore {
    /// An empty directory.
    fn default() -> (r: Self)
        ensures
            r.users() == Map::<Seq<char>, (Seq<char>, bool)>::empty(),
    {
        HashmapUserStore { users: Vec::new() }
    }
}

impl UserStore for HashmapUserStore {
    closed spec fn users(&self) -> Map<Seq<char>, (Seq<char>, bool)> {
        map_of(self.users@)
    }

    /// This store lives in memory and never fails.
    open spec fn infallible(&self) -> bool {
        true
    }

    fn add_user(&mut self, user: User) -> (r: Result<(), UserStoreError>)
        ensures
            r != Err::<(), UserStoreError>(UserStoreError::UnexpectedError),
    {
        proof {
            use_type_invariant(&*self);
        }
        match self.find(&user.email) {
            Some(_) => {
                proof {
                    lemma_map_of_contains(self.users@, user.email@);
                }
                Err(UserStoreError::UserAlreadyExists)
            },
            None => {
                let ghost v0 = self.users@;
                proof {
                    lemma_map_of_contains(v0, user.email@);
                }
                let mut taken: Vec<User> = Vec::new();
                core::mem::swap(&mut self.users, &mut taken);
                taken.push(user);
                core::mem::swap(&mut self.users, &mut taken);
                proof {
                    assert(self.users@.drop_last() =~= v0);
                    assert(emails_distinct(self.users@)) by {
                        lemma_map_of_contains(v0, self.users@.last().email@);
                    }
                }
                Ok(())
            },
        }
    }

    fn get_user(&self, email: &Email) -> (r: Result<User, UserStoreError>)
        ensures
            r != Err::<User, UserStoreError>(UserStoreError::UnexpectedError),
    {
        proof {
            use_type_invariant(self);
        }
        match self.find(email) {
            Some(i) => {
                proof {
                    lemma_map_of_get(self.users@, i as int);
                }
                Ok(self.users[i].clone())
            },
            None => Err(UserStoreError::UserNotFound),
        }
    }

    fn validate_user(&self, email: &Email, password: &Password) -> (r: Result<
        (),
        UserStoreError,
    >)
        ensures
            r != Err::<(), UserStoreError>(UserStoreError::UnexpectedError),
    {
        proof {
            use_type_invariant(self);
        }
        match self.find(email) {
            Some(i) => {
                proof {
                    lemma_map_of_get(self.users@, i as int);
                }
                if self.users[i].password == *password {
                    Ok(())
                } else {
                    Err(UserStoreError::InvalidCredentials)
                }
            },
            None => Err(UserStoreError::UserNotFound),
        }
    }
}

} // verus!
