use vstd::prelude::*;
use crate::data_stores::BannedTokenStore;
use crate::errors::BannedTokenStoreError;

verus! {

/// The set of token texts a sequence of stored strings denotes.
spec fn set_of(v: Seq<String>) -> Set<Seq<char>>
    decreases v.len(),
{
    if v.len() == 0 {
        Set::empty()
    } else {
        set_of(v.drop_last()).insert(v.last()@)
    }
}

proof fn lemma_set_of_contains(v: Seq<String>, t: Seq<char>)
    ensures
        set_of(v).contains(t) <==> exists|i: int| 0 <= i < v.len() && v[i]@ == t,
    decreases v.len(),
{
    if v.len() > 0 {
        lemma_set_of_contains(v.drop_last(), t);
        if set_of(v).contains(t) {
            if v.last()@ == t {
                assert(v[v.len() - 1]@ == t);
            } else {
                let i = choose|i: int| 0 <= i < v.len() - 1 && v.drop_last()[i]@ == t;
                assert(v[i]@ == t);
            }
        }
        if exists|i: int| 0 <= i < v.len() && v[i]@ == t {
            let i = choose|i: int| 0 <= i < v.len() && v[i]@ == t;
            if i < v.len() - 1 {
                assert(v.drop_last()[i]@ == t);
            }
        }
    }
}

/// The in-memory revocation ledger: a growing list of revoked token texts,
/// consulted on every protected request.
pub struct HashsetBannedTokenStore {
    tokens: Vec<String>,
}

impl Default for HashsetBannedTokenStore {
    /// An empty ledger.
    fn default() -> (r: Self)
        ensures
            r.banned() == Set::<Seq<char>>::empty(),
    {
        HashsetBannedTokenStore { tokens: Vec::new() }
    }
}

impl HashsetBannedTokenStore {
    /// Whether some stored token has exactly this text.
    fn find(&self, token: &str) -> (r: bool)
        ensures
            r == self.banned().contains(token@),
    {
        let sought = token.to_owned();
        let n = self.tokens.len();
        let mut k: usize = 0;
        while k < n
            invariant
                n == self.tokens.len(),
                sought@ == token@,
                0 <= k <= n,
                forall|i: int| 0 <= i < k ==> self.tokens@[i]@ != token@,
            decreases n - k,
        {
            if self.tokens[k] == sought {
                proof {
                    lemma_set_of_contains(self.tokens@, token@);
                }
                return true;
            }
            k = k + 1;
        }
        proof {
            lemma_set_of_contains(self.tokens@, token@);
        }
        false
    }
}

impl BannedTokenStore for HashsetBannedTokenStore {
    closed spec fn banned(&self) -> Set<Seq<char>> {
        set_of(self.tokens@)
    }

    /// This ledger lives in memory and never fails.
    open spec fn infallible(&self) -> bool {
        true
    }

    fn add_token(&mut self, token: String) -> (r: Result<(), BannedTokenStoreError>)
        ensures
            r != Err::<(), BannedTokenStoreError>(BannedTokenStoreError::UnexpectedError),
    {
        if self.find(token.as_str()) {
            Err(BannedTokenStoreError::TokenAlreadyExists)
        } else {
            let ghost v0 = self.tokens@;
            self.tokens.push(token);
            proof {
                assert(self.tokens@.drop_last() =~= v0);
                assert(self.tokens@.last() == token);
            }
            Ok(())
        }
    }

    fn contains_token(&self, token: &str) -> (r: Result<bool, BannedTokenStoreError>)
        ensures
            r is Ok,
    {
        Ok(self.find(token))
    }
}

} // verus!
