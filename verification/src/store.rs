//! The account store: users and their access tokens, with the invariants the
//! registration and login pipelines rely on — localparts and identifiers are
//! unique, and every token belongs to an existing user.

use vstd::prelude::*;

use crate::outside;

verus! {

/// A registered account: a server-generated identifier, the unique
/// user-chosen localpart, and the bcrypt hash of the password.
pub struct User {
    pub id: String,
    pub localpart: String,
    pub passhash: String,
}

pub ghost struct UserV {
    pub id: Seq<char>,
    pub localpart: Seq<char>,
    pub passhash: Seq<char>,
}

impl View for User {
    type V = UserV;

    open spec fn view(&self) -> UserV {
        UserV { id: self.id@, localpart: self.localpart@, passhash: self.passhash@ }
    }
}

/// An issued access token. The token's identifier is the bearer secret that
/// is handed to the client at issuance.
pub struct Token {
    pub id: String,
    pub user_id: String,
    pub device_id: String,
    pub created: u64,
}

pub ghost struct TokenV {
    pub id: Seq<char>,
    pub user_id: Seq<char>,
    pub device_id: Seq<char>,
    pub created: u64,
}

impl View for Token {
    type V = TokenV;

    open spec fn view(&self) -> TokenV {
        TokenV {
            id: self.id@,
            user_id: self.user_id@,
            device_id: self.device_id@,
            created: self.created,
        }
    }
}

/// How a store call fails: a duplicate where uniqueness is required, or a
/// token whose user does not exist.
#[derive(Debug)]
pub enum StoreError {
    UniqueViolation,
    ForeignKeyViolation,
}

pub ghost struct StoreV {
    pub users: Seq<UserV>,
    pub tokens: Seq<TokenV>,
}

pub open spec fn has_localpart(s: StoreV, localpart: Seq<char>) -> bool {
    exists|i: int| 0 <= i < s.users.len() && #[trigger] s.users[i].localpart == localpart
}

pub open spec fn has_user_id(s: StoreV, id: Seq<char>) -> bool {
    exists|i: int| 0 <= i < s.users.len() && #[trigger] s.users[i].id == id
}

pub open spec fn has_token_id(s: StoreV, id: Seq<char>) -> bool {
    exists|i: int| 0 <= i < s.tokens.len() && #[trigger] s.tokens[i].id == id
}

pub open spec fn user_with_localpart(s: StoreV, localpart: Seq<char>) -> UserV {
    s.users[choose|i: int| 0 <= i < s.users.len() && #[trigger] s.users[i].localpart == localpart]
}

pub open spec fn user_with_id(s: StoreV, id: Seq<char>) -> UserV {
    s.users[choose|i: int| 0 <= i < s.users.len() && #[trigger] s.users[i].id == id]
}

pub open spec fn token_with_id(s: StoreV, id: Seq<char>) -> TokenV {
    s.tokens[choose|i: int| 0 <= i < s.tokens.len() && #[trigger] s.tokens[i].id == id]
}

/// The owner of a bearer token: the user that the token's row points at.
pub open spec fn token_owner(s: StoreV, token: Seq<char>) -> Option<UserV> {
    if has_token_id(s, token) {
        let t = token_with_id(s, token);
        if has_user_id(s, t.user_id) {
            Some(user_with_id(s, t.user_id))
        } else {
            None
        }
    } else {
        None
    }
}

/// Well-formedness of the store: localparts, user identifiers and token
/// identifiers are unique, and every token references an existing user.
pub open spec fn store_wf(s: StoreV) -> bool {
    &&& forall|i: int, j: int|
        0 <= i < s.users.len() && 0 <= j < s.users.len() && i != j ==> #[trigger] s.users[i].localpart
            != #[trigger] s.users[j].localpart
    &&& forall|i: int, j: int|
        0 <= i < s.users.len() && 0 <= j < s.users.len() && i != j ==> #[trigger] s.users[i].id
            != #[trigger] s.users[j].id
    &&& forall|i: int, j: int|
        0 <= i < s.tokens.len() && 0 <= j < s.tokens.len() && i != j ==> #[trigger] s.tokens[i].id
            != #[trigger] s.tokens[j].id
    &&& forall|i: int| 0 <= i < s.tokens.len() ==> has_user_id(s, #[trigger] s.tokens[i].user_id)
}

pub(crate) proof fn lemma_push_user_wf(s: StoreV, u: UserV)
    requires
        store_wf(s),
        !has_localpart(s, u.localpart),
        !has_user_id(s, u.id),
    ensures
        store_wf(StoreV { users: s.users.push(u), tokens: s.tokens }),
{
    let t = StoreV { users: s.users.push(u), tokens: s.tokens };
    assert forall|i: int, j: int|
        0 <= i < t.users.len() && 0 <= j < t.users.len() && i != j implies #[trigger] t.users[i].localpart != #[trigger] t.users[j].localpart by {
        if i == s.users.len() as int {
            assert(t.users[j] == s.users[j]);
            if t.users[j].localpart == u.localpart {
                assert(has_localpart(s, u.localpart));
            }
        } else if j == s.users.len() as int {
            assert(t.users[i] == s.users[i]);
            if t.users[i].localpart == u.localpart {
                assert(has_localpart(s, u.localpart));
            }
        }
    }
    assert forall|i: int, j: int|
        0 <= i < t.users.len() && 0 <= j < t.users.len() && i != j implies #[trigger] t.users[i].id != #[trigger] t.users[j].id by {
        if i == s.users.len() as int {
            assert(t.users[j] == s.users[j]);
            if t.users[j].id == u.id {
                assert(has_user_id(s, u.id));
            }
        } else if j == s.users.len() as int {
            assert(t.users[i] == s.users[i]);
            if t.users[i].id == u.id {
                assert(has_user_id(s, u.id));
            }
        }
    }
    assert forall|i: int| 0 <= i < t.tokens.len() implies has_user_id(
        t,
        #[trigger] t.tokens[i].user_id,
    ) by {
        let w = choose|b: int|
            0 <= b < s.users.len() && #[trigger] s.users[b].id == s.tokens[i].user_id;
        assert(t.users[w].id == t.tokens[i].user_id);
    }
}

pub(crate) proof fn lemma_push_token_wf(s: StoreV, tok: TokenV)
    requires
        store_wf(s),
        has_user_id(s, tok.user_id),
        !has_token_id(s, tok.id),
    ensures
        store_wf(StoreV { users: s.users, tokens: s.tokens.push(tok) }),
{
    let t = StoreV { users: s.users, tokens: s.tokens.push(tok) };
    assert forall|i: int, j: int|
        0 <= i < t.tokens.len() && 0 <= j < t.tokens.len() && i != j implies #[trigger] t.tokens[i].id != #[trigger] t.tokens[j].id by {
        if i == s.tokens.len() as int {
            assert(t.tokens[j] == s.tokens[j]);
            if t.tokens[j].id == tok.id {
                assert(has_token_id(s, tok.id));
            }
        } else if j == s.tokens.len() as int {
            assert(t.tokens[i] == s.tokens[i]);
            if t.tokens[i].id == tok.id {
                assert(has_token_id(s, tok.id));
            }
        }
    }
    assert forall|i: int| 0 <= i < t.tokens.len() implies has_user_id(
        t,
        #[trigger] t.tokens[i].user_id,
    ) by {
        if i < s.tokens.len() as int {
            assert(t.tokens[i] == s.tokens[i]);
            let w = choose|b: int|
                0 <= b < s.users.len() && #[trigger] s.users[b].id == s.tokens[i].user_id;
            assert(t.users[w].id == t.tokens[i].user_id);
        } else {
            assert(t.tokens[i] == tok);
            let w = choose|b: int|
                0 <= b < s.users.len() && #[trigger] s.users[b].id == tok.user_id;
            assert(t.users[w].id == t.tokens[i].user_id);
        }
    }
}

/// The persistence façade: an in-memory relation of users and tokens that
/// keeps `store_wf` across every call.
pub struct AccountStore {
    users: Vec<User>,
    tokens: Vec<Token>,
}

impl View for AccountStore {
    type V = StoreV;

    closed spec fn view(&self) -> StoreV {
        StoreV {
            users: self.users@.map_values(|u: User| u@),
            tokens: self.tokens@.map_values(|t: Token| t@),
        }
    }
}

impl AccountStore {
    pub open spec fn wf(&self) -> bool {
        store_wf(self@)
    }

    pub fn new() -> (r: AccountStore)
        ensures
            r.wf(),
            r@.users.len() == 0,
            r@.tokens.len() == 0,
    {
        AccountStore { users: Vec::new(), tokens: Vec::new() }
    }

    pub fn user_count(&self) -> (n: usize)
        ensures
            n == self@.users.len(),
    {
        self.users.len()
    }

    pub fn token_count(&self) -> (n: usize)
        ensures
            n == self@.tokens.len(),
    {
        self.tokens.len()
    }

    /// Inserts a user, refusing any duplicate localpart or identifier.
    #[verifier::loop_isolation(false)]
    pub fn insert_user(&mut self, id: String, localpart: String, passhash: String) -> (r: Result<
        (),
        StoreError,
    >)
        requires
            old(self).wf(),
        ensures
            final(self).wf(),
            r matches Ok(()) ==> !has_localpart(old(self)@, localpart@) && !has_user_id(
                old(self)@,
                id@,
            ) && final(self)@.users == old(self)@.users.push(
                UserV { id: id@, localpart: localpart@, passhash: passhash@ },
            ) && final(self)@.tokens == old(self)@.tokens,
            r matches Err(e) ==> final(self)@ == old(self)@ && e == StoreError::UniqueViolation && (
            has_localpart(old(self)@, localpart@) || has_user_id(old(self)@, id@)),
    {
        let ghost oldv = self@;
        let mut i: usize = 0;
        while i < self.users.len()
            invariant
                0 <= i <= self.users.len(),
                self@ == oldv,
                forall|k: int| 0 <= k < i ==> #[trigger] oldv.users[k].localpart != localpart@,
                forall|k: int| 0 <= k < i ==> #[trigger] oldv.users[k].id != id@,
            decreases self.users.len() - i,
        {
            if outside::str_eq(self.users[i].localpart.as_str(), localpart.as_str()) {
                proof {
                    assert(oldv.users[i as int].localpart == localpart@);
                }
                return Err(StoreError::UniqueViolation);
            }
            if outside::str_eq(self.users[i].id.as_str(), id.as_str()) {
                proof {
                    assert(oldv.users[i as int].id == id@);
                }
                return Err(StoreError::UniqueViolation);
            }
            i = i + 1;
        }
        let ghost newu = UserV { id: id@, localpart: localpart@, passhash: passhash@ };
        self.users.push(User { id, localpart, passhash });
        proof {
            assert(self@.users =~= oldv.users.push(newu));
            assert(self@.tokens =~= oldv.tokens);
            lemma_push_user_wf(oldv, newu);
            assert(self@ == (StoreV { users: oldv.users.push(newu), tokens: oldv.tokens }));
        }
        Ok(())
    }

    /// Inserts a token, refusing a token whose user does not exist and any
    /// duplicate token identifier.
    #[verifier::loop_isolation(false)]
    pub fn insert_token(&mut self, token: Token) -> (r: Result<(), StoreError>)
        requires
            old(self).wf(),
        ensures
            final(self).wf(),
            r matches Ok(()) ==> has_user_id(old(self)@, token.user_id@) && !has_token_id(
                old(self)@,
                token.id@,
            ) && final(self)@.tokens == old(self)@.tokens.push(token@) && final(self)@.users == old(
                self,
            )@.users,
            r matches Err(e) ==> final(self)@ == old(self)@ && ((!has_user_id(
                old(self)@,
                token.user_id@,
            ) && e == StoreError::ForeignKeyViolation) || (has_user_id(old(self)@, token.user_id@)
                && has_token_id(old(self)@, token.id@) && e == StoreError::UniqueViolation)),
    {
        let ghost oldv = self@;
        let mut i: usize = 0;
        let mut user_found: bool = false;
        while i < self.users.len()
            invariant
                0 <= i <= self.users.len(),
                self@ == oldv,
                user_found <==> exists|k: int|
                    0 <= k < i && #[trigger] oldv.users[k].id == token.user_id@,
            decreases self.users.len() - i,
        {
            let hit = outside::str_eq(self.users[i].id.as_str(), token.user_id.as_str());
            proof {
                assert(hit == (oldv.users[i as int].id == token.user_id@));
            }
            if hit {
                user_found = true;
            }
            i = i + 1;
        }
        if !user_found {
            return Err(StoreError::ForeignKeyViolation);
        }
        let mut j: usize = 0;
        while j < self.tokens.len()
            invariant
                0 <= j <= self.tokens.len(),
                self@ == oldv,
                forall|k: int| 0 <= k < j ==> #[trigger] oldv.tokens[k].id != token.id@,
            decreases self.tokens.len() - j,
        {
            if outside::str_eq(self.tokens[j].id.as_str(), token.id.as_str()) {
                proof {
                    assert(oldv.tokens[j as int].id == token.id@);
                }
                return Err(StoreError::UniqueViolation);
            }
            j = j + 1;
        }
        let ghost newt = token@;
        self.tokens.push(token);
        proof {
            assert(self@.tokens =~= oldv.tokens.push(newt));
            assert(self@.users =~= oldv.users);
            lemma_push_token_wf(oldv, newt);
            assert(self@ == (StoreV { users: oldv.users, tokens: oldv.tokens.push(newt) }));
        }
        Ok(())
    }

    /// Looks an account up by its localpart.
    #[verifier::loop_isolation(false)]
    pub fn find_user_by_localpart(&self, localpart: &str) -> (r: Option<&User>)
        requires
            self.wf(),
        ensures
            match r {
                Some(u) => has_localpart(self@, localpart@) && u@ == user_with_localpart(
                    self@,
                    localpart@,
                ),
                None => !has_localpart(self@, localpart@),
            },
    {
        let mut i: usize = 0;
        while i < self.users.len()
            invariant
                0 <= i <= self.users.len(),
                self.wf(),
                forall|k: int| 0 <= k < i ==> #[trigger] self@.users[k].localpart != localpart@,
            decreases self.users.len() - i,
        {
            if outside::str_eq(self.users[i].localpart.as_str(), localpart) {
                proof {
                    assert(self@.users[i as int].localpart == localpart@);
                    let c = choose|b: int|
                        0 <= b < self@.users.len() && #[trigger] self@.users[b].localpart
                            == localpart@;
                    assert(c == i);
                }
                return Some(&self.users[i]);
            }
            i = i + 1;
        }
        None
    }

    /// Looks an account up by its server-generated identifier.
    #[verifier::loop_isolation(false)]
    pub fn find_user_by_id(&self, id: &str) -> (r: Option<&User>)
        requires
            self.wf(),
        ensures
            match r {
                Some(u) => has_user_id(self@, id@) && u@ == user_with_id(self@, id@),
                None => !has_user_id(self@, id@),
            },
    {
        let mut i: usize = 0;
        while i < self.users.len()
            invariant
                0 <= i <= self.users.len(),
                self.wf(),
                forall|k: int| 0 <= k < i ==> #[trigger] self@.users[k].id != id@,
            decreases self.users.len() - i,
        {
            if outside::str_eq(self.users[i].id.as_str(), id) {
                proof {
                    assert(self@.users[i as int].id == id@);
                    let c = choose|b: int|
                        0 <= b < self@.users.len() && #[trigger] self@.users[b].id == id@;
                    assert(c == i);
                }
                return Some(&self.users[i]);
            }
            i = i + 1;
        }
        None
    }

    /// Resolves a bearer token to the user it authorizes.
    #[verifier::loop_isolation(false)]
    pub fn find_user_by_token(&self, token: &str) -> (r: Option<&User>)
        requires
            self.wf(),
        ensures
            match r {
                Some(u) => token_owner(self@, token@) == Some(u@),
                None => token_owner(self@, token@) is None,
            },
    {
        let mut i: usize = 0;
        while i < self.tokens.len()
            invariant
                0 <= i <= self.tokens.len(),
                self.wf(),
                forall|k: int| 0 <= k < i ==> #[trigger] self@.tokens[k].id != token@,
            decreases self.tokens.len() - i,
        {
            if outside::str_eq(self.tokens[i].id.as_str(), token) {
                proof {
                    assert(self@.tokens[i as int].id == token@);
                    let c = choose|b: int|
                        0 <= b < self@.tokens.len() && #[trigger] self@.tokens[b].id == token@;
                    assert(c == i);
                    assert(has_user_id(self@, self@.tokens[i as int].user_id));
                }
                return self.find_user_by_id(self.tokens[i].user_id.as_str());
            }
            i = i + 1;
        }
        None
    }
}

} // verus!
