//! The session manager: a store binding bearer tokens to user identities,
//! and the three operations of the session lifecycle.
//!
//! A session is born when `issue_session` binds a freshly minted token to a
//! user id and hands back a hardened cookie, is proven on each request by
//! `validate_session`, and dies in `destroy_session`.  There are no other
//! transitions.  The store keeps at most one binding per token (exactly one
//! user id per live session id); a stale or unknown cookie degrades to "no
//! session" rather than an error.

use vstd::prelude::*;

verus! {

/// One binding from a session token to the user id it authenticates.
pub struct SessionRecord {
    /// The bearer token, as carried by the session cookie.
    pub token: String,
    /// The authenticated user.
    pub user_id: u64,
}

/// No token occurs twice: a token identifies at most one binding.
pub open spec fn tokens_unique(s: Seq<SessionRecord>) -> bool {
    forall|i: int, j: int| 0 <= i < j < s.len() ==> s[i].token@ != s[j].token@
}

/// Some binding carries this token.
pub open spec fn seq_has_token(s: Seq<SessionRecord>, tok: Seq<char>) -> bool {
    exists|i: int| 0 <= i < s.len() && #[trigger] s[i].token@ == tok
}

/// The position of the binding that carries this token (unique when
/// `tokens_unique` holds).
pub open spec fn seq_token_index(s: Seq<SessionRecord>, tok: Seq<char>) -> int {
    choose|i: int| 0 <= i < s.len() && #[trigger] s[i].token@ == tok
}

/// The user id bound to a token, if any.
pub open spec fn seq_lookup(s: Seq<SessionRecord>, tok: Seq<char>) -> Option<u64> {
    if seq_has_token(s, tok) {
        Some(s[seq_token_index(s, tok)].user_id)
    } else {
        None
    }
}

/// The store after binding `token` to `user_id`: an existing binding for
/// the token is overwritten (last write wins), otherwise one is appended.
pub open spec fn spec_put(s: Seq<SessionRecord>, token: String, user_id: u64) -> Seq<
    SessionRecord,
> {
    if seq_has_token(s, token@) {
        s.update(seq_token_index(s, token@), (SessionRecord { token, user_id }))
    } else {
        s.push((SessionRecord { token, user_id }))
    }
}

/// The store after removing the binding for a token; a store without that
/// binding is left as it is.
pub open spec fn spec_delete(s: Seq<SessionRecord>, tok: Seq<char>) -> Seq<SessionRecord> {
    if seq_has_token(s, tok) {
        s.remove(seq_token_index(s, tok))
    } else {
        s
    }
}

/// Law: right after a binding is written, looking its token up returns the
/// bound user id; every other token resolves as before, and tokens stay
/// unique.  This is the store half of "issue a session, then validate the
/// same request context, and the same user id comes back".
pub proof fn lemma_lookup_after_put(s: Seq<SessionRecord>, token: String, user_id: u64)
    requires
        tokens_unique(s),
    ensures
        tokens_unique(spec_put(s, token, user_id)),
        seq_lookup(spec_put(s, token, user_id), token@) == Some(user_id),
        forall|t: Seq<char>| t != token@ ==> #[trigger] seq_lookup(spec_put(s, token, user_id), t)
            == seq_lookup(s, t),
{
    let s2 = spec_put(s, token, user_id);
    if seq_has_token(s, token@) {
        let idx = seq_token_index(s, token@);
        assert(0 <= idx < s.len() && s[idx].token@ == token@);
        assert forall|i: int, j: int| 0 <= i < j < s2.len() implies s2[i].token@
            != s2[j].token@ by {
            assert(s[i].token@ != s[j].token@);
        }
        assert(s2[idx].token@ == token@);
        let jdx = seq_token_index(s2, token@);
        assert(0 <= jdx < s2.len() && s2[jdx].token@ == token@);
        assert(jdx == idx);
        assert(seq_lookup(s2, token@) == Some(user_id));
        assert forall|t: Seq<char>| t != token@ implies #[trigger] seq_lookup(s2, t) == seq_lookup(
            s,
            t,
        ) by {
            if seq_has_token(s2, t) {
                let j2 = seq_token_index(s2, t);
                assert(0 <= j2 < s2.len() && s2[j2].token@ == t);
                assert(j2 != idx);
                assert(s[j2].token@ == t);
                let j1 = seq_token_index(s, t);
                assert(0 <= j1 < s.len() && s[j1].token@ == t);
                assert(j1 == j2);
                assert(s2[j2].user_id == s[j1].user_id);
            } else if seq_has_token(s, t) {
                let j1 = seq_token_index(s, t);
                assert(0 <= j1 < s.len() && s[j1].token@ == t);
                assert(j1 != idx);
                assert(s2[j1].token@ == t);
            }
        }
    } else {
        let n = s.len() as int;
        assert(s2[n].token@ == token@);
        assert forall|i: int, j: int| 0 <= i < j < s2.len() implies s2[i].token@
            != s2[j].token@ by {
            if j < n {
                assert(s[i].token@ != s[j].token@);
            } else {
                assert(s2[i].token@ == s[i].token@);
            }
        }
        let jdx = seq_token_index(s2, token@);
        assert(0 <= jdx < s2.len() && s2[jdx].token@ == token@);
        assert(jdx == n);
        assert(seq_lookup(s2, token@) == Some(user_id));
        assert forall|t: Seq<char>| t != token@ implies #[trigger] seq_lookup(s2, t) == seq_lookup(
            s,
            t,
        ) by {
            if seq_has_token(s2, t) {
                let j2 = seq_token_index(s2, t);
                assert(0 <= j2 < s2.len() && s2[j2].token@ == t);
                assert(j2 != n);
                assert(s[j2].token@ == t);
                let j1 = seq_token_index(s, t);
                assert(j1 == j2);
            } else if seq_has_token(s, t) {
                let j1 = seq_token_index(s, t);
                assert(s2[j1].token@ == t);
            }
        }
    }
}

/// Law: right after the binding for a token is destroyed, looking that
/// token up returns no session, every other token resolves as before, and
/// destroying it again changes nothing.  This is the store half of "log
/// out, then validate, and no session comes back", and its idempotence.
pub proof fn lemma_lookup_after_delete(s: Seq<SessionRecord>, tok: Seq<char>)
    requires
        tokens_unique(s),
    ensures
        tokens_unique(spec_delete(s, tok)),
        seq_lookup(spec_delete(s, tok), tok) == None::<u64>,
        forall|t: Seq<char>| t != tok ==> #[trigger] seq_lookup(spec_delete(s, tok), t)
            == seq_lookup(s, t),
        spec_delete(spec_delete(s, tok), tok) == spec_delete(s, tok),
{
    let s2 = spec_delete(s, tok);
    if seq_has_token(s, tok) {
        let idx = seq_token_index(s, tok);
        assert(0 <= idx < s.len() && s[idx].token@ == tok);
        assert forall|i: int| 0 <= i < s2.len() implies s2[i] == (
        if i < idx {
            s[i]
        } else {
            s[i + 1]
        }) by {}
        assert forall|i: int, j: int| 0 <= i < j < s2.len() implies s2[i].token@
            != s2[j].token@ by {
            let i1: int = if i < idx {
                i
            } else {
                i + 1
            };
            let j1: int = if j < idx {
                j
            } else {
                j + 1
            };
            assert(s[i1].token@ != s[j1].token@);
        }
        assert forall|i: int| 0 <= i < s2.len() implies s2[i].token@ != tok by {
            let i1: int = if i < idx {
                i
            } else {
                i + 1
            };
            assert(i1 != idx);
            assert(s2[i].token@ == s[i1].token@);
        }
        assert(!seq_has_token(s2, tok));
        assert forall|t: Seq<char>| t != tok implies #[trigger] seq_lookup(s2, t) == seq_lookup(
            s,
            t,
        ) by {
            if seq_has_token(s2, t) {
                let j2 = seq_token_index(s2, t);
                assert(0 <= j2 < s2.len() && s2[j2].token@ == t);
                let j1: int = if j2 < idx {
                    j2
                } else {
                    j2 + 1
                };
                assert(s[j1].token@ == t);
                let j0 = seq_token_index(s, t);
                assert(0 <= j0 < s.len() && s[j0].token@ == t);
                assert(j0 == j1);
                assert(s2[j2].user_id == s[j0].user_id);
            } else if seq_has_token(s, t) {
                let j0 = seq_token_index(s, t);
                assert(0 <= j0 < s.len() && s[j0].token@ == t);
                assert(j0 != idx);
                let j2: int = if j0 < idx {
                    j0
                } else {
                    j0 - 1
                };
                assert(s2[j2].token@ == t);
            }
        }
    }
}

/// The session store: every binding currently live, tokens unique.
pub struct SessionStore {
    /// The live bindings.
    pub sessions: Vec<SessionRecord>,
}

impl SessionStore {
    /// Well-formedness: a token identifies at most one binding.
    pub open spec fn wf(self) -> bool {
        tokens_unique(self.sessions@)
    }

    /// The user id bound to a token, if any.
    pub open spec fn lookup(self, tok: Seq<char>) -> Option<u64> {
        seq_lookup(self.sessions@, tok)
    }

    /// The user id a request's session cookie resolves to: none when the
    /// cookie is absent, none when its token is unknown.
    pub open spec fn session_of(self, cookie: Option<String>) -> Option<u64> {
        match cookie {
            Some(t) => self.lookup(t@),
            None => None,
        }
    }

    /// An empty store: nothing resolves.
    pub fn new() -> (s: SessionStore)
        ensures
            s.wf(),
            s.sessions@.len() == 0,
            forall|t: Seq<char>| #[trigger] s.lookup(t) == None::<u64>,
    {
        SessionStore { sessions: Vec::new() }
    }

    /// The position of the binding for a token, if one is live.
    fn find_token(&self, token: &String) -> (r: Option<usize>)
        requires
            self.wf(),
        ensures
            match r {
                Some(i) => i < self.sessions@.len() && self.sessions@[i as int].token@ == token@
                    && seq_has_token(self.sessions@, token@) && i as int == seq_token_index(
                    self.sessions@,
                    token@,
                ),
                None => !seq_has_token(self.sessions@, token@),
            },
    {
        let n = self.sessions.len();
        let mut i: usize = 0;
        while i < n
            invariant
                self.wf(),
                n == self.sessions@.len(),
                i <= n,
                forall|k: int| 0 <= k < i ==> self.sessions@[k].token@ != token@,
            decreases n - i,
        {
            if self.sessions[i].token == *token {
                proof {
                    let idx = seq_token_index(self.sessions@, token@);
                    assert(0 <= idx < self.sessions@.len() && self.sessions@[idx].token@
                        == token@);
                    assert(idx == i as int);
                }
                return Some(i);
            }
            i = i + 1;
        }
        proof {
            if seq_has_token(self.sessions@, token@) {
                let idx = seq_token_index(self.sessions@, token@);
                assert(0 <= idx < self.sessions@.len() && self.sessions@[idx].token@ == token@);
            }
        }
        None
    }

    /// Binds `token` to `user_id`; an existing binding for the same token
    /// is overwritten (last write wins).
    pub fn put(&mut self, token: String, user_id: u64)
        requires
            old(self).wf(),
        ensures
            final(self).wf(),
            final(self).sessions@ == spec_put(old(self).sessions@, token, user_id),
            final(self).lookup(token@) == Some(user_id),
            forall|t: Seq<char>| t != token@ ==> #[trigger] final(self).lookup(t) == old(
                self,
            ).lookup(t),
    {
        proof {
            lemma_lookup_after_put(self.sessions@, token, user_id);
        }
        match self.find_token(&token) {
            Some(i) => {
                self.sessions[i] = SessionRecord { token, user_id };
            },
            None => {
                self.sessions.push(SessionRecord { token, user_id });
            },
        }
    }

    /// The user id bound to this token, if any.
    pub fn get(&self, token: &String) -> (r: Option<u64>)
        requires
            self.wf(),
        ensures
            r == self.lookup(token@),
    {
        match self.find_token(token) {
            Some(i) => Some(self.sessions[i].user_id),
            None => None,
        }
    }

    /// Removes the binding for this token; removing an absent binding is
    /// not an error and changes nothing.
    pub fn delete(&mut self, token: &String)
        requires
            old(self).wf(),
        ensures
            final(self).wf(),
            final(self).sessions@ == spec_delete(old(self).sessions@, token@),
            final(self).lookup(token@) == None::<u64>,
            forall|t: Seq<char>| t != token@ ==> #[trigger] final(self).lookup(t) == old(
                self,
            ).lookup(t),
            !seq_has_token(old(self).sessions@, token@) ==> final(self).sessions@ == old(
                self,
            ).sessions@,
    {
        proof {
            lemma_lookup_after_delete(self.sessions@, token@);
        }
        match self.find_token(token) {
            Some(i) => {
                self.sessions.remove(i);
            },
            None => {},
        }
    }
}

/// How strictly the browser is told to withhold the cookie from cross-site
/// requests; this design never issues a session cookie below `Lax`.
#[derive(Clone, Copy, Debug, PartialEq, Eq, Structural)]
pub enum SameSitePolicy {
    /// Sent on same-site requests only.
    Strict,
    /// Also sent on top-level cross-site navigation.
    Lax,
}

/// A session cookie as handed to the transport layer: the token value plus
/// the attributes the transport must set with it.
pub struct SessionCookie {
    /// The session token (empty when the cookie is being cleared).
    pub value: String,
    /// Unreadable from client script.
    pub http_only: bool,
    /// Sent over TLS only.
    pub secure: bool,
    /// Cross-site sending policy.
    pub same_site: SameSitePolicy,
    /// True when the cookie must be expired immediately.
    pub expire_now: bool,
}

/// The attribute floor for every session cookie this core emits.
pub open spec fn cookie_hardened(c: SessionCookie) -> bool {
    c.http_only && c.secure
}

/// Binds `session_token` to `user_id` in the store and returns the
/// response cookie that delivers the token: HTTP-only, secure, same-site
/// strict, not expiring.  Exactly one binding is written per call.
pub fn issue_session(store: &mut SessionStore, user_id: u64, session_token: String) -> (c:
    SessionCookie)
    requires
        old(store).wf(),
    ensures
        final(store).wf(),
        final(store).sessions@ == spec_put(old(store).sessions@, session_token, user_id),
        final(store).lookup(session_token@) == Some(user_id),
        forall|t: Seq<char>| t != session_token@ ==> #[trigger] final(store).lookup(t) == old(
            store,
        ).lookup(t),
        c.value@ == session_token@,
        final(store).sessions@ == spec_put(old(store).sessions@, c.value, user_id),
        cookie_hardened(c),
        c.same_site == SameSitePolicy::Strict,
        !c.expire_now,
        final(store).session_of(Some(c.value)) == Some(user_id),
{
    let value = session_token.clone();
    store.put(session_token, user_id);
    SessionCookie {
        value,
        http_only: true,
        secure: true,
        same_site: SameSitePolicy::Strict,
        expire_now: false,
    }
}

/// Resolves the session cookie of the current request to a user id.  An
/// absent cookie and an unknown or expired token both come back as "no
/// session", never as an error, so stale cookies degrade to the logged-out
/// state.
pub fn validate_session(store: &SessionStore, session_cookie: &Option<String>) -> (r: Option<
    u64,
>)
    requires
        store.wf(),
    ensures
        r == store.session_of(*session_cookie),
{
    match session_cookie {
        Some(t) => store.get(t),
        None => None,
    }
}

/// Removes the binding named by the request's session cookie (a no-op when
/// the cookie is absent or stale) and returns a cookie that clears the
/// browser's copy immediately.  Idempotent.
pub fn destroy_session(store: &mut SessionStore, session_cookie: &Option<String>) -> (c:
    SessionCookie)
    requires
        old(store).wf(),
    ensures
        final(store).wf(),
        match *session_cookie {
            Some(t) => final(store).sessions@ == spec_delete(old(store).sessions@, t@) && (
            forall|x: Seq<char>| x != t@ ==> #[trigger] final(store).lookup(x) == old(
                store,
            ).lookup(x)),
            None => final(store).sessions@ == old(store).sessions@,
        },
        final(store).session_of(*session_cookie) == None::<u64>,
        cookie_hardened(c),
        c.expire_now,
        c.value@.len() == 0,
{
    match session_cookie {
        Some(t) => {
            store.delete(t);
        },
        None => {},
    }
    SessionCookie {
        value: String::new(),
        http_only: true,
        secure: true,
        same_site: SameSitePolicy::Strict,
        expire_now: true,
    }
}

} // verus!
