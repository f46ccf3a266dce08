//! Session tokens: a map from opaque token to user name, and the identity
//! view built from the token a request presents.

use vstd::prelude::*;
use crate::application::id_provider::{opt_ref_view, IdProvider};
use crate::domain::field_errors::text_equal;
use crate::domain::hex_text::{encode_hex, hex_of};
use crate::domain::id::random_below;

verus! {

/// Number of random bytes in a token.
pub const TOKEN_BYTES: usize = 32;

/// One session as the contracts see it: token and user name.
pub type SessionEntry = (Seq<char>, Seq<char>);

/// The map that a list of sessions stands for; a later entry for the same
/// token wins.
pub open spec fn session_map(s: Seq<SessionEntry>) -> Map<Seq<char>, Seq<char>>
    decreases s.len(),
{
    if s.len() == 0 {
        Map::empty()
    } else {
        session_map(s.drop_last()).insert(s.last().0, s.last().1)
    }
}

/// The text of a token made from `secret`.
pub open spec fn token_text(secret: Seq<u8>) -> Seq<char> {
    hex_of(secret)
}

/// The sessions issued in this process: token to user name.
pub struct TokenProcessor {
    sessions: Vec<(String, String)>,
}

impl TokenProcessor {
    pub closed spec fn entries(&self) -> Seq<SessionEntry> {
        self.sessions@.map_values(|e: (String, String)| (e.0@, e.1@))
    }
}

impl View for TokenProcessor {
    type V = Map<Seq<char>, Seq<char>>;

    closed spec fn view(&self) -> Map<Seq<char>, Seq<char>> {
        session_map(self.entries())
    }
}

impl TokenProcessor {
    /// No sessions.
    pub fn new() -> (r: TokenProcessor)
        ensures
            r@ == Map::<Seq<char>, Seq<char>>::empty(),
    {
        let r = TokenProcessor { sessions: Vec::new() };
        assert(r.entries() =~= Seq::<SessionEntry>::empty());
        r
    }

    /// Records a session for `username` under the token made from `secret`,
    /// and returns that token.
    pub fn register_token(&mut self, secret: &[u8], username: &String) -> (token: String)
        ensures
            token@ == token_text(secret@),
            final(self)@ == old(self)@.insert(token@, username@),
    {
        let token = encode_hex(secret);
        self.sessions.push((token.clone(), username.clone()));
        assert(self.entries().drop_last() =~= old(self).entries());
        token
    }

    /// Issues a fresh token for `username`: 32 bytes drawn uniformly at
    /// random, as 64 lowercase hexadecimal digits.
    pub fn set_token_session(&mut self, username: &String) -> (token: String)
        ensures
            exists|secret: Seq<u8>|
                secret.len() == TOKEN_BYTES && #[trigger] token_text(secret) == token@,
            token@.len() == 2 * TOKEN_BYTES,
            final(self)@ == old(self)@.insert(token@, username@),
    {
        let mut secret: Vec<u8> = Vec::new();
        let mut i: usize = 0;
        while i < TOKEN_BYTES
            invariant
                i <= TOKEN_BYTES,
                secret@.len() == i,
            decreases TOKEN_BYTES - i,
        {
            let b = random_below(256) as u8;
            secret.push(b);
            i = i + 1;
        }
        let token = self.register_token(secret.as_slice(), username);
        assert(token_text(secret@) == token@);
        token
    }

    /// The user that `token` was issued for.
    pub fn get_token_session(&self, token: &str) -> (r: Result<String, String>)
        ensures
            match r {
                Ok(u) => self@.contains_key(token@) && u@ == self@[token@],
                Err(m) => !self@.contains_key(token@) && m@ == "Token not valid"@,
            },
    {
        let ghost s = self.entries();
        let mut i: usize = self.sessions.len();
        assert(s.take(i as int) =~= s);
        while i > 0
            invariant
                i <= s.len(),
                s == self.entries(),
                s.len() == self.sessions@.len(),
                session_map(s).contains_key(token@) == session_map(s.take(i as int)).contains_key(
                    token@,
                ),
                session_map(s).contains_key(token@) ==> session_map(s)[token@] == session_map(
                    s.take(i as int),
                )[token@],
            decreases i,
        {
            i = i - 1;
            let e = &self.sessions[i];
            assert(s[i as int] == (e.0@, e.1@));
            assert(s.take(i + 1).drop_last() =~= s.take(i as int));
            if text_equal(e.0.as_str(), token) {
                return Ok(e.1.clone());
            }
        }
        assert(s.take(0) =~= Seq::<SessionEntry>::empty());
        Err(String::from_str("Token not valid"))
    }

    /// Ends the session held under `token`; an unknown token is left alone.
    pub fn revoke_token(&mut self, token: &str)
        ensures
            final(self)@ == old(self)@.remove(token@),
    {
        let ghost s = self.entries();
        let mut kept: Vec<(String, String)> = Vec::new();
        let mut i: usize = 0;
        assert(s.take(0) =~= Seq::<SessionEntry>::empty());
        assert(kept@.map_values(|e: (String, String)| (e.0@, e.1@)) =~= Seq::<SessionEntry>::empty());
        while i < self.sessions.len()
            invariant
                i <= s.len(),
                s == self.entries(),
                s.len() == self.sessions@.len(),
                session_map(kept@.map_values(|e: (String, String)| (e.0@, e.1@))) =~= session_map(
                    s.take(i as int),
                ).remove(token@),
            decreases self.sessions.len() - i,
        {
            let e = &self.sessions[i];
            assert(s[i as int] == (e.0@, e.1@));
            assert(s.take(i + 1).drop_last() =~= s.take(i as int));
            if !text_equal(e.0.as_str(), token) {
                let ghost before = kept@;
                kept.push((e.0.clone(), e.1.clone()));
                assert(kept@.map_values(|e: (String, String)| (e.0@, e.1@)).drop_last()
                    =~= before.map_values(|e: (String, String)| (e.0@, e.1@)));
            }
            i = i + 1;
        }
        assert(s.take(s.len() as int) =~= s);
        self.sessions = kept;
    }
}

/// A token issued for a user resolves to that user, and a token never issued
/// resolves to nothing.
pub proof fn lemma_token_round_trip(
    sessions: Map<Seq<char>, Seq<char>>,
    token: Seq<char>,
    username: Seq<char>,
    other: Seq<char>,
)
    requires
        other != token,
        !sessions.contains_key(other),
    ensures
        sessions.insert(token, username).contains_key(token),
        sessions.insert(token, username)[token] == username,
        !sessions.insert(token, username).contains_key(other),
{
}

/// The sessions after issuing each (token, user) pair in turn, as
/// `set_token_session` and `register_token` do.
pub open spec fn issue_all(
    sessions: Map<Seq<char>, Seq<char>>,
    issued: Seq<SessionEntry>,
) -> Map<Seq<char>, Seq<char>>
    decreases issued.len(),
{
    if issued.len() == 0 {
        sessions
    } else {
        issue_all(sessions, issued.drop_last()).insert(issued.last().0, issued.last().1)
    }
}

/// A token keeps resolving to the user it was issued for through any number
/// of later issuances of other tokens.
pub proof fn lemma_token_survives_later_issues(
    sessions: Map<Seq<char>, Seq<char>>,
    token: Seq<char>,
    username: Seq<char>,
    later: Seq<SessionEntry>,
)
    requires
        forall|i: int| 0 <= i < later.len() ==> #[trigger] later[i].0 != token,
    ensures
        issue_all(sessions.insert(token, username), later).contains_key(token),
        issue_all(sessions.insert(token, username), later)[token] == username,
    decreases later.len(),
{
    if later.len() > 0 {
        let rest = later.drop_last();
        assert forall|i: int| 0 <= i < rest.len() implies #[trigger] rest[i].0 != token by {
            assert(rest[i] == later[i]);
        }
        lemma_token_survives_later_issues(sessions, token, username, rest);
        assert(later[later.len() - 1].0 != token);
    }
}

/// On a processor that started empty, a token that no issuance produced
/// resolves to nothing.
pub proof fn lemma_unissued_token_unknown(issued: Seq<SessionEntry>, token: Seq<char>)
    requires
        forall|i: int| 0 <= i < issued.len() ==> #[trigger] issued[i].0 != token,
    ensures
        !issue_all(Map::empty(), issued).contains_key(token),
    decreases issued.len(),
{
    if issued.len() > 0 {
        let rest = issued.drop_last();
        assert forall|i: int| 0 <= i < rest.len() implies #[trigger] rest[i].0 != token by {
            assert(rest[i] == issued[i]);
        }
        lemma_unissued_token_unknown(rest, token);
        assert(issued[issued.len() - 1].0 != token);
    }
}

/// The identity as the contracts see it.
pub struct IdentityView {
    pub token: Option<Seq<char>>,
    pub username: Option<Seq<char>>,
    pub is_auth: bool,
}

/// The identity of one request, resolved from the token it presents.
pub struct IdTokenProvider {
    token: Option<String>,
    username: Option<String>,
    is_auth: bool,
}

impl View for IdTokenProvider {
    type V = IdentityView;

    closed spec fn view(&self) -> IdentityView {
        IdentityView {
            token: match self.token {
                Some(t) => Some(t@),
                None => None,
            },
            username: match self.username {
                Some(u) => Some(u@),
                None => None,
            },
            is_auth: self.is_auth,
        }
    }
}

/// The identity of a caller that presented no token.
pub open spec fn anonymous_view() -> IdentityView {
    IdentityView { token: None, username: None, is_auth: false }
}

/// The identity of a caller that presented `token`, issued for `username`.
pub open spec fn signed_in_view(token: Seq<char>, username: Seq<char>) -> IdentityView {
    IdentityView { token: Some(token), username: Some(username), is_auth: true }
}

impl IdTokenProvider {
    /// Resolves the identity of a request: none without a token, the user
    /// the token was issued for with one, and an error for an unknown token.
    pub fn new(token: Option<String>, token_processor: &TokenProcessor) -> (r: Result<
        IdTokenProvider,
        String,
    >)
        ensures
            match token {
                None => r matches Ok(p) && p@ == anonymous_view(),
                Some(t) => if token_processor@.contains_key(t@) {
                    r matches Ok(p) && p@ == signed_in_view(t@, token_processor@[t@])
                } else {
                    r matches Err(m) && m@ == "Token not valid"@
                },
            },
    {
        match token {
            Some(token) => {
                let username = token_processor.get_token_session(token.as_str())?;
                Ok(IdTokenProvider { token: Some(token), username: Some(username), is_auth: true })
            },
            None => Ok(IdTokenProvider { token: None, username: None, is_auth: false }),
        }
    }

    /// Whether the caller is signed in; then a user name is known.
    pub fn signed_in(&self) -> (r: bool)
        ensures
            r == self@.is_auth,
            r ==> self@.username is Some,
    {
        proof {
            use_type_invariant(self);
        }
        self.is_auth
    }

    #[verifier::type_invariant]
    spec fn wf(self) -> bool {
        self.is_auth == self.token.is_some() && self.is_auth == self.username.is_some()
    }
}

impl IdProvider for IdTokenProvider {
    fn token(&self) -> (r: Option<&String>)
        ensures
            opt_ref_view(r) == self@.token,
            r is Some == self@.is_auth,
    {
        proof {
            use_type_invariant(self);
        }
        self.token.as_ref()
    }

    fn username(&self) -> (r: Option<&String>)
        ensures
            opt_ref_view(r) == self@.username,
            r is Some == self@.is_auth,
    {
        proof {
            use_type_invariant(self);
        }
        self.username.as_ref()
    }

    fn is_auth(&self) -> (r: bool)
        ensures
            r == self@.is_auth,
    {
        self.is_auth
    }
}

} // verus!
