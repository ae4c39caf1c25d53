//! The per-client session: a small store of named entries, and the two
//! entries that the sign-in flow keeps in it.
//!
//! The store is what the transport opens from the client's cookie and seals
//! again after the request. A cookie that cannot be opened gives the empty
//! store. An entry that is missing, or holds another kind of value than the
//! reader asks for, reads as absent.

use vstd::prelude::*;
use vstd::string::StringExecFns;

verus! {

/// A sign-in that waits for its approval link to be followed.
#[derive(Clone, Debug, PartialEq, Eq)]
pub struct LoginChallenge {
    /// The identifier that the client submitted, as it came.
    pub user: String,
    /// The token that the approval link must bring back.
    pub challenge: String,
}

/// A pending sign-in, with its texts as sequences of characters.
pub struct PendingLogin {
    pub user: Seq<char>,
    pub challenge: Seq<char>,
}

impl View for LoginChallenge {
    type V = PendingLogin;

    open spec fn view(&self) -> PendingLogin {
        PendingLogin { user: self.user@, challenge: self.challenge@ }
    }
}

/// What an entry of the session can hold.
#[derive(Clone, Debug, PartialEq, Eq)]
pub enum SessionValue {
    /// A text, such as the signed-in user.
    Text(String),
    /// A pending sign-in.
    Challenge(LoginChallenge),
}

/// A value of the session, with its texts as sequences of characters.
pub enum StoredValue {
    Text(Seq<char>),
    Challenge(PendingLogin),
}

impl View for SessionValue {
    type V = StoredValue;

    open spec fn view(&self) -> StoredValue {
        match self {
            SessionValue::Text(text) => StoredValue::Text(text@),
            SessionValue::Challenge(pending) => StoredValue::Challenge(pending@),
        }
    }
}

/// The name of the entry that holds the pending sign-in.
pub open spec fn pending_key() -> Seq<char> {
    "pending_login_challenge"@
}

/// The name of the entry that holds the signed-in user.
pub open spec fn user_key() -> Seq<char> {
    "authenticated_user"@
}

/// The pending sign-in that a session holds: the entry of that name, where
/// it is there and holds a sign-in.
pub open spec fn pending_of(entries: Map<Seq<char>, StoredValue>) -> Option<PendingLogin> {
    if entries.contains_key(pending_key()) {
        match entries[pending_key()] {
            StoredValue::Challenge(pending) => Some(pending),
            StoredValue::Text(_) => None,
        }
    } else {
        None
    }
}

/// The signed-in user that a session holds: the entry of that name, where
/// it is there and holds a text.
pub open spec fn user_of(entries: Map<Seq<char>, StoredValue>) -> Option<Seq<char>> {
    if entries.contains_key(user_key()) {
        match entries[user_key()] {
            StoredValue::Text(user) => Some(user),
            StoredValue::Challenge(_) => None,
        }
    } else {
        None
    }
}

/// The session after a pending sign-in was written: the earlier pending
/// sign-in is replaced, every other entry stays.
pub open spec fn with_pending(
    entries: Map<Seq<char>, StoredValue>,
    user: Seq<char>,
    challenge: Seq<char>,
) -> Map<Seq<char>, StoredValue> {
    entries.insert(pending_key(), StoredValue::Challenge(PendingLogin { user, challenge }))
}

/// The session after `user` was recorded as signed in: every other entry
/// stays.
pub open spec fn with_authenticated(entries: Map<Seq<char>, StoredValue>, user: Seq<char>) -> Map<
    Seq<char>,
    StoredValue,
> {
    entries.insert(user_key(), StoredValue::Text(user))
}

/// The two names are different names.
pub proof fn lemma_keys_differ()
    ensures
        pending_key() != user_key(),
{
    reveal_strlit("pending_login_challenge");
    reveal_strlit("authenticated_user");
    assert(pending_key().len() == 23);
    assert(user_key().len() == 18);
}

/// The name of the entry that holds the pending sign-in.
pub fn pending_login_challenge_key() -> (key: &'static str)
    ensures
        key@ == pending_key(),
{
    "pending_login_challenge"
}

/// The name of the entry that holds the signed-in user.
pub fn authenticated_user_key() -> (key: &'static str)
    ensures
        key@ == user_key(),
{
    "authenticated_user"
}

/// The value that a list of entries gives for `key`: that of the first
/// entry of that name.
pub open spec fn lookup(entries: Seq<(String, SessionValue)>, key: Seq<char>) -> Option<StoredValue>
    decreases entries.len(),
{
    if entries.len() == 0 {
        None
    } else if entries[0].0@ == key {
        Some(entries[0].1@)
    } else {
        lookup(entries.drop_first(), key)
    }
}

/// Where no entry before `at` has the name `key`, the entry at `at` decides:
/// it is the one found if it has that name, and nothing is found if `at` is
/// the end.
proof fn lemma_lookup_first(entries: Seq<(String, SessionValue)>, key: Seq<char>, at: int)
    requires
        0 <= at <= entries.len(),
        forall|j: int| 0 <= j < at ==> (#[trigger] entries[j]).0@ != key,
    ensures
        at < entries.len() && entries[at].0@ == key ==> lookup(entries, key) == Some(entries[at].1@),
        at == entries.len() ==> lookup(entries, key).is_none(),
    decreases entries.len(),
{
    if entries.len() > 0 && at > 0 {
        let rest = entries.drop_first();
        assert(entries[0].0@ != key);
        assert forall|j: int| 0 <= j < at - 1 implies (#[trigger] rest[j]).0@ != key by {
            assert(rest[j] == entries[j + 1]);
        }
        lemma_lookup_first(rest, key, at - 1);
    }
}

/// Putting an entry in the place of one with the same name changes nothing
/// for any other name.
proof fn lemma_lookup_replaced(
    entries: Seq<(String, SessionValue)>,
    at: int,
    entry: (String, SessionValue),
    key: Seq<char>,
)
    requires
        0 <= at < entries.len(),
        entries[at].0@ == entry.0@,
        key != entry.0@,
    ensures
        lookup(entries.update(at, entry), key) == lookup(entries, key),
    decreases entries.len(),
{
    let changed = entries.update(at, entry);
    if at == 0 {
        assert(changed.drop_first() =~= entries.drop_first());
    } else {
        assert(changed[0] == entries[0]);
        assert(changed.drop_first() =~= entries.drop_first().update(at - 1, entry));
        lemma_lookup_replaced(entries.drop_first(), at - 1, entry, key);
    }
}

/// An entry that is added at the end is found only where none was found
/// before.
proof fn lemma_lookup_added(
    entries: Seq<(String, SessionValue)>,
    entry: (String, SessionValue),
    key: Seq<char>,
)
    ensures
        lookup(entries.push(entry), key) == match lookup(entries, key) {
            Some(found) => Some(found),
            None => if key == entry.0@ {
                Some(entry.1@)
            } else {
                None
            },
        },
    decreases entries.len(),
{
    let longer = entries.push(entry);
    if entries.len() == 0 {
        assert(longer[0] == entry);
        assert(longer.drop_first() =~= entries);
    } else {
        assert(longer[0] == entries[0]);
        assert(longer.drop_first() =~= entries.drop_first().push(entry));
        lemma_lookup_added(entries.drop_first(), entry, key);
    }
}

/// What one client's session holds: entries by name, each name once as far
/// as reading goes.
#[derive(Clone, Debug, PartialEq, Eq)]
pub struct Session {
    entries: Vec<(String, SessionValue)>,
}

impl View for Session {
    type V = Map<Seq<char>, StoredValue>;

    /// The session as a map from names to values.
    closed spec fn view(&self) -> Map<Seq<char>, StoredValue> {
        Map::new(
            |key: Seq<char>| lookup(self.entries@, key).is_some(),
            |key: Seq<char>| lookup(self.entries@, key).unwrap(),
        )
    }
}

impl Session {
    /// A session with no entry: that of a client that has sent nothing yet,
    /// or whose cookie could not be opened.
    pub fn new() -> (s: Session)
        ensures
            s@ == Map::<Seq<char>, StoredValue>::empty(),
    {
        let s = Session { entries: Vec::new() };
        assert(s@ =~= Map::<Seq<char>, StoredValue>::empty());
        s
    }

    /// The index of the first entry named `key`, or the number of entries
    /// where there is none.
    fn position(&self, key: &String) -> (at: usize)
        ensures
            at <= self.entries@.len(),
            forall|j: int| 0 <= j < at ==> (#[trigger] self.entries@[j]).0@ != key@,
            at < self.entries@.len() ==> self.entries@[at as int].0@ == key@,
    {
        let mut at: usize = 0;
        while at < self.entries.len()
            invariant
                at <= self.entries@.len(),
                forall|j: int| 0 <= j < at ==> (#[trigger] self.entries@[j]).0@ != key@,
            decreases self.entries@.len() - at,
        {
            if self.entries[at].0 == *key {
                return at;
            }
            at += 1;
        }
        at
    }

    /// The value of the entry named `key`, if there is one.
    pub fn get(&self, key: &str) -> (value: Option<&SessionValue>)
        ensures
            match value {
                Some(found) => self@.contains_key(key@) && self@[key@] == found@,
                None => !self@.contains_key(key@),
            },
    {
        let name = String::from_str(key);
        let at = self.position(&name);
        proof {
            lemma_lookup_first(self.entries@, key@, at as int);
        }
        if at < self.entries.len() {
            Some(&self.entries[at].1)
        } else {
            None
        }
    }

    /// Writes `value` under `key`, over the value that was there. Every
    /// other entry stays as it was.
    pub fn set(&mut self, key: &str, value: SessionValue)
        ensures
            final(self)@ == old(self)@.insert(key@, value@),
    {
        let name = String::from_str(key);
        let at = self.position(&name);
        let ghost before = self.entries@;
        let ghost entry = (name, value);
        if at < self.entries.len() {
            self.entries.set(at, (name, value));
            proof {
                lemma_lookup_first(self.entries@, key@, at as int);
                assert forall|other: Seq<char>| other != key@ implies lookup(self.entries@, other)
                    == lookup(before, other) by {
                    lemma_lookup_replaced(before, at as int, entry, other);
                }
            }
        } else {
            self.entries.push((name, value));
            proof {
                lemma_lookup_first(before, key@, at as int);
                assert forall|other: Seq<char>|
                    lookup(self.entries@, other) == (if other == key@ {
                        Some(value@)
                    } else {
                        lookup(before, other)
                    }) by {
                    lemma_lookup_added(before, entry, other);
                }
            }
        }
        assert(self@ =~= old(self)@.insert(key@, value@));
    }

    /// The pending sign-in, if there is one.
    pub fn pending(&self) -> (p: Option<&LoginChallenge>)
        ensures
            match p {
                Some(found) => pending_of(self@) == Some(found@),
                None => pending_of(self@).is_none(),
            },
    {
        match self.get("pending_login_challenge") {
            Some(SessionValue::Challenge(pending)) => Some(pending),
            _ => None,
        }
    }

    /// The signed-in user, if there is one.
    pub fn user(&self) -> (u: Option<&String>)
        ensures
            match u {
                Some(found) => user_of(self@) == Some(found@),
                None => user_of(self@).is_none(),
            },
    {
        match self.get("authenticated_user") {
            Some(SessionValue::Text(user)) => Some(user),
            _ => None,
        }
    }

    /// Whether the client is signed in.
    pub fn is_authenticated(&self) -> (b: bool)
        ensures
            b == user_of(self@).is_some(),
    {
        self.user().is_some()
    }

    /// Writes a pending sign-in over the one that was there.
    pub fn set_pending(&mut self, pending: LoginChallenge)
        ensures
            final(self)@ == with_pending(old(self)@, pending@.user, pending@.challenge),
    {
        self.set("pending_login_challenge", SessionValue::Challenge(pending));
    }

    /// Records `user` as signed in.
    pub fn set_authenticated_user(&mut self, user: String)
        ensures
            final(self)@ == with_authenticated(old(self)@, user@),
    {
        self.set("authenticated_user", SessionValue::Text(user));
    }
}

} // verus!
