//! Usernames and the user registry: a map from case-folded username to the
//! user's outbound queue endpoint, with key uniqueness as its invariant, and
//! the fan-out broadcaster over it.

use crate::room::{channel_send_timeout, OneToMany};
use crate::strings::{self, norm_spec, trim_spec, validate_spec, ValidationResult};
use core::time::Duration;
use vstd::prelude::*;

verus! {

/// Per-recipient wait before a broadcast gives up on one queue, in milliseconds.
pub const SEND_TIMEOUT_MS: u64 = 100;

/// Why a registry operation failed or a username was rejected.
#[derive(Debug, Clone, PartialEq, Eq)]
pub enum Error {
    UsernameEmpty,
    UsernameTooLong,
    UsernameNotAlphanumeric,
    UsernameTaken(String),
    LockTimeout,
}

/// What `message` says for each error.
pub open spec fn user_error_text(e: &Error) -> Seq<char> {
    match e {
        Error::UsernameEmpty => "username cannot be empty"@,
        Error::UsernameTooLong => "username too long (max 32 chars)"@,
        Error::UsernameNotAlphanumeric => "username must be alphanumeric"@,
        Error::UsernameTaken(n) => "username '"@ + n@ + "' is already taken"@,
        Error::LockTimeout => "registry lock timeout"@,
    }
}

impl Error {
    /// The reason line sent back to the client.
    pub fn message(&self) -> (r: String)
        ensures
            r@ == user_error_text(self),
    {
        match self {
            Error::UsernameEmpty => String::from_str("username cannot be empty"),
            Error::UsernameTooLong => String::from_str("username too long (max 32 chars)"),
            Error::UsernameNotAlphanumeric => String::from_str("username must be alphanumeric"),
            Error::UsernameTaken(n) => String::from_str("username '").concat(n.as_str()).concat(
                "' is already taken",
            ),
            Error::LockTimeout => String::from_str("registry lock timeout"),
        }
    }
}

/// A validated username: trimmed, non-empty, at most 32 codepoints, every
/// codepoint alphanumeric or underscore.
#[derive(Debug, Eq, Hash)]
pub struct Username(String);

impl View for Username {
    type V = Seq<char>;

    closed spec fn view(&self) -> Seq<char> {
        self.0@
    }
}

impl Clone for Username {
    fn clone(&self) -> (r: Self)
        ensures
            r@ == self@,
    {
        Username(self.0.clone())
    }
}

impl PartialEq for Username {
    fn eq(&self, other: &Username) -> (r: bool) {
        self.0 == other.0
    }
}

impl vstd::std_specs::cmp::PartialEqSpecImpl for Username {
    open spec fn obeys_eq_spec() -> bool {
        true
    }

    open spec fn eq_spec(&self, other: &Username) -> bool {
        self@ == other@
    }
}

impl Username {
    /// Accepts a candidate, trims it, and keeps it only when validation says
    /// `Valid`; each rejection names its own error.
    pub fn new(s: &str) -> (r: Result<Username, Error>)
        ensures
            match r {
                Ok(u) => validate_spec(s@) == ValidationResult::Valid && u@ == trim_spec(s@),
                Err(e) => match e {
                    Error::UsernameEmpty => validate_spec(s@) == ValidationResult::Empty,
                    Error::UsernameTooLong => validate_spec(s@) == ValidationResult::TooLong,
                    Error::UsernameNotAlphanumeric => validate_spec(s@)
                        == ValidationResult::InvalidChars,
                    _ => false,
                },
            },
    {
        let trimmed = strings::trim_str(s);
        proof {
            strings::lemma_trim_idempotent(s@);
        }
        match strings::validate_username(trimmed) {
            ValidationResult::Valid => Ok(Username(trimmed.to_owned())),
            ValidationResult::Empty => Err(Error::UsernameEmpty),
            ValidationResult::TooLong => Err(Error::UsernameTooLong),
            ValidationResult::InvalidChars => Err(Error::UsernameNotAlphanumeric),
        }
    }

    /// The validated text.
    pub fn as_str(&self) -> (r: &str)
        ensures
            r@ == self@,
    {
        self.0.as_str()
    }

    /// The validated text, owned.
    pub fn text(&self) -> (r: String)
        ensures
            r@ == self@,
    {
        self.0.clone()
    }
}

/// A registered user: the username and the send end of its outbound queue.
#[derive(Debug)]
pub struct User {
    username: Username,
    tx: crossbeam::channel::Sender<OneToMany>,
}

impl Clone for User {
    fn clone(&self) -> (r: Self)
        ensures
            r.name() == self.name(),
    {
        User { username: self.username.clone(), tx: self.tx.clone() }
    }
}

impl User {
    /// The username this user registered under.
    pub closed spec fn name(&self) -> Seq<char> {
        self.username@
    }

    fn new(username: Username, tx: crossbeam::channel::Sender<OneToMany>) -> (r: Self)
        ensures
            r.name() == username@,
    {
        User { username, tx }
    }

    pub fn get_username(&self) -> (r: Username)
        ensures
            r@ == self.name(),
    {
        self.username.clone()
    }
}

/// The case-folded lookup key of a username.
#[derive(Debug, Eq, Hash)]
pub struct NormalizedKey(String);

impl View for NormalizedKey {
    type V = Seq<char>;

    closed spec fn view(&self) -> Seq<char> {
        self.0@
    }
}

impl Clone for NormalizedKey {
    fn clone(&self) -> (r: Self)
        ensures
            r@ == self@,
    {
        NormalizedKey(self.0.clone())
    }
}

impl PartialEq for NormalizedKey {
    fn eq(&self, other: &NormalizedKey) -> (r: bool) {
        self.0 == other.0
    }
}

impl vstd::std_specs::cmp::PartialEqSpecImpl for NormalizedKey {
    open spec fn obeys_eq_spec() -> bool {
        true
    }

    open spec fn eq_spec(&self, other: &NormalizedKey) -> bool {
        self@ == other@
    }
}

impl NormalizedKey {
    /// The key two colliding usernames share: the case-folded text.
    pub fn from_username(username: &Username) -> (r: Self)
        ensures
            r@ == norm_spec(username@),
    {
        NormalizedKey(strings::to_lowercase(username.as_str()))
    }
}

/// The registry: normalized key to user, keys unique.
pub struct UserRegistry {
    users: Vec<(NormalizedKey, User)>,
}

impl UserRegistry {
    /// The stored entries, as (key view, username view) pairs.
    pub closed spec fn entries(&self) -> Seq<(Seq<char>, Seq<char>)> {
        self.users@.map_values(|e: (NormalizedKey, User)| (e.0@, e.1.name()))
    }

    /// Key uniqueness, and each key is the case fold of its user's name: the
    /// registry never holds two entries with equal normalized keys.
    pub open spec fn wf(&self) -> bool {
        &&& forall|i: int, j: int|
            0 <= i < j < self.entries().len() ==> (#[trigger] self.entries()[i]).0 != (
            #[trigger] self.entries()[j]).0
        &&& forall|i: int|
            0 <= i < self.entries().len() ==> (#[trigger] self.entries()[i]).0 == norm_spec(
                self.entries()[i].1,
            )
    }

    /// Whether some entry is stored under this normalized key.
    pub open spec fn contains_norm(&self, key: Seq<char>) -> bool {
        exists|i: int| 0 <= i < self.entries().len() && (#[trigger] self.entries()[i]).0 == key
    }

    /// Whether some entry's username is exactly this text.
    pub open spec fn contains_name(&self, name: Seq<char>) -> bool {
        exists|i: int| 0 <= i < self.entries().len() && (#[trigger] self.entries()[i]).1 == name
    }

    /// How many users are registered.
    pub open spec fn user_count(&self) -> int {
        self.entries().len() as int
    }

    /// Registration succeeds exactly when the username's normalized key is
    /// not yet present.
    pub open spec fn can_register(&self, name: Seq<char>) -> bool {
        !self.contains_norm(norm_spec(name))
    }

    pub fn new() -> (r: Self)
        ensures
            r.wf(),
            r.user_count() == 0,
    {
        UserRegistry { users: Vec::new() }
    }

    /// Inserts the user under its normalized key; taken keys are refused, and
    /// the refusal names the candidate.
    pub fn register(
        &mut self,
        username: &Username,
        tx: crossbeam::channel::Sender<OneToMany>,
    ) -> (r: Result<User, Error>)
        requires
            old(self).wf(),
        ensures
            final(self).wf(),
            r is Ok <==> old(self).can_register(username@),
            match r {
                Ok(user) => {
                    &&& user.name() == username@
                    &&& final(self).entries() == old(self).entries().push(
                        (norm_spec(username@), username@),
                    )
                },
                Err(e) => {
                    &&& e matches Error::UsernameTaken(n) && n@ == username@
                    &&& *final(self) == *old(self)
                },
            },
    {
        let key = NormalizedKey::from_username(username);
        let n = self.users.len();
        let mut i: usize = 0;
        while i < n
            invariant
                0 <= i <= n,
                n == self.entries().len(),
                *self == *old(self),
                self.wf(),
                forall|k: int| 0 <= k < i ==> (#[trigger] self.entries()[k]).0 != key@,
                key@ == norm_spec(username@),
            decreases n - i,
        {
            assert(self.entries()[i as int].0 == self.users@[i as int].0@);
            if self.users[i].0 == key {
                return Err(Error::UsernameTaken(username.text()));
            }
            i += 1;
        }
        let user = User::new(username.clone(), tx);
        let stored = user.clone();
        self.users.push((key, user));
        proof {
            assert(self.entries() =~= old(self).entries().push(
                (norm_spec(username@), username@),
            ));
        }
        Ok(stored)
    }

    /// Removes the entry under the user's normalized key; says whether one
    /// was there. Idempotent: a second call returns false.
    pub fn unregister(&mut self, user: &User) -> (r: Result<bool, Error>)
        requires
            old(self).wf(),
        ensures
            final(self).wf(),
            r matches Ok(b) && b == old(self).contains_norm(norm_spec(user.name())),
            !final(self).contains_norm(norm_spec(user.name())),
            old(self).contains_norm(norm_spec(user.name())) ==> final(self).entries().len() == old(
                self,
            ).entries().len() - 1,
            !old(self).contains_norm(norm_spec(user.name())) ==> *final(self) == *old(self),
    {
        let key = NormalizedKey::from_username(&user.get_username());
        let n = self.users.len();
        let mut i: usize = 0;
        while i < n
            invariant
                0 <= i <= n,
                n == self.entries().len(),
                *self == *old(self),
                self.wf(),
                forall|k: int| 0 <= k < i ==> (#[trigger] self.entries()[k]).0 != key@,
                key@ == norm_spec(user.name()),
            decreases n - i,
        {
            assert(self.entries()[i as int].0 == self.users@[i as int].0@);
            if self.users[i].0 == key {
                self.users.remove(i);
                proof {
                    assert(self.entries() =~= old(self).entries().remove(i as int));
                    assert forall|k: int|
                        0 <= k < self.entries().len() implies (#[trigger] self.entries()[k]).0
                        != key@ by {
                        if k < i {
                            assert(self.entries()[k] == old(self).entries()[k]);
                        } else {
                            assert(self.entries()[k] == old(self).entries()[k + 1]);
                        }
                    }
                }
                return Ok(true);
            }
            i += 1;
        }
        Ok(false)
    }

    /// Snapshots every send endpoint but the excluded user's, then delivers
    /// the payload to each with a bounded per-recipient wait. The count of
    /// successful deliveries never exceeds the number of registered users,
    /// less one when the exclusion names a registered user.
    pub fn broadcast(&self, message: &OneToMany, exclude: Option<&Username>) -> (r: Result<
        usize,
        Error,
    >)
        ensures
            r matches Ok(n) && n <= self.user_count() - (match exclude {
                Some(ex) => {
                    if self.contains_name(ex@) {
                        1int
                    } else {
                        0int
                    }
                },
                None => 0int,
            }),
    {
        let n = self.users.len();
        let mut senders: Vec<crossbeam::channel::Sender<OneToMany>> = Vec::new();
        let mut i: usize = 0;
        while i < n
            invariant
                0 <= i <= n,
                n == self.entries().len(),
                senders@.len() <= i - (match exclude {
                    Some(ex) => {
                        if exists|k: int|
                            0 <= k < i && (#[trigger] self.entries()[k]).1 == ex@ {
                            1int
                        } else {
                            0int
                        }
                    },
                    None => 0int,
                }),
            decreases n - i,
        {
            assert(self.entries()[i as int].1 == self.users@[i as int].1.name());
            let excluded_here = match exclude {
                Some(ex) => &self.users[i].1.username == ex,
                None => false,
            };
            if !excluded_here {
                senders.push(self.users[i].1.tx.clone());
            }
            i += 1;
        }
        let m = senders.len();
        let mut sent_count: usize = 0;
        let mut j: usize = 0;
        while j < m
            invariant
                0 <= j <= m,
                m == senders@.len(),
                sent_count <= j,
            decreases m - j,
        {
            let timeout = Duration::from_millis(SEND_TIMEOUT_MS);
            if channel_send_timeout(&senders[j], message.clone(), timeout).is_ok() {
                sent_count += 1;
            }
            j += 1;
        }
        Ok(sent_count)
    }
}

/// Law: registering one username after another succeeds exactly when their
/// normalized keys differ. `r0` is any state where neither name is taken,
/// and `r1` is `r0` after a successful `register` of `u2` (its `ensures`
/// names that state); `register(u1)` then succeeds on `r1` iff the case
/// folds of `u1` and `u2` differ.
pub proof fn lemma_register_after_register(
    r0: UserRegistry,
    r1: UserRegistry,
    u1: Username,
    u2: Username,
)
    requires
        r0.wf(),
        r0.can_register(u1@),
        r0.can_register(u2@),
        r1.entries() == r0.entries().push((norm_spec(u2@), u2@)),
    ensures
        r1.can_register(u1@) <==> norm_spec(u1@) != norm_spec(u2@),
{
    let k1 = norm_spec(u1@);
    let k2 = norm_spec(u2@);
    let n = r0.entries().len() as int;
    assert(r1.entries()[n].0 == k2);
    if k1 == k2 {
        assert(r1.contains_norm(k1));
    } else {
        if r1.contains_norm(k1) {
            let i = choose|i: int|
                0 <= i < r1.entries().len() && (#[trigger] r1.entries()[i]).0 == k1;
            assert(i < n);
            assert(r0.entries()[i] == r1.entries()[i]);
            assert(r0.contains_norm(k1));
        }
    }
}

/// Law: a well-formed registry never holds two entries with equal normalized
/// keys. `register` and `unregister` each keep `wf`, so every state reachable
/// from `UserRegistry::new` satisfies this.
pub proof fn lemma_no_duplicate_keys(r: UserRegistry, i: int, j: int)
    requires
        r.wf(),
        0 <= i < r.entries().len(),
        0 <= j < r.entries().len(),
        i != j,
    ensures
        r.entries()[i].0 != r.entries()[j].0,
{
}

} // verus!
