use vstd::prelude::*;

verus! {

/// Timestamps handled by the library are seconds since the Unix epoch in
/// `0..=MAX_UNIX_TIME` (the end of the year 9999).
pub const MAX_UNIX_TIME: i64 = 253402300799;

/// Errors of the authentication core. Security-sensitive causes are collapsed
/// (`InvalidLogin`, `InvalidToken`) so that callers learn no more than needed.
#[derive(Debug, Clone, Copy, PartialEq, Eq, Structural)]
pub enum BackendError {
    InvalidLogin,
    InvalidToken,
    EmailNotVerified,
    UnknownSubject,
    Mismatch,
    TooWeak,
    InvalidFormat,
    InvalidOrExpiredToken,
    NotOwner,
    NotFound,
    MissingSecret,
    Internal,
}

/// The body of every successful operation that has nothing else to say.
#[derive(Debug, Clone, Copy, PartialEq, Eq, Structural)]
pub struct SuccessResponse {
    pub success: bool,
}

impl SuccessResponse {
    pub fn ok() -> (r: SuccessResponse)
        ensures
            r.success,
    {
        SuccessResponse { success: true }
    }
}

/// Instance configuration.
#[derive(Debug)]
pub struct Config {
    /// Public domain of this instance; the issuer of session tokens.
    pub domain: String,
    /// Whether a user must have verified their email before logging in.
    pub email_required: bool,
    /// Secret that signs session tokens.
    pub jwt_secret: Option<String>,
    /// Whether session cookies carry the `Secure` attribute (off in development).
    pub secure_cookies: bool,
    /// Fewest characters a new password may have.
    pub min_password_length: usize,
    /// Most characters a new password may have.
    pub max_password_length: usize,
    /// Work factor of stored password hashes (bcrypt allows 4 to 31).
    pub hash_cost: u32,
}

/// Private, authentication-relevant part of an account.
#[derive(Debug)]
pub struct LocalUser {
    pub id: u64,
    pub password_encrypted: Option<String>,
    pub email: Option<String>,
    pub email_verified: bool,
    pub email_notifications: bool,
}

/// Public profile of an account.
#[derive(Debug)]
pub struct Person {
    pub id: u64,
    pub username: String,
    pub display_name: Option<String>,
    pub bio: Option<String>,
}

/// An account: its public person and its private local user.
#[derive(Debug)]
pub struct LocalUserView {
    pub person: Person,
    pub local_user: LocalUser,
}

/// A pending password reset, consumed at most once.
#[derive(Debug)]
pub struct PasswordResetRequest {
    pub token: String,
    pub local_user_id: u64,
    pub created_at: i64,
    pub expiry: i64,
}

/// A pending email address, committed once its token is confirmed.
#[derive(Debug)]
pub struct EmailVerification {
    pub token: String,
    pub local_user_id: u64,
    pub pending_email: String,
}

/// A notification addressed to one local user.
#[derive(Debug, Clone, Copy, PartialEq, Eq, Structural)]
pub struct Notification {
    pub id: u64,
    pub recipient_id: u64,
    pub read: bool,
    pub created_at: i64,
}

/// Configuration and the records this core reads and writes.
#[derive(Debug)]
pub struct IbisContext {
    pub conf: Config,
    pub users: Vec<LocalUserView>,
    pub reset_requests: Vec<PasswordResetRequest>,
    pub verifications: Vec<EmailVerification>,
    pub notifications: Vec<Notification>,
}

pub open spec fn valid_time(t: i64) -> bool {
    0 <= t <= MAX_UNIX_TIME
}

pub fn clone_opt_string(o: &Option<String>) -> (r: Option<String>)
    ensures
        r == *o,
{
    match o {
        Some(s) => Some(s.clone()),
        None => None,
    }
}

impl Person {
    pub fn duplicate(&self) -> (r: Person)
        ensures
            r == *self,
    {
        Person {
            id: self.id,
            username: self.username.clone(),
            display_name: clone_opt_string(&self.display_name),
            bio: clone_opt_string(&self.bio),
        }
    }
}

impl LocalUser {
    pub fn duplicate(&self) -> (r: LocalUser)
        ensures
            r == *self,
    {
        LocalUser {
            id: self.id,
            password_encrypted: clone_opt_string(&self.password_encrypted),
            email: clone_opt_string(&self.email),
            email_verified: self.email_verified,
            email_notifications: self.email_notifications,
        }
    }
}

impl LocalUserView {
    pub fn duplicate(&self) -> (r: LocalUserView)
        ensures
            r == *self,
    {
        LocalUserView { person: self.person.duplicate(), local_user: self.local_user.duplicate() }
    }
}

/// Whether `u` answers to `ident` as a username.
pub open spec fn has_username(u: LocalUserView, ident: Seq<char>) -> bool {
    u.person.username@ == ident
}

/// Whether `u` answers to `ident` as an email address.
pub open spec fn has_email(u: LocalUserView, ident: Seq<char>) -> bool {
    u.local_user.email matches Some(e) && e@ == ident
}

/// Index of the first user whose username is `ident`.
pub open spec fn first_by_name(users: Seq<LocalUserView>, ident: Seq<char>) -> Option<int> {
    if exists|i: int|
        0 <= i < users.len() && has_username(#[trigger] users[i], ident) && forall|j: int|
            0 <= j < i ==> !has_username(#[trigger] users[j], ident) {
        let i = choose|i: int|
            0 <= i < users.len() && has_username(#[trigger] users[i], ident) && forall|j: int|
                0 <= j < i ==> !has_username(#[trigger] users[j], ident);
        Some(i)
    } else {
        None
    }
}

/// Index of the first user whose email is `ident`.
pub open spec fn first_by_email(users: Seq<LocalUserView>, ident: Seq<char>) -> Option<int> {
    if exists|i: int|
        0 <= i < users.len() && has_email(#[trigger] users[i], ident) && forall|j: int|
            0 <= j < i ==> !has_email(#[trigger] users[j], ident) {
        let i = choose|i: int|
            0 <= i < users.len() && has_email(#[trigger] users[i], ident) && forall|j: int|
                0 <= j < i ==> !has_email(#[trigger] users[j], ident);
        Some(i)
    } else {
        None
    }
}

/// The user that `ident` names: a username match wins over an email match.
pub open spec fn find_user(users: Seq<LocalUserView>, ident: Seq<char>) -> Option<int> {
    match first_by_name(users, ident) {
        Some(i) => Some(i),
        None => first_by_email(users, ident),
    }
}

/// Index of the user whose local user id is `id`.
pub open spec fn user_with_id(users: Seq<LocalUserView>, id: u64) -> Option<int> {
    if exists|i: int| 0 <= i < users.len() && (#[trigger] users[i]).local_user.id == id {
        Some(choose|i: int| 0 <= i < users.len() && (#[trigger] users[i]).local_user.id == id)
    } else {
        None
    }
}

impl IbisContext {
    /// Usernames, local user ids, reset tokens, verification tokens and
    /// notification ids are each unique.
    #[verifier::opaque]
    pub open spec fn wf(&self) -> bool {
        &&& forall|i: int, j: int|
            0 <= i < j < self.users@.len() ==> (#[trigger] self.users@[i]).person.username@
                != (#[trigger] self.users@[j]).person.username@
        &&& forall|i: int, j: int|
            0 <= i < j < self.users@.len() ==> (#[trigger] self.users@[i]).local_user.id
                != (#[trigger] self.users@[j]).local_user.id
        &&& forall|i: int, j: int|
            0 <= i < j < self.reset_requests@.len() ==> (#[trigger] self.reset_requests@[i]).token@
                != (#[trigger] self.reset_requests@[j]).token@
        &&& forall|i: int, j: int|
            0 <= i < j < self.verifications@.len() ==> (#[trigger] self.verifications@[i]).token@
                != (#[trigger] self.verifications@[j]).token@
        &&& forall|i: int, j: int|
            0 <= i < j < self.notifications@.len() ==> (#[trigger] self.notifications@[i]).id
                != (#[trigger] self.notifications@[j]).id
    }

    /// Index of the first user that `ident` names as a username, or else as an
    /// email address.
    pub fn find_user(&self, ident: &str) -> (r: Option<usize>)
        ensures
            r matches Some(i) ==> i < self.users@.len() && Some(i as int) == find_user(self.users@, ident@),
            r is None ==> find_user(self.users@, ident@) is None,
    {
        match self.find_user_by_name(ident) {
            Some(i) => Some(i),
            None => self.find_user_by_email(ident),
        }
    }

    /// Index of the first user whose username is `name`.
    pub fn find_user_by_name(&self, name: &str) -> (r: Option<usize>)
        ensures
            r matches Some(i) ==> i < self.users@.len() && Some(i as int) == first_by_name(self.users@, name@),
            r is None ==> first_by_name(self.users@, name@) is None,
    {
        let mut i: usize = 0;
        while i < self.users.len()
            invariant
                i <= self.users@.len(),
                forall|j: int| 0 <= j < i ==> !has_username(#[trigger] self.users@[j], name@),
            decreases self.users@.len() - i,
        {
            if crate::text::same_text(self.users[i].person.username.as_str(), name) {
                assert(has_username(self.users@[i as int], name@));
                return Some(i);
            }
            i += 1;
        }
        None
    }

    /// Index of the first user whose email address is `email`.
    pub fn find_user_by_email(&self, email: &str) -> (r: Option<usize>)
        ensures
            r matches Some(i) ==> i < self.users@.len() && Some(i as int) == first_by_email(self.users@, email@),
            r is None ==> first_by_email(self.users@, email@) is None,
    {
        let mut k: usize = 0;
        while k < self.users.len()
            invariant
                k <= self.users@.len(),
                forall|j: int| 0 <= j < k ==> !has_email(#[trigger] self.users@[j], email@),
            decreases self.users@.len() - k,
        {
            match &self.users[k].local_user.email {
                Some(e) => {
                    if crate::text::same_text(e.as_str(), email) {
                        assert(has_email(self.users@[k as int], email@));
                        return Some(k);
                    }
                },
                None => {},
            }
            k += 1;
        }
        None
    }

    /// Index of the user whose local user id is `id`.
    pub fn find_user_by_id(&self, id: u64) -> (r: Option<usize>)
        requires
            self.wf(),
        ensures
            r matches Some(i) ==> i < self.users@.len() && Some(i as int) == user_with_id(self.users@, id),
            r is None ==> user_with_id(self.users@, id) is None,
    {
        let mut i: usize = 0;
        while i < self.users.len()
            invariant
                self.wf(),
                i <= self.users@.len(),
                forall|j: int| 0 <= j < i ==> (#[trigger] self.users@[j]).local_user.id != id,
            decreases self.users@.len() - i,
        {
            if self.users[i].local_user.id == id {
                proof {
                    reveal(IbisContext::wf);
                    assert(exists|x: int|
                        0 <= x < self.users@.len() && (#[trigger] self.users@[x]).local_user.id == id);
                    let c = choose|c: int|
                        0 <= c < self.users@.len() && (#[trigger] self.users@[c]).local_user.id == id;
                    assert(self.users@[i as int].local_user.id == id);
                    if c < i {
                        assert(self.users@[c].local_user.id != self.users@[i as int].local_user.id);
                    } else if c > i {
                        assert(self.users@[i as int].local_user.id != self.users@[c].local_user.id);
                    }
                }
                return Some(i);
            }
            i += 1;
        }
        None
    }
}

} // verus!

verus! {

/// Whether no text occurs twice in `keys`.
fn distinct_texts(keys: &Vec<String>) -> (r: bool)
    ensures
        r == forall|a: int, b: int| 0 <= a < b < keys@.len() ==> (#[trigger] keys@[a])@ != (#[trigger] keys@[b])@,
{
    let mut b: usize = 0;
    while b < keys.len()
        invariant
            b <= keys@.len(),
            forall|x: int, y: int| 0 <= x < y < b ==> (#[trigger] keys@[x])@ != (#[trigger] keys@[y])@,
        decreases keys@.len() - b,
    {
        let mut a: usize = 0;
        while a < b
            invariant
                a <= b < keys@.len(),
                forall|x: int, y: int| 0 <= x < y < b ==> (#[trigger] keys@[x])@ != (#[trigger] keys@[y])@,
                forall|x: int| 0 <= x < a ==> (#[trigger] keys@[x])@ != keys@[b as int]@,
            decreases b - a,
        {
            if keys[a] == keys[b] {
                return false;
            }
            a += 1;
        }
        b += 1;
    }
    true
}

/// Whether no id occurs twice in `ids`.
fn distinct_ids(ids: &Vec<u64>) -> (r: bool)
    ensures
        r == forall|a: int, b: int| 0 <= a < b < ids@.len() ==> #[trigger] ids@[a] != #[trigger] ids@[b],
{
    let mut b: usize = 0;
    while b < ids.len()
        invariant
            b <= ids@.len(),
            forall|x: int, y: int| 0 <= x < y < b ==> #[trigger] ids@[x] != #[trigger] ids@[y],
        decreases ids@.len() - b,
    {
        let mut a: usize = 0;
        while a < b
            invariant
                a <= b < ids@.len(),
                forall|x: int, y: int| 0 <= x < y < b ==> #[trigger] ids@[x] != #[trigger] ids@[y],
                forall|x: int| 0 <= x < a ==> #[trigger] ids@[x] != ids@[b as int],
            decreases b - a,
        {
            if ids[a] == ids[b] {
                return false;
            }
            a += 1;
        }
        b += 1;
    }
    true
}

impl IbisContext {
    /// Checks `wf`: usernames, local user ids, reset tokens, verification
    /// tokens and notification ids are each unique.
    pub fn well_formed(&self) -> (r: bool)
        ensures
            r == self.wf(),
    {
        proof {
            reveal(IbisContext::wf);
        }
        let mut names: Vec<String> = Vec::new();
        let mut ids: Vec<u64> = Vec::new();
        let mut i: usize = 0;
        while i < self.users.len()
            invariant
                i <= self.users@.len(),
                names@.len() == i,
                ids@.len() == i,
                forall|j: int| 0 <= j < i ==> (#[trigger] names@[j])@ == self.users@[j].person.username@,
                forall|j: int| 0 <= j < i ==> #[trigger] ids@[j] == self.users@[j].local_user.id,
            decreases self.users@.len() - i,
        {
            names.push(self.users[i].person.username.clone());
            ids.push(self.users[i].local_user.id);
            i += 1;
        }
        let mut resets: Vec<String> = Vec::new();
        let mut k: usize = 0;
        while k < self.reset_requests.len()
            invariant
                k <= self.reset_requests@.len(),
                resets@.len() == k,
                forall|j: int| 0 <= j < k ==> (#[trigger] resets@[j])@ == self.reset_requests@[j].token@,
            decreases self.reset_requests@.len() - k,
        {
            resets.push(self.reset_requests[k].token.clone());
            k += 1;
        }
        let mut verifs: Vec<String> = Vec::new();
        let mut m: usize = 0;
        while m < self.verifications.len()
            invariant
                m <= self.verifications@.len(),
                verifs@.len() == m,
                forall|j: int| 0 <= j < m ==> (#[trigger] verifs@[j])@ == self.verifications@[j].token@,
            decreases self.verifications@.len() - m,
        {
            verifs.push(self.verifications[m].token.clone());
            m += 1;
        }
        let mut nids: Vec<u64> = Vec::new();
        let mut q: usize = 0;
        while q < self.notifications.len()
            invariant
                q <= self.notifications@.len(),
                nids@.len() == q,
                forall|j: int| 0 <= j < q ==> #[trigger] nids@[j] == self.notifications@[j].id,
            decreases self.notifications@.len() - q,
        {
            nids.push(self.notifications[q].id);
            q += 1;
        }
        let r1 = distinct_texts(&names);
        let r2 = distinct_ids(&ids);
        let r3 = distinct_texts(&resets);
        let r4 = distinct_texts(&verifs);
        let r5 = distinct_ids(&nids);
        proof {
            if r5 {
                assert forall|a: int, b: int| 0 <= a < b < self.notifications@.len() implies (#[trigger] self.notifications@[a]).id
                    != (#[trigger] self.notifications@[b]).id by {
                    assert(nids@[a] != nids@[b]);
                }
            } else {
                let (a, b) = choose|a: int, b: int| 0 <= a < b < nids@.len() && nids@[a] == nids@[b];
                assert(self.notifications@[a].id == self.notifications@[b].id);
            }
            if r1 {
                assert forall|a: int, b: int| 0 <= a < b < self.users@.len() implies (#[trigger] self.users@[a]).person.username@
                    != (#[trigger] self.users@[b]).person.username@ by {
                    assert(names@[a]@ != names@[b]@);
                }
            } else {
                let (a, b) = choose|a: int, b: int| 0 <= a < b < names@.len() && names@[a]@ == names@[b]@;
                assert(self.users@[a].person.username@ == self.users@[b].person.username@);
            }
            if r2 {
                assert forall|a: int, b: int| 0 <= a < b < self.users@.len() implies (#[trigger] self.users@[a]).local_user.id
                    != (#[trigger] self.users@[b]).local_user.id by {
                    assert(ids@[a] != ids@[b]);
                }
            } else {
                let (a, b) = choose|a: int, b: int| 0 <= a < b < ids@.len() && ids@[a] == ids@[b];
                assert(self.users@[a].local_user.id == self.users@[b].local_user.id);
            }
            if r3 {
                assert forall|a: int, b: int| 0 <= a < b < self.reset_requests@.len() implies (#[trigger] self.reset_requests@[a]).token@
                    != (#[trigger] self.reset_requests@[b]).token@ by {
                    assert(resets@[a]@ != resets@[b]@);
                }
            } else {
                let (a, b) = choose|a: int, b: int| 0 <= a < b < resets@.len() && resets@[a]@ == resets@[b]@;
                assert(self.reset_requests@[a].token@ == self.reset_requests@[b].token@);
            }
            if r4 {
                assert forall|a: int, b: int| 0 <= a < b < self.verifications@.len() implies (#[trigger] self.verifications@[a]).token@
                    != (#[trigger] self.verifications@[b]).token@ by {
                    assert(verifs@[a]@ != verifs@[b]@);
                }
            } else {
                let (a, b) = choose|a: int, b: int| 0 <= a < b < verifs@.len() && verifs@[a]@ == verifs@[b]@;
                assert(self.verifications@[a].token@ == self.verifications@[b].token@);
            }
        }
        r1 && r2 && r3 && r4 && r5
    }
}

} // verus!
