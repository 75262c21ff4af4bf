use vstd::prelude::*;

use crate::types::AccountId;

verus! {

/// A registered user's profile.
#[derive(Debug, Clone, PartialEq, Eq)]
pub struct User {
    /// Position in registration order, counting from 1.
    pub id: u64,
    pub user: AccountId,
    pub name: String,
    pub email: String,
    pub registered: bool,
    /// Ledger time of the registration.
    pub timestamp: u64,
}

/// The mathematical value of a [`User`].
pub struct UserView {
    pub id: int,
    pub user: Seq<char>,
    pub name: Seq<char>,
    pub email: Seq<char>,
    pub registered: bool,
    pub timestamp: int,
}

impl View for User {
    type V = UserView;

    open spec fn view(&self) -> UserView {
        UserView {
            id: self.id as int,
            user: self.user@,
            name: self.name@,
            email: self.email@,
            registered: self.registered,
            timestamp: self.timestamp as int,
        }
    }
}

/// A profile together with the ledger sequence number at which it was registered.
pub struct UserEntry {
    pub profile: User,
    pub registration_ledger: u32,
}

/// The mathematical value of a [`UserEntry`].
pub struct UserEntryView {
    pub profile: UserView,
    pub registration_ledger: u32,
}

impl View for UserEntry {
    type V = UserEntryView;

    open spec fn view(&self) -> UserEntryView {
        UserEntryView { profile: self.profile@, registration_ledger: self.registration_ledger }
    }
}

/// Whether some entry of `users` belongs to `address`.
pub open spec fn is_registered(users: Seq<UserEntryView>, address: Seq<char>) -> bool {
    exists|i: int| 0 <= i < users.len() && #[trigger] users[i].profile.user == address
}

/// The text `login` returns for an unknown account.
pub open spec fn unknown_user_text() -> Seq<char> {
    "User not found"@
}

/// The registered users, in registration order, at most one per account.
pub struct UserRegistry {
    entries: Vec<UserEntry>,
}

impl View for UserRegistry {
    type V = Seq<UserEntryView>;

    closed spec fn view(&self) -> Seq<UserEntryView> {
        self.entries@.map_values(|e: UserEntry| e@)
    }
}

impl UserRegistry {
    /// No account has two entries.
    #[verifier::type_invariant]
    spec fn accounts_unique(self) -> bool {
        forall|i: int, j: int|
            0 <= i < self.entries@.len() && 0 <= j < self.entries@.len()
                && #[trigger] self.entries@[i].profile.user@ == #[trigger] self.entries@[j].profile.user@
                ==> i == j
    }

    /// A registry without users.
    pub fn new() -> (r: UserRegistry)
        ensures
            r@ == Seq::<UserEntryView>::empty(),
    {
        let r = UserRegistry { entries: Vec::new() };
        assert(r@ =~= Seq::<UserEntryView>::empty());
        r
    }

    /// The number of registered users.
    pub fn len(&self) -> (r: usize)
        ensures
            r == self@.len(),
    {
        self.entries.len()
    }

    /// The position of the entry of `address`.
    fn position_of(&self, address: &AccountId) -> (r: Option<usize>)
        ensures
            r matches Some(i) ==> i < self@.len() && self@[i as int].profile.user == address@,
            r is None ==> !is_registered(self@, address@),
    {
        let mut i: usize = 0;
        while i < self.entries.len()
            invariant
                i <= self.entries@.len(),
                forall|k: int| 0 <= k < i ==> #[trigger] self@[k].profile.user != address@,
            decreases self.entries@.len() - i,
        {
            if self.entries[i].profile.user == *address {
                assert(self@[i as int] == self.entries@[i as int]@);
                return Some(i);
            }
            assert(self@[i as int] == self.entries@[i as int]@);
            i = i + 1;
        }
        None
    }
}

/// Registration and sign-in of users.
pub struct UserManager;

impl UserManager {
    /// Registers `user_address` with the next id, the given name and email, the
    /// ledger's time and sequence number. Returns false, changing nothing, when
    /// the account is already registered.
    pub fn register(
        registry: &mut UserRegistry,
        user_address: AccountId,
        name: String,
        email: String,
        timestamp: u64,
        ledger_sequence: u32,
    ) -> (r: bool)
        requires
            old(registry)@.len() < u64::MAX,
        ensures
            r == !is_registered(old(registry)@, user_address@),
            r ==> final(registry)@ == old(registry)@.push(
                UserEntryView {
                    profile: UserView {
                        id: old(registry)@.len() + 1int,
                        user: user_address@,
                        name: name@,
                        email: email@,
                        registered: true,
                        timestamp: timestamp as int,
                    },
                    registration_ledger: ledger_sequence,
                },
            ),
            !r ==> final(registry)@ == old(registry)@,
    {
        proof {
            use_type_invariant(&*registry);
        }
        if registry.position_of(&user_address).is_some() {
            return false;
        }
        let ghost address_view = user_address@;
        assert(!is_registered(old(registry)@, address_view));
        let user_id = registry.entries.len() as u64 + 1;
        let entry = UserEntry {
            profile: User {
                id: user_id,
                user: user_address,
                name,
                email,
                registered: true,
                timestamp,
            },
            registration_ledger: ledger_sequence,
        };
        let ghost old_entries = registry.entries@;
        let mut entries = Vec::new();
        std::mem::swap(&mut entries, &mut registry.entries);
        entries.push(entry);
        assert forall|i: int, j: int|
            0 <= i < entries@.len() && 0 <= j < entries@.len()
                && #[trigger] entries@[i].profile.user@ == #[trigger] entries@[j].profile.user@
            implies i == j by {
            let n = old_entries.len() as int;
            if i < n && j < n {
                assert(entries@[i] == old_entries[i] && entries@[j] == old_entries[j]);
                assert(old_entries[i].profile.user@ == old_entries[j].profile.user@);
            } else if i < n {
                assert(old(registry)@[i] == old_entries[i]@);
                assert(entries@[i] == old_entries[i]);
                assert(entries@[j] == entry);
                assert(old(registry)@[i].profile.user == address_view);
            } else if j < n {
                assert(old(registry)@[j] == old_entries[j]@);
                assert(entries@[j] == old_entries[j]);
                assert(entries@[i] == entry);
                assert(old(registry)@[j].profile.user == address_view);
            }
        }
        registry.entries = entries;
        assert(registry@ =~= old(registry)@.push(entry@));
        true
    }

    /// The name registered for `user_address`, or "User not found".
    pub fn login(registry: &UserRegistry, user_address: &AccountId) -> (r: String)
        ensures
            !is_registered(registry@, user_address@) ==> r@ == unknown_user_text(),
            forall|i: int|
                0 <= i < registry@.len() && #[trigger] registry@[i].profile.user == user_address@
                    ==> r@ == registry@[i].profile.name,
    {
        match registry.position_of(user_address) {
            Some(i) => {
                proof {
                    use_type_invariant(registry);
                    assert forall|j: int|
                        0 <= j < registry@.len() && #[trigger] registry@[j].profile.user
                            == user_address@ implies j == i by {
                        assert(registry@[j] == registry.entries@[j]@);
                        assert(registry@[i as int] == registry.entries@[i as int]@);
                    }
                }
                let name = registry.entries[i].profile.name.clone();
                assert(registry@[i as int] == registry.entries@[i as int]@);
                name
            },
            None => "User not found".to_owned(),
        }
    }
}

} // verus!
