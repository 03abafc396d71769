//! The user directory: one row for each pair of user name and platform.
//!
//! User names are kept in lower case, so that two names which differ only in
//! case are one user. A row gets the next free id when it is made, and is
//! never changed or removed. This directory lives in memory; it states the
//! contract that any store behind a login has to keep. A directory made by
//! `new` is well formed, and every operation keeps it so.

use crate::provider::Platform;
use vstd::prelude::*;

verus! {

/// The lower-case form that std gives a text.
pub uninterp spec fn lowercase(text: Seq<char>) -> Seq<char>;

/// `str::to_lowercase` of std gives the lower-case equivalent of a text, which
/// depends on the text alone.
pub assume_specification[ str::to_lowercase ](text: &str) -> (r: String)
    ensures
        r@ == lowercase(text@),
;

/// A user as the directory keeps it.
#[derive(Debug, Clone, PartialEq, Eq)]
pub struct User {
    /// The id that the directory gave the user.
    pub id: i32,
    /// The canonical user name, in lower case.
    pub username: String,
    /// The provider that vouched for the user.
    pub platform: Platform,
}

/// What a `User` holds.
pub struct UserView {
    pub id: i32,
    pub username: Seq<char>,
    pub platform: Platform,
}

impl View for User {
    type V = UserView;

    open spec fn view(&self) -> UserView {
        UserView { id: self.id, username: self.username@, platform: self.platform }
    }
}

/// Why a store did not serve a request.
#[derive(Debug, Clone, Copy, PartialEq, Eq, Structural)]
pub enum StoreError {
    /// The store holds no such row.
    NotFound,
    /// The store cannot take or give anything now.
    Unavailable,
    /// The request collides with what the store holds.
    Conflict,
}

/// What a directory holds: its rows in the order in which they were made,
/// and the number of rows that it has room for.
pub struct DirectoryView {
    pub users: Seq<UserView>,
    pub capacity: nat,
}

/// Whether a row is the one for a canonical name on a platform.
pub open spec fn is_row_for(row: UserView, canonical: Seq<char>, platform: Platform) -> bool {
    row.username == canonical && row.platform == platform
}

/// Whether `i` is the place of the row for a canonical name on a platform.
pub open spec fn is_place_of(
    d: DirectoryView,
    i: int,
    canonical: Seq<char>,
    platform: Platform,
) -> bool {
    0 <= i < d.users.len() && is_row_for(d.users[i], canonical, platform)
}

/// Whether the directory has a row for a user name on a platform, whatever
/// the case of the name.
pub open spec fn has_user(d: DirectoryView, name: Seq<char>, platform: Platform) -> bool {
    exists|i: int| is_place_of(d, i, lowercase(name), platform)
}

/// What a directory has to keep: no more rows than it has room for, ids that
/// count the rows from one, and at most one row for a name on a platform.
pub open spec fn well_formed(d: DirectoryView) -> bool {
    &&& d.users.len() <= d.capacity <= i32::MAX
    &&& forall|i: int| 0 <= i < d.users.len() ==> (#[trigger] d.users[i]).id == i + 1
    &&& forall|i: int, j: int|
        0 <= i < d.users.len() && 0 <= j < d.users.len() && i != j ==> !is_row_for(
            #[trigger] d.users[i],
            (#[trigger] d.users[j]).username,
            d.users[j].platform,
        )
}

/// The directory after an upsert, and what the upsert answers: nothing
/// changes where the user is there or the directory is full; else a row with
/// the next id and the lower-case name is added.
pub open spec fn upserted(d: DirectoryView, name: Seq<char>, platform: Platform) -> (
    DirectoryView,
    Result<(), StoreError>,
) {
    if has_user(d, name, platform) {
        (d, Ok(()))
    } else if d.users.len() >= d.capacity {
        (d, Err(StoreError::Unavailable))
    } else {
        (
            DirectoryView {
                users: d.users.push(
                    UserView {
                        id: (d.users.len() + 1) as i32,
                        username: lowercase(name),
                        platform,
                    },
                ),
                capacity: d.capacity,
            },
            Ok(()),
        )
    }
}

/// What a load answers: the row for the name on the platform, or that there
/// is none.
pub open spec fn loaded(d: DirectoryView, name: Seq<char>, platform: Platform) -> Result<
    UserView,
    StoreError,
> {
    if has_user(d, name, platform) {
        Ok(d.users[choose|i: int| is_place_of(d, i, lowercase(name), platform)])
    } else {
        Err(StoreError::NotFound)
    }
}

/// The view of the answer to a load.
pub open spec fn load_view(r: Result<User, StoreError>) -> Result<UserView, StoreError> {
    match r {
        Ok(u) => Ok(u@),
        Err(e) => Err(e),
    }
}

/// An upsert keeps a directory well formed, and keeps every row it had.
pub proof fn law_upsert_keeps_rows(d: DirectoryView, name: Seq<char>, platform: Platform)
    requires
        well_formed(d),
    ensures
        well_formed(upserted(d, name, platform).0),
        upserted(d, name, platform).0.capacity == d.capacity,
        d.users.len() <= upserted(d, name, platform).0.users.len() <= d.users.len() + 1,
        upserted(d, name, platform).0.users.take(d.users.len() as int) == d.users,
{
    let after = upserted(d, name, platform).0;
    assert(after.users.take(d.users.len() as int) =~= d.users);
    if after != d {
        let canonical = lowercase(name);
        let n = d.users.len() as int;
        assert forall|i: int, j: int|
            0 <= i < after.users.len() && 0 <= j < after.users.len() && i != j implies !is_row_for(
            #[trigger] after.users[i],
            (#[trigger] after.users[j]).username,
            after.users[j].platform,
        ) by {
            if i < n && j < n {
                assert(after.users[i] == d.users[i] && after.users[j] == d.users[j]);
            } else if i < n {
                assert(!is_place_of(d, i, canonical, platform));
            } else {
                assert(!is_place_of(d, j, canonical, platform));
            }
        }
    }
}

/// Upsert is idempotent: a second upsert of the same name on the same
/// platform changes nothing, and succeeds where the first did.
pub proof fn law_upsert_idempotent(d: DirectoryView, name: Seq<char>, platform: Platform)
    requires
        well_formed(d),
    ensures
        upserted(upserted(d, name, platform).0, name, platform) == upserted(d, name, platform)
            || upserted(d, name, platform).1 is Err,
        upserted(upserted(d, name, platform).0, name, platform).0 == upserted(
            d,
            name,
            platform,
        ).0,
        upserted(d, name, platform).1 is Ok ==> has_user(
            upserted(d, name, platform).0,
            name,
            platform,
        ),
{
    let first = upserted(d, name, platform);
    if has_user(d, name, platform) {
    } else if d.users.len() >= d.capacity {
    } else {
        assert(is_place_of(first.0, d.users.len() as int, lowercase(name), platform));
    }
}

/// User names are matched whatever their case: two names with one lower-case
/// form are upserted and loaded alike.
pub proof fn law_names_ignore_case(
    d: DirectoryView,
    name: Seq<char>,
    other: Seq<char>,
    platform: Platform,
)
    requires
        lowercase(name) == lowercase(other),
    ensures
        upserted(d, name, platform) == upserted(d, other, platform),
        loaded(d, name, platform) == loaded(d, other, platform),
{
}

/// A load sees the upsert before it: after a successful upsert the user is
/// found, under the lower-case name, and it is the only row for that name.
pub proof fn law_load_sees_upsert(d: DirectoryView, name: Seq<char>, platform: Platform)
    requires
        well_formed(d),
        upserted(d, name, platform).1 is Ok,
    ensures
        loaded(upserted(d, name, platform).0, name, platform) matches Ok(user) && is_row_for(
            user,
            lowercase(name),
            platform,
        ),
        forall|i: int, j: int|
            is_place_of(upserted(d, name, platform).0, i, lowercase(name), platform)
                && is_place_of(upserted(d, name, platform).0, j, lowercase(name), platform) ==> i
                == j,
{
    law_upsert_idempotent(d, name, platform);
    law_upsert_keeps_rows(d, name, platform);
}

/// A directory of users in memory.
pub struct UserDirectory {
    users: Vec<User>,
    capacity: usize,
}

impl View for UserDirectory {
    type V = DirectoryView;

    closed spec fn view(&self) -> DirectoryView {
        DirectoryView {
            users: self.users@.map_values(|u: User| u@),
            capacity: self.capacity as nat,
        }
    }
}

impl UserDirectory {
    /// An empty directory with room for `capacity` users, and for no more
    /// than there are ids.
    pub fn new(capacity: usize) -> (directory: Self)
        ensures
            directory@.users.len() == 0,
            directory@.capacity == if capacity <= i32::MAX {
                capacity as nat
            } else {
                i32::MAX as nat
            },
            well_formed(directory@),
    {
        let capacity = if capacity <= 2147483647 {
            capacity
        } else {
            2147483647
        };
        UserDirectory { users: Vec::new(), capacity }
    }

    /// The number of users.
    pub fn len(&self) -> (n: usize)
        ensures
            n == self@.users.len(),
    {
        self.users.len()
    }

    /// The place of the row for a canonical name on a platform.
    fn place_of(&self, canonical: &String, platform: Platform) -> (r: Option<usize>)
        ensures
            r matches Some(i) ==> is_place_of(self@, i as int, canonical@, platform),
            r is None ==> forall|i: int| !is_place_of(self@, i, canonical@, platform),
    {
        let n = self.users.len();
        let mut i: usize = 0;
        while i < n
            invariant
                n == self.users@.len(),
                i <= n,
                forall|k: int| 0 <= k < i ==> !is_place_of(self@, k, canonical@, platform),
            decreases n - i,
        {
            if self.users[i].platform == platform && self.users[i].username == *canonical {
                return Some(i);
            }
            i = i + 1;
        }
        None
    }

    /// Makes sure that the directory has a row for the user name on the
    /// platform, whatever the case of the name.
    ///
    /// Fails, and changes nothing, exactly when the user is new and the
    /// directory is full.
    pub fn upsert(&mut self, username: &str, platform: Platform) -> (r: Result<(), StoreError>)
        requires
            well_formed(old(self)@),
        ensures
            (final(self)@, r) == upserted(old(self)@, username@, platform),
            well_formed(final(self)@),
    {
        proof {
            law_upsert_keeps_rows(self@, username@, platform);
        }
        let canonical = username.to_lowercase();
        match self.place_of(&canonical, platform) {
            Some(_) => Ok(()),
            None => {
                let n = self.users.len();
                if n >= self.capacity {
                    Err(StoreError::Unavailable)
                } else {
                    let ghost before = self@;
                    let id = (n + 1) as i32;
                    self.users.push(User { id, username: canonical, platform });
                    assert(self@.users =~= upserted(before, username@, platform).0.users);
                    Ok(())
                }
            },
        }
    }

    /// The row for the user name on the platform, whatever the case of the
    /// name.
    pub fn load(&self, username: &str, platform: Platform) -> (r: Result<User, StoreError>)
        requires
            well_formed(self@),
        ensures
            load_view(r) == loaded(self@, username@, platform),
    {
        let canonical = username.to_lowercase();
        match self.place_of(&canonical, platform) {
            Some(i) => {
                proof {
                    let j = choose|j: int| is_place_of(self@, j, canonical@, platform);
                    assert(is_place_of(self@, i as int, canonical@, platform));
                    if j != i as int {
                        assert(is_row_for(
                            self@.users[j],
                            self@.users[i as int].username,
                            self@.users[i as int].platform,
                        ));
                    }
                }
                let found = &self.users[i];
                Ok(User { id: found.id, username: found.username.clone(), platform: found.platform })
            },
            None => Err(StoreError::NotFound),
        }
    }
}

} // verus!
