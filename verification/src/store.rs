//! The profile store: every profile that was added, in insertion order, with
//! no e-mail address and no alias held twice.

use vstd::prelude::*;
use crate::profile::{Profile, ProfileView, profile_views};
use crate::text::{is_substring, contains, lemma_empty_is_substring};

verus! {

/// Why a profile was not stored.
#[derive(Debug, Clone, Copy, PartialEq, Eq, Structural)]
pub enum StoreError {
    /// A stored profile already has this e-mail address.
    DuplicateEmail,
    /// A stored profile already has this alias.
    DuplicateAlias,
}

/// The diagnostic that goes with a rejected add.
pub open spec fn store_error_text(error: StoreError) -> Seq<char> {
    match error {
        StoreError::DuplicateEmail =>
            "Error adding new profile to DB.: the email is already taken"@,
        StoreError::DuplicateAlias =>
            "Error adding new profile to DB.: the alias is already taken"@,
    }
}

impl StoreError {
    /// The diagnostic that goes with this error.
    pub fn message(&self) -> (s: String)
        ensures
            s@ == store_error_text(*self),
    {
        match self {
            StoreError::DuplicateEmail =>
                "Error adding new profile to DB.: the email is already taken".to_owned(),
            StoreError::DuplicateAlias =>
                "Error adding new profile to DB.: the alias is already taken".to_owned(),
        }
    }
}

/// Some row has the e-mail address `email`.
pub open spec fn email_taken(rows: Seq<ProfileView>, email: Seq<char>) -> bool {
    exists|i: int| 0 <= i < rows.len() && (#[trigger] rows[i]).email == email
}

/// `alias` is an alias, and some row has it. The empty alias is never taken.
pub open spec fn alias_taken(rows: Seq<ProfileView>, alias: Seq<char>) -> bool {
    alias.len() > 0 && exists|i: int| 0 <= i < rows.len() && (#[trigger] rows[i]).alias == alias
}

/// No two rows share an e-mail address, and no two rows share an alias
/// unless it is the empty one.
pub open spec fn unique_keys(rows: Seq<ProfileView>) -> bool {
    forall|i: int, j: int|
        0 <= i < j < rows.len() ==> {
            &&& (#[trigger] rows[i]).email != (#[trigger] rows[j]).email
            &&& rows[i].alias.len() > 0 ==> rows[i].alias != rows[j].alias
        }
}

/// What adding `p` to `rows` gives: the rows with `p` at the end, or the key
/// that collides. An e-mail collision is reported before an alias collision.
pub open spec fn add_result(rows: Seq<ProfileView>, p: ProfileView) -> Result<
    Seq<ProfileView>,
    StoreError,
> {
    if email_taken(rows, p.email) {
        Err(StoreError::DuplicateEmail)
    } else if alias_taken(rows, p.alias) {
        Err(StoreError::DuplicateAlias)
    } else {
        Ok(rows.push(p))
    }
}

/// The rows after an attempt to add `p`: unchanged where the attempt fails.
pub open spec fn rows_after_add(rows: Seq<ProfileView>, p: ProfileView) -> Seq<ProfileView> {
    match add_result(rows, p) {
        Ok(after) => after,
        Err(_) => rows,
    }
}

/// What adding each of `pending` in turn to `rows` gives: all of them stored,
/// or the error of the first that collides.
pub open spec fn add_all_result(rows: Seq<ProfileView>, pending: Seq<ProfileView>) -> Result<
    Seq<ProfileView>,
    StoreError,
>
    decreases pending.len(),
{
    if pending.len() == 0 {
        Ok(rows)
    } else {
        match add_result(rows, pending.first()) {
            Ok(after) => add_all_result(after, pending.drop_first()),
            Err(e) => Err(e),
        }
    }
}

/// The text that an optional filter stands for: an absent filter is the empty
/// text.
pub open spec fn filter_text(filter: Option<&str>) -> Seq<char> {
    match filter {
        Some(s) => s@,
        None => Seq::<char>::empty(),
    }
}

/// A row matches where its alias contains `alias` or its e-mail address is
/// `email`. Either is enough.
pub open spec fn matches_filters(p: ProfileView, alias: Seq<char>, email: Seq<char>) -> bool {
    is_substring(alias, p.alias) || p.email == email
}

/// The first row, in storage order, that matches the two filters.
pub open spec fn find_first(rows: Seq<ProfileView>, alias: Seq<char>, email: Seq<char>) -> Option<
    ProfileView,
>
    decreases rows.len(),
{
    if rows.len() == 0 {
        None
    } else if matches_filters(rows.first(), alias, email) {
        Some(rows.first())
    } else {
        find_first(rows.drop_first(), alias, email)
    }
}

/// Adding keeps the keys unique, whether the profile is stored or rejected:
/// the rule on keys holds in every state that adds can reach.
pub proof fn lemma_add_keeps_keys_unique(rows: Seq<ProfileView>, p: ProfileView)
    requires
        unique_keys(rows),
    ensures
        unique_keys(rows_after_add(rows, p)),
{
    if add_result(rows, p) is Ok {
        let after = rows.push(p);
        assert forall|i: int, j: int| 0 <= i < j < after.len() implies {
            &&& (#[trigger] after[i]).email != (#[trigger] after[j]).email
            &&& after[i].alias.len() > 0 ==> after[i].alias != after[j].alias
        } by {
            if j == rows.len() {
                assert(after[i] == rows[i]);
            } else {
                assert(after[i] == rows[i] && after[j] == rows[j]);
            }
        }
    }
}

/// After a profile was stored, the store lists what it listed before, in the
/// same order, then the new profile; and no other entry equals the new one.
pub proof fn lemma_added_profile_listed_once(rows: Seq<ProfileView>, p: ProfileView)
    requires
        unique_keys(rows),
        add_result(rows, p) is Ok,
    ensures
        rows_after_add(rows, p) == rows.push(p),
        rows_after_add(rows, p).take(rows.len() as int) == rows,
        rows_after_add(rows, p).last() == p,
        forall|i: int|
            0 <= i < rows_after_add(rows, p).len() ==> ((#[trigger] rows_after_add(rows, p)[i]) == p
                <==> i == rows.len()),
{
    let after = rows_after_add(rows, p);
    assert(after.take(rows.len() as int) =~= rows);
    assert forall|i: int| 0 <= i < after.len() implies ((#[trigger] after[i]) == p <==> i
        == rows.len()) by {
        if i < rows.len() {
            assert(rows[i].email != p.email);
        }
    }
}

/// Once a profile is stored, adding another with the same e-mail address
/// fails and leaves the store as it was, whatever its name and alias.
pub proof fn lemma_same_email_rejected(rows: Seq<ProfileView>, p: ProfileView, q: ProfileView)
    requires
        add_result(rows, p) is Ok,
        q.email == p.email,
    ensures
        add_result(rows_after_add(rows, p), q) == Err::<Seq<ProfileView>, StoreError>(
            StoreError::DuplicateEmail,
        ),
        rows_after_add(rows_after_add(rows, p), q) == rows_after_add(rows, p),
{
    let after = rows_after_add(rows, p);
    assert(after[rows.len() as int].email == q.email);
}

/// Once a profile with an alias is stored, adding another with the same
/// alias fails and leaves the store as it was. The error names the alias
/// unless the e-mail address collides as well.
pub proof fn lemma_same_alias_rejected(rows: Seq<ProfileView>, p: ProfileView, q: ProfileView)
    requires
        add_result(rows, p) is Ok,
        q.alias == p.alias,
        p.alias.len() > 0,
    ensures
        add_result(rows_after_add(rows, p), q) is Err,
        q.email != p.email && !email_taken(rows, q.email) ==> add_result(
            rows_after_add(rows, p),
            q,
        ) == Err::<Seq<ProfileView>, StoreError>(StoreError::DuplicateAlias),
        rows_after_add(rows_after_add(rows, p), q) == rows_after_add(rows, p),
{
    let after = rows_after_add(rows, p);
    assert(after[rows.len() as int].alias == q.alias);
    if q.email != p.email && !email_taken(rows, q.email) {
        assert forall|i: int| 0 <= i < after.len() implies (#[trigger] after[i]).email
            != q.email by {
            if i < rows.len() {
                assert(after[i] == rows[i]);
            }
        }
    }
}

/// Adding a run of profiles to a store stores all of them, in their order,
/// exactly when the rows before and the run together hold unique keys.
pub proof fn lemma_add_all_result(rows: Seq<ProfileView>, pending: Seq<ProfileView>)
    requires
        unique_keys(rows),
    ensures
        match add_all_result(rows, pending) {
            Ok(stored) => stored == rows + pending && unique_keys(stored),
            Err(_) => !unique_keys(rows + pending),
        },
    decreases pending.len(),
{
    let all = rows + pending;
    if pending.len() == 0 {
        assert(all =~= rows);
    } else {
        let p = pending.first();
        assert(all[rows.len() as int] == p);
        if email_taken(rows, p.email) {
            let i = choose|i: int| 0 <= i < rows.len() && (#[trigger] rows[i]).email == p.email;
            assert(all[i] == rows[i]);
            assert(all[i].email == all[rows.len() as int].email);
        } else if alias_taken(rows, p.alias) {
            let i = choose|i: int| 0 <= i < rows.len() && (#[trigger] rows[i]).alias == p.alias;
            assert(all[i] == rows[i]);
            assert(all[i].alias == all[rows.len() as int].alias);
        } else {
            lemma_add_keeps_keys_unique(rows, p);
            lemma_add_all_result(rows.push(p), pending.drop_first());
            assert(rows.push(p) + pending.drop_first() =~= all);
        }
    }
}

/// Rows load into an empty store exactly when their keys are unique, and
/// the store then holds them as they are.
pub proof fn lemma_load_result(rows: Seq<ProfileView>)
    ensures
        unique_keys(rows) <==> add_all_result(Seq::<ProfileView>::empty(), rows) is Ok,
        unique_keys(rows) ==> add_all_result(Seq::<ProfileView>::empty(), rows) == Ok::<
            Seq<ProfileView>,
            StoreError,
        >(rows),
{
    lemma_add_all_result(Seq::<ProfileView>::empty(), rows);
    assert(Seq::<ProfileView>::empty() + rows =~= rows);
}

/// What `find_first` returns is the earliest matching row: a row is
/// returned exactly when some row matches, no row before it matches, and
/// nothing is returned only where no row matches.
pub proof fn lemma_find_first_is_earliest_match(
    rows: Seq<ProfileView>,
    alias: Seq<char>,
    email: Seq<char>,
)
    ensures
        match find_first(rows, alias, email) {
            Some(found) => exists|i: int|
                {
                    &&& 0 <= i < rows.len()
                    &&& #[trigger] rows[i] == found
                    &&& matches_filters(found, alias, email)
                    &&& forall|j: int| 0 <= j < i ==> !matches_filters(#[trigger] rows[j], alias, email)
                },
            None => forall|j: int|
                0 <= j < rows.len() ==> !matches_filters(#[trigger] rows[j], alias, email),
        },
    decreases rows.len(),
{
    if rows.len() == 0 {
    } else if matches_filters(rows.first(), alias, email) {
        assert(rows[0] == rows.first());
    } else {
        let rest = rows.drop_first();
        lemma_find_first_is_earliest_match(rest, alias, email);
        match find_first(rest, alias, email) {
            Some(found) => {
                let i = choose|i: int|
                    {
                        &&& 0 <= i < rest.len()
                        &&& #[trigger] rest[i] == found
                        &&& matches_filters(found, alias, email)
                        &&& forall|j: int|
                            0 <= j < i ==> !matches_filters(#[trigger] rest[j], alias, email)
                    };
                assert(rows[i + 1] == found);
                assert forall|j: int| 0 <= j < i + 1 implies !matches_filters(
                    #[trigger] rows[j],
                    alias,
                    email,
                ) by {
                    if j > 0 {
                        assert(rows[j] == rest[j - 1]);
                    }
                }
            },
            None => {
                assert forall|j: int| 0 <= j < rows.len() implies !matches_filters(
                    #[trigger] rows[j],
                    alias,
                    email,
                ) by {
                    if j > 0 {
                        assert(rows[j] == rest[j - 1]);
                    }
                }
            },
        }
    }
}

/// With both filters empty every row matches, so a store that is not empty
/// gives its first row.
pub proof fn lemma_empty_filters_find_first_row(rows: Seq<ProfileView>)
    requires
        rows.len() > 0,
    ensures
        find_first(rows, Seq::<char>::empty(), Seq::<char>::empty()) == Some(rows[0]),
{
    lemma_empty_is_substring(rows.first().alias);
}

/// A row whose alias contains the alias filter matches, whatever the e-mail
/// filter is, so the search then returns a row: that one or an earlier match.
pub proof fn lemma_alias_substring_is_found(
    rows: Seq<ProfileView>,
    at: int,
    alias: Seq<char>,
    email: Seq<char>,
)
    requires
        0 <= at < rows.len(),
        is_substring(alias, rows[at].alias),
    ensures
        matches_filters(rows[at], alias, email),
        find_first(rows, alias, email) is Some,
{
    lemma_find_first_is_earliest_match(rows, alias, email);
}

/// The profiles that were added, in insertion order.
pub struct ProfileStore {
    rows: Vec<Profile>,
}

impl View for ProfileStore {
    type V = Seq<ProfileView>;

    closed spec fn view(&self) -> Seq<ProfileView> {
        profile_views(self.rows@)
    }
}

impl ProfileStore {
    #[verifier::type_invariant]
    spec fn keys_are_unique(self) -> bool {
        unique_keys(profile_views(self.rows@))
    }

    /// A store without profiles.
    pub fn new() -> (store: ProfileStore)
        ensures
            store@ == Seq::<ProfileView>::empty(),
    {
        let rows: Vec<Profile> = Vec::new();
        assert(profile_views(rows@) =~= Seq::<ProfileView>::empty());
        ProfileStore { rows }
    }

    /// The number of stored profiles.
    pub fn len(&self) -> (n: usize)
        ensures
            n == self@.len(),
    {
        self.rows.len()
    }

    /// Whether nothing is stored.
    pub fn is_empty(&self) -> (b: bool)
        ensures
            b == (self@.len() == 0),
    {
        self.rows.len() == 0
    }

    /// Whether a stored profile has the e-mail address `email`.
    pub fn has_email(&self, email: &str) -> (b: bool)
        ensures
            b == email_taken(self@, email@),
    {
        let wanted = email.to_owned();
        let mut i: usize = 0;
        while i < self.rows.len()
            invariant
                i <= self.rows.len(),
                wanted@ == email@,
                forall|k: int| 0 <= k < i ==> (#[trigger] self@[k]).email != email@,
            decreases self.rows.len() - i,
        {
            if self.rows[i].email == wanted {
                assert(self@[i as int].email == email@);
                return true;
            }
            i += 1;
        }
        false
    }

    /// Whether `alias` is not empty and a stored profile has it.
    pub fn has_alias(&self, alias: &str) -> (b: bool)
        ensures
            b == alias_taken(self@, alias@),
    {
        if alias.is_empty() {
            return false;
        }
        let wanted = alias.to_owned();
        let mut i: usize = 0;
        while i < self.rows.len()
            invariant
                i <= self.rows.len(),
                wanted@ == alias@,
                alias@.len() > 0,
                forall|k: int| 0 <= k < i ==> (#[trigger] self@[k]).alias != alias@,
            decreases self.rows.len() - i,
        {
            if self.rows[i].alias == wanted {
                assert(self@[i as int].alias == alias@);
                return true;
            }
            i += 1;
        }
        false
    }

    /// Stores a new profile behind those already stored and returns its
    /// identifier, the number of profiles stored before it. Where the e-mail
    /// address or the alias is already taken, nothing is stored.
    pub fn add(&mut self, name: &str, email: &str, alias: &str) -> (r: Result<usize, StoreError>)
        ensures
            match add_result(old(self)@, ProfileView { name: name@, email: email@, alias: alias@ }) {
                Ok(after) => r == Ok::<usize, StoreError>(old(self)@.len() as usize)
                    && final(self)@ == after,
                Err(e) => r == Err::<usize, StoreError>(e) && final(self)@ == old(self)@,
            },
            unique_keys(final(self)@),
    {
        proof {
            use_type_invariant(&*self);
        }
        if self.has_email(email) {
            return Err(StoreError::DuplicateEmail);
        }
        if self.has_alias(alias) {
            return Err(StoreError::DuplicateAlias);
        }
        proof {
            use_type_invariant(&*self);
        }
        let id = self.rows.len();
        let p = Profile::new(name, email, alias);
        let ghost before = self@;
        let mut rows: Vec<Profile> = Vec::new();
        proof {
            assert(profile_views(rows@) =~= Seq::<ProfileView>::empty());
        }
        core::mem::swap(&mut self.rows, &mut rows);
        rows.push(p);
        proof {
            assert(profile_views(rows@) =~= before.push(p@));
        }
        core::mem::swap(&mut self.rows, &mut rows);
        Ok(id)
    }

    /// A store that holds `rows` in their order, as if each had been added in
    /// turn to an empty store; the error of the first row that collides with
    /// one before it, where there is one.
    pub fn from_rows(rows: Vec<Profile>) -> (r: Result<ProfileStore, StoreError>)
        ensures
            match add_all_result(Seq::<ProfileView>::empty(), profile_views(rows@)) {
                Ok(stored) => r matches Ok(store) && store@ == stored,
                Err(e) => r matches Err(f) && f == e,
            },
    {
        let mut store = ProfileStore::new();
        let mut i: usize = 0;
        proof {
            assert(profile_views(rows@).skip(0) =~= profile_views(rows@));
        }
        while i < rows.len()
            invariant
                i <= rows.len(),
                add_all_result(Seq::<ProfileView>::empty(), profile_views(rows@)) == add_all_result(
                    store@,
                    profile_views(rows@).skip(i as int),
                ),
            decreases rows.len() - i,
        {
            let ghost pending = profile_views(rows@).skip(i as int);
            proof {
                assert(pending.first() == rows@[i as int]@);
                assert(pending.drop_first() =~= profile_views(rows@).skip(i + 1));
            }
            let row = &rows[i];
            match store.add(row.name.as_str(), row.email.as_str(), row.alias.as_str()) {
                Ok(_) => {},
                Err(e) => {
                    return Err(e);
                },
            }
            i += 1;
        }
        Ok(store)
    }

    /// Every stored profile, in insertion order.
    pub fn list_all(&self) -> (profiles: Vec<Profile>)
        ensures
            profile_views(profiles@) == self@,
            unique_keys(self@),
    {
        proof {
            use_type_invariant(self);
        }
        let mut profiles: Vec<Profile> = Vec::new();
        let mut i: usize = 0;
        while i < self.rows.len()
            invariant
                i <= self.rows.len(),
                profiles.len() == i,
                self@.len() == self.rows.len(),
                profile_views(profiles@) == self@.take(i as int),
            decreases self.rows.len() - i,
        {
            let ghost copied = profiles@;
            profiles.push(self.rows[i].duplicate());
            proof {
                assert forall|k: int| 0 <= k < i + 1 implies profile_views(profiles@)[k]
                    == self@.take(i + 1)[k] by {
                    if k < i {
                        assert(profile_views(copied)[k] == self@.take(i as int)[k]);
                        assert(profiles@[k] == copied[k]);
                    }
                }
                assert(profile_views(profiles@) =~= self@.take(i + 1));
            }
            i += 1;
        }
        proof {
            assert(self@.take(self@.len() as int) =~= self@);
        }
        profiles
    }

    /// The profile with the identifier `id`: the one that was added when `id`
    /// profiles were stored.
    pub fn get(&self, id: usize) -> (r: Option<Profile>)
        ensures
            match r {
                Some(p) => id < self@.len() && p@ == self@[id as int],
                None => id >= self@.len(),
            },
    {
        if id < self.rows.len() {
            Some(self.rows[id].duplicate())
        } else {
            None
        }
    }

    /// The first stored profile whose alias contains `alias` or whose e-mail
    /// address is `email`. An absent filter counts as the empty text, and the
    /// empty text occurs in every alias.
    pub fn find_one(&self, alias: Option<&str>, email: Option<&str>) -> (r: Option<Profile>)
        ensures
            match find_first(self@, filter_text(alias), filter_text(email)) {
                Some(found) => r matches Some(p) && p@ == found,
                None => r is None,
            },
    {
        let alias_filter: &str = match alias {
            Some(s) => s,
            None => "",
        };
        let email_filter: String = match email {
            Some(s) => s.to_owned(),
            None => String::new(),
        };
        proof {
            reveal_strlit("");
            assert(alias_filter@ =~= filter_text(alias));
            assert(email_filter@ =~= filter_text(email));
            assert(self@.skip(0) =~= self@);
        }
        let mut i: usize = 0;
        while i < self.rows.len()
            invariant
                i <= self.rows.len(),
                alias_filter@ == filter_text(alias),
                email_filter@ == filter_text(email),
                find_first(self@, filter_text(alias), filter_text(email)) == find_first(
                    self@.skip(i as int),
                    filter_text(alias),
                    filter_text(email),
                ),
            decreases self.rows.len() - i,
        {
            let row = &self.rows[i];
            proof {
                assert(self@.skip(i as int).first() == row@);
                assert(self@.skip(i as int).drop_first() =~= self@.skip(i + 1));
            }
            if contains(row.alias.as_str(), alias_filter) || row.email == email_filter {
                return Some(row.duplicate());
            }
            i += 1;
        }
        None
    }
}

} // verus!
