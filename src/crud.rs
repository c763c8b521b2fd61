//! A small store of people, with creation, renaming, deletion and a
//! case-insensitive filter, and the form state that edits it.
use vstd::prelude::*;

verus! {

pub type UserId = u32;

/// What a user record holds.
pub struct UserView {
    pub id: UserId,
    pub name: Seq<char>,
    pub surname: Seq<char>,
}

/// What `str::to_lowercase` makes of a text.
pub uninterp spec fn lower_of(s: Seq<char>) -> Seq<char>;

/// Relies on std's `str::to_lowercase`, whose result depends on the text
/// alone; an empty text stays empty.
#[verifier::external_body]
fn lowercase(s: &str) -> (r: String)
    ensures
        r@ == lower_of(s@),
        s@.len() == 0 ==> r@.len() == 0,
{
    s.to_lowercase()
}

/// Whether `needle` occurs in `hay` as a contiguous run of characters.
pub open spec fn contains_seq(hay: Seq<char>, needle: Seq<char>) -> bool {
    exists|i: int|
        0 <= i && i + needle.len() <= hay.len() && #[trigger] hay.subrange(i, i + needle.len())
            == needle
}

/// Relies on std's `str::contains` with a `&str` pattern: true exactly when
/// `needle` occurs in `hay`.
#[verifier::external_body]
fn text_contains(hay: &str, needle: &str) -> (r: bool)
    ensures
        r == contains_seq(hay@, needle@),
{
    hay.contains(needle)
}

/// Whether a user is shown under a filter: the filter occurs in the name or
/// in the surname, ignoring case.
pub open spec fn user_matches(u: UserView, query: Seq<char>) -> bool {
    contains_seq(lower_of(u.name), lower_of(query)) || contains_seq(
        lower_of(u.surname),
        lower_of(query),
    )
}

pub struct User {
    pub id: UserId,
    pub name: String,
    pub surname: String,
}

impl View for User {
    type V = UserView;

    open spec fn view(&self) -> UserView {
        UserView { id: self.id, name: self.name@, surname: self.surname@ }
    }
}

impl User {
    pub fn new(id: UserId, name: &str, surname: &str) -> (r: User)
        ensures
            r@ == (UserView { id, name: name@, surname: surname@ }),
    {
        User { id, name: name.to_owned(), surname: surname.to_owned() }
    }

    pub fn update(&mut self, name: &str, surname: &str)
        ensures
            final(self)@ == (UserView { id: old(self).id, name: name@, surname: surname@ }),
    {
        self.name = name.to_owned();
        self.surname = surname.to_owned();
    }
}

/// The records of a sequence of users.
pub open spec fn views(users: Seq<User>) -> Seq<UserView> {
    users.map_values(|u: User| u@)
}

/// Ids are below the next id to hand out, and no two records share one.
pub open spec fn ids_valid(entries: Seq<UserView>, next_id: UserId) -> bool {
    &&& forall|i: int| 0 <= i < entries.len() ==> #[trigger] entries[i].id < next_id
    &&& forall|i: int, j: int|
        0 <= i < j < entries.len() ==> #[trigger] entries[i].id != #[trigger] entries[j].id
}

/// The store of users, in order of creation.
pub struct Db {
    id_counter: UserId,
    users: Vec<User>,
}

impl Db {
    /// The three sample users a new store holds.
    pub open spec fn new_entries() -> Seq<UserView> {
        seq![
            UserView { id: 0, name: "Hans"@, surname: "Emil"@ },
            UserView { id: 1, name: "Max"@, surname: "Mustermann"@ },
            UserView { id: 2, name: "Roman"@, surname: "Tisch"@ },
        ]
    }

    /// The records held, in order.
    pub closed spec fn entries(&self) -> Seq<UserView> {
        views(self.users@)
    }

    /// The id the next created user gets.
    pub closed spec fn next_id(&self) -> UserId {
        self.id_counter
    }

    pub closed spec fn wf(&self) -> bool {
        ids_valid(self.entries(), self.id_counter)
    }

    /// A store holding three sample users, with ids 0, 1 and 2.
    pub fn new() -> (r: Db)
        ensures
            r.wf(),
            r.next_id() == 3,
            r.entries() == Db::new_entries(),
    {
        let users = vec![
            User::new(0, "Hans", "Emil"),
            User::new(1, "Max", "Mustermann"),
            User::new(2, "Roman", "Tisch"),
        ];
        let r = Db { id_counter: 3, users };
        assert(r.entries() =~= Db::new_entries());
        r
    }

    pub fn len(&self) -> (r: usize)
        ensures
            r == self.entries().len(),
    {
        self.users.len()
    }

    /// The user at position `index`.
    pub fn get(&self, index: usize) -> (r: &User)
        requires
            index < self.entries().len(),
        ensures
            r@ == self.entries()[index as int],
    {
        &self.users[index]
    }

    /// Appends a user under the next id and returns that id; returns `None`,
    /// and changes nothing, once every id has been handed out.
    pub fn create(&mut self, name: &str, surname: &str) -> (r: Option<UserId>)
        requires
            old(self).wf(),
        ensures
            final(self).wf(),
            old(self).next_id() == UserId::MAX ==> r is None && final(self).entries() == old(
                self,
            ).entries() && final(self).next_id() == old(self).next_id(),
            old(self).next_id() < UserId::MAX ==> r == Some(old(self).next_id())
                && final(self).next_id() == old(self).next_id() + 1 && final(self).entries()
                == old(self).entries().push(
                UserView { id: old(self).next_id(), name: name@, surname: surname@ },
            ),
    {
        if self.id_counter == UserId::MAX {
            return None;
        }
        let id = self.id_counter;
        self.users.push(User::new(id, name, surname));
        self.id_counter = id + 1;
        assert(self.entries() =~= old(self).entries().push(
            UserView { id, name: name@, surname: surname@ },
        ));
        Some(id)
    }

    fn position(&self, id: UserId) -> (r: Option<usize>)
        ensures
            match r {
                Some(i) => i < self.entries().len() && self.entries()[i as int].id == id,
                None => forall|i: int|
                    0 <= i < self.entries().len() ==> #[trigger] self.entries()[i].id != id,
            },
    {
        let mut i: usize = 0;
        while i < self.users.len()
            invariant
                i <= self.users@.len(),
                self.entries().len() == self.users@.len(),
                forall|j: int| 0 <= j < i ==> #[trigger] self.entries()[j].id != id,
            decreases self.users@.len() - i,
        {
            if self.users[i].id == id {
                return Some(i);
            }
            i = i + 1;
        }
        None
    }

    /// Renames the user with id `id`; changes nothing when there is none.
    pub fn update(&mut self, id: UserId, name: &str, surname: &str)
        requires
            old(self).wf(),
        ensures
            final(self).wf(),
            final(self).next_id() == old(self).next_id(),
            (exists|i: int| 0 <= i < old(self).entries().len() && #[trigger] old(self).entries()[i].id == id &&
                final(self).entries() == old(self).entries().update(
                    i,
                    UserView { id, name: name@, surname: surname@ },
                )) || ((forall|i: int| 0 <= i < old(self).entries().len() ==> #[trigger] old(self).entries()[i].id != id)
                && final(self).entries() == old(self).entries()),
    {
        match self.position(id) {
            Some(i) => {
                self.users.set(i, User::new(id, name, surname));
                assert(self.entries() =~= old(self).entries().update(
                    i as int,
                    UserView { id, name: name@, surname: surname@ },
                ));
            },
            None => {},
        }
    }

    /// Removes the user with id `id`; returns whether there was one.
    pub fn delete(&mut self, id: UserId) -> (r: bool)
        requires
            old(self).wf(),
        ensures
            final(self).wf(),
            final(self).next_id() == old(self).next_id(),
            r == exists|i: int| 0 <= i < old(self).entries().len() && #[trigger] old(self).entries()[i].id == id,
            r ==> exists|i: int| 0 <= i < old(self).entries().len() && #[trigger] old(self).entries()[i].id == id
                && final(self).entries() == old(self).entries().remove(i),
            !r ==> final(self).entries() == old(self).entries(),
    {
        match self.position(id) {
            Some(i) => {
                self.users.remove(i);
                assert(self.entries() =~= old(self).entries().remove(i as int));
                assert(old(self).entries()[i as int].id == id);
                true
            },
            None => false,
        }
    }

    /// Positions of the users that `query` matches, ignoring case, in order.
    pub fn query(&self, query: &str) -> (r: Vec<usize>)
        ensures
            forall|k: int| 0 <= k < r@.len() ==> #[trigger] r@[k] < self.entries().len(),
            forall|k: int, l: int| 0 <= k < l < r@.len() ==> #[trigger] r@[k] < #[trigger] r@[l],
            forall|i: int|
                0 <= i < self.entries().len() ==> (r@.contains(i as usize) <==> user_matches(
                    #[trigger] self.entries()[i],
                    query@,
                )),
    {
        let lowered = lowercase(query);
        let mut found: Vec<usize> = Vec::new();
        let mut i: usize = 0;
        while i < self.users.len()
            invariant
                i <= self.users@.len(),
                self.entries().len() == self.users@.len(),
                lowered@ == lower_of(query@),
                forall|k: int| 0 <= k < found@.len() ==> #[trigger] found@[k] < i,
                forall|k: int, l: int| 0 <= k < l < found@.len() ==> #[trigger] found@[k] < #[trigger] found@[l],
                forall|j: int|
                    0 <= j < i ==> (found@.contains(j as usize) <==> user_matches(
                        #[trigger] self.entries()[j],
                        query@,
                    )),
            decreases self.users@.len() - i,
        {
            let user = &self.users[i];
            assert(self.entries()[i as int] == user@);
            let hit = text_contains(lowercase(user.name.as_str()).as_str(), lowered.as_str())
                || text_contains(lowercase(user.surname.as_str()).as_str(), lowered.as_str());
            let ghost before = found@;
            if hit {
                found.push(i);
            }
            assert forall|j: int| 0 <= j < i + 1 implies (found@.contains(j as usize) <==> user_matches(
                #[trigger] self.entries()[j],
                query@,
            )) by {
                if hit {
                    assert(found@ == before.push(i));
                    assert(found@[before.len() as int] == i);
                    if before.contains(j as usize) {
                        let k = choose|k: int| 0 <= k < before.len() && before[k] == j as usize;
                        assert(found@[k] == j as usize);
                    }
                    if found@.contains(j as usize) && j < i {
                        let k = choose|k: int| 0 <= k < found@.len() && found@[k] == j as usize;
                        assert(k < before.len());
                        assert(before[k] == j as usize);
                    }
                } else {
                    if j == i {
                        if found@.contains(j as usize) {
                            let k = choose|k: int| 0 <= k < found@.len() && found@[k] == j as usize;
                            assert(found@[k] < i);
                        }
                    }
                }
            }
            i = i + 1;
        }
        found
    }
}

/// The state of the form that edits the store: the filter, the selected
/// user, and the two name fields.
pub struct CrudModel {
    db: Db,
    query: String,
    selection: Option<UserId>,
    name_input: String,
    surname_input: String,
}

impl CrudModel {
    pub closed spec fn store(&self) -> Db {
        self.db
    }

    pub closed spec fn filter_text(&self) -> Seq<char> {
        self.query@
    }

    pub closed spec fn selected(&self) -> Option<UserId> {
        self.selection
    }

    pub closed spec fn name_text(&self) -> Seq<char> {
        self.name_input@
    }

    pub closed spec fn surname_text(&self) -> Seq<char> {
        self.surname_input@
    }

    /// The sample store, an empty filter and form, and nothing selected.
    pub fn new() -> (r: CrudModel)
        ensures
            r.store().wf(),
            r.store().entries() == Db::new_entries(),
            r.store().next_id() == 3,
            r.filter_text().len() == 0,
            r.name_text().len() == 0,
            r.surname_text().len() == 0,
            r.selected() is None,
    {
        CrudModel {
            db: Db::new(),
            query: String::new(),
            selection: None,
            name_input: String::new(),
            surname_input: String::new(),
        }
    }

    pub fn db(&self) -> (r: &Db)
        ensures
            *r == self.store(),
    {
        &self.db
    }

    pub fn selection(&self) -> (r: Option<UserId>)
        ensures
            r == self.selected(),
    {
        self.selection
    }

    pub fn set_query(&mut self, query: &str)
        ensures
            final(self).filter_text() == query@,
            final(self).store() == old(self).store(),
            final(self).selected() == old(self).selected(),
            final(self).name_text() == old(self).name_text(),
            final(self).surname_text() == old(self).surname_text(),
    {
        self.query = query.to_owned();
    }

    pub fn set_name_input(&mut self, name: &str)
        ensures
            final(self).name_text() == name@,
            final(self).store() == old(self).store(),
            final(self).selected() == old(self).selected(),
            final(self).filter_text() == old(self).filter_text(),
            final(self).surname_text() == old(self).surname_text(),
    {
        self.name_input = name.to_owned();
    }

    pub fn set_surname_input(&mut self, surname: &str)
        ensures
            final(self).surname_text() == surname@,
            final(self).store() == old(self).store(),
            final(self).selected() == old(self).selected(),
            final(self).filter_text() == old(self).filter_text(),
            final(self).name_text() == old(self).name_text(),
    {
        self.surname_input = surname.to_owned();
    }

    pub fn select(&mut self, id: Option<UserId>)
        ensures
            final(self).selected() == id,
            final(self).store() == old(self).store(),
            final(self).filter_text() == old(self).filter_text(),
            final(self).name_text() == old(self).name_text(),
            final(self).surname_text() == old(self).surname_text(),
    {
        self.selection = id;
    }

    /// Creates a user from the two name fields.
    pub fn create(&mut self) -> (r: Option<UserId>)
        requires
            old(self).store().wf(),
        ensures
            final(self).store().wf(),
            old(self).store().next_id() == UserId::MAX ==> r is None && final(self).store().entries()
                == old(self).store().entries() && final(self).store().next_id() == old(self).store().next_id(),
            old(self).store().next_id() < UserId::MAX ==> r == Some(old(self).store().next_id())
                && final(self).store().next_id() == old(self).store().next_id() + 1
                && final(self).store().entries() == old(self).store().entries().push(
                UserView {
                    id: old(self).store().next_id(),
                    name: old(self).name_text(),
                    surname: old(self).surname_text(),
                },
            ),
            final(self).selected() == old(self).selected(),
    {
        self.db.create(self.name_input.as_str(), self.surname_input.as_str())
    }

    /// Renames the selected user from the two name fields; does nothing
    /// when no user is selected.
    pub fn update_selected(&mut self)
        requires
            old(self).store().wf(),
        ensures
            final(self).store().wf(),
            old(self).selected() is None ==> final(self).store() == old(self).store(),
            final(self).selected() == old(self).selected(),
            final(self).store().next_id() == old(self).store().next_id(),
            old(self).selected() matches Some(id) ==> (exists|i: int|
                0 <= i < old(self).store().entries().len()
                    && #[trigger] old(self).store().entries()[i].id == id
                    && final(self).store().entries() == old(self).store().entries().update(
                    i,
                    UserView { id, name: old(self).name_text(), surname: old(self).surname_text() },
                )) || ((forall|i: int|
                0 <= i < old(self).store().entries().len()
                    ==> #[trigger] old(self).store().entries()[i].id != id)
                && final(self).store().entries() == old(self).store().entries()),
    {
        if let Some(id) = self.selection {
            self.db.update(id, self.name_input.as_str(), self.surname_input.as_str());
        }
    }

    /// Deletes the selected user and clears the selection; returns whether a
    /// user was deleted. A selection that names no user stays as it is.
    pub fn delete_selected(&mut self) -> (r: bool)
        requires
            old(self).store().wf(),
        ensures
            final(self).store().wf(),
            final(self).store().next_id() == old(self).store().next_id(),
            old(self).selected() is None ==> !r && final(self).store() == old(self).store(),
            old(self).selected() matches Some(id) ==> (r == exists|i: int|
                0 <= i < old(self).store().entries().len()
                    && #[trigger] old(self).store().entries()[i].id == id),
            r ==> final(self).selected() is None && exists|i: int|
                0 <= i < old(self).store().entries().len()
                    && old(self).selected() == Some(#[trigger] old(self).store().entries()[i].id)
                    && final(self).store().entries() == old(self).store().entries().remove(i),
            !r ==> final(self).selected() == old(self).selected() && final(self).store().entries()
                == old(self).store().entries(),
    {
        match self.selection {
            Some(id) => {
                if self.db.delete(id) {
                    self.selection = None;
                    true
                } else {
                    false
                }
            },
            None => false,
        }
    }

    /// Positions, in the store, of the users the filter shows, in order.
    pub fn visible(&self) -> (r: Vec<usize>)
        ensures
            forall|k: int| 0 <= k < r@.len() ==> #[trigger] r@[k] < self.store().entries().len(),
            forall|k: int, l: int| 0 <= k < l < r@.len() ==> #[trigger] r@[k] < #[trigger] r@[l],
            forall|i: int|
                0 <= i < self.store().entries().len() ==> (r@.contains(i as usize)
                    <==> user_matches(#[trigger] self.store().entries()[i], self.filter_text())),
    {
        self.db.query(self.query.as_str())
    }
}

} // verus!
