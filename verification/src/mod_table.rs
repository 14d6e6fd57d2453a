//! The stored mods: user-owned content with a version that counts the
//! accepted changes.

use crate::table::{
    as_map, distinct_keys, has_key, lemma_as_map_at, lemma_as_map_empty, lemma_as_map_push,
    lemma_as_map_remove, lemma_position, Keyed,
};
use vstd::prelude::*;

verus! {

/// The version that a mod is created with.
pub const INITIAL_MOD_VERSION: i32 = 1;

/// A stored mod. `id` is the mod's UUID as a 128-bit number.
#[derive(Debug)]
pub struct ModRecord {
    pub id: u128,
    pub author: String,
    pub title: String,
    pub description: String,
    pub game_name: String,
    pub game_version_major: i32,
    pub game_version_minor: i32,
    pub file_data: Vec<u8>,
    pub version: i32,
}

/// A stored mod as a mathematical value.
pub struct ModView {
    pub id: u128,
    pub author: Seq<char>,
    pub title: Seq<char>,
    pub description: Seq<char>,
    pub game_name: Seq<char>,
    pub game_version_major: i32,
    pub game_version_minor: i32,
    pub file_data: Seq<u8>,
    pub version: int,
}

impl View for ModRecord {
    type V = ModView;

    open spec fn view(&self) -> ModView {
        ModView {
            id: self.id,
            author: self.author@,
            title: self.title@,
            description: self.description@,
            game_name: self.game_name@,
            game_version_major: self.game_version_major,
            game_version_minor: self.game_version_minor,
            file_data: self.file_data@,
            version: self.version as int,
        }
    }
}

impl Keyed for ModRecord {
    type Key = u128;

    type Row = ModView;

    open spec fn key(&self) -> u128 {
        self.id
    }

    open spec fn row(&self) -> ModView {
        self@
    }
}

/// The mods by id.
pub type ModsView = Map<u128, ModView>;

/// Every mod is stored under its own id.
pub open spec fn mods_keyed(m: ModsView) -> bool {
    forall|id: u128| #[trigger] m.contains_key(id) ==> m[id].id == id
}

/// A mod after an accepted change: the given parts are replaced, and the
/// version is one higher.
pub open spec fn changed_mod(
    m: ModView,
    file_data: Option<Seq<u8>>,
    description: Option<Seq<char>>,
) -> ModView {
    ModView {
        file_data: if file_data is Some {
            file_data->0
        } else {
            m.file_data
        },
        description: if description is Some {
            description->0
        } else {
            m.description
        },
        version: m.version + 1,
        ..m
    }
}

/// The mods after the statement that changes the mod `id`. Where no such mod
/// is stored, or its version cannot grow, nothing changes.
pub open spec fn mods_after_change(
    m: ModsView,
    id: u128,
    file_data: Option<Seq<u8>>,
    description: Option<Seq<char>>,
) -> ModsView {
    if m.contains_key(id) && m[id].version < i32::MAX {
        m.insert(id, changed_mod(m[id], file_data, description))
    } else {
        m
    }
}

/// The view of an optional text.
pub open spec fn opt_text(t: Option<String>) -> Option<Seq<char>> {
    match t {
        Some(s) => Some(s@),
        None => None,
    }
}

/// The view of optional bytes.
pub open spec fn opt_bytes(b: Option<Vec<u8>>) -> Option<Seq<u8>> {
    match b {
        Some(v) => Some(v@),
        None => None,
    }
}

/// The table of mods, with the id as primary key.
pub struct ModTable {
    rows: Vec<ModRecord>,
}

impl View for ModTable {
    type V = ModsView;

    closed spec fn view(&self) -> ModsView {
        as_map(self.rows@)
    }
}

impl ModTable {
    /// No id is stored twice.
    pub closed spec fn wf(&self) -> bool {
        distinct_keys(self.rows@)
    }

    /// In a well-formed table every mod is stored under its own id.
    pub proof fn lemma_keyed(&self)
        requires
            self.wf(),
        ensures
            mods_keyed(self@),
    {
        assert forall|id: u128| #[trigger] self@.contains_key(id) implies self@[id].id == id by {
            lemma_position(self.rows@, id);
        }
    }

    /// The empty table.
    pub fn new() -> (t: Self)
        ensures
            t.wf(),
            t@ == Map::<u128, ModView>::empty(),
    {
        proof {
            lemma_as_map_empty::<ModRecord>();
        }
        ModTable { rows: Vec::new() }
    }

    fn find(&self, id: u128) -> (r: Option<usize>)
        requires
            self.wf(),
        ensures
            match r {
                Some(i) => i < self.rows@.len() && self.rows@[i as int].id == id
                    && self@.contains_key(id) && self@[id] == self.rows@[i as int]@,
                None => !self@.contains_key(id) && !has_key(self.rows@, id),
            },
    {
        let mut i: usize = 0;
        while i < self.rows.len()
            invariant
                self.wf(),
                i <= self.rows@.len(),
                forall|j: int| 0 <= j < i ==> (#[trigger] self.rows@[j]).key() != id,
            decreases self.rows@.len() - i,
        {
            if self.rows[i].id == id {
                proof {
                    lemma_as_map_at(self.rows@, i as int);
                }
                return Some(i);
            }
            i += 1;
        }
        None
    }

    /// Whether a mod of that id is stored.
    pub fn contains(&self, id: u128) -> (r: bool)
        requires
            self.wf(),
        ensures
            r == self@.contains_key(id),
    {
        self.find(id).is_some()
    }

    /// The recorded author of the mod `id`.
    pub fn author_of(&self, id: u128) -> (r: Option<&String>)
        requires
            self.wf(),
        ensures
            r is Some <==> self@.contains_key(id),
            r is Some ==> r->0@ == self@[id].author,
    {
        match self.find(id) {
            Some(i) => Some(&self.rows[i].author),
            None => None,
        }
    }

    /// The version of the mod `id`.
    pub fn version_of(&self, id: u128) -> (r: Option<i32>)
        requires
            self.wf(),
        ensures
            r is Some <==> self@.contains_key(id),
            r is Some ==> r->0 == self@[id].version,
    {
        match self.find(id) {
            Some(i) => Some(self.rows[i].version),
            None => None,
        }
    }

    /// Stores `record` unless a mod of its id is stored already. Returns
    /// whether it was stored.
    pub fn insert(&mut self, record: ModRecord) -> (inserted: bool)
        requires
            old(self).wf(),
        ensures
            final(self).wf(),
            inserted == !old(self)@.contains_key(record.id),
            final(self)@ == if inserted {
                old(self)@.insert(record.id, record@)
            } else {
                old(self)@
            },
    {
        match self.find(record.id) {
            Some(_) => false,
            None => {
                proof {
                    lemma_as_map_push(self.rows@, record);
                }
                self.rows.push(record);
                true
            },
        }
    }

    /// Replaces the given parts of the mod `id` and raises its version by one,
    /// in one step. Returns whether the version could grow; a mod that is not
    /// stored counts as changed, as no row stood in the way.
    pub fn change(
        &mut self,
        id: u128,
        file_data: Option<Vec<u8>>,
        description: Option<String>,
    ) -> (changed: bool)
        requires
            old(self).wf(),
        ensures
            final(self).wf(),
            changed == !(old(self)@.contains_key(id) && old(self)@[id].version >= i32::MAX),
            final(self)@ == mods_after_change(
                old(self)@,
                id,
                opt_bytes(file_data),
                opt_text(description),
            ),
    {
        match self.find(id) {
            Some(i) => {
                if self.rows[i].version >= i32::MAX {
                    return false;
                }
                proof {
                    lemma_as_map_remove(self.rows@, i as int);
                }
                let ghost before = self@;
                let mut row = self.rows.remove(i);
                let ghost mid = self@;
                let ghost old_row = row@;
                if let Some(bytes) = file_data {
                    row.file_data = bytes;
                }
                if let Some(text) = description {
                    row.description = text;
                }
                row.version = row.version + 1;
                proof {
                    assert(row@ == changed_mod(
                        old_row,
                        opt_bytes(file_data),
                        opt_text(description),
                    ));
                    lemma_as_map_push(self.rows@, row);
                    assert(mid.insert(id, row@) =~= before.insert(id, row@));
                }
                self.rows.push(row);
                true
            },
            None => true,
        }
    }

    /// Removes the mod `id`, if it is stored.
    pub fn remove(&mut self, id: u128)
        requires
            old(self).wf(),
        ensures
            final(self).wf(),
            final(self)@ == old(self)@.remove(id),
    {
        match self.find(id) {
            Some(i) => {
                proof {
                    lemma_as_map_remove(self.rows@, i as int);
                }
                let _ = self.rows.remove(i);
            },
            None => {
                assert(self@.remove(id) =~= self@);
            },
        }
    }
}

} // verus!
