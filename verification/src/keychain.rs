//! The keychain: the keys of the items (spaces, boards) that the user can
//! open, each stored in an entry that names the item it belongs to.

use vstd::prelude::*;
use vstd::string::*;

use crate::json::same_text;
use crate::key::Key;
use crate::seqs::{first_where, lemma_first_where_found, lemma_first_where_prefix, lemma_first_where_push};

verus! {

// ---------------------------------------------------------------------------
// Key types and key references
// ---------------------------------------------------------------------------

/// The kind of object that a key reference points at.
#[derive(Clone, Copy, Debug, PartialEq, Eq, Hash, Structural)]
pub enum KeyType {
    Space,
    Board,
    User,
}

/// The one-letter code that stands for a key type in stored data.
pub open spec fn key_type_code(t: KeyType) -> Seq<char> {
    match t {
        KeyType::Space => seq!['s'],
        KeyType::Board => seq!['b'],
        KeyType::User => seq!['u'],
    }
}

/// The key type that a code stands for, if any.
pub open spec fn key_type_of_code(code: Seq<char>) -> Option<KeyType> {
    if code == seq!['s'] {
        Some(KeyType::Space)
    } else if code == seq!['b'] {
        Some(KeyType::Board)
    } else if code == seq!['u'] {
        Some(KeyType::User)
    } else {
        None
    }
}

/// What can go wrong in keychain operations.
#[derive(Debug, PartialEq, Eq)]
pub enum KeychainError {
    /// The text is not the code of a key type.
    BadKeyType(String),
    /// Stored key-reference fields lack the `k` field.
    MissingKeyField,
    /// Stored key-reference fields lack the field that names the type.
    MissingTypeField,
    /// A keychain entry that is to be stored carries no key.
    MissingEntryKey,
}

/// Whether the text holds exactly the one character `c`.
fn is_single_char(s: &str, c: char) -> (b: bool)
    ensures
        b == (s@ == seq![c]),
{
    if s.unicode_len() == 1 {
        let first = s.get_char(0);
        if first == c {
            assert(s@ =~= seq![c]);
            return true;
        }
    }
    false
}

impl KeyType {
    /// Reads a key type from its one-letter code.
    pub fn from_string(s: String) -> (r: Result<KeyType, KeychainError>)
        ensures
            match key_type_of_code(s@) {
                Some(t) => r matches Ok(u) && u == t,
                None => r matches Err(KeychainError::BadKeyType(v)) && v@ == s@,
            },
    {
        if is_single_char(s.as_str(), 's') {
            Ok(KeyType::Space)
        } else if is_single_char(s.as_str(), 'b') {
            Ok(KeyType::Board)
        } else if is_single_char(s.as_str(), 'u') {
            Ok(KeyType::User)
        } else {
            Err(KeychainError::BadKeyType(s))
        }
    }

    /// The one-letter code of this key type.
    pub fn to_string(&self) -> (s: String)
        ensures
            s@ == key_type_code(*self),
    {
        proof {
            reveal_strlit("s");
            reveal_strlit("b");
            reveal_strlit("u");
        }
        match self {
            KeyType::Space => String::from_str("s"),
            KeyType::Board => String::from_str("b"),
            KeyType::User => String::from_str("u"),
        }
    }
}

/// A reference to the key of another object, as stored with that object.
#[derive(Clone, Debug)]
pub struct KeyRef<T: Clone> {
    /// The id of the object that the key is for.
    pub id: String,
    /// The kind of that object.
    pub ty: KeyType,
    /// The key, in whatever form the holder keeps it.
    pub k: T,
}

/// A stored field: its name and its text.
pub open spec fn fields_view(f: Seq<(String, String)>) -> Seq<(Seq<char>, Seq<char>)> {
    f.map_values(|p: (String, String)| (p.0@, p.1@))
}

/// Fields that are named `k` (`named`), or fields that are not (`!named`).
pub open spec fn key_field(named: bool) -> spec_fn((Seq<char>, Seq<char>)) -> bool {
    |f: (Seq<char>, Seq<char>)| (f.0 == seq!['k']) == named
}

/// The position of the first field that is (or is not) named `k`.
fn find_key_field(fields: &Vec<(String, String)>, named: bool) -> (r: Option<usize>)
    ensures
        match r {
            Some(i) => i < fields@.len() && first_where(fields_view(fields@), key_field(named))
                == Some(fields_view(fields@)[i as int]),
            None => first_where(fields_view(fields@), key_field(named)) is None,
        },
{
    let ghost fv = fields_view(fields@);
    let n = fields.len();
    for i in 0..n
        invariant
            n == fields@.len(),
            fv == fields_view(fields@),
            first_where(fv.take(i as int), key_field(named)) is None,
    {
        assert(fv.take(i + 1).drop_last() =~= fv.take(i as int));
        assert(fv.take(i + 1).last() == fv[i as int]);
        if is_single_char(fields[i].0.as_str(), 'k') == named {
            proof {
                lemma_first_where_prefix(fv, key_field(named), i + 1);
            }
            return Some(i);
        }
    }
    assert(fv.take(n as int) =~= fv);
    None
}

impl<T: Default + Clone> KeyRef<T> {
    /// A reference to the key `k` of the object `id` of kind `ty`.
    pub fn new(id: String, ty: KeyType, k: T) -> (r: Self)
        ensures
            r.id == id,
            r.ty == ty,
            r.k == k,
    {
        KeyRef { id: id, ty: ty, k: k }
    }
}

impl KeyRef<String> {
    /// The stored form: the type code names the field that holds the id,
    /// and the field `k` holds the key.
    pub fn to_fields(&self) -> (f: Vec<(String, String)>)
        ensures
            fields_view(f@) == seq![(key_type_code(self.ty), self.id@), (seq!['k'], self.k@)],
    {
        proof {
            reveal_strlit("k");
            assert("k"@ =~= seq!['k']);
        }
        let mut f: Vec<(String, String)> = Vec::new();
        f.push((self.ty.to_string(), self.id.clone()));
        f.push((String::from_str("k"), self.k.clone()));
        assert(fields_view(f@) =~= seq![(key_type_code(self.ty), self.id@), (seq!['k'], self.k@)]);
        f
    }

    /// Reads a key reference back from its stored fields, given in the
    /// order in which the store hands them out: the key comes from the
    /// first field named `k`, and the first other field names the type
    /// and holds the id.
    pub fn from_fields(fields: Vec<(String, String)>) -> (r: Result<KeyRef<String>, KeychainError>)
        ensures
            match first_where(fields_view(fields@), key_field(true)) {
                None => r matches Err(KeychainError::MissingKeyField),
                Some(kf) => match first_where(fields_view(fields@), key_field(false)) {
                    None => r matches Err(KeychainError::MissingTypeField),
                    Some(tf) => match key_type_of_code(tf.0) {
                        None => r matches Err(KeychainError::BadKeyType(v)) && v@ == tf.0,
                        Some(t) => r matches Ok(kr) && kr.ty == t && kr.id@ == tf.1 && kr.k@
                            == kf.1,
                    },
                },
            },
    {
        let ki = match find_key_field(&fields, true) {
            Some(i) => i,
            None => {
                return Err(KeychainError::MissingKeyField);
            },
        };
        let ti = match find_key_field(&fields, false) {
            Some(i) => i,
            None => {
                return Err(KeychainError::MissingTypeField);
            },
        };
        let ty = KeyType::from_string(fields[ti].0.clone())?;
        Ok(KeyRef { id: fields[ti].1.clone(), ty: ty, k: fields[ki].1.clone() })
    }
}

// ---------------------------------------------------------------------------
// Keychain entries
// ---------------------------------------------------------------------------

/// One stored key: the key `k` of the item `item_id`, kept for the user
/// `user_id` and protected with that user's key.
#[derive(Clone, Debug)]
pub struct KeychainEntry {
    /// The entry's own id, once it has been given one.
    pub id: Option<String>,
    /// The kind of the item, as text.
    pub ty: String,
    /// The item whose key this is.
    pub item_id: String,
    /// The user the entry belongs to.
    pub user_id: String,
    /// The item's key.
    pub k: Option<Key>,
    /// The key that protects this entry when it is stored.
    pub protect_key: Option<Key>,
}

/// A keychain entry, with text and keys taken by their contents.
pub struct EntryView {
    pub id: Option<Seq<char>>,
    pub ty: Seq<char>,
    pub item_id: Seq<char>,
    pub user_id: Seq<char>,
    pub k: Option<Seq<u8>>,
    pub protect_key: Option<Seq<u8>>,
}

pub open spec fn opt_text(o: Option<String>) -> Option<Seq<char>> {
    match o {
        Some(s) => Some(s@),
        None => None,
    }
}

pub open spec fn opt_key(o: Option<Key>) -> Option<Seq<u8>> {
    match o {
        Some(k) => Some(k@),
        None => None,
    }
}

impl View for KeychainEntry {
    type V = EntryView;

    open spec fn view(&self) -> EntryView {
        EntryView {
            id: opt_text(self.id),
            ty: self.ty@,
            item_id: self.item_id@,
            user_id: self.user_id@,
            k: opt_key(self.k),
            protect_key: opt_key(self.protect_key),
        }
    }
}

fn duplicate_opt_key(o: &Option<Key>) -> (r: Option<Key>)
    ensures
        opt_key(r) == opt_key(*o),
{
    match o {
        Some(k) => Some(k.duplicate()),
        None => None,
    }
}

fn duplicate_opt_text(o: &Option<String>) -> (r: Option<String>)
    ensures
        opt_text(r) == opt_text(*o),
{
    match o {
        Some(s) => Some(s.clone()),
        None => None,
    }
}

impl KeychainEntry {
    /// An entry with no id, no key and empty text fields.
    pub fn new() -> (e: KeychainEntry)
        ensures
            e@ == (EntryView {
                id: None,
                ty: Seq::empty(),
                item_id: Seq::empty(),
                user_id: Seq::empty(),
                k: None,
                protect_key: None,
            }),
    {
        KeychainEntry {
            id: None,
            ty: String::new(),
            item_id: String::new(),
            user_id: String::new(),
            k: None,
            protect_key: None,
        }
    }

    /// The entry, not yet given an id, that keeps the key `key` of the item
    /// `item_id` of kind `ty` for the user `user_id`, protected with the
    /// user's key `user_key`.
    pub fn for_item(
        user_id: &String,
        user_key: &Key,
        item_id: &String,
        key: &Key,
        ty: &String,
    ) -> (e: KeychainEntry)
        ensures
            e@ == (EntryView {
                id: None,
                ty: ty@,
                item_id: item_id@,
                user_id: user_id@,
                k: Some(key@),
                protect_key: Some(user_key@),
            }),
    {
        let mut entry = KeychainEntry::new();
        entry.protect_key = Some(user_key.duplicate());
        entry.ty = ty.clone();
        entry.user_id = user_id.clone();
        entry.item_id = item_id.clone();
        entry.k = Some(key.duplicate());
        entry
    }

    /// A second entry with the same contents.
    pub fn duplicate(&self) -> (e: KeychainEntry)
        ensures
            e@ == self@,
    {
        KeychainEntry {
            id: duplicate_opt_text(&self.id),
            ty: self.ty.clone(),
            item_id: self.item_id.clone(),
            user_id: self.user_id.clone(),
            k: duplicate_opt_key(&self.k),
            protect_key: duplicate_opt_key(&self.protect_key),
        }
    }
}

// ---------------------------------------------------------------------------
// The keychain and what it holds
// ---------------------------------------------------------------------------

/// The keys of the current user, one entry per stored key.
#[derive(Debug)]
pub struct Keychain {
    pub entries: Vec<KeychainEntry>,
}

impl View for Keychain {
    type V = Seq<EntryView>;

    open spec fn view(&self) -> Seq<EntryView> {
        self.entries@.map_values(|e: KeychainEntry| e@)
    }
}

/// Entries that belong to the item `item`.
pub open spec fn of_item(item: Seq<char>) -> spec_fn(EntryView) -> bool {
    |e: EntryView| e.item_id == item
}

/// The first entry of the item, if any.
pub open spec fn first_entry(s: Seq<EntryView>, item: Seq<char>) -> Option<EntryView> {
    first_where(s, of_item(item))
}

/// The key held by the first entry of the item, if there is such an entry
/// and it holds a key.
pub open spec fn key_of(s: Seq<EntryView>, item: Seq<char>) -> Option<Seq<u8>> {
    match first_entry(s, item) {
        Some(e) => e.k,
        None => None,
    }
}

/// The keys of all entries of the item that hold one, in order.
pub open spec fn keys_of(s: Seq<EntryView>, item: Seq<char>) -> Seq<Seq<u8>>
    decreases s.len(),
{
    if s.len() == 0 {
        Seq::empty()
    } else {
        let rest = keys_of(s.drop_last(), item);
        if s.last().item_id == item && s.last().k is Some {
            rest.push(s.last().k.unwrap())
        } else {
            rest
        }
    }
}

/// The ids of all entries of the item, in order.
pub open spec fn ids_of(s: Seq<EntryView>, item: Seq<char>) -> Seq<Option<Seq<char>>>
    decreases s.len(),
{
    if s.len() == 0 {
        Seq::empty()
    } else {
        let rest = ids_of(s.drop_last(), item);
        if s.last().item_id == item {
            rest.push(s.last().id)
        } else {
            rest
        }
    }
}

/// The entries that do not belong to the item, in order.
pub open spec fn without(s: Seq<EntryView>, item: Seq<char>) -> Seq<EntryView>
    decreases s.len(),
{
    if s.len() == 0 {
        Seq::empty()
    } else {
        let rest = without(s.drop_last(), item);
        if s.last().item_id == item {
            rest
        } else {
            rest.push(s.last())
        }
    }
}

/// The entry made for the key `key` of the item `item` of kind `ty`,
/// kept for the user `user` and protected with `user_key`.
pub open spec fn new_entry(
    id: Seq<char>,
    ty: Seq<char>,
    item: Seq<char>,
    user: Seq<char>,
    key: Seq<u8>,
    user_key: Seq<u8>,
) -> EntryView {
    EntryView {
        id: Some(id),
        ty: ty,
        item_id: item,
        user_id: user,
        k: Some(key),
        protect_key: Some(user_key),
    }
}

/// The keychain after storing the entry `e` (an upsert): nothing changes
/// when the first entry of the item already holds the same key; otherwise
/// the item's entries are replaced by `e`, which goes at the end.
pub open spec fn upserted(s: Seq<EntryView>, e: EntryView) -> Seq<EntryView> {
    if key_of(s, e.item_id) == e.k {
        s
    } else {
        without(s, e.item_id).push(e)
    }
}

/// Where a change to the keychain came from when a stored entry changes.
#[derive(Clone, Copy, Debug, PartialEq, Eq, Structural)]
pub enum SyncAction {
    Add,
    Edit,
    Delete,
    MoveSpace,
}

/// The name that stands for a sync action in messages.
pub open spec fn sync_action_name(a: SyncAction) -> Seq<char> {
    match a {
        SyncAction::Add => "add"@,
        SyncAction::Edit => "edit"@,
        SyncAction::Delete => "delete"@,
        SyncAction::MoveSpace => "move-space"@,
    }
}

/// The sync action that a name stands for, if any.
pub open spec fn sync_action_of_name(s: Seq<char>) -> Option<SyncAction> {
    if s == "add"@ {
        Some(SyncAction::Add)
    } else if s == "edit"@ {
        Some(SyncAction::Edit)
    } else if s == "delete"@ {
        Some(SyncAction::Delete)
    } else if s == "move-space"@ {
        Some(SyncAction::MoveSpace)
    } else {
        None
    }
}

impl SyncAction {
    /// The sync action with this name, if any.
    pub fn from_name(name: &str) -> (r: Option<SyncAction>)
        ensures
            r == sync_action_of_name(name@),
    {
        if same_text(name, "add") {
            Some(SyncAction::Add)
        } else if same_text(name, "edit") {
            Some(SyncAction::Edit)
        } else if same_text(name, "delete") {
            Some(SyncAction::Delete)
        } else if same_text(name, "move-space") {
            Some(SyncAction::MoveSpace)
        } else {
            None
        }
    }
}

/// Every sync action's name reads back as that action, and a name that
/// reads as an action is that action's name.
pub proof fn law_sync_action_name_round_trip(a: SyncAction, name: Seq<char>)
    ensures
        sync_action_of_name(sync_action_name(a)) == Some(a),
        sync_action_of_name(name) matches Some(b) ==> sync_action_name(b) == name,
{
    reveal_strlit("add");
    reveal_strlit("edit");
    reveal_strlit("delete");
    reveal_strlit("move-space");
    // The names differ in length.
    assert("add"@.len() == 3);
    assert("edit"@.len() == 4);
    assert("delete"@.len() == 6);
    assert("move-space"@.len() == 10);
}

impl Keychain {
    /// An empty keychain.
    pub fn new() -> (kc: Keychain)
        ensures
            kc@ == Seq::<EntryView>::empty(),
    {
        let kc = Keychain { entries: Vec::new() };
        assert(kc@ =~= Seq::<EntryView>::empty());
        kc
    }

    /// The first entry for the given item.
    pub fn find_entry<'a>(&'a self, item_id: &String) -> (r: Option<&'a KeychainEntry>)
        ensures
            match r {
                Some(e) => first_entry(self@, item_id@) == Some(e@),
                None => first_entry(self@, item_id@) is None,
            },
    {
        let ghost s = self@;
        let n = self.entries.len();
        for i in 0..n
            invariant
                n == self.entries@.len(),
                s == self@,
                first_entry(s.take(i as int), item_id@) is None,
        {
            assert(s.take(i + 1).drop_last() =~= s.take(i as int));
            assert(s.take(i + 1).last() == self.entries@[i as int]@);
            let e = &self.entries[i];
            if e.item_id == *item_id {
                proof {
                    lemma_first_where_prefix(s, of_item(item_id@), i + 1);
                }
                return Some(e);
            }
        }
        assert(s.take(n as int) =~= s);
        None
    }

    /// The key of the given item, from its first entry.
    pub fn find_key(&self, item_id: &String) -> (r: Option<Key>)
        ensures
            opt_key(r) == key_of(self@, item_id@),
    {
        match self.find_entry(item_id) {
            Some(entry) => duplicate_opt_key(&entry.k),
            None => None,
        }
    }

    /// All keys stored for the given item, in the keychain's order.
    pub fn find_all_entries(&self, item_id: &String) -> (r: Vec<Key>)
        ensures
            r@.map_values(|k: Key| k@) == keys_of(self@, item_id@),
    {
        let ghost s = self@;
        let mut found: Vec<Key> = Vec::new();
        let n = self.entries.len();
        for i in 0..n
            invariant
                n == self.entries@.len(),
                s == self@,
                found@.map_values(|k: Key| k@) == keys_of(s.take(i as int), item_id@),
        {
            assert(s.take(i + 1).drop_last() =~= s.take(i as int));
            assert(s.take(i + 1).last() == self.entries@[i as int]@);
            let entry = &self.entries[i];
            match &entry.k {
                Some(k) => {
                    if entry.item_id == *item_id {
                        let ghost before = found@;
                        found.push(k.duplicate());
                        assert(found@.map_values(|k: Key| k@) =~= before.map_values(|k: Key| k@).push(
                            k@,
                        ));
                    }
                },
                None => {},
            }
        }
        assert(s.take(n as int) =~= s);
        found
    }

    /// The ids of all entries of the given item, in the keychain's order.
    pub fn entry_ids(&self, item_id: &String) -> (r: Vec<Option<String>>)
        ensures
            r@.map_values(|o: Option<String>| opt_text(o)) == ids_of(self@, item_id@),
    {
        let ghost s = self@;
        let mut ids: Vec<Option<String>> = Vec::new();
        let n = self.entries.len();
        for i in 0..n
            invariant
                n == self.entries@.len(),
                s == self@,
                ids@.map_values(|o: Option<String>| opt_text(o)) == ids_of(s.take(i as int), item_id@),
        {
            assert(s.take(i + 1).drop_last() =~= s.take(i as int));
            assert(s.take(i + 1).last() == self.entries@[i as int]@);
            let entry = &self.entries[i];
            if entry.item_id == *item_id {
                let ghost before = ids@;
                ids.push(duplicate_opt_text(&entry.id));
                assert(ids@.map_values(|o: Option<String>| opt_text(o)) =~= before.map_values(
                    |o: Option<String>| opt_text(o),
                ).push(opt_text(entry.id)));
            }
        }
        assert(s.take(n as int) =~= s);
        ids
    }

    /// Removes every entry of the given item; the others keep their order.
    pub fn remove_entry(&mut self, item_id: &String)
        ensures
            final(self)@ == without(old(self)@, item_id@),
    {
        let ghost s = self@;
        let mut kept: Vec<KeychainEntry> = Vec::new();
        let n = self.entries.len();
        for i in 0..n
            invariant
                n == self.entries@.len(),
                s == self@,
                kept@.map_values(|e: KeychainEntry| e@) == without(s.take(i as int), item_id@),
        {
            assert(s.take(i + 1).drop_last() =~= s.take(i as int));
            assert(s.take(i + 1).last() == self.entries@[i as int]@);
            if self.entries[i].item_id != *item_id {
                let ghost before = kept@;
                kept.push(self.entries[i].duplicate());
                assert(kept@.map_values(|e: KeychainEntry| e@) =~= before.map_values(
                    |e: KeychainEntry| e@,
                ).push(self.entries@[i as int]@));
            }
        }
        assert(s.take(n as int) =~= s);
        self.entries = kept;
    }

    /// Whether the first entry of the item already holds this key, in which
    /// case storing it changes nothing.
    pub fn holds_key(&self, item_id: &String, key: &Key) -> (b: bool)
        ensures
            b == (key_of(self@, item_id@) == Some(key@)),
    {
        match self.find_entry(item_id) {
            Some(entry) => match &entry.k {
                Some(k) => k.same_as(key),
                None => false,
            },
            None => false,
        }
    }

    fn upsert_key_impl(
        &mut self,
        user_id: &String,
        user_key: &Key,
        item_id: &String,
        key: &Key,
        ty: &String,
        entry_id: String,
    )
        ensures
            final(self)@ == upserted(
                old(self)@,
                new_entry(entry_id@, ty@, item_id@, user_id@, key@, user_key@),
            ),
    {
        if self.holds_key(item_id, key) {
            return;
        }
        self.remove_entry(item_id);
        let mut entry = KeychainEntry::for_item(user_id, user_key, item_id, key, ty);
        entry.id = Some(entry_id);
        let ghost before = self@;
        self.entries.push(entry);
        assert(self@ =~= before.push(new_entry(entry_id@, ty@, item_id@, user_id@, key@, user_key@)));
    }

    /// Stores (upserts) the key of an item for the user, unless the item's
    /// first entry already holds it: the item's entries are replaced by a
    /// new entry with the id `entry_id`, which goes at the end.
    pub fn upsert_key(
        &mut self,
        user_id: &String,
        user_key: &Key,
        item_id: &String,
        key: &Key,
        ty: &String,
        entry_id: String,
    )
        ensures
            final(self)@ == upserted(
                old(self)@,
                new_entry(entry_id@, ty@, item_id@, user_id@, key@, user_key@),
            ),
    {
        self.upsert_key_impl(user_id, user_key, item_id, key, ty, entry_id)
    }

    /// Stores the key of an item for the user as a saved change, unless the
    /// item's first entry already holds it: the item's old entries are
    /// removed and the new entry, with the id `saved_id` that saving gave
    /// it, goes at the end.
    pub fn upsert_key_save(
        &mut self,
        user_id: &String,
        user_key: &Key,
        item_id: &String,
        key: &Key,
        ty: &String,
        saved_id: String,
    )
        ensures
            final(self)@ == upserted(
                old(self)@,
                new_entry(saved_id@, ty@, item_id@, user_id@, key@, user_key@),
            ),
    {
        self.upsert_key_impl(user_id, user_key, item_id, key, ty, saved_id)
    }
}

impl KeychainEntry {
    /// Applies a stored change of this entry to the in-memory keychain:
    /// an added or edited entry stores its key (failing when it carries
    /// none), a deleted entry removes the item's entries, and moving
    /// changes nothing. `entry_id` is the id given to a newly made entry.
    pub fn mem_update(
        &self,
        keychain: &mut Keychain,
        action: SyncAction,
        user_id: &String,
        user_key: &Key,
        entry_id: String,
    ) -> (r: Result<(), KeychainError>)
        ensures
            match action {
                SyncAction::Add | SyncAction::Edit => match self.k {
                    Some(k) => r is Ok && final(keychain)@ == upserted(
                        old(keychain)@,
                        new_entry(entry_id@, self.ty@, self.item_id@, user_id@, k@, user_key@),
                    ),
                    None => r matches Err(KeychainError::MissingEntryKey) && final(keychain)@
                        == old(keychain)@,
                },
                SyncAction::Delete => r is Ok && final(keychain)@ == without(
                    old(keychain)@,
                    self.item_id@,
                ),
                SyncAction::MoveSpace => r is Ok && final(keychain)@ == old(keychain)@,
            },
    {
        match action {
            SyncAction::Add | SyncAction::Edit => {
                let key = match &self.k {
                    Some(k) => k,
                    None => {
                        return Err(KeychainError::MissingEntryKey);
                    },
                };
                keychain.upsert_key(user_id, user_key, &self.item_id, key, &self.ty, entry_id);
            },
            SyncAction::Delete => {
                keychain.remove_entry(&self.item_id);
            },
            SyncAction::MoveSpace => {},
        }
        Ok(())
    }
}

// ---------------------------------------------------------------------------
// Laws
// ---------------------------------------------------------------------------

proof fn lemma_push_other(s: Seq<EntryView>, e: EntryView, j: Seq<char>)
    requires
        e.item_id != j,
    ensures
        first_entry(s.push(e), j) == first_entry(s, j),
        keys_of(s.push(e), j) == keys_of(s, j),
        ids_of(s.push(e), j) == ids_of(s, j),
{
    assert(s.push(e).drop_last() =~= s);
}

proof fn lemma_without_none(s: Seq<EntryView>, i: Seq<char>)
    ensures
        first_entry(without(s, i), i) is None,
        keys_of(without(s, i), i) == Seq::<Seq<u8>>::empty(),
        ids_of(without(s, i), i) == Seq::<Option<Seq<char>>>::empty(),
    decreases s.len(),
{
    if s.len() > 0 {
        lemma_without_none(s.drop_last(), i);
        let w = without(s.drop_last(), i);
        if s.last().item_id != i {
            assert(w.push(s.last()).drop_last() =~= w);
        }
    }
}

proof fn lemma_without_other(s: Seq<EntryView>, i: Seq<char>, j: Seq<char>)
    requires
        i != j,
    ensures
        first_entry(without(s, i), j) == first_entry(s, j),
        keys_of(without(s, i), j) == keys_of(s, j),
        ids_of(without(s, i), j) == ids_of(s, j),
    decreases s.len(),
{
    if s.len() > 0 {
        lemma_without_other(s.drop_last(), i, j);
        let w = without(s.drop_last(), i);
        if s.last().item_id != i {
            assert(w.push(s.last()).drop_last() =~= w);
        }
    }
}

/// The entry found for an item belongs to that item and is in the keychain;
/// none is found only when the keychain holds no entry of the item.
pub proof fn law_found_entry_is_of_item(s: Seq<EntryView>, item: Seq<char>)
    ensures
        first_entry(s, item) matches Some(e) ==> e.item_id == item && s.contains(e),
        first_entry(s, item) is None ==> forall|i: int| 0 <= i < s.len() ==> s[i].item_id != item,
{
    lemma_first_where_found(s, of_item(item));
    if first_entry(s, item) is None {
        assert forall|i: int| 0 <= i < s.len() implies s[i].item_id != item by {
            assert(!of_item(item)(s[i]));
        }
    }
}

/// After storing a key, saved or not, the item's key is that key.
pub proof fn law_stored_key_is_found(s: Seq<EntryView>, e: EntryView)
    ensures
        key_of(upserted(s, e), e.item_id) == e.k,
{
    if key_of(s, e.item_id) != e.k {
        lemma_without_none(s, e.item_id);
        lemma_first_where_push(without(s, e.item_id), of_item(e.item_id), e);
    }
}

/// A store that changes the keychain leaves the item with exactly one
/// entry, the new one.
pub proof fn law_store_replaces_all(s: Seq<EntryView>, e: EntryView)
    requires
        e.k is Some,
        key_of(s, e.item_id) != e.k,
    ensures
        keys_of(upserted(s, e), e.item_id) == seq![e.k.unwrap()],
        ids_of(upserted(s, e), e.item_id) == seq![e.id],
{
    lemma_without_none(s, e.item_id);
    let w = without(s, e.item_id);
    assert(w.push(e).drop_last() =~= w);
    assert(Seq::<Seq<u8>>::empty().push(e.k.unwrap()) =~= seq![e.k.unwrap()]);
    assert(Seq::<Option<Seq<char>>>::empty().push(e.id) =~= seq![e.id]);
}

/// Storing a key leaves the entries of every other item as they were.
pub proof fn law_store_keeps_other_items(s: Seq<EntryView>, e: EntryView, item: Seq<char>)
    requires
        item != e.item_id,
    ensures
        first_entry(upserted(s, e), item) == first_entry(s, item),
        key_of(upserted(s, e), item) == key_of(s, item),
        keys_of(upserted(s, e), item) == keys_of(s, item),
        ids_of(upserted(s, e), item) == ids_of(s, item),
{
    if key_of(s, e.item_id) != e.k {
        lemma_push_other(without(s, e.item_id), e, item);
        lemma_without_other(s, e.item_id, item);
    }
}

/// Storing the same key twice changes nothing the second time.
pub proof fn law_store_is_idempotent(s: Seq<EntryView>, e: EntryView)
    ensures
        upserted(upserted(s, e), e) == upserted(s, e),
{
    law_stored_key_is_found(s, e);
}

/// Entries that do not belong to the item `item`.
pub open spec fn not_of_item(item: Seq<char>) -> spec_fn(EntryView) -> bool {
    |e: EntryView| e.item_id != item
}

/// Entries of the item `item` that hold a key.
pub open spec fn keyed_of_item(item: Seq<char>) -> spec_fn(EntryView) -> bool {
    |e: EntryView| e.item_id == item && e.k is Some
}

/// The key an entry holds.
pub open spec fn entry_key() -> spec_fn(EntryView) -> Seq<u8> {
    |e: EntryView| e.k.unwrap()
}

/// The id of an entry.
pub open spec fn entry_id() -> spec_fn(EntryView) -> Option<Seq<char>> {
    |e: EntryView| e.id
}

/// Removing an item keeps the entries of other items; the keys and ids
/// found for an item are those of its entries, in order.
pub proof fn law_lookups_are_filters(s: Seq<EntryView>, item: Seq<char>)
    ensures
        without(s, item) == s.filter(not_of_item(item)),
        keys_of(s, item) == s.filter(keyed_of_item(item)).map_values(entry_key()),
        ids_of(s, item) == s.filter(of_item(item)).map_values(entry_id()),
    decreases s.len(),
{
    reveal(Seq::filter);
    if s.len() > 0 {
        law_lookups_are_filters(s.drop_last(), item);
        let k = s.drop_last().filter(keyed_of_item(item));
        assert(k.push(s.last()).map_values(entry_key()) =~= k.map_values(entry_key()).push(
            s.last().k.unwrap(),
        ));
        let i = s.drop_last().filter(of_item(item));
        assert(i.push(s.last()).map_values(entry_id()) =~= i.map_values(entry_id()).push(
            s.last().id,
        ));
    } else {
        assert(s.filter(keyed_of_item(item)).map_values(entry_key()) =~= Seq::empty());
        assert(s.filter(of_item(item)).map_values(entry_id()) =~= Seq::empty());
    }
}

/// After removing an item, it has no entry, no key and no id left.
pub proof fn law_removed_item_is_gone(s: Seq<EntryView>, item: Seq<char>)
    ensures
        first_entry(without(s, item), item) is None,
        key_of(without(s, item), item) is None,
        keys_of(without(s, item), item) == Seq::<Seq<u8>>::empty(),
        ids_of(without(s, item), item) == Seq::<Option<Seq<char>>>::empty(),
{
    lemma_without_none(s, item);
}

/// Removing an item leaves every other item's entries as they were.
pub proof fn law_remove_keeps_other_items(s: Seq<EntryView>, item: Seq<char>, other: Seq<char>)
    requires
        item != other,
    ensures
        first_entry(without(s, item), other) == first_entry(s, other),
        key_of(without(s, item), other) == key_of(s, other),
        keys_of(without(s, item), other) == keys_of(s, other),
        ids_of(without(s, item), other) == ids_of(s, other),
{
    lemma_without_other(s, item, other);
}

/// Removing an item twice is the same as removing it once.
pub proof fn law_remove_is_idempotent(s: Seq<EntryView>, item: Seq<char>)
    ensures
        without(without(s, item), item) == without(s, item),
    decreases s.len(),
{
    if s.len() > 0 {
        law_remove_is_idempotent(s.drop_last(), item);
        let w = without(s.drop_last(), item);
        if s.last().item_id != item {
            assert(w.push(s.last()).drop_last() =~= w);
        }
    }
}

/// Every key type's code reads back as that key type, and a code that
/// reads as a key type is that type's code.
pub proof fn law_key_type_code_round_trip(t: KeyType, code: Seq<char>)
    ensures
        key_type_of_code(key_type_code(t)) == Some(t),
        key_type_of_code(code) matches Some(u) ==> key_type_code(u) == code,
{
    assert(seq!['s'] != seq!['b']) by {
        assert(seq!['s'][0] != seq!['b'][0]);
    }
    assert(seq!['s'] != seq!['u']) by {
        assert(seq!['s'][0] != seq!['u'][0]);
    }
    assert(seq!['b'] != seq!['u']) by {
        assert(seq!['b'][0] != seq!['u'][0]);
    }
}

/// The stored fields of a key reference read back as the same key
/// reference: the first field named `k` holds the key, and the first
/// other field is named by the type's code and holds the id.
pub proof fn law_key_ref_fields_round_trip(ty: KeyType, id: Seq<char>, k: Seq<char>)
    ensures
        ({
            let f = seq![(key_type_code(ty), id), (seq!['k'], k)];
            &&& first_where(f, key_field(true)) == Some((seq!['k'], k))
            &&& first_where(f, key_field(false)) == Some((key_type_code(ty), id))
            &&& key_type_of_code(key_type_code(ty)) == Some(ty)
        }),
{
    let f = seq![(key_type_code(ty), id), (seq!['k'], k)];
    law_key_type_code_round_trip(ty, key_type_code(ty));
    assert(key_type_code(ty) != seq!['k']) by {
        assert(key_type_code(ty)[0] != seq!['k'][0]);
    }
    let e = Seq::<(Seq<char>, Seq<char>)>::empty();
    assert(f =~= e.push((key_type_code(ty), id)).push((seq!['k'], k)));
    lemma_first_where_push(e, key_field(true), (key_type_code(ty), id));
    lemma_first_where_push(e, key_field(false), (key_type_code(ty), id));
    lemma_first_where_push(e.push((key_type_code(ty), id)), key_field(true), (seq!['k'], k));
    lemma_first_where_push(e.push((key_type_code(ty), id)), key_field(false), (seq!['k'], k));
}

} // verus!
