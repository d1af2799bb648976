use turtl_core::key::Key;
use turtl_core::keychain::{KeyRef, KeyType, Keychain, KeychainEntry, KeychainError, SyncAction};

fn key(bytes: &[u8]) -> Key {
    Key::new(bytes.to_vec())
}

fn s(text: &str) -> String {
    text.to_string()
}

fn user() -> (String, Key) {
    (s("user-1"), key(&[9, 9, 9]))
}

fn store(kc: &mut Keychain, item: &str, k: &Key, id: &str) {
    let (uid, ukey) = user();
    kc.upsert_key(&uid, &ukey, &s(item), k, &s("space"), s(id));
}

fn store_saved(kc: &mut Keychain, item: &str, k: &Key, id: &str) {
    let (uid, ukey) = user();
    kc.upsert_key_save(&uid, &ukey, &s(item), k, &s("space"), s(id));
}

fn bytes_of(keys: &[Key]) -> Vec<Vec<u8>> {
    keys.iter().map(|k| k.data().to_vec()).collect()
}

#[test]
fn new_keychain_is_empty() {
    let kc = Keychain::new();
    assert!(kc.entries.is_empty());
    assert!(kc.find_entry(&s("a")).is_none());
    assert!(kc.find_key(&s("a")).is_none());
    assert!(kc.find_all_entries(&s("a")).is_empty());
}

#[test]
fn stored_key_of_new_item_is_found() {
    let mut kc = Keychain::new();
    store(&mut kc, "a", &key(&[1, 2]), "e1");
    assert_eq!(kc.entries.len(), 1);
    assert_eq!(kc.find_key(&s("a")), Some(key(&[1, 2])));
    let e = kc.find_entry(&s("a")).unwrap();
    assert_eq!(e.id, Some(s("e1")));
    assert_eq!(e.ty, s("space"));
    assert_eq!(e.user_id, s("user-1"));
    assert_eq!(e.protect_key, Some(key(&[9, 9, 9])));
}

#[test]
fn saved_key_of_new_item_is_found() {
    let mut kc = Keychain::new();
    store_saved(&mut kc, "a", &key(&[1]), "e1");
    assert_eq!(kc.find_key(&s("a")), Some(key(&[1])));
}

#[test]
fn storing_the_held_key_changes_nothing() {
    let mut kc = Keychain::new();
    store(&mut kc, "a", &key(&[1]), "e1");
    store(&mut kc, "a", &key(&[1]), "e2");
    store_saved(&mut kc, "a", &key(&[1]), "e3");
    assert_eq!(kc.entries.len(), 1);
    assert_eq!(kc.entries[0].id, Some(s("e1")));
}

#[test]
fn unsaved_store_of_a_new_key_replaces_the_item() {
    let mut kc = Keychain::new();
    store(&mut kc, "a", &key(&[1]), "e1");
    store(&mut kc, "a", &key(&[2]), "e2");
    assert_eq!(kc.entries.len(), 1);
    assert_eq!(kc.find_key(&s("a")), Some(key(&[2])));
    assert_eq!(bytes_of(&kc.find_all_entries(&s("a"))), vec![vec![2]]);
    store(&mut kc, "a", &key(&[2]), "e3");
    assert_eq!(kc.entry_ids(&s("a")), vec![Some(s("e2"))]);
}

#[test]
fn saved_store_replaces_all_entries_of_the_item() {
    let mut kc = Keychain::new();
    store(&mut kc, "a", &key(&[1]), "e1");
    store(&mut kc, "a", &key(&[2]), "e2");
    store(&mut kc, "b", &key(&[7]), "e3");
    store_saved(&mut kc, "a", &key(&[3]), "e4");
    assert_eq!(kc.find_key(&s("a")), Some(key(&[3])));
    assert_eq!(bytes_of(&kc.find_all_entries(&s("a"))), vec![vec![3]]);
    assert_eq!(kc.entry_ids(&s("a")), vec![Some(s("e4"))]);
    assert_eq!(kc.entries.len(), 2);
    assert_eq!(kc.entries[0].item_id, s("b"));
    assert_eq!(kc.entries[1].item_id, s("a"));
}

#[test]
fn store_keeps_other_items() {
    let mut kc = Keychain::new();
    store(&mut kc, "b", &key(&[7]), "e1");
    store(&mut kc, "c", &key(&[8]), "e2");
    store_saved(&mut kc, "a", &key(&[1]), "e3");
    store(&mut kc, "a", &key(&[2]), "e4");
    assert_eq!(kc.find_key(&s("b")), Some(key(&[7])));
    assert_eq!(kc.find_key(&s("c")), Some(key(&[8])));
    assert_eq!(kc.entry_ids(&s("b")), vec![Some(s("e1"))]);
}

#[test]
fn saved_store_is_idempotent() {
    let mut once = Keychain::new();
    store(&mut once, "a", &key(&[1]), "e1");
    store_saved(&mut once, "a", &key(&[5]), "e2");
    let mut twice = Keychain::new();
    store(&mut twice, "a", &key(&[1]), "e1");
    store_saved(&mut twice, "a", &key(&[5]), "e2");
    store_saved(&mut twice, "a", &key(&[5]), "e3");
    store(&mut twice, "a", &key(&[5]), "e4");
    assert_eq!(once.entry_ids(&s("a")), twice.entry_ids(&s("a")));
    assert_eq!(once.entries.len(), twice.entries.len());
}

#[test]
fn remove_entry_removes_every_entry_of_the_item() {
    let mut kc = Keychain::new();
    store(&mut kc, "a", &key(&[1]), "e1");
    store(&mut kc, "b", &key(&[2]), "e2");
    store(&mut kc, "a", &key(&[3]), "e3");
    store(&mut kc, "c", &key(&[4]), "e4");
    kc.remove_entry(&s("a"));
    assert!(kc.find_entry(&s("a")).is_none());
    assert!(kc.find_all_entries(&s("a")).is_empty());
    assert!(kc.entry_ids(&s("a")).is_empty());
    let items: Vec<String> = kc.entries.iter().map(|e| e.item_id.clone()).collect();
    assert_eq!(items, vec![s("b"), s("c")]);
    assert_eq!(kc.find_key(&s("b")), Some(key(&[2])));
    kc.remove_entry(&s("a"));
    assert_eq!(kc.entries.len(), 2);
    kc.remove_entry(&s("zzz"));
    assert_eq!(kc.entries.len(), 2);
}

#[test]
fn find_entry_returns_the_first_match() {
    let (uid, ukey) = user();
    let mut kc = Keychain::new();
    store(&mut kc, "b", &key(&[2]), "e1");
    for (id, k) in [("e2", 1u8), ("e3", 3u8)] {
        let mut e = KeychainEntry::for_item(&uid, &ukey, &s("a"), &key(&[k]), &s("space"));
        e.id = Some(s(id));
        kc.entries.push(e);
    }
    assert_eq!(kc.find_entry(&s("a")).unwrap().id, Some(s("e2")));
    assert_eq!(kc.find_key(&s("a")), Some(key(&[1])));
    assert_eq!(bytes_of(&kc.find_all_entries(&s("a"))), vec![vec![1], vec![3]]);
    store(&mut kc, "a", &key(&[5]), "e4");
    assert_eq!(kc.entry_ids(&s("a")), vec![Some(s("e4"))]);
    assert_eq!(kc.entries[0].item_id, s("b"));
}

#[test]
fn entries_without_key_are_skipped_by_find_all_entries() {
    let mut kc = Keychain::new();
    let mut bare = KeychainEntry::new();
    bare.item_id = s("a");
    bare.id = Some(s("x"));
    kc.entries.push(bare);
    let (uid, ukey) = user();
    let mut keyed = KeychainEntry::for_item(&uid, &ukey, &s("a"), &key(&[4]), &s("space"));
    keyed.id = Some(s("e1"));
    kc.entries.push(keyed);
    assert_eq!(kc.find_key(&s("a")), None);
    assert_eq!(bytes_of(&kc.find_all_entries(&s("a"))), vec![vec![4]]);
    assert_eq!(kc.entry_ids(&s("a")), vec![Some(s("x")), Some(s("e1"))]);
    // the first entry holds no key, so storing replaces the item's entries
    assert!(!kc.holds_key(&s("a"), &key(&[4])));
    store(&mut kc, "a", &key(&[4]), "e2");
    assert_eq!(kc.entry_ids(&s("a")), vec![Some(s("e2"))]);
    assert_eq!(kc.find_key(&s("a")), Some(key(&[4])));
}

#[test]
fn holds_key_compares_the_first_entry() {
    let mut kc = Keychain::new();
    store(&mut kc, "a", &key(&[1]), "e1");
    assert!(kc.holds_key(&s("a"), &key(&[1])));
    assert!(!kc.holds_key(&s("a"), &key(&[1, 0])));
    assert!(!kc.holds_key(&s("b"), &key(&[1])));
}

#[test]
fn for_item_builds_an_unsaved_entry() {
    let (uid, ukey) = user();
    let e = KeychainEntry::for_item(&uid, &ukey, &s("a"), &key(&[6]), &s("board"));
    assert_eq!(e.id, None);
    assert_eq!(e.item_id, s("a"));
    assert_eq!(e.ty, s("board"));
    assert_eq!(e.user_id, s("user-1"));
    assert_eq!(e.k, Some(key(&[6])));
    assert_eq!(e.protect_key, Some(key(&[9, 9, 9])));
    let d = e.duplicate();
    assert_eq!(d.k, e.k);
    assert_eq!(d.item_id, e.item_id);
}

#[test]
fn mem_update_add_and_edit_store_the_key() {
    let (uid, ukey) = user();
    let mut kc = Keychain::new();
    let mut entry = KeychainEntry::new();
    entry.item_id = s("a");
    entry.ty = s("space");
    entry.k = Some(key(&[1]));
    assert_eq!(entry.mem_update(&mut kc, SyncAction::Add, &uid, &ukey, s("n1")), Ok(()));
    assert_eq!(kc.find_key(&s("a")), Some(key(&[1])));
    entry.k = Some(key(&[2]));
    assert_eq!(entry.mem_update(&mut kc, SyncAction::Edit, &uid, &ukey, s("n2")), Ok(()));
    assert_eq!(kc.entries.len(), 1);
    assert_eq!(kc.entries[0].id, Some(s("n2")));
    assert_eq!(kc.find_key(&s("a")), Some(key(&[2])));
}

#[test]
fn mem_update_without_key_fails() {
    let (uid, ukey) = user();
    let mut kc = Keychain::new();
    let mut entry = KeychainEntry::new();
    entry.item_id = s("a");
    assert_eq!(
        entry.mem_update(&mut kc, SyncAction::Add, &uid, &ukey, s("n1")),
        Err(KeychainError::MissingEntryKey)
    );
    assert!(kc.entries.is_empty());
}

#[test]
fn mem_update_delete_removes_and_move_does_nothing() {
    let (uid, ukey) = user();
    let mut kc = Keychain::new();
    store(&mut kc, "a", &key(&[1]), "e1");
    store(&mut kc, "b", &key(&[2]), "e2");
    let mut entry = KeychainEntry::new();
    entry.item_id = s("a");
    assert_eq!(entry.mem_update(&mut kc, SyncAction::MoveSpace, &uid, &ukey, s("n")), Ok(()));
    assert_eq!(kc.entries.len(), 2);
    assert_eq!(entry.mem_update(&mut kc, SyncAction::Delete, &uid, &ukey, s("n")), Ok(()));
    assert_eq!(kc.entries.len(), 1);
    assert!(kc.find_entry(&s("a")).is_none());
}

#[test]
fn key_type_codes_round_trip() {
    for (code, t) in [("s", KeyType::Space), ("b", KeyType::Board), ("u", KeyType::User)] {
        assert_eq!(KeyType::from_string(s(code)), Ok(t));
        assert_eq!(t.to_string(), s(code));
        assert_eq!(KeyType::from_string(t.to_string()), Ok(t));
    }
}

#[test]
fn bad_key_type_code_is_refused() {
    assert_eq!(KeyType::from_string(s("x")), Err(KeychainError::BadKeyType(s("x"))));
    assert_eq!(KeyType::from_string(s("")), Err(KeychainError::BadKeyType(s(""))));
    assert_eq!(KeyType::from_string(s("ss")), Err(KeychainError::BadKeyType(s("ss"))));
    assert_eq!(KeyType::from_string(s("S")), Err(KeychainError::BadKeyType(s("S"))));
}

#[test]
fn key_ref_new_keeps_its_parts() {
    let r = KeyRef::new(s("space-1"), KeyType::Space, s("a2V5"));
    assert_eq!(r.id, s("space-1"));
    assert_eq!(r.ty, KeyType::Space);
    assert_eq!(r.k, s("a2V5"));
}

#[test]
fn key_ref_fields_round_trip() {
    let r = KeyRef::new(s("board-9"), KeyType::Board, s("c2VjcmV0"));
    let fields = r.to_fields();
    assert_eq!(fields, vec![(s("b"), s("board-9")), (s("k"), s("c2VjcmV0"))]);
    let back = KeyRef::from_fields(fields).unwrap();
    assert_eq!(back.id, s("board-9"));
    assert_eq!(back.ty, KeyType::Board);
    assert_eq!(back.k, s("c2VjcmV0"));
    let mut swapped = r.to_fields();
    swapped.reverse();
    let back = KeyRef::from_fields(swapped).unwrap();
    assert_eq!(back.id, s("board-9"));
    assert_eq!(back.ty, KeyType::Board);
}

#[test]
fn key_ref_from_fields_errors() {
    let missing_k = vec![(s("u"), s("user-1"))];
    assert_eq!(KeyRef::from_fields(missing_k).err(), Some(KeychainError::MissingKeyField));
    let missing_type = vec![(s("k"), s("a2V5"))];
    assert_eq!(KeyRef::from_fields(missing_type).err(), Some(KeychainError::MissingTypeField));
    let bad_type = vec![(s("k"), s("a2V5")), (s("q"), s("x"))];
    assert_eq!(KeyRef::from_fields(bad_type).err(), Some(KeychainError::BadKeyType(s("q"))));
    assert_eq!(KeyRef::from_fields(Vec::new()).err(), Some(KeychainError::MissingKeyField));
}

#[test]
fn key_ref_from_fields_takes_the_first_other_field() {
    let fields = vec![(s("s"), s("space-2")), (s("k"), s("a")), (s("u"), s("user-3"))];
    let r = KeyRef::from_fields(fields).unwrap();
    assert_eq!(r.ty, KeyType::Space);
    assert_eq!(r.id, s("space-2"));
    assert_eq!(r.k, s("a"));
}

#[test]
fn keys_compare_and_copy_by_bytes() {
    let a = key(&[1, 2, 3]);
    assert!(a.same_as(&key(&[1, 2, 3])));
    assert!(!a.same_as(&key(&[1, 2])));
    assert!(!a.same_as(&key(&[1, 2, 4])));
    assert_eq!(a.duplicate().data(), &[1, 2, 3]);
    assert_eq!(key(&[]).duplicate().data(), &[] as &[u8]);
}

#[test]
fn sync_action_names_read_back() {
    for (name, a) in [
        ("add", SyncAction::Add),
        ("edit", SyncAction::Edit),
        ("delete", SyncAction::Delete),
        ("move-space", SyncAction::MoveSpace),
    ] {
        assert_eq!(SyncAction::from_name(name), Some(a));
    }
    for name in ["", "Add", "move", "move-space ", "remove"] {
        assert_eq!(SyncAction::from_name(name), None);
    }
}
