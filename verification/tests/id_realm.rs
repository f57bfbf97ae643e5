use grisui::ecs::EID;
use grisui::id_realm::IdRealm;
use grisui::ids::{EntityID, EntityIDDomain, MeshID, SceneID, TagID, TagIDRealm};

#[test]
fn id_round_trips() {
    assert_eq!(EntityID::from_raw(7).get_raw(), 7);
    assert_eq!(MeshID::from_raw(0).get_raw(), 0);
    assert_eq!(SceneID::from_raw(u32::MAX).get_raw(), u32::MAX);
    assert_eq!(EID::from_raw(3).to_raw(), 3);
}

#[test]
fn domain_generates_above_highest() {
    let mut d = EntityIDDomain::new_empty();
    d.include_id(EntityID::from_raw(5));
    d.include_id(EntityID::from_raw(2));
    assert_eq!(d.generate_new_id(), EntityID::from_raw(6));
    assert_eq!(d.generate_new_id(), EntityID::from_raw(7));
}

#[test]
fn domain_from_ids() {
    let mut d = EntityIDDomain::from_ids(&[EntityID::from_raw(3), EntityID::from_raw(9), EntityID::from_raw(1)]);
    assert_eq!(d.generate_new_id().get_raw(), 10);
    let mut e = EntityIDDomain::from_ids(&[]);
    assert_eq!(e.generate_new_id().get_raw(), 1);
}

#[test]
fn realm_from_iterator_and_get() {
    let r: TagIDRealm<String> = IdRealm::from_iterator(vec![
        (TagID::from_raw(0), "a".to_string()),
        (TagID::from_raw(1), "b".to_string()),
        (TagID::from_raw(2), "c".to_string()),
    ]);
    assert_eq!(r.len(), 3);
    assert_eq!(r.get(TagID::from_raw(1)), Some(&"b".to_string()));
    assert_eq!(r.get(TagID::from_raw(3)), None);
    assert!(r.contains_id(TagID::from_raw(2)));
}

#[test]
fn realm_insert_new_gets_fresh_id() {
    let mut r: TagIDRealm<&str> = IdRealm::from_iterator(vec![(TagID::from_raw(4), "x")]);
    let id = r.insert_new_and_get_id("y");
    assert_eq!(id, TagID::from_raw(5));
    assert_eq!(r.get(id), Some(&"y"));
    assert_eq!(r.get(TagID::from_raw(4)), Some(&"x"));
}

#[test]
fn realm_insert_replace_remove() {
    let mut r: TagIDRealm<u8> = IdRealm::new_empty();
    assert!(r.is_empty());
    assert_eq!(r.insert_or_replace(TagID::from_raw(2), 10), None);
    assert_eq!(r.insert_or_replace(TagID::from_raw(2), 11), Some(10));
    assert_eq!(r.replace_existing(TagID::from_raw(2), 12), 11);
    r.insert_missing(TagID::from_raw(8), 1);
    let mut ids = r.ids();
    ids.sort();
    assert_eq!(ids, vec![2, 8]);
    assert_eq!(r.remove(TagID::from_raw(2)), Some(12));
    assert_eq!(r.remove(TagID::from_raw(2)), None);
    assert_eq!(r.generate_new_id(), TagID::from_raw(9));
    r.clear();
    assert!(r.is_empty());
    assert_eq!(r.generate_new_id(), TagID::from_raw(1));
}

#[test]
fn realm_iter_lists_every_pair_once() {
    let mut r: TagIDRealm<&str> = TagIDRealm::new_empty();
    r.insert_missing(TagID::from_raw(4), "four");
    r.insert_missing(TagID::from_raw(1), "one");
    let a = r.insert_new_and_get_id("five");
    assert_eq!(a.get_raw(), 5);
    let mut pairs: Vec<(u32, &str)> = r.iter().into_iter().map(|(k, v)| (k, *v)).collect();
    pairs.sort();
    assert_eq!(pairs, vec![(1, "one"), (4, "four"), (5, "five")]);
    let empty: IdRealm<TagID, u8> = IdRealm::new_empty();
    assert!(empty.iter().is_empty());
}

#[test]
fn realm_remove_undoes_fresh_insert() {
    let mut r: TagIDRealm<u8> = TagIDRealm::new_empty();
    r.insert_missing(TagID::from_raw(2), 20);
    let before: Vec<(u32, u8)> = r.iter().into_iter().map(|(k, v)| (k, *v)).collect();
    let id = r.insert_new_and_get_id(30);
    assert_eq!(r.remove(id), Some(30));
    let after: Vec<(u32, u8)> = r.iter().into_iter().map(|(k, v)| (k, *v)).collect();
    assert_eq!(before, after);
    assert_eq!(r.generate_new_id().get_raw(), 4);
}

#[test]
fn id_from_its_raw_number_is_itself() {
    let e = EID::from_raw(42);
    assert_eq!(EID::from_raw(e.to_raw()), e);
    assert_ne!(EID::from_raw(1), EID::from_raw(2));
    let t = TagID::from_raw(7);
    assert_eq!(TagID::from_raw(t.get_raw()), t);
}

#[test]
fn realm_checked_construction() {
    let ok = TagIDRealm::try_from_iterator(vec![(TagID::from_raw(1), 'a'), (TagID::from_raw(3), 'b')]).unwrap();
    assert_eq!(ok.get(TagID::from_raw(3)), Some(&'b'));
    assert_eq!(ok.len(), 2);
    assert!(TagIDRealm::try_from_iterator(vec![(TagID::from_raw(1), 'a'), (TagID::from_raw(1), 'b')]).is_none());
    assert!(TagIDRealm::<u8>::try_from_iterator(vec![]).unwrap().is_empty());
}
