use indexmap::IndexMap;
use konj::maps::invert;

#[test]
fn invert_swaps_keys_and_values_in_order() {
    let mut m: IndexMap<&'static str, &'static str> = IndexMap::new();
    m.insert("ka", "か");
    m.insert("ki", "き");
    let inv = invert(&m);
    assert_eq!(inv.len(), 2);
    assert_eq!(inv.get_index(0), Some((&"か", &"ka")));
    assert_eq!(inv.get_index(1), Some((&"き", &"ki")));
}

#[test]
fn invert_keeps_the_first_entry_on_collision() {
    let mut m: IndexMap<&'static str, &'static str> = IndexMap::new();
    m.insert("ka", "か");
    m.insert("ca", "か");
    let inv = invert(&m);
    assert_eq!(inv.len(), 1);
    assert_eq!(inv.get("か"), Some(&"ka"));
}

#[test]
fn invert_of_empty_map_is_empty() {
    let m: IndexMap<&'static str, &'static str> = IndexMap::new();
    assert!(invert(&m).is_empty());
}
