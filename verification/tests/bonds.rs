use csmcl_qkitty_backend::bonds::same_bytes;
use csmcl_qkitty_backend::{get_kitty_name, save_kitty_name, KittyBonds, QuantumKitty};

#[test]
fn no_bond_no_name() {
    let bonds = KittyBonds::new();
    assert_eq!(bonds.name_of(&vec![1, 2, 3]), None);
    assert_eq!(bonds.name_of(&Vec::new()), None);
}

#[test]
fn a_saved_name_is_read_back() {
    let mut bonds = KittyBonds::new();
    bonds.save(vec![1, 2, 3], "Mochi".to_string());
    assert_eq!(bonds.name_of(&vec![1, 2, 3]), Some("Mochi".to_string()));
    assert_eq!(bonds.name_of(&vec![1, 2]), None);
    assert_eq!(bonds.name_of(&vec![1, 2, 3, 4]), None);
    assert_eq!(bonds.name_of(&vec![3, 2, 1]), None);
}

#[test]
fn a_second_name_takes_the_place_of_the_first() {
    let mut bonds = KittyBonds::new();
    bonds.save(vec![7], "Mochi".to_string());
    bonds.save(vec![8], "Tofu".to_string());
    bonds.save(vec![7], "Miso".to_string());
    assert_eq!(bonds.name_of(&vec![7]), Some("Miso".to_string()));
    assert_eq!(bonds.name_of(&vec![8]), Some("Tofu".to_string()));
}

#[test]
fn the_empty_identity_is_a_caller_too() {
    let mut bonds = KittyBonds::new();
    bonds.save(Vec::new(), "Nobody".to_string());
    assert_eq!(bonds.name_of(&Vec::new()), Some("Nobody".to_string()));
    assert_eq!(bonds.name_of(&vec![0]), None);
}

#[test]
fn same_bytes_compares_whole_strings() {
    assert!(same_bytes(&vec![], &vec![]));
    assert!(same_bytes(&vec![1, 2], &vec![1, 2]));
    assert!(!same_bytes(&vec![1, 2], &vec![1, 3]));
    assert!(!same_bytes(&vec![1, 2], &vec![1]));
    assert!(!same_bytes(&vec![], &vec![0]));
}

#[test]
fn the_kitty_keeps_names_by_caller() {
    let mut kitty = QuantumKitty::new();
    assert_eq!(get_kitty_name(&kitty, &vec![4, 2]), None);
    save_kitty_name(&mut kitty, vec![4, 2], "Mochi".to_string());
    save_kitty_name(&mut kitty, vec![4, 3], "Tofu".to_string());
    assert_eq!(get_kitty_name(&kitty, &vec![4, 2]), Some("Mochi".to_string()));
    assert_eq!(get_kitty_name(&kitty, &vec![4, 3]), Some("Tofu".to_string()));
    save_kitty_name(&mut kitty, vec![4, 2], "Miso".to_string());
    assert_eq!(get_kitty_name(&kitty, &vec![4, 2]), Some("Miso".to_string()));
    assert_eq!(get_kitty_name(&kitty, &vec![4]), None);
    assert!(kitty.templates.is_empty());
    assert_eq!(kitty.state.last_updated(), 0);
}
