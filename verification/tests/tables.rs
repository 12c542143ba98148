//! The tables of exports, questions, imports and answers.

use capnp_rpc::tables::{ExportTable, Import, ImportTable};

#[test]
fn a_new_export_table_is_empty() {
    let table: ExportTable<u8> = ExportTable::new();
    assert!(!table.has_slot(0));
    assert!(table.get(0).is_none());
    assert!(table.has_room());
}

#[test]
fn export_ids_count_up_from_zero() {
    let mut table = ExportTable::new();
    assert_eq!(table.push("a"), 0);
    assert_eq!(table.push("b"), 1);
    assert_eq!(table.push("c"), 2);
    assert_eq!(table.get(0), Some(&"a"));
    assert_eq!(table.get(1), Some(&"b"));
    assert_eq!(table.get(2), Some(&"c"));
    assert_eq!(table.get(3), None);
    assert!(table.has_slot(2));
    assert!(!table.has_slot(3));
}

#[test]
fn freed_ids_are_reused_lowest_first() {
    let mut table = ExportTable::new();
    for value in 0..6u32 {
        assert_eq!(table.push(value), value);
    }
    table.erase(4);
    table.erase(1);
    table.erase(3);
    assert_eq!(table.get(1), None);
    assert!(table.has_slot(1));
    assert_eq!(table.push(10), 1);
    assert_eq!(table.push(30), 3);
    assert_eq!(table.push(40), 4);
    assert_eq!(table.push(60), 6);
    let values: Vec<u32> = (0..7u32).map(|id| *table.get(id).unwrap()).collect();
    assert_eq!(values, vec![0, 10, 2, 30, 40, 5, 60]);
}

#[test]
fn erase_undoes_push() {
    let mut table = ExportTable::new();
    table.push('a');
    let id = table.push('b');
    table.erase(id);
    assert_eq!(table.get(0), Some(&'a'));
    assert_eq!(table.get(id), None);
    assert_eq!(table.push('c'), id);
}

#[test]
fn an_id_that_is_erased_twice_is_handed_out_twice() {
    let mut table = ExportTable::new();
    table.push('a');
    table.erase(0);
    table.erase(0);
    assert_eq!(table.push('b'), 0);
    assert_eq!(table.push('c'), 0);
    assert_eq!(table.get(0), Some(&'c'));
    assert_eq!(table.push('d'), 1);
}

#[test]
fn an_export_can_be_changed_in_place() {
    let mut table = ExportTable::new();
    table.push(1u8);
    table.push(2);
    *table.get_mut(1).unwrap() = 7;
    assert!(table.get_mut(2).is_none());
    assert_eq!(table.get(0), Some(&1));
    assert_eq!(table.get(1), Some(&7));
}

#[test]
fn an_import_table_holds_what_was_put_in_last() {
    let mut table: ImportTable<&str> = ImportTable::new();
    assert_eq!(table.get(9), None);
    table.insert(9, "a");
    table.insert(4, "b");
    table.insert(9, "c");
    assert_eq!(table.get(9), Some(&"c"));
    assert_eq!(table.get(4), Some(&"b"));
    table.remove(9);
    table.remove(1);
    assert_eq!(table.get(9), None);
    assert_eq!(table.get(4), Some(&"b"));
}

#[test]
fn imports_can_be_noted() {
    let mut table = ImportTable::new();
    table.insert(3, Import);
    assert!(table.get(3).is_some());
    assert!(table.get(2).is_none());
}
