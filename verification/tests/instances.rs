use servo_media_mpv::instances::{InstanceTable, MpvBackend, SupportsMediaType};
use servo_media_traits::ClientContextId;

fn context(n: u32) -> ClientContextId {
    ClientContextId::build(n, 1)
}

fn members(table: &InstanceTable<char>, c: ClientContextId) -> Option<Vec<(usize, char)>> {
    table.instances_of(&c).cloned()
}

#[test]
fn a_new_table_knows_no_context() {
    let table: InstanceTable<char> = InstanceTable::new();
    assert_eq!(members(&table, context(1)), None);
    assert!(table.all_instances().is_empty());
}

#[test]
fn numbers_count_up_from_zero() {
    let mut backend = MpvBackend::init();
    assert_eq!(backend.take_instance_id(), 0);
    assert_eq!(backend.take_instance_id(), 1);
    backend.set_capture_mocking(true);
    assert_eq!(backend.take_instance_id(), 2);
}

#[test]
fn instances_join_their_contexts_in_order() {
    let mut table = InstanceTable::new();
    table.add_instance(&context(1), 0, 'a');
    table.add_instance(&context(2), 1, 'b');
    table.add_instance(&context(1), 2, 'c');
    assert_eq!(members(&table, context(1)), Some(vec![(0, 'a'), (2, 'c')]));
    assert_eq!(members(&table, context(2)), Some(vec![(1, 'b')]));
    assert_eq!(members(&table, context(3)), None);
}

#[test]
fn contexts_differ_in_either_number() {
    let mut table = InstanceTable::new();
    table.add_instance(&ClientContextId::build(1, 1), 0, 'a');
    table.add_instance(&ClientContextId::build(1, 2), 1, 'b');
    table.add_instance(&ClientContextId::build(2, 1), 2, 'c');
    table.add_instance(&ClientContextId::build(1, 1), 3, 'd');
    assert_eq!(members(&table, ClientContextId::build(1, 1)), Some(vec![(0, 'a'), (3, 'd')]));
    assert_eq!(members(&table, ClientContextId::build(1, 2)), Some(vec![(1, 'b')]));
    assert_eq!(members(&table, ClientContextId::build(2, 1)), Some(vec![(2, 'c')]));
}

#[test]
fn a_shutdown_removes_every_instance_with_the_number() {
    let mut table = InstanceTable::new();
    table.add_instance(&context(1), 0, 'a');
    table.add_instance(&context(1), 5, 'b');
    table.add_instance(&context(1), 0, 'c');
    table.add_instance(&context(2), 0, 'd');
    table.shutdown_instance(&context(1), 0);
    assert_eq!(members(&table, context(1)), Some(vec![(5, 'b')]));
    assert_eq!(members(&table, context(2)), Some(vec![(0, 'd')]));
}

#[test]
fn the_last_shutdown_removes_the_context() {
    let mut table = InstanceTable::new();
    table.add_instance(&context(1), 0, 'a');
    table.shutdown_instance(&context(1), 9);
    assert_eq!(members(&table, context(1)), Some(vec![(0, 'a')]));
    table.shutdown_instance(&context(1), 0);
    assert_eq!(members(&table, context(1)), None);
    table.shutdown_instance(&context(1), 0);
    assert_eq!(members(&table, context(1)), None);
}

#[test]
fn actions_forget_instances_that_are_gone() {
    let mut table = InstanceTable::new();
    table.add_instance(&context(1), 0, 'a');
    table.add_instance(&context(1), 1, 'b');
    table.add_instance(&context(1), 2, 'c');
    table.add_instance(&context(2), 3, 'd');
    table.keep_live(&context(1), &[true, false, true]);
    assert_eq!(members(&table, context(1)), Some(vec![(0, 'a'), (2, 'c')]));
    table.keep_live(&context(1), &[true, true]);
    assert_eq!(members(&table, context(1)), Some(vec![(0, 'a'), (2, 'c')]));
    table.keep_live(&context(1), &[false, false]);
    assert_eq!(members(&table, context(1)), Some(vec![]));
    assert_eq!(members(&table, context(2)), Some(vec![(3, 'd')]));
    table.keep_live(&context(9), &[]);
    assert_eq!(members(&table, context(9)), None);
    table.shutdown_instance(&context(1), 0);
    assert_eq!(members(&table, context(1)), None);
}

#[test]
fn shutting_down_everything_listed_leaves_nothing() {
    let mut table = InstanceTable::new();
    for i in 0..7 {
        table.add_instance(&context(i % 3), i as usize, 'x');
    }
    let list = table.all_instances();
    assert_eq!(list.len(), 7);
    for c in 0..3 {
        let ids: Vec<usize> = list.iter().filter(|e| e.0 == context(c)).map(|e| e.1).collect();
        let there: Vec<usize> = members(&table, context(c)).unwrap().iter().map(|e| e.0).collect();
        assert_eq!(ids, there);
    }
    for (c, id) in list {
        table.shutdown_instance(&c, id);
    }
    assert!(table.all_instances().is_empty());
    for c in 0..3 {
        assert_eq!(members(&table, context(c)), None);
    }
}

#[test]
fn every_media_type_is_probably_playable() {
    let mut backend = MpvBackend::init();
    assert_eq!(backend.can_play_type("video/mp4"), SupportsMediaType::Probably);
    assert_eq!(backend.can_play_type(""), SupportsMediaType::Probably);
    backend.set_capture_mocking(true);
    assert_eq!(backend.can_play_type("audio/ogg"), SupportsMediaType::Probably);
}
