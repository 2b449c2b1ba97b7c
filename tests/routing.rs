use bevy_egui::{
    fan_out, ContextRemoval, EguiContextEventReader, FocusedNonWindowEguiContext,
    HoveredNonWindowEguiContext, WindowToEguiContextMap,
};

fn sorted(mut v: Vec<(usize, u64)>) -> Vec<(usize, u64)> {
    v.sort();
    v
}

#[test]
fn index_add_and_lookup() {
    let mut map = WindowToEguiContextMap::new();
    map.add_context(1, 10);
    map.add_context(1, 11);
    map.add_context(2, 20);
    let mut ctxs = map.contexts(1);
    ctxs.sort();
    assert_eq!(ctxs, vec![10, 11]);
    assert_eq!(map.contexts(2), vec![20]);
    assert_eq!(map.contexts(3), Vec::<u64>::new());
    assert_eq!(map.window(10), Some(1));
    assert_eq!(map.window(20), Some(2));
    assert_eq!(map.window(99), None);
}

#[test]
fn index_moving_a_context_keeps_both_sides_consistent() {
    let mut map = WindowToEguiContextMap::new();
    map.add_context(1, 10);
    map.add_context(2, 10);
    assert_eq!(map.window(10), Some(2));
    assert_eq!(map.contexts(1), Vec::<u64>::new());
    assert_eq!(map.contexts(2), vec![10]);
}

#[test]
fn index_remove_context() {
    let mut map = WindowToEguiContextMap::new();
    map.add_context(1, 10);
    map.add_context(1, 11);
    assert_eq!(map.remove_context(10), ContextRemoval::Removed(1));
    assert_eq!(map.contexts(1), vec![11]);
    assert_eq!(map.window(10), None);
    assert_eq!(map.remove_context(10), ContextRemoval::NotRegistered);
    assert_eq!(map.remove_context(42), ContextRemoval::NotRegistered);
}

#[test]
fn fan_out_pairs_each_context_of_the_window_once() {
    let mut map = WindowToEguiContextMap::new();
    map.add_context(7, 1);
    map.add_context(7, 2);
    map.add_context(7, 3);
    let pairs = fan_out(&map, &vec![7], None);
    assert_eq!(pairs.len(), 3);
    assert_eq!(sorted(pairs), vec![(0, 1), (0, 2), (0, 3)]);
}

#[test]
fn fan_out_keeps_event_order_and_skips_unmapped_windows() {
    let mut map = WindowToEguiContextMap::new();
    map.add_context(1, 10);
    map.add_context(2, 20);
    map.add_context(2, 21);
    let pairs = fan_out(&map, &vec![2, 9, 1], None);
    assert_eq!(pairs.len(), 3);
    assert_eq!(pairs[2], (2, 10));
    assert_eq!(sorted(pairs[..2].to_vec()), vec![(0, 20), (0, 21)]);
}

#[test]
fn redirect_pairs_every_event_with_the_target_only() {
    let mut map = WindowToEguiContextMap::new();
    map.add_context(1, 10);
    map.add_context(1, 11);
    map.add_context(1, 12);
    let pairs = fan_out(&map, &vec![1, 1, 5], Some(99));
    assert_eq!(pairs, vec![(0, 99), (1, 99), (2, 99)]);
}

#[test]
fn reader_uses_the_slot_of_its_mode() {
    let mut map = WindowToEguiContextMap::new();
    map.add_context(1, 10);
    let reader = EguiContextEventReader {
        hovered_non_window_egui_context: Some(HoveredNonWindowEguiContext(50)),
        focused_non_window_egui_context: Some(FocusedNonWindowEguiContext(60)),
    };
    assert_eq!(reader.read(&map, &vec![1]), vec![(0, 10)]);
    assert_eq!(reader.read_with_non_window_hovered(&map, &vec![1]), vec![(0, 50)]);
    assert_eq!(reader.read_with_non_window_focused(&map, &vec![1]), vec![(0, 60)]);
    let plain = EguiContextEventReader {
        hovered_non_window_egui_context: None,
        focused_non_window_egui_context: None,
    };
    assert_eq!(plain.read_with_non_window_hovered(&map, &vec![1]), vec![(0, 10)]);
    assert_eq!(plain.read_with_non_window_focused(&map, &vec![]), Vec::<(usize, u64)>::new());
}
