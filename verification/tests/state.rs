use tmux_shim::state::{loaded_state, show_tmux_id, State};
use tmux_shim::table::TextMap;

#[test]
fn ids_are_given_out_in_order_and_stay() {
    let mut s = State::default();
    assert_eq!(s.alloc_pane(9), "%0");
    assert_eq!(s.alloc_pane(0), "%1");
    assert_eq!(s.alloc_pane(15), "%2");
    assert_eq!(s.alloc_pane(9), "%0");
    assert_eq!(s.tmux_id_for_wez(0), "%1");
    assert_eq!(s.next_pane, 3);
    assert_eq!(s.wez_id_for_tmux("%2"), Some(15));
    assert_eq!(s.wez_id_for_tmux("%3"), None);
}

#[test]
fn the_counter_wraps_around() {
    let mut s = State::default();
    s.next_pane = u64::MAX;
    assert_eq!(s.alloc_pane(1), "%18446744073709551615");
    assert_eq!(s.next_pane, 0);
    assert_eq!(s.synthetic_pane(), "%0");
    assert_eq!(s.next_pane, 1);
}

#[test]
fn binding_overrides_both_sides() {
    let mut s = State::default();
    s.alloc_pane(1); // %0
    s.alloc_pane(7); // %1
    s.alloc_pane(8); // %2
    s.bind_pane("%0", 7);
    assert_eq!(s.wez_id_for_tmux("%0"), Some(7));
    assert_eq!(s.wez_id_for_tmux("%1"), None);
    assert_eq!(s.wez_to_tmux.get(&7).map(|t| t.as_str()), Some("%0"));
    assert_eq!(s.wez_to_tmux.get(&1), None);
    assert_eq!(s.wez_id_for_tmux("%2"), Some(8));
    assert_eq!(s.next_pane, 3);
}

#[test]
fn binding_again_changes_nothing() {
    let mut s = State::default();
    s.bind_pane("%4", 2);
    s.bind_pane("%4", 2);
    assert_eq!(s.wez_id_for_tmux("%4"), Some(2));
    assert_eq!(s.wez_to_tmux.len(), 1);
    assert_eq!(s.tmux_to_wez.entries().len(), 1);
}

#[test]
fn an_id_bound_ahead_of_the_counter_is_given_out_again() {
    let mut s = State::default();
    s.bind_pane("%0", 7);
    assert_eq!(s.alloc_pane(3), "%0");
    assert_eq!(s.wez_id_for_tmux("%0"), Some(3));
    assert_eq!(s.wez_to_tmux.get(&7).map(|t| t.as_str()), Some("%0"));
}

#[test]
fn forgetting_leaves_no_trace() {
    let mut s = State::default();
    s.alloc_pane(5);
    s.alloc_pane(6);
    s.set_policy(5, "failed".to_string());
    s.set_policy(6, "on".to_string());
    s.forget_pane(5);
    assert_eq!(s.wez_id_for_tmux("%0"), None);
    assert_eq!(s.wez_to_tmux.get(&5), None);
    assert_eq!(s.remain_on_exit.get(&5), None);
    assert_eq!(s.wez_id_for_tmux("%1"), Some(6));
    assert_eq!(s.remain_on_exit.get(&6).map(|v| v.as_str()), Some("on"));
    // A forgotten pane that comes back gets a new id.
    assert_eq!(s.alloc_pane(5), "%2");
    s.forget_pane(99);
    assert_eq!(s.wez_id_for_tmux("%1"), Some(6));
}

#[test]
fn a_state_that_cannot_be_read_is_empty() {
    let s = loaded_state(None);
    assert_eq!(s.next_pane, 0);
    assert!(s.wez_to_tmux.is_empty());
    let mut kept = State::default();
    kept.alloc_pane(3);
    assert_eq!(loaded_state(Some(kept)).wez_id_for_tmux("%0"), Some(3));
}

#[test]
fn tables_keep_the_order_of_their_keys() {
    let mut t: TextMap<u64> = TextMap::new();
    t.insert("b".to_string(), 1);
    t.insert("a".to_string(), 2);
    t.insert("c".to_string(), 3);
    t.insert("a".to_string(), 4);
    let listed: Vec<(String, u64)> = t.entries().clone();
    assert_eq!(
        listed,
        vec![("b".to_string(), 1), ("a".to_string(), 4), ("c".to_string(), 3)]
    );
    t.remove("b");
    t.remove("missing");
    assert_eq!(t.get("b"), None);
    assert_eq!(t.get("a"), Some(&4));
    assert_eq!(t.entries().len(), 2);
    assert_eq!(show_tmux_id(12), "%12");
}
