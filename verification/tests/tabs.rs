use iced_aw::tabs::{Message, Tabs};

fn tab(label: &str, content: &str) -> (String, String) {
    (label.to_string(), content.to_string())
}

fn three_tabs(active_tab: usize) -> Tabs {
    Tabs {
        active_tab,
        new_tab_label: String::new(),
        new_tab_content: String::new(),
        tabs: vec![tab("One", "A"), tab("Two", "B"), tab("Three", "C")],
    }
}

#[test]
fn new_has_no_tabs() {
    let tabs = Tabs::new();
    assert_eq!(tabs.active_tab, 0);
    assert!(tabs.tabs.is_empty());
    assert_eq!(tabs.new_tab_label, "");
    assert_eq!(tabs.new_tab_content, "");
}

#[test]
fn closing_the_selected_middle_tab_keeps_the_index() {
    let mut tabs = three_tabs(1);
    tabs.close(1);
    assert_eq!(tabs.tabs, vec![tab("One", "A"), tab("Three", "C")]);
    assert_eq!(tabs.active_tab, 1);
}

#[test]
fn closing_in_front_of_the_last_selected_tab_moves_the_selection_down() {
    let mut tabs = three_tabs(2);
    tabs.close(0);
    assert_eq!(tabs.tabs, vec![tab("Two", "B"), tab("Three", "C")]);
    assert_eq!(tabs.active_tab, 1);
}

#[test]
fn closing_in_front_of_a_selected_tab_that_is_not_last_keeps_the_index() {
    let mut tabs = three_tabs(1);
    tabs.close(0);
    assert_eq!(tabs.tabs, vec![tab("Two", "B"), tab("Three", "C")]);
    assert_eq!(tabs.active_tab, 1);
}

#[test]
fn closing_behind_the_selection_keeps_it() {
    let mut tabs = three_tabs(0);
    tabs.close(2);
    assert_eq!(tabs.tabs, vec![tab("One", "A"), tab("Two", "B")]);
    assert_eq!(tabs.active_tab, 0);
}

#[test]
fn closing_the_only_tab_leaves_none() {
    let mut tabs = Tabs {
        active_tab: 0,
        new_tab_label: String::new(),
        new_tab_content: String::new(),
        tabs: vec![tab("One", "A")],
    };
    tabs.close(0);
    assert!(tabs.tabs.is_empty());
    assert_eq!(tabs.active_tab, 0);
}

#[test]
fn closing_brings_a_stray_selection_back() {
    let mut tabs = three_tabs(17);
    tabs.close(1);
    assert_eq!(tabs.active_tab, 1);
    tabs.select(9);
    tabs.close(0);
    assert_eq!(tabs.active_tab, 0);
    tabs.select(9);
    tabs.close(0);
    assert_eq!(tabs.active_tab, 0);
    assert!(tabs.tabs.is_empty());
}

#[test]
fn selection_stays_in_range_after_each_closing() {
    for start in 0..5usize {
        let mut tabs = Tabs::new();
        for i in 0..5 {
            tabs.update(Message::TabLabelInputChanged(format!("label {}", i)));
            tabs.update(Message::TabContentInputChanged(format!("content {}", i)));
            tabs.update(Message::NewTab);
        }
        tabs.select(start);
        for index in [3usize, 0, 2, 0, 0] {
            assert!(tabs.can_apply(&Message::TabClosed(index)));
            tabs.close(index);
            let count = tabs.tabs.len();
            assert!(tabs.active_tab < std::cmp::max(count, 1));
        }
        assert!(tabs.tabs.is_empty());
        assert_eq!(tabs.active_tab, 0);
    }
}

#[test]
fn select_takes_the_index_as_it_is() {
    let mut tabs = three_tabs(0);
    tabs.select(2);
    assert_eq!(tabs.active_tab, 2);
    tabs.select(40);
    assert_eq!(tabs.active_tab, 40);
    assert_eq!(tabs.tabs.len(), 3);
}

#[test]
fn add_appends_and_empties_the_inputs() {
    let mut tabs = three_tabs(1);
    tabs.new_tab_label = "Four".to_string();
    tabs.new_tab_content = "D".to_string();
    tabs.add();
    assert_eq!(
        tabs.tabs,
        vec![tab("One", "A"), tab("Two", "B"), tab("Three", "C"), tab("Four", "D")]
    );
    assert_eq!(tabs.new_tab_label, "");
    assert_eq!(tabs.new_tab_content, "");
    assert_eq!(tabs.active_tab, 1);
}

#[test]
fn add_with_an_empty_label_changes_nothing() {
    let mut tabs = three_tabs(1);
    tabs.new_tab_content = "D".to_string();
    tabs.add();
    assert_eq!(tabs.tabs.len(), 3);
    assert_eq!(tabs.new_tab_label, "");
    assert_eq!(tabs.new_tab_content, "D");
    assert_eq!(tabs.active_tab, 1);
}

#[test]
fn add_with_an_empty_content_changes_nothing() {
    let mut tabs = three_tabs(1);
    tabs.new_tab_label = "Four".to_string();
    tabs.add();
    assert_eq!(tabs.tabs.len(), 3);
    assert_eq!(tabs.new_tab_label, "Four");
    assert_eq!(tabs.new_tab_content, "");
}

#[test]
fn add_with_both_inputs_empty_changes_nothing() {
    let mut tabs = Tabs::new();
    tabs.add();
    assert!(tabs.tabs.is_empty());
}

#[test]
fn update_applies_each_message() {
    let mut tabs = Tabs::new();
    tabs.update(Message::NewTab);
    assert!(tabs.tabs.is_empty());
    tabs.update(Message::TabLabelInputChanged("One".to_string()));
    assert_eq!(tabs.new_tab_label, "One");
    tabs.update(Message::NewTab);
    assert!(tabs.tabs.is_empty());
    tabs.update(Message::TabContentInputChanged("A".to_string()));
    assert_eq!(tabs.new_tab_content, "A");
    tabs.update(Message::NewTab);
    assert_eq!(tabs.tabs, vec![tab("One", "A")]);
    tabs.update(Message::TabSelected(3));
    assert_eq!(tabs.active_tab, 3);
    assert!(!tabs.can_apply(&Message::TabClosed(1)));
    assert!(tabs.can_apply(&Message::TabClosed(0)));
    tabs.update(Message::TabClosed(0));
    assert!(tabs.tabs.is_empty());
    assert_eq!(tabs.active_tab, 0);
    assert!(!tabs.can_apply(&Message::TabClosed(0)));
    assert!(tabs.can_apply(&Message::NewTab));
}

#[test]
fn select_clamped_keeps_the_selection_among_the_tabs() {
    let mut tabs = three_tabs(0);
    tabs.select_clamped(1);
    assert_eq!(tabs.active_tab, 1);
    tabs.select_clamped(2);
    assert_eq!(tabs.active_tab, 2);
    tabs.select_clamped(3);
    assert_eq!(tabs.active_tab, 2);
    tabs.select_clamped(usize::MAX);
    assert_eq!(tabs.active_tab, 2);
    let mut none = Tabs::new();
    none.select_clamped(4);
    assert_eq!(none.active_tab, 0);
}
