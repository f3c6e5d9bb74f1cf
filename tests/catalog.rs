use linutil_tui::catalog::{
    collect_selected_commands, describe_selection, format_entry, path_label_text, EntryNode,
    ListEntry,
};
use linutil_tui::theme::Theme;

fn command(name: &str, description: &str, multi_select: bool) -> ListEntry {
    ListEntry {
        node: Some(EntryNode {
            name: name.to_string(),
            description: description.to_string(),
            multi_select,
        }),
        has_children: false,
        is_up_dir: false,
    }
}

fn directory(name: &str) -> ListEntry {
    ListEntry {
        node: Some(EntryNode { name: name.to_string(), description: String::new(), multi_select: true }),
        has_children: true,
        is_up_dir: false,
    }
}

fn up() -> ListEntry {
    ListEntry { node: None, has_children: false, is_up_dir: true }
}

#[test]
fn entry_texts() {
    let t = Theme::Default;
    assert_eq!(format_entry(t, false, &up()), ".. (Up)");
    assert_eq!(format_entry(t, true, &directory("System")), "[DIR] System");
    assert_eq!(format_entry(t, false, &command("Update", "", false)), "[CMD] Update");
    assert_eq!(format_entry(t, true, &command("Update", "", false)), "[CMD] Update (single only)");
    assert_eq!(format_entry(Theme::Compatible, true, &command("Clean", "", true)), "[CMD] Clean");
    let empty = ListEntry { node: None, has_children: false, is_up_dir: false };
    assert_eq!(format_entry(t, false, &empty), "");
}

#[test]
fn selection_description() {
    let entries = vec![up(), directory("d"), command("Update", "", true), command("Clean", "Frees space", true)];
    assert_eq!(describe_selection(&entries, &vec![]), (None, false));
    assert_eq!(describe_selection(&entries, &vec![0, 1]), (None, false));
    assert_eq!(describe_selection(&entries, &vec![1, 2, 3]), (Some("Command: Update".to_string()), true));
    assert_eq!(describe_selection(&entries, &vec![9, 3]), (Some("Clean: Frees space".to_string()), true));
}

#[test]
fn selection_split() {
    let entries = vec![up(), command("a", "", false), command("b", "", true), directory("d")];
    assert_eq!(collect_selected_commands(&entries, &vec![1]), (vec![1], vec![]));
    assert_eq!(collect_selected_commands(&entries, &vec![1, 2, 3, 0, 7]), (vec![2], vec![1]));
    assert_eq!(collect_selected_commands(&entries, &vec![]), (vec![], vec![]));
}

#[test]
fn path_labels() {
    let names = vec!["Applications".to_string(), "Browsers".to_string()];
    assert_eq!(path_label_text("", "System Setup", &names), "System Setup / Applications / Browsers");
    assert_eq!(path_label_text("", "Utilities", &vec![]), "Utilities");
    assert_eq!(path_label_text("fire", "Utilities", &names), "Search results");
}
