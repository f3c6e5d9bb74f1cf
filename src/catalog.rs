//! Presentation of catalog entries and turning a selection of rows into the
//! actions to run.

use vstd::prelude::*;
use crate::text::push_str;
use crate::theme::Theme;

verus! {

/// What an entry shows of the catalog item behind it.
pub struct EntryNode {
    pub name: String,
    pub description: String,
    /// Whether the item may run together with others.
    pub multi_select: bool,
}

/// One row of the list.
pub struct ListEntry {
    pub node: Option<EntryNode>,
    pub has_children: bool,
    /// The row that leads back up one level.
    pub is_up_dir: bool,
}

/// A row that stands for a runnable command.
pub open spec fn is_command(e: ListEntry) -> bool {
    !e.is_up_dir && !e.has_children && e.node is Some
}

/// The text of a row.
pub open spec fn entry_text(theme: Theme, multi_select: bool, e: ListEntry) -> Seq<char> {
    if e.is_up_dir {
        ".. (Up)"@
    } else {
        match e.node {
            None => Seq::empty(),
            Some(n) => if e.has_children {
                "[DIR]"@ + " "@ + n.name@
            } else if multi_select && !n.multi_select {
                "[CMD]"@ + " "@ + n.name@ + " (single only)"@
            } else {
                "[CMD]"@ + " "@ + n.name@
            },
        }
    }
}

/// The text of a row, with the theme's icons.
pub fn format_entry(theme: Theme, multi_select: bool, entry: &ListEntry) -> (r: String)
    ensures
        r@ == entry_text(theme, multi_select, *entry),
{
    if entry.is_up_dir {
        return String::from_str(".. (Up)");
    }
    let mut s = String::new();
    match &entry.node {
        None => {},
        Some(n) => {
            if entry.has_children {
                push_str(&mut s, theme.dir_icon());
                push_str(&mut s, " ");
                push_str(&mut s, n.name.as_str());
            } else {
                push_str(&mut s, theme.cmd_icon());
                push_str(&mut s, " ");
                push_str(&mut s, n.name.as_str());
                if multi_select && !n.multi_select {
                    push_str(&mut s, " (single only)");
                }
            }
        },
    }
    s
}

/// The description shown for a command's node.
pub open spec fn description_of(n: EntryNode) -> Seq<char> {
    if n.description@.len() == 0 {
        "Command: "@ + n.name@
    } else {
        n.name@ + ": "@ + n.description@
    }
}

/// The position in `rows` of the first row that stands for a command, if any.
pub open spec fn first_command(entries: Seq<ListEntry>, rows: Seq<usize>, from: int) -> Option<int>
    decreases rows.len() - from,
{
    if from >= rows.len() || from < 0 {
        None
    } else if rows[from] < entries.len() && is_command(entries[rows[from] as int]) {
        Some(from)
    } else {
        first_command(entries, rows, from + 1)
    }
}

/// The description of the first selected command, and whether there is one.
pub fn describe_selection(entries: &Vec<ListEntry>, rows: &Vec<usize>) -> (r: (
    Option<String>,
    bool,
))
    ensures
        match first_command(entries@, rows@, 0) {
            None => r.0 is None && !r.1,
            Some(k) => r.1 && r.0 is Some && r.0->0@ == description_of(
                entries@[rows@[k] as int].node->0,
            ),
        },
{
    let mut i: usize = 0;
    while i < rows.len()
        invariant
            i <= rows@.len(),
            first_command(entries@, rows@, 0) == first_command(entries@, rows@, i as int),
        decreases rows.len() - i,
    {
        let idx = rows[i];
        if idx < entries.len() {
            let entry = &entries[idx];
            if !entry.is_up_dir && !entry.has_children {
                match &entry.node {
                    Some(n) => {
                        let mut d = String::new();
                        if n.description.as_str().is_empty() {
                            push_str(&mut d, "Command: ");
                            push_str(&mut d, n.name.as_str());
                        } else {
                            push_str(&mut d, n.name.as_str());
                            push_str(&mut d, ": ");
                            push_str(&mut d, n.description.as_str());
                        }
                        return (Some(d), true);
                    },
                    None => {},
                }
            }
        }
        i = i + 1;
    }
    (None, false)
}

/// Whether a selected command is turned away: several rows are selected and
/// it may not run together with others.
pub open spec fn is_rejected(e: ListEntry, multiple: bool) -> bool {
    multiple && !e.node->0.multi_select
}

/// The rows among `rows` that stand for commands, in order, split into those
/// accepted and those turned away.
pub open spec fn split_selection(entries: Seq<ListEntry>, rows: Seq<usize>, multiple: bool) -> (
    Seq<usize>,
    Seq<usize>,
)
    decreases rows.len(),
{
    if rows.len() == 0 {
        (Seq::empty(), Seq::empty())
    } else {
        let (acc, rej) = split_selection(entries, rows.drop_last(), multiple);
        let r = rows.last();
        if r < entries.len() && is_command(entries[r as int]) {
            if is_rejected(entries[r as int], multiple) {
                (acc, rej.push(r))
            } else {
                (acc.push(r), rej)
            }
        } else {
            (acc, rej)
        }
    }
}

/// Splits the selected `rows` into the commands to run and the commands
/// turned away because they cannot run together with others; rows that are
/// not commands are left out of both.
pub fn collect_selected_commands(entries: &Vec<ListEntry>, rows: &Vec<usize>) -> (r: (
    Vec<usize>,
    Vec<usize>,
))
    ensures
        (r.0@, r.1@) == split_selection(entries@, rows@, rows@.len() > 1),
{
    let multiple = rows.len() > 1;
    let mut accepted: Vec<usize> = Vec::new();
    let mut rejected: Vec<usize> = Vec::new();
    let mut i: usize = 0;
    while i < rows.len()
        invariant
            i <= rows@.len(),
            multiple == (rows@.len() > 1),
            (accepted@, rejected@) == split_selection(entries@, rows@.subrange(0, i as int), multiple),
        decreases rows.len() - i,
    {
        let ghost sub = rows@.subrange(0, i + 1);
        assert(sub.drop_last() =~= rows@.subrange(0, i as int));
        let idx = rows[i];
        if idx < entries.len() {
            let entry = &entries[idx];
            if !entry.is_up_dir && !entry.has_children {
                match &entry.node {
                    Some(n) => {
                        if multiple && !n.multi_select {
                            rejected.push(idx);
                        } else {
                            accepted.push(idx);
                        }
                    },
                    None => {},
                }
            }
        }
        i = i + 1;
    }
    assert(rows@.subrange(0, rows@.len() as int) =~= rows@);
    (accepted, rejected)
}

/// The path shown above the list: the tab and the names of the levels
/// entered, or a fixed title while searching.
pub open spec fn path_text(filter: Seq<char>, tab: Seq<char>, names: Seq<String>) -> Seq<char>
    decreases names.len(),
{
    if filter.len() > 0 {
        "Search results"@
    } else if names.len() == 0 {
        tab
    } else {
        path_text(filter, tab, names.drop_last()) + " / "@ + names.last()@
    }
}

/// The path label for tab `tab` with the levels `names` entered, or the
/// search title when `filter` is not empty.
pub fn path_label_text(filter: &str, tab: &str, names: &Vec<String>) -> (r: String)
    ensures
        r@ == path_text(filter@, tab@, names@),
{
    if !filter.is_empty() {
        return String::from_str("Search results");
    }
    let mut s = String::from_str(tab);
    let mut i: usize = 0;
    while i < names.len()
        invariant
            i <= names@.len(),
            filter@.len() == 0,
            s@ == path_text(filter@, tab@, names@.subrange(0, i as int)),
        decreases names.len() - i,
    {
        push_str(&mut s, " / ");
        push_str(&mut s, names[i].as_str());
        let ghost sub = names@.subrange(0, i + 1);
        assert(sub.drop_last() =~= names@.subrange(0, i as int));
        i = i + 1;
    }
    assert(names@.subrange(0, names@.len() as int) =~= names@);
    s
}

} // verus!
