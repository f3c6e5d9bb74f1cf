//! Turning an ordered list of selected actions into one shell script.

use vstd::prelude::*;
use crate::text::{push_char, push_str};

verus! {

/// One runnable item picked from the catalog.
#[derive(Clone, Debug)]
pub enum Action {
    /// A line of shell text, run as it is.
    RawShellLine(String),
    /// A program run from the directory that holds `source_file`.
    LocalExecutable { program: String, args: Vec<String>, source_file: String },
    /// An item with nothing to run.
    NoOp,
}

/// The directory part of a path, as `std::path::Path::parent` gives it.
pub uninterp spec fn parent_dir(path: Seq<char>) -> Option<Seq<char>>;

/// Relies on `std::path::Path::parent`: the path without its final
/// component, or nothing for a root or an empty path.
#[verifier::external_body]
fn path_parent(path: &str) -> (r: Option<String>)
    ensures
        match r {
            Some(p) => parent_dir(path@) == Some(p@),
            None => parent_dir(path@) is None,
        },
{
    std::path::Path::new(path).parent().map(|p| p.display().to_string())
}

/// Each argument preceded by one space.
pub open spec fn spaced_args(args: Seq<String>) -> Seq<char>
    decreases args.len(),
{
    if args.len() == 0 {
        Seq::empty()
    } else {
        spaced_args(args.drop_last()) + seq![' '] + args.last()@
    }
}

/// The `cd` line for a parent directory, or nothing without one.
pub open spec fn cd_line(parent: Option<Seq<char>>) -> Seq<char> {
    match parent {
        Some(p) => seq!['c', 'd', ' '] + p + seq!['\n'],
        None => Seq::empty(),
    }
}

/// The script lines of `action`, given the parent directory of its source
/// file.
pub open spec fn fragment_with(action: Action, parent: Option<Seq<char>>) -> Seq<char> {
    match action {
        Action::RawShellLine(text) => text@ + seq!['\n'],
        Action::LocalExecutable { program, args, source_file } => cd_line(parent) + program@
            + spaced_args(args@) + seq!['\n'],
        Action::NoOp => Seq::empty(),
    }
}

/// The script lines of `action`.
pub open spec fn fragment(action: Action) -> Seq<char> {
    match action {
        Action::LocalExecutable { source_file, .. } => fragment_with(
            action,
            parent_dir(source_file@),
        ),
        _ => fragment_with(action, None),
    }
}

/// The whole script for `actions`, in order.
pub open spec fn script_of(actions: Seq<Action>) -> Seq<char>
    decreases actions.len(),
{
    if actions.len() == 0 {
        Seq::empty()
    } else {
        script_of(actions.drop_last()) + fragment(actions.last())
    }
}

/// Appends the lines of `action` to `script`, with `parent` standing for
/// the directory of its source file.
pub fn push_fragment(script: &mut String, action: &Action, parent: &Option<String>)
    ensures
        final(script)@ == old(script)@ + fragment_with(
            *action,
            match parent {
                Some(p) => Some(p@),
                None => None,
            },
        ),
{
    let ghost start = script@;
    match action {
        Action::RawShellLine(text) => {
            push_str(script, text.as_str());
            push_char(script, '\n');
            assert(script@ =~= start + (text@ + seq!['\n']));
        },
        Action::LocalExecutable { program, args, source_file } => {
            let ghost pv: Option<Seq<char>> = match parent {
                Some(p) => Some(p@),
                None => None,
            };
            match parent {
                Some(p) => {
                    push_str(script, "cd ");
                    push_str(script, p.as_str());
                    push_char(script, '\n');
                    proof {
                        reveal_strlit("cd ");
                    }
                },
                None => {},
            }
            assert(script@ =~= start + cd_line(pv));
            let ghost head = script@;
            push_str(script, program.as_str());
            let mut j: usize = 0;
            while j < args.len()
                invariant
                    j <= args@.len(),
                    script@ == head + program@ + spaced_args(args@.subrange(0, j as int)),
                decreases args.len() - j,
            {
                push_char(script, ' ');
                push_str(script, args[j].as_str());
                proof {
                    let sub = args@.subrange(0, j + 1);
                    assert(sub.drop_last() =~= args@.subrange(0, j as int));
                    assert(script@ =~= head + program@ + spaced_args(sub));
                }
                j = j + 1;
            }
            push_char(script, '\n');
            proof {
                assert(args@.subrange(0, args@.len() as int) =~= args@);
                assert(script@ =~= start + (cd_line(pv) + program@ + spaced_args(args@)
                    + seq!['\n']));
            }
        },
        Action::NoOp => {
            assert(script@ =~= start + Seq::<char>::empty());
        },
    }
}

/// Appends the lines of `action` to `script`.
pub fn push_action(script: &mut String, action: &Action)
    ensures
        final(script)@ == old(script)@ + fragment(*action),
{
    let parent = match action {
        Action::LocalExecutable { source_file, .. } => path_parent(source_file.as_str()),
        _ => None,
    };
    push_fragment(script, action, &parent);
}

/// The script that runs `actions` one after the other; empty for no
/// actions.
pub fn compose_script(actions: &Vec<Action>) -> (r: String)
    ensures
        r@ == script_of(actions@),
{
    let mut script = String::new();
    let mut i: usize = 0;
    while i < actions.len()
        invariant
            i <= actions@.len(),
            script@ == script_of(actions@.subrange(0, i as int)),
        decreases actions.len() - i,
    {
        push_action(&mut script, &actions[i]);
        proof {
            let sub = actions@.subrange(0, i + 1);
            assert(sub.drop_last() =~= actions@.subrange(0, i as int));
        }
        i = i + 1;
    }
    proof {
        assert(actions@.subrange(0, actions@.len() as int) =~= actions@);
    }
    script
}

} // verus!
