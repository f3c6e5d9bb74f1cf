//! How the shell for a script is started: program, arguments, environment
//! and terminal size.

use vstd::prelude::*;

verus! {

/// Rows of the pseudo-terminal.
pub const PTY_ROWS: u16 = 24;

/// Columns of the pseudo-terminal.
pub const PTY_COLS: u16 = 80;

/// Everything needed to start a script in a pseudo-terminal.
pub struct LaunchPlan {
    pub program: String,
    pub args: Vec<String>,
    /// Variables set in the child's environment only, in order.
    pub env: Vec<(String, String)>,
    pub rows: u16,
    pub cols: u16,
}

/// The plan for running `script` under `sh -c`, with colour output forced
/// on and `NO_COLOR` cleared, in a 24 by 80 terminal.
pub fn launch_plan(script: &str) -> (r: LaunchPlan)
    ensures
        r.program@ == "sh"@,
        r.args@.len() == 2,
        r.args@[0]@ == "-c"@,
        r.args@[1]@ == script@,
        r.env@.len() == 4,
        r.env@[0].0@ == "TERM"@ && r.env@[0].1@ == "xterm-256color"@,
        r.env@[1].0@ == "COLORTERM"@ && r.env@[1].1@ == "truecolor"@,
        r.env@[2].0@ == "FORCE_COLOR"@ && r.env@[2].1@ == "1"@,
        r.env@[3].0@ == "NO_COLOR"@ && r.env@[3].1@ == ""@,
        r.rows == 24,
        r.cols == 80,
{
    let mut args: Vec<String> = Vec::new();
    args.push(String::from_str("-c"));
    args.push(String::from_str(script));
    let mut env: Vec<(String, String)> = Vec::new();
    env.push((String::from_str("TERM"), String::from_str("xterm-256color")));
    env.push((String::from_str("COLORTERM"), String::from_str("truecolor")));
    env.push((String::from_str("FORCE_COLOR"), String::from_str("1")));
    env.push((String::from_str("NO_COLOR"), String::from_str("")));
    LaunchPlan { program: String::from_str("sh"), args, env, rows: PTY_ROWS, cols: PTY_COLS }
}

} // verus!
