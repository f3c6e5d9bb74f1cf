//! Display themes and their icons.

use vstd::prelude::*;

verus! {

/// A display theme. Themes form a cycle in declaration order.
#[derive(Clone, Copy, Debug, PartialEq, Eq, Structural)]
pub enum Theme {
    Default,
    Compatible,
}

/// Number of themes.
pub const THEME_COUNT: usize = 2;

/// Position of `t` in declaration order.
pub open spec fn theme_index(t: Theme) -> nat {
    match t {
        Theme::Default => 0,
        Theme::Compatible => 1,
    }
}

impl Default for Theme {
    fn default() -> (r: Theme)
        ensures
            r == Theme::Default,
    {
        Theme::Default
    }
}

impl Theme {
    /// Every theme, in declaration order.
    pub fn value_variants() -> (r: Vec<Theme>)
        ensures
            r@.len() == THEME_COUNT,
            forall|i: int| 0 <= i < r@.len() ==> theme_index(#[trigger] r@[i]) == i,
    {
        vec![Theme::Default, Theme::Compatible]
    }

    /// Position of the theme in declaration order.
    pub fn position(&self) -> (r: usize)
        ensures
            r == theme_index(*self),
            r < THEME_COUNT,
    {
        match self {
            Theme::Default => 0,
            Theme::Compatible => 1,
        }
    }

    /// Icon in front of a directory entry.
    pub fn dir_icon(&self) -> (r: &'static str)
        ensures
            r@ == "[DIR]"@,
    {
        match self {
            Theme::Default => "[DIR]",
            Theme::Compatible => "[DIR]",
        }
    }

    /// Icon in front of a command entry.
    pub fn cmd_icon(&self) -> (r: &'static str)
        ensures
            r@ == "[CMD]"@,
    {
        match self {
            Theme::Default => "[CMD]",
            Theme::Compatible => "[CMD]",
        }
    }

    /// Icon in front of a tab name.
    pub fn tab_icon(&self) -> (r: &'static str)
        ensures
            r@ == ">"@,
    {
        match self {
            Theme::Default => ">",
            Theme::Compatible => ">",
        }
    }

    /// Moves to the following theme, wrapping round after the last.
    pub fn next(&mut self)
        ensures
            theme_index(*final(self)) == (theme_index(*old(self)) + 1) % (THEME_COUNT as nat),
    {
        let position = self.position();
        let types = Theme::value_variants();
        *self = types[(position + 1) % types.len()];
    }

    /// Moves to the preceding theme, wrapping round before the first.
    pub fn prev(&mut self)
        ensures
            theme_index(*final(self)) as int == (theme_index(*old(self)) + THEME_COUNT - 1) % (
            THEME_COUNT as int),
    {
        let position = self.position();
        let types = Theme::value_variants();
        *self = types[(position + types.len() - 1) % types.len()];
    }
}

} // verus!
