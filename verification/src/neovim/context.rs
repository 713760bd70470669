//! Extra operations on a Neovim context.

use vstd::prelude::*;

verus! {

/// Operations that a Neovim context offers beyond the editor's own.
pub trait ContextExt {
    /// Feeds the given keys to Neovim, as if typed by the user.
    fn feedkeys(&mut self, keys: &str);
}

} // verus!
