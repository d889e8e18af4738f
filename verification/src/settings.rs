//! The per-invocation configuration value.
//!
//! The selected competitors and the reporting credential are read once per
//! command invocation by an external collaborator and passed in explicitly;
//! nothing here is ambient process state, and this core never mutates the
//! stored configuration.

use vstd::prelude::*;

verus! {

/// The externally persisted configuration, read once per invocation.
pub struct Config {
    /// The chosen competitor directories, in selection order.
    pub selected_projects: Vec<String>,
    /// The remote-reporting credential, when one has been stored.
    pub api_key: Option<String>,
}

/// The competitors currently chosen in the configuration, in selection
/// order, ready to be displayed one per line.
pub fn show_competitors(cfg: &Config) -> (r: Vec<String>)
    ensures
        r@ == cfg.selected_projects@,
{
    let mut lines: Vec<String> = Vec::new();
    let mut i: usize = 0;
    while i < cfg.selected_projects.len()
        invariant
            i <= cfg.selected_projects@.len(),
            lines@.len() == i,
            forall|j: int| 0 <= j < i ==> lines@[j] == cfg.selected_projects@[j],
        decreases cfg.selected_projects@.len() - i,
    {
        lines.push(cfg.selected_projects[i].clone());
        i = i + 1;
    }
    proof {
        assert(lines@ =~= cfg.selected_projects@);
    }
    lines
}

} // verus!
