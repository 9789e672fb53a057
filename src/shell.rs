//! The shell the program runs under.
use vstd::prelude::*;

use crate::text::{contains_seq, contains_text, same_text};

verus! {

/// Shells that the program can integrate with.
#[derive(Debug, Clone, Copy, PartialEq, Eq, Structural)]
pub enum Integration {
    Fish,
    Bash,
    Zsh,
    Nushell,
    Cmd,
    PowerShell,
    Pwsh,
    Elvish,
}

/// The integration for a shell name: `fish` and `bash` both use the fish
/// integration for now, `zsh` its own; other shells have none.
pub open spec fn integration_of(name: Seq<char>) -> Option<Integration> {
    if name == "fish"@ || name == "bash"@ {
        Some(Integration::Fish)
    } else if name == "zsh"@ {
        Some(Integration::Zsh)
    } else {
        None
    }
}

impl Integration {
    /// The integration for a shell name.
    pub fn from_name(name: &str) -> (r: Option<Integration>)
        ensures
            r == integration_of(name@),
    {
        if same_text(name, "fish") || same_text(name, "bash") {
            Some(Integration::Fish)
        } else if same_text(name, "zsh") {
            Some(Integration::Zsh)
        } else {
            None
        }
    }
}

/// Names of the shells recognised among the ancestors of the process.
pub const SHELLS: [&'static str; 25] = [
    "sh",
    "bash",
    "zsh",
    "ksh",
    "csh",
    "tcsh",
    "dash",
    "fish",
    "pdksh",
    "cmd",
    "powershell",
    "pwsh",
    "ash",
    "busybox",
    "rc",
    "es",
    "scsh",
    "yash",
    "sash",
    "ion",
    "nushell",
    "oil",
    "elvish",
    "mksh",
    "wish",
];

/// Whether a process name looks like a shell: it contains the name of a known
/// shell.
pub open spec fn is_known_shell_spec(name: Seq<char>) -> bool {
    exists|k: int| 0 <= k < 25 && contains_seq(name, #[trigger] SHELLS[k]@)
}

/// Whether a process name looks like a shell.
pub fn is_known_shell(name: &str) -> (r: bool)
    ensures
        r == is_known_shell_spec(name@),
{
    let mut k: usize = 0;
    while k < 25
        invariant
            forall|j: int| 0 <= j < k ==> !contains_seq(name@, #[trigger] SHELLS[j]@),
        decreases 25 - k,
    {
        if contains_text(name, SHELLS[k]) {
            return true;
        }
        k = k + 1;
    }
    false
}

/// The shell the program runs under.
pub struct Shell {
    name: String,
    path: String,
    integration: Option<Integration>,
}

impl Shell {
    pub fn new(name: String, path: String, integration: Option<Integration>) -> (r: Self)
        ensures
            r.name_spec() == name@,
            r.path_spec() == path@,
            r.integration_spec() == integration,
    {
        Shell { name, path, integration }
    }

    pub closed spec fn name_spec(&self) -> Seq<char> {
        self.name@
    }

    pub closed spec fn path_spec(&self) -> Seq<char> {
        self.path@
    }

    pub closed spec fn integration_spec(&self) -> Option<Integration> {
        self.integration
    }

    /// The shell's name, e.g. `fish`.
    pub fn name(&self) -> (r: &str)
        ensures
            r@ == self.name_spec(),
    {
        self.name.as_str()
    }

    /// Path of the shell's executable.
    pub fn path(&self) -> (r: &str)
        ensures
            r@ == self.path_spec(),
    {
        self.path.as_str()
    }

    /// How the program integrates with the shell, if it does.
    pub fn integration(&self) -> (r: Option<Integration>)
        ensures
            r == self.integration_spec(),
    {
        self.integration
    }
}

} // verus!
