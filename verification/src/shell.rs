//! Shell-specific knowledge: the supported shells, their hook file names and
//! the line added to a shell's rc file to source an installed hook.
//!
//! Detecting the running shell and writing the files is a collaborator's job;
//! these functions decide from plain values.

use vstd::prelude::*;

verus! {

broadcast use vstd::string::group_string_axioms;

/// The supported shells.
#[derive(Clone, Copy, PartialEq, Eq, Structural, Debug)]
pub enum Shell {
    Bash,
    Zsh,
    Fish,
    PowerShell,
}

/// The rc-file line that sources the hook at `path`, for a POSIX-style shell:
/// source the file only when it exists.
pub open spec fn spec_posix_source_command(path: Seq<char>) -> Seq<char> {
    "[ -f \""@ + path + "\" ] && source \""@ + path + "\""@
}

/// The rc-file line that sources the hook at `path`, for fish.
pub open spec fn spec_fish_source_command(path: Seq<char>) -> Seq<char> {
    "test -f \""@ + path + "\" && source \""@ + path + "\""@
}

/// The profile line that sources the hook at `path`, for PowerShell.
pub open spec fn spec_powershell_source_command(path: Seq<char>) -> Seq<char> {
    ". \""@ + path + "\""@
}

impl Shell {
    /// The shell's name.
    pub fn name(&self) -> (r: &'static str)
        ensures
            *self == Shell::Bash ==> r@ == "bash"@,
            *self == Shell::Zsh ==> r@ == "zsh"@,
            *self == Shell::Fish ==> r@ == "fish"@,
            *self == Shell::PowerShell ==> r@ == "powershell"@,
    {
        match self {
            Shell::Bash => "bash",
            Shell::Zsh => "zsh",
            Shell::Fish => "fish",
            Shell::PowerShell => "powershell",
        }
    }

    /// The file name under which this shell's hook is installed.
    pub fn hook_filename(&self) -> (r: &'static str)
        ensures
            *self == Shell::Bash ==> r@ == "bash.sh"@,
            *self == Shell::Zsh ==> r@ == "zsh.sh"@,
            *self == Shell::Fish ==> r@ == "fish.fish"@,
            *self == Shell::PowerShell ==> r@ == "powershell.ps1"@,
    {
        match self {
            Shell::Bash => "bash.sh",
            Shell::Zsh => "zsh.sh",
            Shell::Fish => "fish.fish",
            Shell::PowerShell => "powershell.ps1",
        }
    }

    /// The line added to this shell's rc file to source the hook installed
    /// at `hook_path`.
    pub fn source_command(&self, hook_path: &str) -> (r: String)
        ensures
            (*self == Shell::Bash || *self == Shell::Zsh) ==> r@ == spec_posix_source_command(
                hook_path@,
            ),
            *self == Shell::Fish ==> r@ == spec_fish_source_command(hook_path@),
            *self == Shell::PowerShell ==> r@ == spec_powershell_source_command(hook_path@),
    {
        match self {
            Shell::Bash | Shell::Zsh => {
                let mut r = String::new();
                r.append("[ -f \"");
                r.append(hook_path);
                r.append("\" ] && source \"");
                r.append(hook_path);
                r.append("\"");
                proof {
                    assert(r@ =~= spec_posix_source_command(hook_path@));
                }
                r
            },
            Shell::Fish => {
                let mut r = String::new();
                r.append("test -f \"");
                r.append(hook_path);
                r.append("\" && source \"");
                r.append(hook_path);
                r.append("\"");
                proof {
                    assert(r@ =~= spec_fish_source_command(hook_path@));
                }
                r
            },
            Shell::PowerShell => {
                let mut r = String::new();
                r.append(". \"");
                r.append(hook_path);
                r.append("\"");
                proof {
                    assert(r@ =~= spec_powershell_source_command(hook_path@));
                }
                r
            },
        }
    }
}

/// Decides which shell a name denotes; reading the environment is a
/// collaborator's job.
pub struct ShellDetector;

impl ShellDetector {
    /// The shell denoted by a (lower-cased) shell name, as found in the
    /// `SHELL` environment variable's last path component; `None` for an
    /// unsupported shell.
    pub fn shell_from_name(name: &str) -> (r: Option<Shell>)
        ensures
            name@ == "bash"@ ==> r == Some(Shell::Bash),
            name@ == "zsh"@ ==> r == Some(Shell::Zsh),
            name@ == "fish"@ ==> r == Some(Shell::Fish),
            name@ != "bash"@ && name@ != "zsh"@ && name@ != "fish"@ ==> r is None,
    {
        proof {
            reveal_strlit("bash");
            reveal_strlit("zsh");
            reveal_strlit("fish");
            assert("bash"@.len() == 4);
            assert("zsh"@.len() == 3);
            assert("fish"@.len() == 4);
            assert("bash"@[0] == 'b');
            assert("fish"@[0] == 'f');
        }
        if crate::strutil::str_eq(name, "bash") {
            Some(Shell::Bash)
        } else if crate::strutil::str_eq(name, "zsh") {
            Some(Shell::Zsh)
        } else if crate::strutil::str_eq(name, "fish") {
            Some(Shell::Fish)
        } else {
            None
        }
    }
}

} // verus!
