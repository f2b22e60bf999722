//! Shell dialects, and what a plan asks of a dialect's script writer.

use vstd::prelude::*;
use vstd::string::StringExecFns;

verus! {

/// The shells a script can be written for.
#[derive(Clone, Copy, Debug, PartialEq, Eq, Structural)]
pub enum ShellType {
    Bash,
    Elvish,
    Fish,
    Nu,
    Pwsh,
    Xonsh,
    Zsh,
}

/// What the hook-installing script is written from.
#[derive(Debug, PartialEq, Eq)]
pub struct ActivateOptions {
    /// The tool's own executable.
    pub exe: String,
    /// The flags that the hook passes on each time it calls the tool.
    pub flags: String,
    /// Leave the hook out of the script.
    pub no_hook_env: bool,
}

/// What an `ActivateOptions` stands for.
pub ghost struct OptionsView {
    pub exe: Seq<char>,
    pub flags: Seq<char>,
    pub no_hook_env: bool,
}

impl View for ActivateOptions {
    type V = OptionsView;

    open spec fn view(&self) -> OptionsView {
        OptionsView { exe: self.exe@, flags: self.flags@, no_hook_env: self.no_hook_env }
    }
}

impl Clone for ActivateOptions {
    fn clone(&self) -> (copy: ActivateOptions)
        ensures
            copy@ == self@,
    {
        ActivateOptions {
            exe: self.exe.clone(),
            flags: self.flags.clone(),
            no_hook_env: self.no_hook_env,
        }
    }
}

/// One request to a dialect's script writer.
#[derive(Debug, PartialEq, Eq)]
pub enum Fragment {
    /// Assign `value` to the variable `key`.
    SetEnv { key: String, value: String },
    /// Put `value` in front of the list held by the variable `key`.
    PrependEnv { key: String, value: String },
    /// Write the script that activates the tool in the shell.
    Activate { options: ActivateOptions },
}

/// What a `Fragment` stands for.
pub ghost enum FragmentView {
    SetEnv { key: Seq<char>, value: Seq<char> },
    PrependEnv { key: Seq<char>, value: Seq<char> },
    Activate { options: OptionsView },
}

impl View for Fragment {
    type V = FragmentView;

    open spec fn view(&self) -> FragmentView {
        match self {
            Fragment::SetEnv { key, value } => FragmentView::SetEnv { key: key@, value: value@ },
            Fragment::PrependEnv { key, value } => FragmentView::PrependEnv {
                key: key@,
                value: value@,
            },
            Fragment::Activate { options } => FragmentView::Activate { options: options@ },
        }
    }
}

/// The script writer of one dialect. Each operation writes text from its
/// arguments alone. The trait promises nothing of the text: what a contract
/// says of it, it says of whatever the operation handed back.
pub trait Shell {
    /// The script that activates the tool in the shell.
    fn activate(&self, opts: ActivateOptions) -> String;

    /// A line that assigns `v` to the variable `k`.
    fn set_env(&self, k: &str, v: &str) -> String;

    /// A line that puts `v` in front of the list held by the variable `k`.
    fn prepend_env(&self, k: &str, v: &str) -> String;
}

/// `text` is what `shell` wrote for `fragment`: it came back from the
/// operation that the request names, called on the values that the request
/// holds, a setting from `set_env`, a prepend from `prepend_env`, an
/// activation from `activate`.
pub open spec fn written_by<S: Shell + ?Sized>(shell: &S, fragment: Fragment, text: String) -> bool {
    match fragment {
        Fragment::SetEnv { key, value } => exists|k: &str, v: &str|
            k@ == key@ && v@ == value@ && #[trigger] call_ensures(S::set_env, (shell, k, v), text),
        Fragment::PrependEnv { key, value } => exists|k: &str, v: &str|
            k@ == key@ && v@ == value@ && #[trigger] call_ensures(
                S::prepend_env,
                (shell, k, v),
                text,
            ),
        Fragment::Activate { options } => exists|opts: ActivateOptions|
            opts@ == options@ && #[trigger] call_ensures(S::activate, (shell, opts), text),
    }
}

impl Fragment {
    /// Has `shell` write this request: calls the operation that the request
    /// names on the values that the request holds, and hands back its text.
    pub(crate) fn write<S: Shell + ?Sized>(&self, shell: &S) -> (text: String)
        ensures
            written_by(shell, *self, text),
    {
        match self {
            Fragment::SetEnv { key, value } => shell.set_env(key.as_str(), value.as_str()),
            Fragment::PrependEnv { key, value } => shell.prepend_env(key.as_str(), value.as_str()),
            Fragment::Activate { options } => shell.activate(options.clone()),
        }
    }

    /// The text that a script holds for this request, given what the dialect
    /// wrote for it.
    pub fn place(&self, written: String) -> (text: String)
        ensures
            text@ == placed(self@, written@),
    {
        match self {
            Fragment::SetEnv { .. } => {
                let mut text = written;
                proof {
                    reveal_strlit("\n");
                }
                text.append("\n");
                assert(text@ =~= placed(self@, written@));
                text
            },
            _ => written,
        }
    }
}

/// The request makes the shell call the tool back on every change of
/// directory.
pub open spec fn installs_hook(fragment: FragmentView) -> bool {
    fragment matches FragmentView::Activate { options } && !options.no_hook_env
}

/// What stands for each of `fragments`, in order.
pub open spec fn fragment_views(fragments: Seq<Fragment>) -> Seq<FragmentView> {
    Seq::new(fragments.len(), |i: int| fragments[i]@)
}

/// The text that a script holds for `fragment`, given what the dialect wrote
/// for it: an assignment stands on a line of its own.
pub open spec fn placed(fragment: FragmentView, written: Seq<char>) -> Seq<char> {
    if fragment is SetEnv {
        written + seq!['\n']
    } else {
        written
    }
}

/// The script for `fragments`, given what the dialect wrote for each.
pub open spec fn assembled(fragments: Seq<FragmentView>, written: Seq<Seq<char>>) -> Seq<char>
    decreases fragments.len(),
{
    if fragments.len() == 0 || written.len() != fragments.len() {
        Seq::empty()
    } else {
        assembled(fragments.drop_last(), written.drop_last()) + placed(
            fragments.last(),
            written.last(),
        )
    }
}

} // verus!
