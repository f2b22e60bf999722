//! The activation planner: from what the user asked for and what the
//! environment holds to the list of fragments that a script is written from.

use vstd::prelude::*;
use vstd::string::StringExecFns;
use crate::path_set::{holds_canonical, EntryView, PathEntry, PathSet};
use crate::paths::{is_relative, parent, path_is_relative, path_parent, path_starts_with};
use crate::plan::{ActivationPlan, PlanView};
use crate::shell::{fragment_views, ActivateOptions, Fragment, FragmentView, OptionsView, ShellType};
use crate::shims::{corrected, locate};

verus! {

/// The package store: a directory below it is never put on the search path.
pub const STORE_PREFIX: &'static str = "/nix/";

/// What one invocation finds in its environment.
pub struct Context {
    /// The name of the variable that holds the search path.
    pub path_key: String,
    /// What stands between two directories in that variable.
    pub separator: String,
    /// The search path.
    pub path: PathSet,
    /// The shims directory.
    pub shims: PathEntry,
}

/// What a `Context` stands for.
pub ghost struct ContextView {
    pub path_key: Seq<char>,
    pub separator: Seq<char>,
    pub path: Seq<EntryView>,
    pub shims: EntryView,
}

impl View for Context {
    type V = ContextView;

    open spec fn view(&self) -> ContextView {
        ContextView {
            path_key: self.path_key@,
            separator: self.separator@,
            path: self.path@,
            shims: self.shims@,
        }
    }
}

/// The tool's own executable.
pub struct Executable {
    /// The path the tool was started by.
    pub path: String,
    /// The canonical form of the directory that holds it, where the
    /// filesystem could give one.
    pub resolved_dir: Option<String>,
}

/// What an `Executable` stands for.
pub ghost struct ExecutableView {
    pub path: Seq<char>,
    pub resolved_dir: Option<Seq<char>>,
}

impl View for Executable {
    type V = ExecutableView;

    open spec fn view(&self) -> ExecutableView {
        ExecutableView {
            path: self.path@,
            resolved_dir: match self.resolved_dir {
                Some(dir) => Some(dir@),
                None => None,
            },
        }
    }
}

/// The directory that holds the executable, where its path names one.
pub open spec fn exe_dir(exe: ExecutableView) -> Option<EntryView> {
    match path_parent(exe.path) {
        Some(raw) => Some(
            EntryView {
                raw,
                canonical: match exe.resolved_dir {
                    Some(canonical) => canonical,
                    None => raw,
                },
            },
        ),
        None => None,
    }
}

impl Executable {
    /// The directory that holds the executable, where its path names one.
    pub fn dir(&self) -> (dir: Option<PathEntry>)
        ensures
            match dir {
                Some(entry) => exe_dir(self@) == Some(entry@),
                None => exe_dir(self@) is None,
            },
    {
        match parent(self.path.as_str()) {
            Some(raw) => Some(PathEntry::new(raw, self.resolved_dir.clone())),
            None => None,
        }
    }
}

/// Why no plan could be made.
#[derive(Clone, Copy, Debug, PartialEq, Eq, Structural)]
pub enum ActivateError {
    /// No shell was named.
    NoShell,
}

/// What the user asked for.
#[derive(Clone, Copy, Debug)]
pub struct Activate {
    /// The shell, given by option.
    pub shell: Option<ShellType>,
    /// The shell, given by position.
    pub shell_type: Option<ShellType>,
    /// Have the hook report the tools in use when the directory changes.
    pub status: bool,
    /// Put the shims directory on the search path and install no hook.
    pub shims: bool,
    /// Have the hook keep quiet.
    pub quiet: bool,
    /// Leave the hook out of the script.
    pub no_hook_env: bool,
}

/// `dir` is to be put in front of the search path: it is not below the
/// package store, it is not on the path yet, and it is absolute.
pub open spec fn wants_prepend(path: Seq<EntryView>, dir: EntryView) -> bool {
    &&& !path_starts_with(dir.canonical, STORE_PREFIX@)
    &&& !holds_canonical(path, dir.canonical)
    &&& !path_is_relative(dir.raw)
}

/// The request to put `dir` in front of the search path, where it is wanted.
pub open spec fn prepend_fragment(ctx: ContextView, dir: EntryView) -> Option<FragmentView> {
    if wants_prepend(ctx.path, dir) {
        Some(FragmentView::PrependEnv { key: ctx.path_key, value: dir.raw })
    } else {
        None
    }
}

/// The request to put the executable's directory in front of the search path,
/// where there is such a directory and it is wanted.
pub open spec fn exe_dir_fragment(ctx: ContextView, exe: ExecutableView) -> Option<FragmentView> {
    match exe_dir(exe) {
        Some(dir) => prepend_fragment(ctx, dir),
        None => None,
    }
}

/// The request to take the shims directory off the search path, where it is
/// on it.
pub open spec fn removal_fragment(ctx: ContextView) -> Option<FragmentView> {
    match corrected(ctx.path, ctx.shims, ctx.separator) {
        Some(value) => Some(FragmentView::SetEnv { key: ctx.path_key, value }),
        None => None,
    }
}

/// The flags that the hook passes on: one word for each that is set, each
/// with a space before it, quiet first.
pub open spec fn flags_text(quiet: bool, status: bool) -> Seq<char> {
    (if quiet {
        " --quiet"@
    } else {
        Seq::empty()
    }) + (if status {
        " --status"@
    } else {
        Seq::empty()
    })
}

/// What the activating script is written from.
pub open spec fn activate_options(args: Activate, exe: ExecutableView) -> OptionsView {
    OptionsView {
        exe: exe.path,
        flags: flags_text(args.quiet, args.status),
        no_hook_env: args.no_hook_env,
    }
}

/// No request, or one.
pub open spec fn maybe(fragment: Option<FragmentView>) -> Seq<FragmentView> {
    match fragment {
        Some(f) => seq![f],
        None => Seq::empty(),
    }
}

/// Full activation: the shims directory leaves the search path, the
/// executable's directory enters it, the shell is activated.
pub open spec fn full_plan(args: Activate, ctx: ContextView, exe: ExecutableView) -> Seq<
    FragmentView,
> {
    maybe(removal_fragment(ctx)) + maybe(exe_dir_fragment(ctx, exe)) + seq![
        FragmentView::Activate { options: activate_options(args, exe) },
    ]
}

/// Shims only: the executable's directory and then the shims directory enter
/// the search path.
pub open spec fn shims_plan(ctx: ContextView, exe: ExecutableView) -> Seq<FragmentView> {
    maybe(exe_dir_fragment(ctx, exe)) + maybe(prepend_fragment(ctx, ctx.shims))
}

/// The shell asked for: the one given by position, else the one given by
/// option.
pub open spec fn requested_shell(args: Activate) -> Option<ShellType> {
    if args.shell_type is Some {
        args.shell_type
    } else {
        args.shell
    }
}

/// The plan for `args`, or why there is none.
pub open spec fn planned(args: Activate, ctx: ContextView, exe: ExecutableView) -> Result<
    PlanView,
    ActivateError,
> {
    match requested_shell(args) {
        Some(shell) => Ok(
            PlanView {
                shell,
                fragments: if args.shims {
                    shims_plan(ctx, exe)
                } else {
                    full_plan(args, ctx, exe)
                },
            },
        ),
        None => Err(ActivateError::NoShell),
    }
}

impl Activate {
    /// Plans the invocation: fails where no shell was named, and else plans
    /// for shims only or for full activation, as asked.
    pub fn run(self, ctx: &Context, exe: &Executable) -> (plan: Result<
        ActivationPlan,
        ActivateError,
    >)
        ensures
            match plan {
                Ok(p) => planned(self, ctx@, exe@) == Ok::<PlanView, ActivateError>(p@),
                Err(e) => planned(self, ctx@, exe@) == Err::<PlanView, ActivateError>(e),
            },
    {
        let shell = match self.shell_type {
            Some(shell) => shell,
            None => match self.shell {
                Some(shell) => shell,
                None => {
                    return Err(ActivateError::NoShell);
                },
            },
        };
        let fragments = if self.shims {
            self.activate_shims(ctx, exe)
        } else {
            self.activate(ctx, exe)
        };
        Ok(ActivationPlan { shell, fragments })
    }

    /// The plan for shims only.
    pub fn activate_shims(&self, ctx: &Context, exe: &Executable) -> (fragments: Vec<Fragment>)
        ensures
            fragment_views(fragments@) == shims_plan(ctx@, exe@),
    {
        let mut fragments: Vec<Fragment> = Vec::new();
        if let Some(dir) = exe.dir() {
            if let Some(fragment) = self.prepend_path(ctx, &dir) {
                fragments.push(fragment);
            }
        }
        if let Some(fragment) = self.prepend_path(ctx, &ctx.shims) {
            fragments.push(fragment);
        }
        assert(fragment_views(fragments@) =~= shims_plan(ctx@, exe@));
        fragments
    }

    /// The plan for full activation.
    pub fn activate(&self, ctx: &Context, exe: &Executable) -> (fragments: Vec<Fragment>)
        ensures
            fragment_views(fragments@) == full_plan(*self, ctx@, exe@),
    {
        let mut fragments: Vec<Fragment> = Vec::new();
        if let Some(fragment) = remove_shims(ctx) {
            fragments.push(fragment);
        }
        if let Some(dir) = exe.dir() {
            if let Some(fragment) = self.prepend_path(ctx, &dir) {
                fragments.push(fragment);
            }
        }
        fragments.push(
            Fragment::Activate {
                options: ActivateOptions {
                    exe: exe.path.clone(),
                    flags: self.flags(),
                    no_hook_env: self.no_hook_env,
                },
            },
        );
        assert(fragment_views(fragments@) =~= full_plan(*self, ctx@, exe@));
        fragments
    }

    /// The flags that the hook passes on.
    pub fn flags(&self) -> (text: String)
        ensures
            text@ == flags_text(self.quiet, self.status),
    {
        let mut text = String::new();
        if self.quiet {
            text.append(" --quiet");
        }
        if self.status {
            text.append(" --status");
        }
        assert(text@ =~= flags_text(self.quiet, self.status));
        text
    }

    /// The request to put `p` in front of the search path, where that is
    /// wanted.
    pub fn prepend_path(&self, ctx: &Context, p: &PathEntry) -> (fragment: Option<Fragment>)
        ensures
            match fragment {
                Some(f) => prepend_fragment(ctx@, p@) == Some(f@),
                None => prepend_fragment(ctx@, p@) is None,
            },
    {
        if is_dir_not_in_nix(p) && !is_dir_in_path(ctx, p) && !is_relative(p.raw.as_str()) {
            Some(Fragment::PrependEnv { key: ctx.path_key.clone(), value: p.raw.clone() })
        } else {
            None
        }
    }
}

/// The request to take the shims directory off the search path, where it is
/// on it.
pub fn remove_shims(ctx: &Context) -> (fragment: Option<Fragment>)
    ensures
        match fragment {
            Some(f) => removal_fragment(ctx@) == Some(f@),
            None => removal_fragment(ctx@) is None,
        },
{
    match locate(&ctx.path, &ctx.shims, ctx.separator.as_str()) {
        Some(value) => Some(Fragment::SetEnv { key: ctx.path_key.clone(), value }),
        None => None,
    }
}

/// Whether `dir` resolves to the same place as a directory on the search
/// path.
pub fn is_dir_in_path(ctx: &Context, dir: &PathEntry) -> (found: bool)
    ensures
        found == holds_canonical(ctx@.path, dir@.canonical),
{
    ctx.path.contains_canonical(dir)
}

/// Whether `dir` resolves to a place outside the package store.
pub fn is_dir_not_in_nix(dir: &PathEntry) -> (outside: bool)
    ensures
        outside == !path_starts_with(dir@.canonical, STORE_PREFIX@),
{
    !PathSet::is_under(dir, STORE_PREFIX)
}

} // verus!
