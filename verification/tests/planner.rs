use activation::activate::{
    is_dir_in_path, is_dir_not_in_nix, remove_shims, Activate, ActivateError, Context, Executable,
    STORE_PREFIX,
};
use activation::path_set::{PathEntry, PathSet};
use activation::plan::ActivationPlan;
use activation::shell::{ActivateOptions, Fragment, Shell, ShellType};

fn plain(raw: &str) -> PathEntry {
    PathEntry::new(raw.to_string(), None)
}

fn entry(raw: &str, canonical: &str) -> PathEntry {
    PathEntry::new(raw.to_string(), Some(canonical.to_string()))
}

fn context(path: Vec<PathEntry>) -> Context {
    Context {
        path_key: "PATH".to_string(),
        separator: ":".to_string(),
        path: PathSet::new(path),
        shims: plain("/home/me/.local/share/tool/shims"),
    }
}

fn tool(path: &str) -> Executable {
    Executable { path: path.to_string(), resolved_dir: None }
}

fn args(shell: Option<ShellType>) -> Activate {
    Activate {
        shell: None,
        shell_type: shell,
        status: false,
        shims: false,
        quiet: false,
        no_hook_env: false,
    }
}

fn prepend(value: &str) -> Fragment {
    Fragment::PrependEnv { key: "PATH".to_string(), value: value.to_string() }
}

fn set_path(value: &str) -> Fragment {
    Fragment::SetEnv { key: "PATH".to_string(), value: value.to_string() }
}

fn hook(exe: &str, flags: &str, no_hook_env: bool) -> Fragment {
    Fragment::Activate {
        options: ActivateOptions {
            exe: exe.to_string(),
            flags: flags.to_string(),
            no_hook_env,
        },
    }
}

struct Plain;

impl Shell for Plain {
    fn activate(&self, opts: ActivateOptions) -> String {
        format!("hook {}{} skip={}\n", opts.exe, opts.flags, opts.no_hook_env)
    }

    fn set_env(&self, k: &str, v: &str) -> String {
        format!("{}={}", k, v)
    }

    fn prepend_env(&self, k: &str, v: &str) -> String {
        format!("{}={}:${}\n", k, v, k)
    }
}

#[test]
fn store_prefix_is_nix() {
    assert_eq!(STORE_PREFIX, "/nix/");
}

#[test]
fn flags_quiet_and_status() {
    let a = Activate { quiet: true, status: true, ..args(None) };
    assert_eq!(a.flags(), " --quiet --status");
}

#[test]
fn flags_neither() {
    assert_eq!(args(None).flags(), "");
}

#[test]
fn flags_one_of_two() {
    assert_eq!(Activate { quiet: true, ..args(None) }.flags(), " --quiet");
    assert_eq!(Activate { status: true, ..args(None) }.flags(), " --status");
}

#[test]
fn executable_dir_is_parent() {
    assert_eq!(tool("/usr/local/bin/tool").dir(), Some(plain("/usr/local/bin")));
}

#[test]
fn executable_dir_takes_resolved_form() {
    let exe = Executable {
        path: "/home/me/bin/tool".to_string(),
        resolved_dir: Some("/data/home/me/bin".to_string()),
    };
    assert_eq!(exe.dir(), Some(entry("/home/me/bin", "/data/home/me/bin")));
}

#[test]
fn executable_dir_of_bare_name_is_empty() {
    assert_eq!(tool("tool").dir(), Some(plain("")));
}

#[test]
fn executable_dir_of_root_is_none() {
    assert_eq!(tool("/").dir(), None);
    assert_eq!(tool("").dir(), None);
}

#[test]
fn dir_in_path_by_canonical_form() {
    let ctx = context(vec![plain("/usr/bin"), entry("/opt/link", "/opt/real")]);
    assert!(is_dir_in_path(&ctx, &plain("/usr/bin")));
    assert!(is_dir_in_path(&ctx, &entry("/opt/real", "/opt/real")));
    assert!(!is_dir_in_path(&ctx, &plain("/opt/link2")));
}

#[test]
fn dir_not_in_nix() {
    assert!(is_dir_not_in_nix(&plain("/usr/bin")));
    assert!(is_dir_not_in_nix(&plain("/nixos/bin")));
    assert!(!is_dir_not_in_nix(&plain("/nix/store/abc/bin")));
    assert!(!is_dir_not_in_nix(&entry("/run/current-system/sw/bin", "/nix/store/abc/bin")));
}

#[test]
fn prepend_path_for_new_absolute_directory() {
    let ctx = context(vec![plain("/usr/bin")]);
    assert_eq!(args(None).prepend_path(&ctx, &plain("/opt/tool/bin")), Some(prepend("/opt/tool/bin")));
}

#[test]
fn prepend_path_uses_raw_string_and_path_key() {
    let mut ctx = context(vec![plain("/usr/bin")]);
    ctx.path_key = "Path".to_string();
    assert_eq!(
        args(None).prepend_path(&ctx, &entry("/opt/link/bin", "/opt/tool-1/bin")),
        Some(Fragment::PrependEnv { key: "Path".to_string(), value: "/opt/link/bin".to_string() })
    );
}

#[test]
fn prepend_path_skips_directory_on_path() {
    let ctx = context(vec![plain("/usr/bin"), plain("/opt/tool/bin")]);
    assert_eq!(args(None).prepend_path(&ctx, &plain("/opt/tool/bin")), None);
}

#[test]
fn prepend_path_skips_alias_of_directory_on_path() {
    let ctx = context(vec![entry("/opt/tool/bin", "/data/tool/bin")]);
    assert_eq!(args(None).prepend_path(&ctx, &entry("/opt/link/bin", "/data/tool/bin")), None);
}

#[test]
fn prepend_path_skips_unresolved_directory_with_trailing_separator() {
    let ctx = context(vec![plain("/usr/bin"), plain("/opt/mise/bin")]);
    assert!(is_dir_in_path(&ctx, &plain("/opt/mise/bin/")));
    assert_eq!(args(None).prepend_path(&ctx, &plain("/opt/mise/bin/")), None);
    let ctx = context(vec![plain("/usr/bin"), plain("/opt/mise/bin/")]);
    assert!(is_dir_in_path(&ctx, &plain("/opt/mise/bin")));
    assert_eq!(args(None).prepend_path(&ctx, &plain("/opt/mise/bin")), None);
}

#[test]
fn remove_shims_written_with_trailing_separator() {
    let mut ctx = context(vec![plain("/a"), plain("/shims/")]);
    ctx.shims = plain("/shims");
    assert_eq!(remove_shims(&ctx), Some(set_path("/a")));
}

#[test]
fn full_activation_with_unresolved_directory_on_path() {
    let ctx = context(vec![plain("/usr/bin"), plain("/opt/mise/bin/")]);
    let plan = args(None).activate(&ctx, &tool("/opt/mise/bin/mise"));
    assert_eq!(plan, vec![hook("/opt/mise/bin/mise", "", false)]);
}

#[test]
fn prepend_path_skips_store() {
    let ctx = context(vec![plain("/usr/bin")]);
    assert_eq!(args(None).prepend_path(&ctx, &plain("/nix/store/abc-tool/bin")), None);
    assert_eq!(args(None).prepend_path(&ctx, &entry("/home/me/.nix-profile/bin", "/nix/store/abc/bin")), None);
}

#[test]
fn prepend_path_skips_relative() {
    let ctx = context(vec![plain("/usr/bin")]);
    assert_eq!(args(None).prepend_path(&ctx, &plain("target/debug")), None);
    assert_eq!(args(None).prepend_path(&ctx, &plain("")), None);
    assert_eq!(args(None).prepend_path(&ctx, &entry("bin", "/home/me/bin")), None);
}

#[test]
fn remove_shims_when_on_path() {
    let ctx = context(vec![plain("/a"), plain("/home/me/.local/share/tool/shims"), plain("/b")]);
    assert_eq!(remove_shims(&ctx), Some(set_path("/a:/b")));
}

#[test]
fn remove_shims_when_absent() {
    let ctx = context(vec![plain("/a"), plain("/b")]);
    assert_eq!(remove_shims(&ctx), None);
}

#[test]
fn remove_shims_uses_separator_and_key() {
    let mut ctx = context(vec![plain("/a"), entry("/s", "/home/me/.local/share/tool/shims"), plain("/b")]);
    ctx.separator = ";".to_string();
    ctx.path_key = "Path".to_string();
    assert_eq!(
        remove_shims(&ctx),
        Some(Fragment::SetEnv { key: "Path".to_string(), value: "/a;/b".to_string() })
    );
}

#[test]
fn full_activation_on_fresh_path() {
    let ctx = context(vec![plain("/usr/bin"), plain("/bin")]);
    let plan = args(None).activate(&ctx, &tool("/opt/tool/bin/tool"));
    assert_eq!(plan, vec![prepend("/opt/tool/bin"), hook("/opt/tool/bin/tool", "", false)]);
}

#[test]
fn full_activation_retracts_shims_first() {
    let ctx = context(vec![
        plain("/home/me/.local/share/tool/shims"),
        plain("/usr/bin"),
        plain("/bin"),
    ]);
    let a = Activate { quiet: true, ..args(None) };
    let plan = a.activate(&ctx, &tool("/opt/tool/bin/tool"));
    assert_eq!(
        plan,
        vec![
            set_path("/usr/bin:/bin"),
            prepend("/opt/tool/bin"),
            hook("/opt/tool/bin/tool", " --quiet", false),
        ]
    );
}

#[test]
fn full_activation_twice_prepends_once() {
    let exe = tool("/opt/tool/bin/tool");
    let first = args(None).activate(&context(vec![plain("/usr/bin")]), &exe);
    assert_eq!(first, vec![prepend("/opt/tool/bin"), hook("/opt/tool/bin/tool", "", false)]);
    let second = args(None).activate(&context(vec![plain("/opt/tool/bin"), plain("/usr/bin")]), &exe);
    assert_eq!(second, vec![hook("/opt/tool/bin/tool", "", false)]);
}

#[test]
fn full_activation_with_bare_executable_name() {
    let ctx = context(vec![plain("/usr/bin")]);
    let plan = args(None).activate(&ctx, &tool("tool"));
    assert_eq!(plan, vec![hook("tool", "", false)]);
}

#[test]
fn full_activation_without_executable_directory() {
    let ctx = context(vec![plain("/usr/bin")]);
    let plan = args(None).activate(&ctx, &tool("/"));
    assert_eq!(plan, vec![hook("/", "", false)]);
}

#[test]
fn full_activation_in_store_prepends_nothing() {
    let ctx = context(vec![plain("/usr/bin")]);
    let plan = args(None).activate(&ctx, &tool("/nix/store/abc-tool/bin/tool"));
    assert_eq!(plan, vec![hook("/nix/store/abc-tool/bin/tool", "", false)]);
}

#[test]
fn full_activation_passes_flags_and_hook_skip() {
    let ctx = context(vec![plain("/opt/tool/bin")]);
    let a = Activate { quiet: true, status: true, no_hook_env: true, ..args(None) };
    let plan = a.activate(&ctx, &tool("/opt/tool/bin/tool"));
    assert_eq!(plan, vec![hook("/opt/tool/bin/tool", " --quiet --status", true)]);
}

#[test]
fn full_activation_asks_for_one_hook_last() {
    let ctx = context(vec![plain("/home/me/.local/share/tool/shims"), plain("/usr/bin")]);
    for quiet in [false, true] {
        for status in [false, true] {
            for no_hook_env in [false, true] {
                let a = Activate { quiet, status, no_hook_env, ..args(None) };
                let plan = a.activate(&ctx, &tool("/opt/tool/bin/tool"));
                let hooks: Vec<&Fragment> = plan
                    .iter()
                    .filter(|f| matches!(f, Fragment::Activate { .. }))
                    .collect();
                assert_eq!(hooks.len(), 1);
                assert!(matches!(plan.last(), Some(Fragment::Activate { options }) if options.no_hook_env == no_hook_env));
                assert_eq!(plan[..2], [set_path("/usr/bin"), prepend("/opt/tool/bin")]);
            }
        }
    }
}

#[test]
fn full_activation_twice_retracts_shims_once() {
    let exe = tool("/opt/tool/bin/tool");
    let first = args(None).activate(
        &context(vec![plain("/a"), plain("/home/me/.local/share/tool/shims"), plain("/b")]),
        &exe,
    );
    assert_eq!(
        first,
        vec![set_path("/a:/b"), prepend("/opt/tool/bin"), hook("/opt/tool/bin/tool", "", false)]
    );
    let second = args(None).activate(
        &context(vec![plain("/opt/tool/bin"), plain("/a"), plain("/b")]),
        &exe,
    );
    assert_eq!(second, vec![hook("/opt/tool/bin/tool", "", false)]);
}

#[test]
fn full_activation_when_tool_lives_in_shims_directory() {
    let exe = tool("/home/me/.local/share/tool/shims/tool");
    let first = args(None).activate(
        &context(vec![plain("/home/me/.local/share/tool/shims"), plain("/usr/bin")]),
        &exe,
    );
    assert_eq!(
        first,
        vec![set_path("/usr/bin"), hook("/home/me/.local/share/tool/shims/tool", "", false)]
    );
    let second = args(None).activate(&context(vec![plain("/usr/bin")]), &exe);
    assert_eq!(
        second,
        vec![
            prepend("/home/me/.local/share/tool/shims"),
            hook("/home/me/.local/share/tool/shims/tool", "", false),
        ]
    );
}

#[test]
fn full_activation_skips_alias_of_directory_on_path() {
    let ctx = context(vec![entry("/opt/current/bin", "/opt/tool-2/bin"), plain("/usr/bin")]);
    let exe = Executable {
        path: "/opt/tool-2/bin/tool".to_string(),
        resolved_dir: Some("/opt/tool-2/bin".to_string()),
    };
    assert_eq!(args(None).activate(&ctx, &exe), vec![hook("/opt/tool-2/bin/tool", "", false)]);
}

#[test]
fn shims_mode_prepends_tool_then_shims() {
    let ctx = context(vec![plain("/usr/bin")]);
    let plan = args(None).activate_shims(&ctx, &tool("/opt/tool/bin/tool"));
    assert_eq!(plan, vec![prepend("/opt/tool/bin"), prepend("/home/me/.local/share/tool/shims")]);
}

#[test]
fn shims_mode_skips_what_is_on_path() {
    let ctx = context(vec![plain("/home/me/.local/share/tool/shims"), plain("/opt/tool/bin")]);
    let plan = args(None).activate_shims(&ctx, &tool("/opt/tool/bin/tool"));
    assert_eq!(plan, vec![]);
}

#[test]
fn shims_mode_never_asks_for_hook() {
    let ctx = context(vec![plain("/usr/bin")]);
    let a = Activate { quiet: true, status: true, ..args(None) };
    let plan = a.activate_shims(&ctx, &tool("/opt/tool/bin/tool"));
    assert!(plan.iter().all(|f| !matches!(f, Fragment::Activate { .. })));
}

#[test]
fn run_without_shell_fails() {
    let ctx = context(vec![plain("/usr/bin")]);
    assert_eq!(args(None).run(&ctx, &tool("/opt/tool/bin/tool")), Err(ActivateError::NoShell));
    let shims = Activate { shims: true, ..args(None) };
    assert_eq!(shims.run(&ctx, &tool("/opt/tool/bin/tool")), Err(ActivateError::NoShell));
}

#[test]
fn run_prefers_positional_shell() {
    let ctx = context(vec![plain("/usr/bin")]);
    let a = Activate { shell: Some(ShellType::Bash), shell_type: Some(ShellType::Fish), ..args(None) };
    let plan = a.run(&ctx, &tool("/opt/tool/bin/tool")).unwrap();
    assert_eq!(plan.shell, ShellType::Fish);
}

#[test]
fn run_falls_back_to_shell_option() {
    let ctx = context(vec![plain("/usr/bin")]);
    let a = Activate { shell: Some(ShellType::Zsh), ..args(None) };
    let plan = a.run(&ctx, &tool("/opt/tool/bin/tool")).unwrap();
    assert_eq!(plan.shell, ShellType::Zsh);
}

#[test]
fn run_full_mode() {
    let ctx = context(vec![plain("/home/me/.local/share/tool/shims"), plain("/usr/bin")]);
    let a = Activate { status: true, ..args(Some(ShellType::Bash)) };
    assert_eq!(
        a.run(&ctx, &tool("/opt/tool/bin/tool")),
        Ok(ActivationPlan {
            shell: ShellType::Bash,
            fragments: vec![
                set_path("/usr/bin"),
                prepend("/opt/tool/bin"),
                hook("/opt/tool/bin/tool", " --status", false),
            ],
        })
    );
}

#[test]
fn run_shims_mode() {
    let ctx = context(vec![plain("/home/me/.local/share/tool/shims"), plain("/usr/bin")]);
    let a = Activate { shims: true, no_hook_env: true, ..args(Some(ShellType::Nu)) };
    assert_eq!(
        a.run(&ctx, &tool("/opt/tool/bin/tool")),
        Ok(ActivationPlan { shell: ShellType::Nu, fragments: vec![prepend("/opt/tool/bin")] })
    );
}

#[test]
fn place_puts_assignment_on_its_own_line() {
    assert_eq!(set_path("/a").place("PATH=/a".to_string()), "PATH=/a\n");
}

#[test]
fn place_leaves_other_fragments_as_written() {
    assert_eq!(prepend("/a").place("text".to_string()), "text");
    assert_eq!(hook("/t", "", false).place("script\n".to_string()), "script\n");
    assert_eq!(hook("/t", "", false).place(String::new()), "");
}

#[test]
fn emit_writes_fragments_in_order() {
    let ctx = context(vec![plain("/home/me/.local/share/tool/shims"), plain("/usr/bin")]);
    let a = Activate { quiet: true, status: true, ..args(Some(ShellType::Bash)) };
    let plan = a.run(&ctx, &tool("/opt/tool/bin/tool")).unwrap();
    assert_eq!(
        plan.emit(&Plain),
        "PATH=/usr/bin\nPATH=/opt/tool/bin:$PATH\nhook /opt/tool/bin/tool --quiet --status skip=false\n"
    );
}

#[test]
fn emit_hands_hook_skip_to_the_shell() {
    let ctx = context(vec![plain("/opt/tool/bin")]);
    let a = Activate { no_hook_env: true, ..args(Some(ShellType::Pwsh)) };
    let plan = a.run(&ctx, &tool("/opt/tool/bin/tool")).unwrap();
    assert_eq!(plan.emit(&Plain), "hook /opt/tool/bin/tool skip=true\n");
}

#[test]
fn emit_of_empty_plan_is_empty() {
    let plan = ActivationPlan { shell: ShellType::Zsh, fragments: vec![] };
    assert_eq!(plan.emit(&Plain), "");
}

#[test]
fn emit_shims_mode_has_no_hook() {
    let ctx = context(vec![plain("/usr/bin")]);
    let a = Activate { shims: true, ..args(Some(ShellType::Fish)) };
    let plan = a.run(&ctx, &tool("/opt/tool/bin/tool")).unwrap();
    assert_eq!(
        plan.emit(&Plain),
        "PATH=/opt/tool/bin:$PATH\nPATH=/home/me/.local/share/tool/shims:$PATH\n"
    );
}

#[test]
fn options_clone_is_equal() {
    let o = ActivateOptions { exe: "/t".to_string(), flags: " --quiet".to_string(), no_hook_env: true };
    assert_eq!(o.clone(), o);
}
