use wezlix::launcher::{
    build_launch_plan, effective_working_dir, install_dir_for, resolve_config_path,
    resolve_env_file, resolve_helix_config, resolve_wezterm_config, resolved_exe_path,
};

#[test]
fn omitted_flags_yield_distinct_defaults() {
    let dir = "/home/user/.config/wezlix";
    let wezterm = resolve_wezterm_config(None, dir);
    let helix = resolve_helix_config(None, dir);
    let env = resolve_env_file(None, dir);
    assert_eq!(wezterm, "/home/user/.config/wezlix/wezlix.lua");
    assert_eq!(helix, "/home/user/.config/wezlix/helix.toml");
    assert_eq!(env, "/home/user/.config/wezlix/env.toml");
    assert_ne!(wezterm, helix);
    assert_ne!(wezterm, env);
    assert_ne!(helix, env);
}

#[test]
fn explicit_flag_wins_over_default() {
    let dir = "/home/user/.config/wezlix";
    let r = resolve_config_path(Some("custom.lua".to_owned()), dir, "wezlix.lua");
    assert_eq!(r, "custom.lua");
    assert_eq!(resolve_wezterm_config(Some("/tmp/w.lua".to_owned()), dir), "/tmp/w.lua");
    assert_eq!(resolve_helix_config(Some("/tmp/h.toml".to_owned()), dir), "/tmp/h.toml");
    assert_eq!(resolve_env_file(Some("/tmp/e.toml".to_owned()), dir), "/tmp/e.toml");
}

#[test]
fn symlink_resolves_to_target_parent() {
    let exe = "/usr/local/bin/wezlix".to_owned();
    let target = "/opt/wezlix/bin/wezlix".to_owned();
    let resolved = resolved_exe_path(exe.clone(), Some(target.clone()));
    assert_eq!(resolved, target);
    let install = install_dir_for(exe, Some(target));
    assert_eq!(install.as_deref(), Some("/opt/wezlix/bin"));
    assert_ne!(install.as_deref(), Some("/usr/local/bin"));
}

#[test]
fn plain_path_resolves_to_its_own_parent() {
    let exe = "/opt/wezlix/wezlix".to_owned();
    assert_eq!(resolved_exe_path(exe.clone(), None), exe);
    assert_eq!(install_dir_for(exe, None).as_deref(), Some("/opt/wezlix"));
}

#[test]
fn root_working_dir_gives_way_to_home() {
    let wd = effective_working_dir("/".to_owned(), "/home/user".to_owned());
    assert_eq!(wd, "/home/user");
}

#[test]
fn other_working_dir_is_kept() {
    let wd = effective_working_dir("/work/notes".to_owned(), "/home/user".to_owned());
    assert_eq!(wd, "/work/notes");
}

#[test]
fn plan_without_flags_or_files() {
    let dir = "/home/user/.config/wezlix";
    let wezterm = resolve_wezterm_config(None, dir);
    let helix = resolve_helix_config(None, dir);
    let plan = build_launch_plan(
        "/opt/wezlix",
        wezterm,
        helix,
        "/home/user".to_owned(),
        Vec::new(),
        Vec::new(),
    );
    assert_eq!(plan.program, "/opt/wezlix/wezterm-gui");
    assert_eq!(
        plan.args,
        vec![
            "--config-file".to_owned(),
            "/home/user/.config/wezlix/wezlix.lua".to_owned(),
            "start".to_owned(),
            "--cwd".to_owned(),
            "/home/user".to_owned(),
            "/opt/wezlix/hx".to_owned(),
            "--config".to_owned(),
            "/home/user/.config/wezlix/helix.toml".to_owned(),
        ]
    );
    assert!(plan.env_pairs.is_empty());
}

#[test]
fn user_files_keep_their_order_at_the_end() {
    let plan = build_launch_plan(
        "/opt/wezlix",
        "/c/w.lua".to_owned(),
        "/c/h.toml".to_owned(),
        "/work".to_owned(),
        vec!["a.txt".to_owned(), "../b.txt".to_owned()],
        Vec::new(),
    );
    assert_eq!(plan.args.len(), 10);
    assert_eq!(plan.args[6], "--config");
    assert_eq!(plan.args[7], "/c/h.toml");
    assert_eq!(plan.args[8], "a.txt");
    assert_eq!(plan.args[9], "../b.txt");
}

#[test]
fn env_pairs_ride_along_unchanged() {
    let pairs = vec![("EDITOR".to_owned(), "hx".to_owned()), ("LANG".to_owned(), "C".to_owned())];
    let plan = build_launch_plan(
        "/opt/wezlix",
        "/c/w.lua".to_owned(),
        "/c/h.toml".to_owned(),
        "/work".to_owned(),
        Vec::new(),
        pairs.clone(),
    );
    assert_eq!(plan.env_pairs, pairs);
}
