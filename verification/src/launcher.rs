//! The launcher's decisions: which configuration files to use, where the
//! installation directory is, which working directory and which argument
//! list the terminal emulator is started with.
//!
//! The launcher runs `wezterm-gui` from the installation directory and hands
//! it the Helix editor `hx` from the same directory as the command to run.
//! Everything here is computed from plain values; reading links, looking up
//! the configuration directory and spawning the child happen outside.

use vstd::prelude::*;
use crate::paths::{join_spec, parent_of, path_join, parent_dir, is_root_path};

verus! {

/// The view of an optional path.
pub open spec fn opt_path_view(o: Option<String>) -> Option<Seq<char>> {
    match o {
        Some(p) => Some(p@),
        None => None,
    }
}

/// A configuration path: the explicitly supplied one if there is one, and
/// otherwise the default file name inside the per-user configuration
/// directory. Each of the three inputs is resolved this way on its own.
pub fn resolve_config_path(explicit: Option<String>, config_dir: &str, default_name: &str) -> (r:
    String)
    ensures
        explicit matches Some(p) ==> r == p,
        explicit is None ==> r@ == join_spec(config_dir@, default_name@),
{
    match explicit {
        Some(p) => p,
        None => path_join(config_dir, default_name),
    }
}

/// The terminal-emulator configuration path.
pub fn resolve_wezterm_config(explicit: Option<String>, config_dir: &str) -> (r: String)
    ensures
        explicit matches Some(p) ==> r == p,
        explicit is None ==> r@ == join_spec(config_dir@, "wezlix.lua"@),
{
    resolve_config_path(explicit, config_dir, "wezlix.lua")
}

/// The editor configuration path.
pub fn resolve_helix_config(explicit: Option<String>, config_dir: &str) -> (r: String)
    ensures
        explicit matches Some(p) ==> r == p,
        explicit is None ==> r@ == join_spec(config_dir@, "helix.toml"@),
{
    resolve_config_path(explicit, config_dir, "helix.toml")
}

/// The environment-file path.
pub fn resolve_env_file(explicit: Option<String>, config_dir: &str) -> (r: String)
    ensures
        explicit matches Some(p) ==> r == p,
        explicit is None ==> r@ == join_spec(config_dir@, "env.toml"@),
{
    resolve_config_path(explicit, config_dir, "env.toml")
}

/// Law: the three default configuration paths are pairwise distinct,
/// whatever the configuration directory is.
pub proof fn lemma_default_config_paths_distinct(config_dir: Seq<char>)
    ensures
        join_spec(config_dir, "wezlix.lua"@) != join_spec(config_dir, "helix.toml"@),
        join_spec(config_dir, "wezlix.lua"@) != join_spec(config_dir, "env.toml"@),
        join_spec(config_dir, "helix.toml"@) != join_spec(config_dir, "env.toml"@),
{
    reveal_strlit("wezlix.lua");
    reveal_strlit("helix.toml");
    reveal_strlit("env.toml");
    let n = config_dir.len() as int;
    assert(join_spec(config_dir, "wezlix.lua"@)[n + 1] == 'w');
    assert(join_spec(config_dir, "helix.toml"@)[n + 1] == 'h');
    assert(join_spec(config_dir, "wezlix.lua"@).len() == n + 11);
    assert(join_spec(config_dir, "helix.toml"@).len() == n + 11);
    assert(join_spec(config_dir, "env.toml"@).len() == n + 9);
}

/// The path the running executable resolves to: the canonicalized link
/// target when the running path is a symbolic link, the running path itself
/// otherwise.
pub fn resolved_exe_path(exe_path: String, canonical_link_target: Option<String>) -> (r: String)
    ensures
        canonical_link_target matches Some(t) ==> r == t,
        canonical_link_target is None ==> r == exe_path,
{
    match canonical_link_target {
        Some(t) => t,
        None => exe_path,
    }
}

/// The installation directory: the parent directory of the resolved
/// executable path. When the running path is a symbolic link this is the
/// parent of the canonicalized link target, never the parent of the link
/// path itself.
pub fn install_dir_for(exe_path: String, canonical_link_target: Option<String>) -> (r: Option<
    String>)
    ensures
        canonical_link_target matches Some(t) ==> opt_path_view(r) == parent_of(t@),
        canonical_link_target is None ==> opt_path_view(r) == parent_of(exe_path@),
{
    let resolved = resolved_exe_path(exe_path, canonical_link_target);
    parent_dir(resolved.as_str())
}

/// The working directory handed to the child: the caller's current working
/// directory, except that the filesystem root gives way to the user's home
/// directory.
pub fn effective_working_dir(current_dir: String, home_dir: String) -> (r: String)
    ensures
        current_dir@ == seq!['/'] ==> r == home_dir,
        current_dir@ != seq!['/'] ==> r == current_dir,
{
    if is_root_path(current_dir.as_str()) {
        home_dir
    } else {
        current_dir
    }
}

/// One child-process invocation: the program to start, its arguments in
/// order, and the environment pairs added to the inherited environment.
pub struct LaunchPlan {
    pub program: String,
    pub args: Vec<String>,
    pub env_pairs: Vec<(String, String)>,
}

/// The views of a sequence of string pairs.
pub open spec fn pair_views(ps: Seq<(String, String)>) -> Seq<(Seq<char>, Seq<char>)> {
    ps.map_values(|p: (String, String)| (p.0@, p.1@))
}

/// An environment after a sequence of pairs is applied to it, in order:
/// each pair binds its key to its value, over whatever was there before.
pub open spec fn env_after(
    inherited: Map<Seq<char>, Seq<char>>,
    ps: Seq<(Seq<char>, Seq<char>)>,
) -> Map<Seq<char>, Seq<char>>
    decreases ps.len(),
{
    if ps.len() == 0 {
        inherited
    } else {
        env_after(inherited, ps.drop_last()).insert(ps.last().0, ps.last().1)
    }
}

/// Whether some pair of `ps` has the key `k`.
pub open spec fn pairs_have_key(ps: Seq<(Seq<char>, Seq<char>)>, k: Seq<char>) -> bool {
    exists|i: int| 0 <= i < ps.len() && (#[trigger] ps[i]).0 == k
}

impl LaunchPlan {
    /// The child environment: the inherited environment of the parent with
    /// the plan's pairs applied over it.
    pub open spec fn child_env(self, inherited: Map<Seq<char>, Seq<char>>) -> Map<
        Seq<char>,
        Seq<char>,
    > {
        env_after(inherited, pair_views(self.env_pairs@))
    }
}

/// The inherited pairs that survive the added pairs: those whose keys `ps`
/// does not set, in their original order.
pub open spec fn kept_inherited(
    inherited: Seq<(String, String)>,
    ps: Seq<(Seq<char>, Seq<char>)>,
) -> Seq<(String, String)>
    decreases inherited.len(),
{
    if inherited.len() == 0 {
        Seq::empty()
    } else {
        let rest = kept_inherited(inherited.drop_last(), ps);
        if pairs_have_key(ps, inherited.last().0@) {
            rest
        } else {
            rest.push(inherited.last())
        }
    }
}

/// Law: an inherited pair survives exactly when its key is not set — every
/// pair the added pairs leave alone is kept, and everything kept is an
/// inherited pair whose key they leave alone.
pub proof fn lemma_kept_inherited(inherited: Seq<(String, String)>, ps: Seq<(Seq<char>, Seq<char>)>)
    ensures
        forall|j: int|
            0 <= j < inherited.len() && !pairs_have_key(ps, (#[trigger] inherited[j]).0@)
                ==> kept_inherited(inherited, ps).contains(inherited[j]),
        forall|j: int|
            0 <= j < kept_inherited(inherited, ps).len() ==> inherited.contains(
                #[trigger] kept_inherited(inherited, ps)[j],
            ) && !pairs_have_key(ps, kept_inherited(inherited, ps)[j].0@),
    decreases inherited.len(),
{
    if inherited.len() > 0 {
        let front = inherited.drop_last();
        lemma_kept_inherited(front, ps);
        let kept = kept_inherited(inherited, ps);
        let kept_front = kept_inherited(front, ps);
        assert forall|j: int|
            0 <= j < inherited.len() && !pairs_have_key(ps, (#[trigger] inherited[j]).0@) implies kept.contains(
            inherited[j],
        ) by {
            if j < inherited.len() - 1 {
                assert(front[j] == inherited[j]);
                assert(kept_front.contains(inherited[j]));
                let w = choose|w: int| 0 <= w < kept_front.len() && kept_front[w] == inherited[j];
                assert(kept[w] == inherited[j]);
            } else {
                assert(inherited[j] == inherited.last());
                assert(kept.last() == inherited.last());
            }
        }
        assert forall|j: int| 0 <= j < kept.len() implies inherited.contains(#[trigger] kept[j])
            && !pairs_have_key(ps, kept[j].0@) by {
            if j < kept_front.len() {
                assert(kept[j] == kept_front[j]);
                let w = choose|w: int| 0 <= w < front.len() && front[w] == kept_front[j];
                assert(inherited[w] == kept[j]);
            } else {
                assert(kept[j] == inherited.last());
                assert(inherited[inherited.len() - 1] == inherited.last());
            }
        }
    }
}

/// Whether some added pair sets the key.
pub fn key_is_set(pairs: &Vec<(String, String)>, key: &String) -> (r: bool)
    ensures
        r == pairs_have_key(pair_views(pairs@), key@),
{
    let n = pairs.len();
    let mut i: usize = 0;
    while i < n
        invariant
            i <= n,
            n == pairs@.len(),
            forall|j: int| 0 <= j < i ==> (#[trigger] pair_views(pairs@)[j]).0 != key@,
        decreases n - i,
    {
        if pairs[i].0 == *key {
            proof {
                assert(pair_views(pairs@)[i as int].0 == key@);
            }
            return true;
        }
        proof {
            assert(pair_views(pairs@)[i as int].0 == pairs@[i as int].0@);
        }
        i = i + 1;
    }
    false
}

/// The child environment as a list: the inherited pairs whose keys the
/// added pairs do not set, in their order, then the added pairs. Every
/// added pair appears, and no inherited variable is removed unless the
/// file sets its key.
pub fn merged_env(inherited: &Vec<(String, String)>, pairs: &Vec<(String, String)>) -> (r: Vec<
    (String, String)>)
    ensures
        r@ == kept_inherited(inherited@, pair_views(pairs@)) + pairs@,
        forall|j: int|
            0 <= j < inherited@.len() && !pairs_have_key(
                pair_views(pairs@),
                (#[trigger] inherited@[j]).0@,
            ) ==> r@.contains(inherited@[j]),
{
    let ghost ps = pair_views(pairs@);
    let n = inherited.len();
    let mut r: Vec<(String, String)> = Vec::new();
    let mut i: usize = 0;
    assert(kept_inherited(inherited@.take(0), ps) =~= Seq::<(String, String)>::empty());
    while i < n
        invariant
            i <= n,
            n == inherited@.len(),
            ps == pair_views(pairs@),
            r@ == kept_inherited(inherited@.take(i as int), ps),
        decreases n - i,
    {
        let ghost pre = r@;
        let entry = (inherited[i].0.clone(), inherited[i].1.clone());
        let keep = !key_is_set(pairs, &entry.0);
        if keep {
            r.push(entry);
        }
        proof {
            let taken = inherited@.take(i + 1);
            assert(taken.drop_last() =~= inherited@.take(i as int));
            assert(taken.last() == inherited@[i as int]);
            if keep {
                assert(entry.0@ == inherited@[i as int].0@);
                assert(r@ =~= pre.push(inherited@[i as int]));
            }
            assert(r@ =~= kept_inherited(taken, ps));
        }
        i = i + 1;
    }
    proof {
        assert(inherited@.take(n as int) =~= inherited@);
    }
    let ghost kept = r@;
    let m = pairs.len();
    let mut k: usize = 0;
    while k < m
        invariant
            k <= m,
            m == pairs@.len(),
            r@ == kept + pairs@.take(k as int),
        decreases m - k,
    {
        let ghost pre = r@;
        r.push((pairs[k].0.clone(), pairs[k].1.clone()));
        proof {
            assert(r@ =~= pre.push(pairs@[k as int]));
            assert(pairs@.take(k + 1) =~= pairs@.take(k as int).push(pairs@[k as int]));
            assert(r@ =~= kept + pairs@.take(k + 1));
        }
        k = k + 1;
    }
    proof {
        assert(pairs@.take(m as int) =~= pairs@);
        lemma_kept_inherited(inherited@, ps);
        assert forall|j: int|
            0 <= j < inherited@.len() && !pairs_have_key(ps, (#[trigger] inherited@[j]).0@) implies r@.contains(
            inherited@[j],
        ) by {
            let w = choose|w: int|
                0 <= w < kept.len() && kept_inherited(inherited@, ps)[w] == inherited@[j];
            assert(r@[w] == inherited@[j]);
        }
    }
    r
}

/// Law: the child environment of a plan whose pairs have pairwise-distinct
/// keys holds every pair of the plan, and holds every inherited variable
/// the pairs do not set, with the binding it had.
pub proof fn lemma_child_env_of_plan(plan: LaunchPlan, inherited: Map<Seq<char>, Seq<char>>)
    requires
        forall|i: int, j: int|
            0 <= i < j < plan.env_pairs@.len() ==> (#[trigger] plan.env_pairs@[i]).0@ != (
            #[trigger] plan.env_pairs@[j]).0@,
    ensures
        forall|i: int|
            0 <= i < plan.env_pairs@.len() ==> plan.child_env(inherited).contains_key(
                (#[trigger] plan.env_pairs@[i]).0@,
            ) && plan.child_env(inherited)[plan.env_pairs@[i].0@] == plan.env_pairs@[i].1@,
        forall|k: Seq<char>|
            !pairs_have_key(pair_views(plan.env_pairs@), k) ==> (#[trigger] plan.child_env(
                inherited,
            ).contains_key(k) <==> inherited.contains_key(k)),
        forall|k: Seq<char>|
            !pairs_have_key(pair_views(plan.env_pairs@), k) && inherited.contains_key(k)
                ==> #[trigger] plan.child_env(inherited)[k] == inherited[k],
{
    let ps = pair_views(plan.env_pairs@);
    assert forall|i: int, j: int| 0 <= i < j < ps.len() implies (#[trigger] ps[i]).0 != (
    #[trigger] ps[j]).0 by {
        assert(ps[i].0 == plan.env_pairs@[i].0@);
        assert(ps[j].0 == plan.env_pairs@[j].0@);
    }
    lemma_env_after_pairs(inherited, ps);
    assert forall|i: int|
        0 <= i < plan.env_pairs@.len() implies plan.child_env(inherited).contains_key(
        (#[trigger] plan.env_pairs@[i]).0@,
    ) && plan.child_env(inherited)[plan.env_pairs@[i].0@] == plan.env_pairs@[i].1@ by {
        assert(ps[i].0 == plan.env_pairs@[i].0@);
        assert(ps[i].1 == plan.env_pairs@[i].1@);
        assert(env_after(inherited, ps).contains_key(ps[i].0));
    }
}

/// Law: applying environment pairs with pairwise-distinct keys binds every
/// listed key to its listed value, and leaves every unlisted key exactly the
/// binding it had — inherited variables the file does not mention survive.
pub proof fn lemma_env_after_pairs(
    inherited: Map<Seq<char>, Seq<char>>,
    ps: Seq<(Seq<char>, Seq<char>)>,
)
    requires
        forall|i: int, j: int| 0 <= i < j < ps.len() ==> (#[trigger] ps[i]).0 != (#[trigger] ps[j]).0,
    ensures
        forall|i: int|
            0 <= i < ps.len() ==> env_after(inherited, ps).contains_key((#[trigger] ps[i]).0)
                && env_after(inherited, ps)[ps[i].0] == ps[i].1,
        forall|k: Seq<char>|
            !pairs_have_key(ps, k) ==> (#[trigger] env_after(inherited, ps).contains_key(k)
                <==> inherited.contains_key(k)),
        forall|k: Seq<char>|
            !pairs_have_key(ps, k) && inherited.contains_key(k) ==> #[trigger] env_after(
                inherited,
                ps,
            )[k] == inherited[k],
    decreases ps.len(),
{
    if ps.len() > 0 {
        let rest = ps.drop_last();
        lemma_env_after_pairs(inherited, rest);
        assert forall|k: Seq<char>| pairs_have_key(rest, k) implies pairs_have_key(ps, k) by {
            let i = choose|i: int| 0 <= i < rest.len() && (#[trigger] rest[i]).0 == k;
            assert(ps[i].0 == k);
        }
        assert forall|i: int|
            0 <= i < ps.len() implies env_after(inherited, ps).contains_key((#[trigger] ps[i]).0)
            && env_after(inherited, ps)[ps[i].0] == ps[i].1 by {
            if i < ps.len() - 1 {
                assert(rest[i] == ps[i]);
                assert(ps[i].0 != ps.last().0);
            }
        }
        assert forall|k: Seq<char>| !pairs_have_key(ps, k) implies (env_after(
            inherited,
            ps,
        ).contains_key(k) <==> inherited.contains_key(k)) && (inherited.contains_key(k)
            ==> env_after(inherited, ps)[k] == inherited[k]) by {
            if k == ps.last().0 {
                assert((ps[ps.len() - 1]).0 == k);
                assert(pairs_have_key(ps, k));
            }
            assert(!pairs_have_key(rest, k));
            assert(env_after(inherited, ps) == env_after(inherited, rest).insert(
                ps.last().0,
                ps.last().1,
            ));
            assert(env_after(inherited, rest).contains_key(k) <==> inherited.contains_key(k));
            if inherited.contains_key(k) {
                assert(env_after(inherited, rest)[k] == inherited[k]);
            }
        }
    }
}

/// The views of a sequence of strings.
pub open spec fn string_views(v: Seq<String>) -> Seq<Seq<char>> {
    v.map_values(|s: String| s@)
}

/// The child argument list: the terminal emulator's configuration file, the
/// `start` subcommand with the working directory, the editor executable from
/// the installation directory with its configuration file, and then the user
/// files in their original order.
pub open spec fn launch_args_spec(
    install_dir: Seq<char>,
    wezterm_config: Seq<char>,
    helix_config: Seq<char>,
    working_dir: Seq<char>,
    files: Seq<Seq<char>>,
) -> Seq<Seq<char>> {
    seq![
        "--config-file"@,
        wezterm_config,
        "start"@,
        "--cwd"@,
        working_dir,
        join_spec(install_dir, "hx"@),
        "--config"@,
        helix_config,
    ] + files
}

/// Law: in the child argument list the user files keep their relative order
/// and stand right after the editor's `--config <path>` pair, at the end.
pub proof fn lemma_user_files_order(
    install_dir: Seq<char>,
    wezterm_config: Seq<char>,
    helix_config: Seq<char>,
    working_dir: Seq<char>,
    files: Seq<Seq<char>>,
)
    ensures
        launch_args_spec(install_dir, wezterm_config, helix_config, working_dir, files).len() == 8
            + files.len(),
        launch_args_spec(install_dir, wezterm_config, helix_config, working_dir, files)[6]
            == "--config"@,
        launch_args_spec(install_dir, wezterm_config, helix_config, working_dir, files)[7]
            == helix_config,
        forall|i: int|
            0 <= i < files.len() ==> launch_args_spec(
                install_dir,
                wezterm_config,
                helix_config,
                working_dir,
                files,
            )[8 + i] == files[i],
{
}

/// Builds the launch plan: `wezterm-gui` from the installation directory,
/// the argument list of `launch_args_spec`, and the given environment pairs.
pub fn build_launch_plan(
    install_dir: &str,
    wezterm_config: String,
    helix_config: String,
    working_dir: String,
    files: Vec<String>,
    env_pairs: Vec<(String, String)>,
) -> (plan: LaunchPlan)
    ensures
        plan.program@ == join_spec(install_dir@, "wezterm-gui"@),
        string_views(plan.args@) == launch_args_spec(
            install_dir@,
            wezterm_config@,
            helix_config@,
            working_dir@,
            string_views(files@),
        ),
        plan.env_pairs == env_pairs,
{
    let program = path_join(install_dir, "wezterm-gui");
    let ghost wc = wezterm_config@;
    let ghost hc = helix_config@;
    let ghost wd = working_dir@;
    let mut args: Vec<String> = Vec::new();
    args.push("--config-file".to_owned());
    args.push(wezterm_config);
    args.push("start".to_owned());
    args.push("--cwd".to_owned());
    args.push(working_dir);
    args.push(path_join(install_dir, "hx"));
    args.push("--config".to_owned());
    args.push(helix_config);
    proof {
        assert(string_views(args@) =~= launch_args_spec(
            install_dir@,
            wc,
            hc,
            wd,
            string_views(files@).take(0),
        ));
    }
    let nfiles = files.len();
    let mut k: usize = 0;
    while k < nfiles
        invariant
            k <= nfiles,
            nfiles == files@.len(),
            string_views(args@) == launch_args_spec(
                install_dir@,
                wc,
                hc,
                wd,
                string_views(files@).take(k as int),
            ),
        decreases nfiles - k,
    {
        let ghost pre = args@;
        args.push(files[k].clone());
        proof {
            assert(args@ =~= pre.push(args@[pre.len() as int]));
            assert(args@[pre.len() as int]@ == files@[k as int]@);
            assert(string_views(args@) =~= string_views(pre).push(files@[k as int]@));
            assert(string_views(files@).take(k + 1) =~= string_views(files@).take(k as int).push(
                files@[k as int]@,
            ));
            assert(string_views(args@) =~= launch_args_spec(
                install_dir@,
                wc,
                hc,
                wd,
                string_views(files@).take(k + 1),
            ));
        }
        k = k + 1;
    }
    proof {
        assert(string_views(files@).take(nfiles as int) =~= string_views(files@));
    }
    LaunchPlan { program, args, env_pairs }
}

} // verus!
