//! User configuration: launch configurations, themes, and where their files
//! live.
use vstd::prelude::*;

use crate::text::{chars_of, decimal_digits, decimal_text};
use crate::working_directories::{is_listed, texts};
use vstd::std_specs::cmp::PartialEqSpec;

verus! {

/// Events emitted when user-configurable files change. `TabErr` describes a tab config that
/// failed to parse and `SettingsErr` a settings file that failed to load.
#[derive(Clone, Debug)]
pub enum WarpConfigUpdateEvent<TabErr, SettingsErr> {
    Themes,
    LaunchConfigs,
    TabConfigs,
    /// One or more tab config files failed to parse.
    TabConfigErrors(Vec<TabErr>),
    /// The settings file was created, modified, or deleted.
    Settings,
    /// One or more settings could not be loaded.
    SettingsErrors(SettingsErr),
    /// A reload of the settings that had failed now succeeded.
    SettingsErrorsCleared,
}

/// Whether `L`'s `==` is equality of values and a clone of an `L` is the same value, as for
/// integers.
pub open spec fn exact_eq_and_clone<L: PartialEq + Clone>() -> bool {
    &&& L::obeys_eq_spec()
    &&& forall|a: L, b: L| #[trigger] a.eq_spec(&b) <==> a == b
    &&& forall|a: L, b: L| #[trigger] cloned(a, b) ==> a == b
}

/// The user's launch configurations (`L`) and theme configuration (`T`).
pub struct WarpConfig<L, T> {
    launch_configs: Vec<L>,
    theme_config: T,
}

impl<L, T> WarpConfig<L, T> {
    pub closed spec fn launch_config_list(&self) -> Seq<L> {
        self.launch_configs@
    }

    pub closed spec fn theme(&self) -> T {
        self.theme_config
    }

    /// A configuration with no launch configurations and the given themes.
    pub fn new(theme_config: T) -> (r: Self)
        ensures
            r.launch_config_list().len() == 0,
            r.theme() == theme_config,
    {
        WarpConfig { launch_configs: Vec::new(), theme_config }
    }

    pub fn launch_configs(&self) -> (r: &Vec<L>)
        ensures
            r@ == self.launch_config_list(),
    {
        &self.launch_configs
    }

    pub fn theme_config(&self) -> (r: &T)
        ensures
            *r == self.theme(),
    {
        &self.theme_config
    }

    /// Saves a newly created launch configuration, unless an equal one is
    /// there already; the `LaunchConfigs` event is to be emitted when it was
    /// added. Which configurations are equal is up to `L`'s `==`: where it
    /// follows its specification, one is added exactly when none is equal.
    pub fn append_launch_config<TabErr, SettingsErr>(&mut self, launch_config: &L) -> (r: Option<
        WarpConfigUpdateEvent<TabErr, SettingsErr>,
    >) where L: PartialEq + Clone
        ensures
            L::obeys_eq_spec() ==> (r is Some <==> !(exists|i: int|
                0 <= i < old(self).launch_config_list().len()
                    && #[trigger] old(self).launch_config_list()[i].eq_spec(launch_config))),
            r matches Some(e) ==> {
                &&& e is LaunchConfigs
                &&& final(self).launch_config_list().len() == old(self).launch_config_list().len() + 1
                &&& final(self).launch_config_list().drop_last() == old(self).launch_config_list()
                &&& cloned(*launch_config, final(self).launch_config_list().last())
            },
            r is None ==> final(self).launch_config_list() == old(self).launch_config_list(),
            final(self).theme() == old(self).theme(),
            exact_eq_and_clone::<L>() ==> {
                &&& final(self).launch_config_list() == if old(self).launch_config_list().contains(
                    *launch_config,
                ) {
                    old(self).launch_config_list()
                } else {
                    old(self).launch_config_list().push(*launch_config)
                }
                &&& r is Some <==> !old(self).launch_config_list().contains(*launch_config)
            },
    {
        let mut i: usize = 0;
        while i < self.launch_configs.len()
            invariant
                i <= self.launch_configs@.len(),
                L::obeys_eq_spec() ==> forall|k: int|
                    0 <= k < i ==> !(#[trigger] self.launch_configs@[k]).eq_spec(launch_config),
            decreases self.launch_configs@.len() - i,
        {
            if self.launch_configs[i] == *launch_config {
                proof {
                    if L::obeys_eq_spec() {
                        assert(self.launch_config_list()[i as int].eq_spec(launch_config));
                    }
                }
                return None;
            }
            i += 1;
        }
        self.launch_configs.push(launch_config.clone());
        proof {
            assert(self.launch_configs@.drop_last() =~= old(self).launch_configs@);
            if exact_eq_and_clone::<L>() {
                assert(self.launch_configs@ =~= old(self).launch_configs@.push(*launch_config));
                assert forall|k: int| 0 <= k < old(self).launch_configs@.len() implies old(
                    self,
                ).launch_configs@[k] != *launch_config by {
                    assert(!old(self).launch_configs@[k].eq_spec(launch_config));
                }
            }
        }
        Some(WarpConfigUpdateEvent::LaunchConfigs)
    }

    /// Replaces the theme configuration; the `Themes` event is to be emitted.
    pub fn update_theme_config<TabErr, SettingsErr>(&mut self, theme_config: T) -> (r:
        WarpConfigUpdateEvent<TabErr, SettingsErr>)
        ensures
            final(self).theme() == theme_config,
            final(self).launch_config_list() == old(self).launch_config_list(),
            r is Themes,
    {
        self.theme_config = theme_config;
        WarpConfigUpdateEvent::Themes
    }
}

/// `dir` joined with the relative or absolute path `name`, as `Path::join` does on Unix.
pub open spec fn join_path(dir: Seq<char>, name: Seq<char>) -> Seq<char> {
    if name.len() > 0 && name[0] == '/' {
        name
    } else if dir.len() == 0 {
        name
    } else if dir.last() == '/' {
        dir + name
    } else {
        dir + seq!['/'] + name
    }
}

/// Joining keeps the name at the end: an absolute name replaces the directory, a relative
/// one follows a non-empty directory after exactly one `/` (the directory's own trailing
/// `/`, or one added), and with an empty directory the name stands alone.
pub proof fn law_join_path(dir: Seq<char>, name: Seq<char>)
    ensures
        ({
            let r = join_path(dir, name);
            &&& r.len() >= name.len() && r.skip(r.len() - name.len()) == name
            &&& (name.len() > 0 && name[0] == '/') || dir.len() == 0 ==> r == name
            &&& !(name.len() > 0 && name[0] == '/') && dir.len() > 0 ==> {
                &&& r.take(dir.len() as int) == dir
                &&& r[r.len() - name.len() - 1] == '/'
                &&& r.len() == name.len() + dir.len() + (if dir.last() == '/' {
                    0int
                } else {
                    1int
                })
            }
        }),
{
    let r = join_path(dir, name);
    assert(r.skip(r.len() - name.len()) =~= name);
    if !(name.len() > 0 && name[0] == '/') && dir.len() > 0 {
        assert(r.take(dir.len() as int) =~= dir);
    }
}

fn join_path_exec(dir: &str, name: &str) -> (r: String)
    ensures
        r@ == join_path(dir@, name@),
{
    let d = chars_of(dir);
    let n = chars_of(name);
    if n.len() > 0 && n[0] == '/' {
        return name.to_owned();
    }
    if d.len() == 0 {
        return name.to_owned();
    }
    let mut r = dir.to_owned();
    if d[d.len() - 1] != '/' {
        r.append("/");
        assert(r@ =~= dir@ + seq!['/']) by {
            reveal_strlit("/");
        }
    }
    r.append(name);
    r
}

/// The directory of the user's launch configurations, under the data directory.
pub fn launch_configs_dir(data_dir: &str) -> (r: String)
    ensures
        r@ == join_path(data_dir@, "launch_configurations"@),
{
    join_path_exec(data_dir, "launch_configurations")
}

/// The directory of the user's tab configs, under the data directory.
pub fn tab_configs_dir(data_dir: &str) -> (r: String)
    ensures
        r@ == join_path(data_dir@, "tab_configs"@),
{
    join_path_exec(data_dir, "tab_configs")
}

/// The `n`-th candidate file: `{base}.toml` first, then `{base}_1.toml`, `{base}_2.toml`, ...
pub open spec fn toml_candidate(dir: Seq<char>, base: Seq<char>, n: u32) -> Seq<char> {
    if n == 0 {
        join_path(dir, base + ".toml"@)
    } else {
        join_path(dir, base + "_"@ + decimal_digits(n as nat) + ".toml"@)
    }
}

/// The candidate files are `{base}.toml`, then `{base}_1.toml`, `{base}_2.toml`, ... in
/// the directory: each ends in `.toml`, and the `n`-th (from 1) carries `_` and `n` in
/// decimal before it.
pub proof fn law_toml_candidates(dir: Seq<char>, base: Seq<char>, n: u32)
    ensures
        toml_candidate(dir, base, 0) == join_path(dir, base + ".toml"@),
        n > 0 ==> toml_candidate(dir, base, n) == join_path(
            dir,
            base + "_"@ + decimal_digits(n as nat) + ".toml"@,
        ),
        ({
            let c = toml_candidate(dir, base, n);
            c.len() >= 5 && c.skip(c.len() - 5) == ".toml"@
        }),
{
    reveal_strlit(".toml");
    reveal_strlit("_");
    let name = if n == 0 {
        base + ".toml"@
    } else {
        base + "_"@ + decimal_digits(n as nat) + ".toml"@
    };
    law_join_path(dir, name);
    let c = toml_candidate(dir, base, n);
    assert(name.skip(name.len() - 5) =~= ".toml"@);
    assert(c.skip(c.len() - 5) =~= c.skip(c.len() - name.len()).skip(name.len() - 5));
}

fn toml_candidate_exec(dir: &str, base: &str, n: u32) -> (r: String)
    ensures
        r@ == toml_candidate(dir@, base@, n),
{
    let mut name = base.to_owned();
    if n != 0 {
        name.append("_");
        let digits = decimal_text(n as u64);
        name.append(digits.as_str());
    }
    name.append(".toml");
    join_path_exec(dir, name.as_str())
}

/// A `.toml` path in `dir` that is not among `existing`: `{base_name}.toml`, else the first of
/// `{base_name}_1.toml`, `{base_name}_2.toml`, ... that is free.
pub fn find_unused_toml_path(dir: &str, base_name: &str, existing: &Vec<String>) -> (r: String)
    requires
        exists|n: u32| !texts(existing@).contains(#[trigger] toml_candidate(dir@, base_name@, n)),
    ensures
        exists|n: u32|
            r@ == toml_candidate(dir@, base_name@, n) && !texts(existing@).contains(r@) && forall|
                m: u32,
            |
                m < n ==> texts(existing@).contains(#[trigger] toml_candidate(dir@, base_name@, m)),
{
    let mut n: u32 = 0;
    loop
        invariant
            exists|k: u32| !texts(existing@).contains(#[trigger] toml_candidate(dir@, base_name@, k)),
            forall|m: u32| m < n ==> texts(existing@).contains(#[trigger] toml_candidate(dir@, base_name@, m)),
        decreases u32::MAX - n,
    {
        let candidate = toml_candidate_exec(dir, base_name, n);
        if !is_listed(existing, &candidate) {
            return candidate;
        }
        if n == u32::MAX {
            proof {
                let k = choose|k: u32| !texts(existing@).contains(#[trigger] toml_candidate(dir@, base_name@, k));
                if k < n {
                } else {
                    assert(k == n);
                }
            }
            assert(false);
        }
        n = n + 1;
    }
}

} // verus!
