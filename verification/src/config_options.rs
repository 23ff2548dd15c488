//! Which configuration sources `ds` reads, and in what order: the global
//! file, then `dsrc` and `.dsrc` in each directory from the filesystem
//! root down to the working directory, then `DS_CONFIG_*` environment
//! variables. Later sources override earlier ones.

use vstd::prelude::*;

verus! {

/// A path joined with one more component, as `Path::join` makes it and
/// `Path::display` writes it.
pub uninterp spec fn path_joined(base: Seq<char>, part: Seq<char>) -> Seq<char>;

/// The ancestors of a path, itself first and the root last, as
/// `Path::ancestors` yields them and `Path::display` writes them.
pub uninterp spec fn path_ancestors(p: Seq<char>) -> Seq<Seq<char>>;

/// Calls `std::path::Path::join` and writes the result with `display`.
/// Claims that the result is what `path_joined` names.
#[verifier::external_body]
pub(crate) fn join_path(base: &str, part: &str) -> (r: String)
    ensures
        r@ == path_joined(base@, part@),
{
    std::path::Path::new(base).join(part).display().to_string()
}

/// The values of a list of strings.
pub open spec fn strs_view(v: Seq<String>) -> Seq<Seq<char>> {
    v.map_values(|s: String| s@)
}

/// Calls `std::path::Path::ancestors` and writes each with `display`.
/// Claims that the result is what `path_ancestors` names.
#[verifier::external_body]
pub(crate) fn ancestors(p: &str) -> (r: Vec<String>)
    ensures
        strs_view(r@) == path_ancestors(p@),
{
    let mut r = Vec::new();
    for a in std::path::Path::new(p).ancestors() {
        r.push(a.display().to_string());
    }
    r
}

/// The value of a configuration source.
pub enum SourceView {
    File { name: Seq<char>, required: bool },
    Environment { prefix: Seq<char> },
}

/// One source of configuration values.
#[derive(Debug, Clone, PartialEq, Eq)]
pub enum ConfigSource {
    /// A file, named without its extension; an optional one may be absent.
    File { name: String, required: bool },
    /// The environment variables whose names start with the prefix.
    Environment { prefix: String },
}

impl View for ConfigSource {
    type V = SourceView;

    open spec fn view(&self) -> SourceView {
        match self {
            ConfigSource::File { name, required } => SourceView::File {
                name: name@,
                required: *required,
            },
            ConfigSource::Environment { prefix } => SourceView::Environment { prefix: prefix@ },
        }
    }
}

/// The values of a list of sources.
pub open spec fn sources_view(v: Seq<ConfigSource>) -> Seq<SourceView> {
    v.map_values(|s: ConfigSource| s@)
}

/// An optional file named `name`.
pub open spec fn optional_file(name: Seq<char>) -> SourceView {
    SourceView::File { name, required: false }
}

/// The optional `dsrc` and `.dsrc` files of each directory, the last
/// directory first.
pub open spec fn rc_files(dirs: Seq<Seq<char>>) -> Seq<SourceView>
    decreases dirs.len(),
{
    if dirs.len() == 0 {
        Seq::empty()
    } else {
        rc_files(dirs.drop_first()) + seq![
            optional_file(path_joined(dirs[0], "dsrc"@)),
            optional_file(path_joined(dirs[0], ".dsrc"@)),
        ]
    }
}

/// The value of the options.
pub struct ConfigOptionsView {
    pub global: bool,
    pub local: bool,
    pub env: bool,
    pub local_config_dir: Option<Seq<char>>,
    pub global_config_file: Option<Seq<char>>,
}

/// Which configuration sources to read.
#[derive(Debug, Clone, PartialEq, Eq)]
pub struct ConfigOptions {
    global: bool,
    local: bool,
    env: bool,
    local_config_dir: Option<String>,
    global_config_file: Option<String>,
}

/// The value of an optional string.
pub open spec fn opt_view(o: Option<String>) -> Option<Seq<char>> {
    match o {
        Some(s) => Some(s@),
        None => None,
    }
}

impl View for ConfigOptions {
    type V = ConfigOptionsView;

    closed spec fn view(&self) -> ConfigOptionsView {
        ConfigOptionsView {
            global: self.global,
            local: self.local,
            env: self.env,
            local_config_dir: opt_view(self.local_config_dir),
            global_config_file: opt_view(self.global_config_file),
        }
    }
}

/// The sources that options read, in order.
pub open spec fn plan_of(o: ConfigOptionsView) -> Seq<SourceView> {
    let global = match o.global_config_file {
        Some(f) if o.global => seq![optional_file(f)],
        _ => Seq::empty(),
    };
    let local = match o.local_config_dir {
        Some(d) if o.local => rc_files(path_ancestors(d)),
        _ => Seq::empty(),
    };
    let env = if o.env {
        seq![SourceView::Environment { prefix: "ds_config"@ }]
    } else {
        Seq::empty()
    };
    global + local + env
}

/// The `dsrc` and `.dsrc` files of each directory, from the last to the
/// first, appended to `out`.
pub(crate) fn push_rc_files(
    out: &mut Vec<ConfigSource>,
    dirs: &Vec<String>,
    first: &str,
    second: &str,
)
    requires
        first@ == "dsrc"@,
        second@ == ".dsrc"@,
    ensures
        sources_view(final(out)@) == sources_view(old(out)@) + rc_files(strs_view(dirs@)),
{
    let ghost start = sources_view(out@);
    let ghost ds = strs_view(dirs@);
    let mut i: usize = dirs.len();
    while i > 0
        invariant
            i <= dirs.len(),
            ds == strs_view(dirs@),
            first@ == "dsrc"@,
            second@ == ".dsrc"@,
            sources_view(out@) == start + rc_files(ds.subrange(i as int, ds.len() as int)),
        decreases i,
    {
        i = i - 1;
        let a = join_path(&dirs[i], first);
        let b = join_path(&dirs[i], second);
        let ghost before = out@;
        out.push(ConfigSource::File { name: a, required: false });
        out.push(ConfigSource::File { name: b, required: false });
        proof {
            let tail = ds.subrange(i as int, ds.len() as int);
            assert(tail.drop_first() =~= ds.subrange(i + 1, ds.len() as int));
            assert(tail[0] == dirs@[i as int]@);
            assert(sources_view(out@) =~= sources_view(before) + seq![
                optional_file(path_joined(tail[0], "dsrc"@)),
                optional_file(path_joined(tail[0], ".dsrc"@)),
            ]);
        }
    }
    assert(ds.subrange(0, ds.len() as int) =~= ds);
}

impl ConfigOptions {
    /// All sources on: the working directory (if known) for local files,
    /// and `dsrc.toml` in the user's configuration directory (if known) as
    /// the global file.
    pub fn new(current_dir: Option<String>, user_config_dir: Option<String>) -> (r: Self)
        ensures
            r@.global && r@.local && r@.env,
            r@.local_config_dir == opt_view(current_dir),
            r@.global_config_file == match user_config_dir {
                Some(d) => Some(path_joined(d@, "dsrc.toml"@)),
                None => None,
            },
    {
        let global_config_file = match user_config_dir {
            Some(d) => Some(join_path(&d, "dsrc.toml")),
            None => None,
        };
        ConfigOptions {
            global: true,
            local: true,
            env: true,
            local_config_dir: current_dir,
            global_config_file,
        }
    }

    /// The same options with local files on or off.
    pub fn local(self, local: bool) -> (r: Self)
        ensures
            r@ == (ConfigOptionsView { local, ..self@ }),
    {
        ConfigOptions { local, ..self }
    }

    /// The same options with the global file on or off.
    pub fn global(self, global: bool) -> (r: Self)
        ensures
            r@ == (ConfigOptionsView { global, ..self@ }),
    {
        ConfigOptions { global, ..self }
    }

    /// The same options with environment variables on or off.
    pub fn env(self, env: bool) -> (r: Self)
        ensures
            r@ == (ConfigOptionsView { env, ..self@ }),
    {
        ConfigOptions { env, ..self }
    }

    /// The same options with another directory to start the local search.
    pub fn local_config_dir(self, dir: Option<String>) -> (r: Self)
        ensures
            r@ == (ConfigOptionsView { local_config_dir: opt_view(dir), ..self@ }),
    {
        ConfigOptions { local_config_dir: dir, ..self }
    }

    /// The same options with another global file.
    pub fn global_config_file(self, file: Option<String>) -> (r: Self)
        ensures
            r@ == (ConfigOptionsView { global_config_file: opt_view(file), ..self@ }),
    {
        ConfigOptions { global_config_file: file, ..self }
    }

    /// The sources to merge, in order: the global file, the `dsrc` and
    /// `.dsrc` files of each ancestor of the local directory from the root
    /// down, and the `DS_CONFIG_*` environment variables; each only where
    /// it is on.
    pub fn load_plan(&self) -> (r: Vec<ConfigSource>)
        ensures
            sources_view(r@) == plan_of(self@),
    {
        let mut out: Vec<ConfigSource> = Vec::new();
        if self.global {
            if let Some(f) = &self.global_config_file {
                out.push(ConfigSource::File { name: f.clone(), required: false });
            }
        }
        let ghost g = sources_view(out@);
        assert(g == match self@.global_config_file {
            Some(f) if self@.global => seq![optional_file(f)],
            _ => Seq::<SourceView>::empty(),
        });
        if self.local {
            if let Some(d) = &self.local_config_dir {
                let dirs = ancestors(d);
                push_rc_files(&mut out, &dirs, "dsrc", ".dsrc");
            }
        }
        let ghost gl = sources_view(out@);
        if self.env {
            out.push(ConfigSource::Environment { prefix: "ds_config".to_owned() });
            assert(sources_view(out@) =~= gl + seq![SourceView::Environment { prefix: "ds_config"@ }]);
        } else {
            assert(gl + Seq::<SourceView>::empty() =~= gl);
        }
        proof {
            if !(self.local && self.local_config_dir is Some) {
                assert(gl =~= g + Seq::<SourceView>::empty());
            }
        }
        out
    }
}

// ---------------------------------------------------------------------
// Laws of the load order.
// ---------------------------------------------------------------------

/// The local files come in pairs, `dsrc` then `.dsrc`, from the last
/// directory (the root) to the first (the working directory), so that a
/// nearer directory's files come later and override farther ones.
pub proof fn lemma_rc_files_order(dirs: Seq<Seq<char>>)
    ensures
        rc_files(dirs).len() == 2 * dirs.len(),
        forall|j: int|
            0 <= j < dirs.len() ==> {
                &&& #[trigger] rc_files(dirs)[2 * j] == optional_file(
                    path_joined(dirs[dirs.len() - 1 - j], "dsrc"@),
                )
                &&& rc_files(dirs)[2 * j + 1] == optional_file(
                    path_joined(dirs[dirs.len() - 1 - j], ".dsrc"@),
                )
            },
    decreases dirs.len(),
{
    if dirs.len() > 0 {
        let tail = dirs.drop_first();
        lemma_rc_files_order(tail);
        assert forall|j: int| 0 <= j < dirs.len() implies {
            &&& #[trigger] rc_files(dirs)[2 * j] == optional_file(
                path_joined(dirs[dirs.len() - 1 - j], "dsrc"@),
            )
            &&& rc_files(dirs)[2 * j + 1] == optional_file(
                path_joined(dirs[dirs.len() - 1 - j], ".dsrc"@),
            )
        } by {
            if j < tail.len() {
                assert(tail[tail.len() - 1 - j] == dirs[dirs.len() - 1 - j]);
                assert(rc_files(tail)[2 * j] == optional_file(
                    path_joined(tail[tail.len() - 1 - j], "dsrc"@),
                ));
            }
        }
    }
}

/// The environment is read last, so it overrides every file; where it is
/// off, no source is the environment.
pub proof fn lemma_env_last(o: ConfigOptionsView)
    ensures
        o.env ==> plan_of(o).last() == (SourceView::Environment { prefix: "ds_config"@ }),
        !o.env ==> forall|k: int|
            0 <= k < plan_of(o).len() ==> (#[trigger] plan_of(o)[k]) is File,
{
    let global = match o.global_config_file {
        Some(f) if o.global => seq![optional_file(f)],
        _ => Seq::empty(),
    };
    let local = match o.local_config_dir {
        Some(d) if o.local => rc_files(path_ancestors(d)),
        _ => Seq::empty(),
    };
    if let Some(d) = o.local_config_dir {
        lemma_rc_files_order(path_ancestors(d));
        assert forall|k: int| 0 <= k < rc_files(path_ancestors(d)).len() implies (#[trigger] rc_files(path_ancestors(d))[k]) is File by {
            let anc = path_ancestors(d);
            let j = k / 2;
            assert(0 <= j < anc.len());
            let f = rc_files(anc)[2 * j];
            if k % 2 == 0 {
                assert(k == 2 * j);
            } else {
                assert(k == 2 * j + 1);
            }
        }
    }
    if !o.env {
        assert(plan_of(o) =~= global + local);
    }
}

/// The global file, where it is read, is the first source, so every other
/// source overrides it; the local files follow it in their own order, and
/// the environment, where it is read, comes after all files.
pub proof fn lemma_global_first(o: ConfigOptionsView)
    ensures
        ({
            let g: int = if o.global && o.global_config_file is Some { 1 } else { 0 };
            let local = match o.local_config_dir {
                Some(d) if o.local => rc_files(path_ancestors(d)),
                _ => Seq::<SourceView>::empty(),
            };
            let e: int = if o.env { 1 } else { 0 };
            &&& plan_of(o).len() == g + local.len() + e
            &&& g == 1 ==> plan_of(o)[0] == optional_file(o.global_config_file.unwrap())
            &&& forall|j: int| 0 <= j < local.len() ==> #[trigger] plan_of(o)[g + j] == local[j]
            &&& o.env ==> plan_of(o)[g + local.len()] == (SourceView::Environment {
                prefix: "ds_config"@,
            })
        }),
{
}

/// With the global file, a local directory and the environment all on,
/// the plan is the global file, then the local files, then the
/// environment.
pub proof fn lemma_full_plan(f: Seq<char>, d: Seq<char>)
    ensures
        plan_of(ConfigOptionsView {
            global: true,
            local: true,
            env: true,
            local_config_dir: Some(d),
            global_config_file: Some(f),
        }) == seq![optional_file(f)] + rc_files(path_ancestors(d)) + seq![
            SourceView::Environment { prefix: "ds_config"@ },
        ],
{
    let o = ConfigOptionsView {
        global: true,
        local: true,
        env: true,
        local_config_dir: Some(d),
        global_config_file: Some(f),
    };
    lemma_global_first(o);
    assert(plan_of(o) =~= seq![optional_file(f)] + rc_files(path_ancestors(d)) + seq![
        SourceView::Environment { prefix: "ds_config"@ },
    ]);
}

/// With every source off, nothing is read.
pub proof fn lemma_all_off(o: ConfigOptionsView)
    requires
        !o.global && !o.local && !o.env,
    ensures
        plan_of(o) == Seq::<SourceView>::empty(),
{
    assert(plan_of(o) =~= Seq::<SourceView>::empty());
}

} // verus!
