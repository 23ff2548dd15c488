//! Which configuration sources `dstopic` reads, and in what order: `ds` in
//! the user's configuration directory, then `ds` in each directory from the
//! filesystem root down to the working directory, then `DS_CONFIG_*`
//! environment variables.

use vstd::prelude::*;
use crate::config_options::{
    ConfigSource,
    SourceView,
    ancestors,
    join_path,
    optional_file,
    path_ancestors,
    path_joined,
    sources_view,
    strs_view,
};

verus! {

/// The optional `ds` file of each directory, the last directory first.
pub open spec fn ds_files(dirs: Seq<Seq<char>>) -> Seq<SourceView>
    decreases dirs.len(),
{
    if dirs.len() == 0 {
        Seq::empty()
    } else {
        ds_files(dirs.drop_first()) + seq![optional_file(path_joined(dirs[0], "ds"@))]
    }
}

/// The sources for a working directory and a configuration directory.
pub open spec fn dstopic_plan(working_dir: Option<Seq<char>>, config_dir: Option<Seq<char>>) -> Seq<
    SourceView,
> {
    let global = match config_dir {
        Some(d) => seq![optional_file(path_joined(d, "ds"@))],
        None => Seq::empty(),
    };
    let local = match working_dir {
        Some(w) => ds_files(path_ancestors(w)),
        None => Seq::empty(),
    };
    global + local + seq![SourceView::Environment { prefix: "ds_config"@ }]
}

/// The value of an optional string.
pub open spec fn opt_view(o: Option<String>) -> Option<Seq<char>> {
    match o {
        Some(s) => Some(s@),
        None => None,
    }
}

/// The sources that `dstopic` reads for the given directories.
fn new_priv(working_dir: Option<String>, config_dir: Option<String>) -> (r: Vec<ConfigSource>)
    ensures
        sources_view(r@) == dstopic_plan(opt_view(working_dir), opt_view(config_dir)),
{
    let mut out: Vec<ConfigSource> = Vec::new();
    if let Some(d) = &config_dir {
        let f = join_path(d, "ds");
        out.push(ConfigSource::File { name: f, required: false });
    }
    let ghost g = sources_view(out@);
    assert(g =~= match opt_view(config_dir) {
        Some(d) => seq![optional_file(path_joined(d, "ds"@))],
        None => Seq::<SourceView>::empty(),
    });
    if let Some(w) = &working_dir {
        let dirs = ancestors(w);
        let ghost ds = strs_view(dirs@);
        let mut i: usize = dirs.len();
        while i > 0
            invariant
                i <= dirs.len(),
                ds == strs_view(dirs@),
                sources_view(out@) == g + ds_files(ds.subrange(i as int, ds.len() as int)),
            decreases i,
        {
            i = i - 1;
            let a = join_path(&dirs[i], "ds");
            let ghost before = out@;
            out.push(ConfigSource::File { name: a, required: false });
            proof {
                let tail = ds.subrange(i as int, ds.len() as int);
                assert(tail.drop_first() =~= ds.subrange(i + 1, ds.len() as int));
                assert(tail[0] == dirs@[i as int]@);
                assert(sources_view(out@) =~= sources_view(before) + seq![
                    optional_file(path_joined(tail[0], "ds"@)),
                ]);
            }
        }
        assert(ds.subrange(0, ds.len() as int) =~= ds);
    } else {
        assert(g =~= g + Seq::<SourceView>::empty());
    }
    let ghost gl = sources_view(out@);
    out.push(ConfigSource::Environment { prefix: "ds_config".to_owned() });
    assert(sources_view(out@) =~= gl + seq![SourceView::Environment { prefix: "ds_config"@ }]);
    out
}

/// The sources for a given working directory.
pub fn new_at(working_dir: String, user_config_dir: Option<String>) -> (r: Vec<ConfigSource>)
    ensures
        sources_view(r@) == dstopic_plan(Some(working_dir@), opt_view(user_config_dir)),
{
    new_priv(Some(working_dir), user_config_dir)
}

/// The sources for the current directory (where it is known).
pub fn new(current_dir: Option<String>, user_config_dir: Option<String>) -> (r: Vec<ConfigSource>)
    ensures
        sources_view(r@) == dstopic_plan(opt_view(current_dir), opt_view(user_config_dir)),
{
    new_priv(current_dir, user_config_dir)
}

} // verus!
