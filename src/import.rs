use vstd::prelude::*;
use crate::errors::DotcopterError;
use crate::files::opt_view;
use crate::model::{DotFile, DotFileType, DotFileView};
use crate::mutate::{declared, distinct_targets, lemma_merge_into_empty, merged, FileEntryView};
use crate::paths::{
    expanded, home_dir, home_pattern_compiles, is_home_shorthand, link_points_into_dir,
    link_target_to_relative_path, relative_to, replace_path_with_tilde, tilde_for_home,
};

verus! {

/// A symbolic link found among the direct entries of the directory under
/// import: the link's own absolute path, and the canonical path it resolves
/// to (`None` where it is broken).
pub struct LinkEntry {
    pub path: String,
    pub canonical: Option<String>,
}

/// What importing one link gives.
#[derive(Debug)]
pub enum LinkVerdict {
    /// The link is owned by the directory: this declaration reproduces it.
    Found(DotFile),
    /// The link is dangling.
    Broken,
    /// The link resolves outside the directory, or to the directory itself.
    Outside,
    /// The target could not be rewritten.
    Failed(DotcopterError),
}

/// The declared target for the link at `path`: a leading home directory
/// becomes `~`.
pub open spec fn imported_target(path: Seq<char>, home: Option<Seq<char>>) -> Seq<char> {
    match home {
        Some(h) => tilde_for_home(path, h),
        None => path,
    }
}

/// What importing `entry` from the canonical directory `root` gives, with
/// the home directory `home` (`None` where it is unknown).
pub open spec fn verdict_for(entry: LinkEntry, root: Seq<char>, home: Option<Seq<char>>, v: LinkVerdict) -> bool {
    match opt_view(entry.canonical) {
        None => v is Broken,
        Some(c) => match relative_to(c, root) {
            None => v is Outside,
            Some(rel) => if rel.len() == 0 {
                v is Outside
            } else {
                match v {
                    LinkVerdict::Found(d) => {
                        &&& home matches Some(h) ==> home_pattern_compiles(h)
                        &&& d@ == DotFileView {
                            source: rel,
                            target: imported_target(entry.path@, home),
                            dot_file_type: DotFileType::LINK,
                        }
                        &&& entry.path@.len() > 0 ==> d.wf()
                    },
                    LinkVerdict::Failed(e) => home matches Some(h) && !home_pattern_compiles(h) && e is Regex,
                    _ => false,
                }
            },
        },
    }
}

/// `r` imports each link of `links`, in order.
pub open spec fn verdicts_for(links: Seq<LinkEntry>, root: Seq<char>, home: Option<Seq<char>>, r: Seq<LinkVerdict>) -> bool {
    &&& r.len() == links.len()
    &&& forall|i: int| 0 <= i < links.len() ==> verdict_for(links[i], root, home, #[trigger] r[i])
}

/// The declarations among `v`, in order.
pub open spec fn found_views(v: Seq<LinkVerdict>) -> Seq<DotFileView>
    decreases v.len(),
{
    if v.len() == 0 {
        Seq::empty()
    } else {
        let prev = found_views(v.drop_last());
        match v.last() {
            LinkVerdict::Found(d) => prev.push(d@),
            _ => prev,
        }
    }
}

/// Imports one link from the canonical directory `root`, with the home
/// directory `home`.
pub fn examine_link(entry: &LinkEntry, root: &str, home: &Option<String>) -> (r: LinkVerdict)
    ensures
        verdict_for(*entry, root@, opt_view(*home), r),
{
    let canonical = match &entry.canonical {
        Some(c) => c,
        None => return LinkVerdict::Broken,
    };
    if !link_points_into_dir(canonical.as_str(), root) {
        return LinkVerdict::Outside;
    }
    let source = match link_target_to_relative_path(canonical.as_str(), root) {
        Ok(s) => s,
        Err(e) => return LinkVerdict::Failed(e),
    };
    if source.as_str().unicode_len() == 0 {
        return LinkVerdict::Outside;
    }
    let target = match home {
        Some(h) => match replace_path_with_tilde(entry.path.as_str(), h.as_str()) {
            Ok(t) => t,
            Err(e) => return LinkVerdict::Failed(e),
        },
        None => entry.path.clone(),
    };
    proof {
        if entry.path@.len() > 0 {
            if let Some(h) = opt_view(*home) {
                if h.is_prefix_of(entry.path@) {
                    assert(target@[0] == '~');
                }
            }
        }
    }
    LinkVerdict::Found(DotFile { source, target, dot_file_type: DotFileType::LINK })
}

/// Imports each link of `links`, in order, from the canonical directory
/// `root`, with the home directory `home`.
pub fn get_dot_files_with_home(links: &Vec<LinkEntry>, root: &str, home: &Option<String>) -> (r: Vec<LinkVerdict>)
    ensures
        verdicts_for(links@, root@, opt_view(*home), r@),
{
    let mut verdicts: Vec<LinkVerdict> = Vec::new();
    let mut i: usize = 0;
    while i < links.len()
        invariant
            i <= links@.len(),
            verdicts@.len() == i,
            forall|j: int| 0 <= j < i ==> verdict_for(links@[j], root@, opt_view(*home), #[trigger] verdicts@[j]),
        decreases links@.len() - i,
    {
        let v = examine_link(&links[i], root, home);
        verdicts.push(v);
        i = i + 1;
    }
    verdicts
}

/// Imports each link of `links`, in order, from the canonical directory
/// `root`, with the current user's home directory where it can be found.
pub fn get_dot_files(links: &Vec<LinkEntry>, root: &str) -> (r: Vec<LinkVerdict>)
    ensures
        exists|home: Option<Seq<char>>| #[trigger] verdicts_for(links@, root@, home, r@),
{
    let home = home_dir();
    get_dot_files_with_home(links, root, &home)
}

/// The declarations that `verdicts` found, in order.
pub fn dot_files_found(verdicts: &Vec<LinkVerdict>) -> (r: Vec<DotFile>)
    ensures
        r@.map_values(|d: DotFile| d@) == found_views(verdicts@),
{
    let mut found: Vec<DotFile> = Vec::new();
    let mut i: usize = 0;
    while i < verdicts.len()
        invariant
            i <= verdicts@.len(),
            found@.map_values(|d: DotFile| d@) == found_views(verdicts@.take(i as int)),
        decreases verdicts@.len() - i,
    {
        assert(verdicts@.take(i + 1).drop_last() =~= verdicts@.take(i as int));
        if let LinkVerdict::Found(d) = &verdicts[i] {
            found.push(
                DotFile {
                    source: d.source.clone(),
                    target: d.target.clone(),
                    dot_file_type: d.dot_file_type,
                },
            );
        }
        assert(found@.map_values(|d: DotFile| d@) =~= found_views(verdicts@.take(i + 1)));
        i = i + 1;
    }
    assert(verdicts@.take(i as int) =~= verdicts@);
    found
}

/// The entry `name` of the directory `dir`.
pub open spec fn joined(dir: Seq<char>, name: Seq<char>) -> Seq<char> {
    if dir.len() > 0 && dir.last() == '/' {
        dir + name
    } else {
        dir + seq!['/'] + name
    }
}

/// The link that reconciling the link declaration `d` leaves: placed at the
/// target resolved with `home`, resolving to `d`'s source inside the
/// canonical directory `root`. The target is written with the home shorthand,
/// or lies outside the home directory.
pub open spec fn link_left_by(d: DotFileView, root: Seq<char>, home: Seq<char>, entry: LinkEntry) -> bool {
    &&& d.dot_file_type == DotFileType::LINK
    &&& d.source.len() > 0
    &&& is_home_shorthand(d.target) || !home.is_prefix_of(d.target)
    &&& entry.path@ == expanded(d.target, home)
    &&& opt_view(entry.canonical) == Some(joined(root, d.source))
}

proof fn lemma_link_imports_back(d: DotFileView, root: Seq<char>, home: Seq<char>, entry: LinkEntry, v: LinkVerdict)
    requires
        root.len() > 0,
        home_pattern_compiles(home),
        link_left_by(d, root, home, entry),
        verdict_for(entry, root, Some(home), v),
    ensures
        v matches LinkVerdict::Found(f) && f@ == d,
{
    let c = joined(root, d.source);
    assert(c != root) by {
        assert(c.len() > root.len());
    }
    if root.last() == '/' {
        assert(root.is_prefix_of(c)) by {
            assert(root =~= c.subrange(0, root.len() as int));
        }
        assert(c.skip(root.len() as int) =~= d.source);
    } else {
        assert((root + seq!['/']).is_prefix_of(c)) by {
            assert((root + seq!['/']) =~= c.subrange(0, root.len() + 1int));
        }
        assert(c.skip(root.len() + 1int) =~= d.source);
    }
    if is_home_shorthand(d.target) {
        let p = home + d.target.drop_first();
        assert(home.is_prefix_of(p)) by {
            assert(home =~= p.subrange(0, home.len() as int));
        }
        assert(seq!['~'] + p.skip(home.len() as int) =~= d.target);
    }
}

/// Importing the links that reconciling link declarations `ds` left in the
/// canonical directory `root`, and merging what was found into an empty
/// files section, gives back `ds`: the same targets and sources, each in
/// link mode.
pub proof fn lemma_import_round_trip<T>(
    ds: Seq<DotFileView>,
    links: Seq<LinkEntry>,
    verdicts: Seq<LinkVerdict>,
    root: Seq<char>,
    home: Seq<char>,
)
    requires
        root.len() > 0,
        home_pattern_compiles(home),
        distinct_targets(ds),
        links.len() == ds.len(),
        forall|i: int| 0 <= i < ds.len() ==> link_left_by(#[trigger] ds[i], root, home, links[i]),
        verdicts_for(links, root, Some(home), verdicts),
    ensures
        found_views(verdicts) == ds,
        merged(Seq::<FileEntryView<T>>::empty(), found_views(verdicts)) == ds.map_values(
            |d: DotFileView| declared::<T>(d),
        ),
        forall|i: int| 0 <= i < ds.len() ==> (#[trigger] found_views(verdicts)[i]).dot_file_type == DotFileType::LINK,
    decreases ds.len(),
{
    if ds.len() > 0 {
        let n = ds.len() - 1;
        let ds0 = ds.drop_last();
        let links0 = links.drop_last();
        let verdicts0 = verdicts.drop_last();
        assert(distinct_targets(ds0));
        assert forall|i: int| 0 <= i < ds0.len() implies link_left_by(#[trigger] ds0[i], root, home, links0[i]) by {
            assert(ds0[i] == ds[i] && links0[i] == links[i]);
        }
        assert forall|i: int| 0 <= i < links0.len() implies verdict_for(links0[i], root, Some(home), #[trigger] verdicts0[i]) by {
            assert(links0[i] == links[i] && verdicts0[i] == verdicts[i]);
        }
        lemma_import_round_trip::<T>(ds0, links0, verdicts0, root, home);
        assert(link_left_by(ds[n], root, home, links[n]));
        assert(verdict_for(links[n], root, Some(home), verdicts[n]));
        lemma_link_imports_back(ds[n], root, home, links[n], verdicts[n]);
        assert(found_views(verdicts) =~= ds);
    }
    lemma_merge_into_empty::<T>(ds);
}

} // verus!
