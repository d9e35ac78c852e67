use vstd::prelude::*;
use crate::model::{DotFile, DotFileType, DotFileView};

verus! {

/// The value of one entry of the files section.
#[derive(Debug, PartialEq)]
pub enum FileSetting<T> {
    /// An entry carried over as it was written, in whatever shape.
    Kept(T),
    /// An entry written in the verbose `{src, type}` shape.
    Declared { source: String, dot_file_type: DotFileType },
}

/// One entry of the files section, in order. `key` is the target where the
/// entry's key is a string.
#[derive(Debug, PartialEq)]
pub struct FileEntry<T> {
    pub key: Option<String>,
    pub setting: FileSetting<T>,
}

pub ghost enum SettingView<T> {
    Kept(T),
    Declared { source: Seq<char>, dot_file_type: DotFileType },
}

pub ghost struct FileEntryView<T> {
    pub key: Option<Seq<char>>,
    pub setting: SettingView<T>,
}

impl<T> View for FileEntry<T> {
    type V = FileEntryView<T>;

    open spec fn view(&self) -> FileEntryView<T> {
        FileEntryView {
            key: match self.key {
                Some(k) => Some(k@),
                None => None,
            },
            setting: match self.setting {
                FileSetting::Kept(v) => SettingView::Kept(v),
                FileSetting::Declared { source, dot_file_type } => SettingView::Declared {
                    source: source@,
                    dot_file_type,
                },
            },
        }
    }
}

pub open spec fn entry_views<T>(s: Seq<FileEntry<T>>) -> Seq<FileEntryView<T>> {
    s.map_values(|e: FileEntry<T>| e@)
}

pub open spec fn dot_file_views(s: Seq<DotFile>) -> Seq<DotFileView> {
    s.map_values(|d: DotFile| d@)
}

/// The verbose entry that a declaration is written as.
pub open spec fn declared<T>(d: DotFileView) -> FileEntryView<T> {
    FileEntryView {
        key: Some(d.target),
        setting: SettingView::Declared { source: d.source, dot_file_type: d.dot_file_type },
    }
}

pub open spec fn has_key<T>(s: Seq<FileEntryView<T>>, key: Seq<char>) -> bool {
    exists|i: int| 0 <= i < s.len() && (#[trigger] s[i]).key == Some(key)
}

/// `d` written into `s`: in place of every entry with its target as key, or
/// at the end where there is none.
pub open spec fn upsert<T>(s: Seq<FileEntryView<T>>, d: DotFileView) -> Seq<FileEntryView<T>> {
    if has_key(s, d.target) {
        s.map_values(|e: FileEntryView<T>| if e.key == Some(d.target) { declared(d) } else { e })
    } else {
        s.push(declared(d))
    }
}

/// The additions `ds` written into `s` one after another, in order.
pub open spec fn merged<T>(s: Seq<FileEntryView<T>>, ds: Seq<DotFileView>) -> Seq<FileEntryView<T>>
    decreases ds.len(),
{
    if ds.len() == 0 {
        s
    } else {
        upsert(merged(s, ds.drop_last()), ds.last())
    }
}

fn declared_entry<T>(d: &DotFile) -> (r: FileEntry<T>)
    ensures
        r@ == declared::<T>(d@),
{
    FileEntry {
        key: Some(d.target.clone()),
        setting: FileSetting::Declared { source: d.source.clone(), dot_file_type: d.dot_file_type },
    }
}

fn upsert_dot_file<T>(files: &mut Vec<FileEntry<T>>, d: &DotFile)
    ensures
        entry_views(final(files)@) == upsert(entry_views(old(files)@), d@),
{
    let ghost orig = entry_views(files@);
    let n = files.len();
    let mut found = false;
    let mut i: usize = 0;
    while i < n
        invariant
            n == files@.len(),
            orig.len() == n,
            orig == entry_views(old(files)@),
            i <= n,
            forall|j: int| 0 <= j < i ==> (#[trigger] files@[j])@ == (if orig[j].key == Some(d@.target) { declared::<T>(d@) } else { orig[j] }),
            forall|j: int| i <= j < n ==> (#[trigger] files@[j])@ == orig[j],
            found <==> exists|j: int| 0 <= j < i && (#[trigger] orig[j]).key == Some(d@.target),
        decreases n - i,
    {
        let is_match = match &files[i].key {
            Some(k) => *k == d.target,
            None => false,
        };
        proof {
            assert(files@[i as int]@ == orig[i as int]);
        }
        if is_match {
            files[i] = declared_entry(d);
            found = true;
        }
        proof {
            if !is_match {
                assert(orig[i as int].key != Some(d@.target));
            }
            assert(found <==> exists|j: int| 0 <= j < i + 1 && (#[trigger] orig[j]).key == Some(d@.target));
        }
        i = i + 1;
    }
    if found {
        assert(has_key(orig, d@.target));
        assert(entry_views(files@) =~= upsert(orig, d@));
    } else {
        assert(!has_key(orig, d@.target));
        files.push(declared_entry(d));
        assert(entry_views(files@) =~= upsert(orig, d@));
    }
}

/// Merges `dotfiles` into the files section `files`: each, in order, replaces
/// the entry with its target as key in place, or is appended where there is
/// none. Every other entry stays as it was, where it was.
pub fn add_dotfiles_to_files<T>(files: Vec<FileEntry<T>>, dotfiles: &Vec<DotFile>) -> (r: Vec<FileEntry<T>>)
    ensures
        entry_views(r@) == merged(entry_views(files@), dot_file_views(dotfiles@)),
{
    let ghost orig = entry_views(files@);
    let ghost ds = dot_file_views(dotfiles@);
    let mut result = files;
    let mut k: usize = 0;
    while k < dotfiles.len()
        invariant
            k <= dotfiles@.len(),
            ds == dot_file_views(dotfiles@),
            entry_views(result@) == merged(orig, ds.take(k as int)),
        decreases dotfiles@.len() - k,
    {
        upsert_dot_file(&mut result, &dotfiles[k]);
        assert(ds.take(k + 1).drop_last() =~= ds.take(k as int));
        k = k + 1;
    }
    assert(ds.take(k as int) =~= ds);
    result
}

/// Merging never shortens the files section.
pub proof fn lemma_merge_keeps_length<T>(s: Seq<FileEntryView<T>>, ds: Seq<DotFileView>)
    ensures
        merged(s, ds).len() >= s.len(),
    decreases ds.len(),
{
    if ds.len() > 0 {
        lemma_merge_keeps_length(s, ds.drop_last());
    }
}

/// Merging additions `ds` into `s` leaves every entry of `s` whose key is no
/// addition's target exactly as it was, at the same position.
pub proof fn lemma_merge_preserves_unrelated<T>(s: Seq<FileEntryView<T>>, ds: Seq<DotFileView>, i: int)
    requires
        0 <= i < s.len(),
        forall|k: int| 0 <= k < ds.len() ==> s[i].key != Some(#[trigger] ds[k].target),
    ensures
        i < merged(s, ds).len(),
        merged(s, ds)[i] == s[i],
    decreases ds.len(),
{
    lemma_merge_keeps_length(s, ds);
    if ds.len() > 0 {
        let prev = ds.drop_last();
        assert forall|k: int| 0 <= k < prev.len() implies s[i].key != Some(#[trigger] prev[k].target) by {
            assert(prev[k] == ds[k]);
        }
        lemma_merge_preserves_unrelated(s, prev, i);
        assert(s[i].key != Some(ds[ds.len() - 1].target));
    }
}

/// No two declarations share a target.
pub open spec fn distinct_targets(ds: Seq<DotFileView>) -> bool {
    forall|a: int, b: int| 0 <= a < ds.len() && 0 <= b < ds.len() && a != b ==> ds[a].target != ds[b].target
}

/// Merging declarations with distinct targets into an empty files section
/// writes each of them, in order, in the verbose shape.
pub proof fn lemma_merge_into_empty<T>(ds: Seq<DotFileView>)
    requires
        distinct_targets(ds),
    ensures
        merged(Seq::<FileEntryView<T>>::empty(), ds) == ds.map_values(|d: DotFileView| declared::<T>(d)),
    decreases ds.len(),
{
    if ds.len() > 0 {
        let prev = ds.drop_last();
        assert(distinct_targets(prev));
        lemma_merge_into_empty::<T>(prev);
        let m = prev.map_values(|d: DotFileView| declared::<T>(d));
        assert(!has_key(m, ds.last().target)) by {
            if has_key(m, ds.last().target) {
                let j = choose|j: int| 0 <= j < m.len() && (#[trigger] m[j]).key == Some(ds.last().target);
                assert(prev[j] == ds[j]);
                assert(ds[j].target == ds[ds.len() - 1].target);
            }
        }
        assert(m.push(declared::<T>(ds.last())) =~= ds.map_values(|d: DotFileView| declared::<T>(d)));
    }
}

} // verus!
