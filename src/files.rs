use vstd::prelude::*;
use crate::model::{DotFile, DotFileType};
use crate::checksum::sha256_hex;
use crate::paths::{expand_home, expanded, home_dir};

verus! {

/// What a path holds, links followed, as `exists` and `is_dir` report it.
#[derive(Debug, Clone, Copy, PartialEq, Eq, Structural)]
pub enum PathKind {
    Absent,
    File,
    Directory,
}

/// The result of reconciling one declaration.
#[derive(Debug, Clone, PartialEq)]
pub enum Outcome {
    /// The filesystem already met the declaration; nothing was changed.
    AlreadySatisfied,
    /// The target was created or replaced.
    Applied,
    /// The target differs from the source and `force` was not given.
    ConflictSkipped,
    /// The resolved source path does not exist; nothing was changed.
    SourceMissing,
    /// A filesystem operation failed, for the reason given.
    Failed(String),
}

/// What must go before the target is written.
#[derive(Debug, Clone, Copy, PartialEq, Eq, Structural)]
pub enum Removal {
    /// Nothing is at the target.
    Nothing,
    /// Unlink the single file at the target.
    File,
    /// Remove the directory at the target recursively.
    Tree,
}

/// The next step of reconciling one declaration.
#[derive(Debug, Clone, PartialEq)]
pub enum Next {
    /// Done, with this outcome and no mutation.
    Finish(Outcome),
    /// Fingerprint the source and the target, then call `compare_content`.
    CompareFingerprints,
    /// Canonicalize the source and the target, then call `compare_links`.
    CompareCanonical,
    /// Create the target's parent directories, perform the removal, write the
    /// target (a copy of the source, or a link to its canonical path), then
    /// call `finish_materialize`.
    Materialize(Removal),
}

/// A declaration with the home shorthand expanded in both paths.
#[derive(Debug, Clone, PartialEq)]
pub struct ResolvedDotFile {
    pub source: String,
    pub target: String,
    pub dot_file_type: DotFileType,
}

pub open spec fn removal_spec(target: PathKind) -> Removal {
    match target {
        PathKind::Absent => Removal::Nothing,
        PathKind::File => Removal::File,
        PathKind::Directory => Removal::Tree,
    }
}

/// A target that differs from its source: replaced under `force`, else left alone.
pub open spec fn conflict_spec(force: bool, target: PathKind) -> Next {
    if force {
        Next::Materialize(removal_spec(target))
    } else {
        Next::Finish(Outcome::ConflictSkipped)
    }
}

pub open spec fn copy_step(force: bool, source: PathKind, target: PathKind) -> Next {
    if target == PathKind::Absent {
        Next::Materialize(Removal::Nothing)
    } else if target == PathKind::Directory || source == PathKind::Directory {
        conflict_spec(force, target)
    } else {
        Next::CompareFingerprints
    }
}

pub open spec fn link_step(force: bool, target: PathKind) -> Next {
    if target == PathKind::Absent {
        Next::Materialize(Removal::Nothing)
    } else {
        Next::CompareCanonical
    }
}

/// The first step for a declaration, from the kinds of its resolved paths.
pub open spec fn first_step(mode: DotFileType, force: bool, source: PathKind, target: PathKind) -> Next {
    if source == PathKind::Absent {
        Next::Finish(Outcome::SourceMissing)
    } else {
        match mode {
            DotFileType::COPY => copy_step(force, source, target),
            DotFileType::LINK => link_step(force, target),
        }
    }
}

/// The step after both fingerprints are known.
pub open spec fn content_step(force: bool, target: PathKind, source_digest: Seq<char>, target_digest: Seq<char>) -> Next {
    if source_digest == target_digest {
        Next::Finish(Outcome::AlreadySatisfied)
    } else {
        conflict_spec(force, target)
    }
}

/// Both canonical paths are known and equal.
pub open spec fn linked(source: Option<Seq<char>>, target: Option<Seq<char>>) -> bool {
    source is Some && source == target
}

/// The step after canonicalizing both paths (`None` where that failed).
pub open spec fn link_compare_step(force: bool, target: PathKind, source: Option<Seq<char>>, target_canonical: Option<Seq<char>>) -> Next {
    if linked(source, target_canonical) {
        Next::Finish(Outcome::AlreadySatisfied)
    } else {
        conflict_spec(force, target)
    }
}

pub open spec fn opt_view(o: Option<String>) -> Option<Seq<char>> {
    match o {
        Some(s) => Some(s@),
        None => None,
    }
}

/// What must be removed before writing over `target`.
pub fn removal_for(target: PathKind) -> (r: Removal)
    ensures
        r == removal_spec(target),
{
    match target {
        PathKind::Absent => Removal::Nothing,
        PathKind::File => Removal::File,
        PathKind::Directory => Removal::Tree,
    }
}

fn conflict(force: bool, target: PathKind) -> (r: Next)
    ensures
        r == conflict_spec(force, target),
{
    if force {
        Next::Materialize(removal_for(target))
    } else {
        Next::Finish(Outcome::ConflictSkipped)
    }
}

/// The first step in copy mode, for an existing source.
pub fn process_copy(force: bool, source: PathKind, target: PathKind) -> (r: Next)
    ensures
        r == copy_step(force, source, target),
{
    if target == PathKind::Absent {
        Next::Materialize(Removal::Nothing)
    } else if target == PathKind::Directory || source == PathKind::Directory {
        conflict(force, target)
    } else {
        Next::CompareFingerprints
    }
}

/// The first step in link mode, for an existing source.
pub fn process_link(force: bool, target: PathKind) -> (r: Next)
    ensures
        r == link_step(force, target),
{
    if target == PathKind::Absent {
        Next::Materialize(Removal::Nothing)
    } else {
        Next::CompareCanonical
    }
}

/// The first step of reconciling a declaration whose resolved source and
/// target hold `source` and `target`.
pub fn process_dot_file(mode: DotFileType, force: bool, source: PathKind, target: PathKind) -> (r: Next)
    ensures
        r == first_step(mode, force, source, target),
{
    if source == PathKind::Absent {
        return Next::Finish(Outcome::SourceMissing);
    }
    match mode {
        DotFileType::COPY => process_copy(force, source, target),
        DotFileType::LINK => process_link(force, target),
    }
}

/// The step after fingerprinting the source and the target: the source's and
/// the target's digests, or why reading them failed.
pub fn compare_content(force: bool, target: PathKind, fingerprints: Result<(String, String), String>) -> (r: Next)
    ensures
        match fingerprints {
            Ok((s, t)) => r == content_step(force, target, s@, t@),
            Err(e) => r == Next::Finish(Outcome::Failed(e)),
        },
{
    match fingerprints {
        Ok((s, t)) => {
            if s == t {
                Next::Finish(Outcome::AlreadySatisfied)
            } else {
                conflict(force, target)
            }
        },
        Err(e) => Next::Finish(Outcome::Failed(e)),
    }
}

/// Whether both paths canonicalized, to the same path.
pub fn already_linked(source: &Option<String>, target: &Option<String>) -> (r: bool)
    ensures
        r == linked(opt_view(*source), opt_view(*target)),
{
    match (source, target) {
        (Some(s), Some(t)) => *s == *t,
        _ => false,
    }
}

/// The step after canonicalizing the source and the target (`None` where
/// canonicalization failed).
pub fn compare_links(force: bool, target: PathKind, source_canonical: &Option<String>, target_canonical: &Option<String>) -> (r: Next)
    ensures
        r == link_compare_step(force, target, opt_view(*source_canonical), opt_view(*target_canonical)),
{
    if already_linked(source_canonical, target_canonical) {
        Next::Finish(Outcome::AlreadySatisfied)
    } else {
        conflict(force, target)
    }
}

/// The outcome once the target was written, or why writing it failed.
pub fn finish_materialize(result: Result<(), String>) -> (r: Outcome)
    ensures
        match result {
            Ok(_) => r == Outcome::Applied,
            Err(e) => r == Outcome::Failed(e),
        },
{
    match result {
        Ok(_) => Outcome::Applied,
        Err(e) => Outcome::Failed(e),
    }
}

/// Expands the home shorthand of both paths of `dot_file` with `home`.
pub fn resolve_with_home(dot_file: &DotFile, home: &Option<String>) -> (r: ResolvedDotFile)
    ensures
        r.dot_file_type == dot_file.dot_file_type,
        match opt_view(*home) {
            Some(h) => r.source@ == expanded(dot_file.source@, h) && r.target@ == expanded(dot_file.target@, h),
            None => r.source@ == dot_file.source@ && r.target@ == dot_file.target@,
        },
{
    match home {
        Some(h) => ResolvedDotFile {
            source: expand_home(dot_file.source.as_str(), h.as_str()),
            target: expand_home(dot_file.target.as_str(), h.as_str()),
            dot_file_type: dot_file.dot_file_type,
        },
        None => ResolvedDotFile {
            source: dot_file.source.clone(),
            target: dot_file.target.clone(),
            dot_file_type: dot_file.dot_file_type,
        },
    }
}

/// Expands the home shorthand of both paths of `dot_file` with the current
/// user's home directory. Where none can be determined, both paths stay as
/// they are and `home_found` is false.
pub fn resolve_home(dot_file: &DotFile) -> (r: (ResolvedDotFile, bool))
    ensures
        r.0.dot_file_type == dot_file.dot_file_type,
        !r.1 ==> r.0.source@ == dot_file.source@ && r.0.target@ == dot_file.target@,
        r.1 ==> exists|h: Seq<char>|
            r.0.source@ == expanded(dot_file.source@, h) && r.0.target@ == expanded(dot_file.target@, h),
{
    let home = home_dir();
    let found = home.is_some();
    let resolved = resolve_with_home(dot_file, &home);
    (resolved, found)
}

/// What a path shows to the engine, links followed: its kind, and the
/// content and canonical path that fingerprinting and canonicalization read.
pub ghost enum Node {
    Missing,
    File { content: Seq<u8>, canonical: Seq<char> },
    Directory { canonical: Seq<char> },
}

/// The filesystem as one declaration sees it: its mode, what its resolved
/// source and target show, and the canonical path a file written at the
/// target gets.
pub ghost struct Situation {
    pub mode: DotFileType,
    pub source: Node,
    pub target: Node,
    pub target_location: Seq<char>,
}

pub open spec fn kind(n: Node) -> PathKind {
    match n {
        Node::Missing => PathKind::Absent,
        Node::File { .. } => PathKind::File,
        Node::Directory { .. } => PathKind::Directory,
    }
}

pub open spec fn canonical(n: Node) -> Option<Seq<char>> {
    match n {
        Node::Missing => None,
        Node::File { canonical, .. } => Some(canonical),
        Node::Directory { canonical } => Some(canonical),
    }
}

pub open spec fn fingerprint(n: Node) -> Seq<char> {
    match n {
        Node::File { content, .. } => sha256_hex(content),
        _ => Seq::empty(),
    }
}

/// Where reconciling `s` leads once the engine has looked at everything it asks for.
pub open spec fn observed_step(s: Situation, force: bool) -> Next {
    match first_step(s.mode, force, kind(s.source), kind(s.target)) {
        Next::CompareFingerprints => content_step(force, kind(s.target), fingerprint(s.source), fingerprint(s.target)),
        Next::CompareCanonical => link_compare_step(force, kind(s.target), canonical(s.source), canonical(s.target)),
        n => n,
    }
}

/// `s` once its target was written: a copy of the source's bytes at the
/// target's own location, or a link through which the source shows.
pub open spec fn written(s: Situation) -> Situation {
    match s.mode {
        DotFileType::COPY => Situation {
            target: Node::File { content: s.source->content, canonical: s.target_location },
            ..s
        },
        DotFileType::LINK => Situation { target: s.source, ..s },
    }
}

/// Writing the target can succeed: a link can point at anything that
/// exists, while only a regular file can be copied.
pub open spec fn writable(s: Situation) -> bool {
    s.mode == DotFileType::LINK || s.source is File
}

/// `s` after one reconciliation with `force`: written where the engine
/// decides to write and writing can succeed, else as it was.
pub open spec fn after(s: Situation, force: bool) -> Situation {
    if observed_step(s, force) is Materialize && writable(s) {
        written(s)
    } else {
        s
    }
}

/// The first reconciliation of `s` reports `AlreadySatisfied`, or writes
/// the target where that can succeed.
pub open spec fn settles(s: Situation, force: bool) -> bool {
    observed_step(s, force) == Next::Finish(Outcome::AlreadySatisfied)
        || (observed_step(s, force) is Materialize && writable(s))
}

/// One reconciliation pass over declarations that are independent of one another.
pub open spec fn pass(d: Seq<Situation>, force: bool) -> Seq<Situation> {
    d.map_values(|s: Situation| after(s, force))
}

/// The target exists and differs from the source: in copy mode one of them
/// is a directory or their fingerprints differ; in link mode they do not
/// canonicalize to one path.
pub open spec fn conflicting(s: Situation) -> bool {
    &&& kind(s.target) != PathKind::Absent
    &&& match s.mode {
        DotFileType::COPY => kind(s.target) == PathKind::Directory || kind(s.source) == PathKind::Directory
            || fingerprint(s.source) != fingerprint(s.target),
        DotFileType::LINK => !linked(canonical(s.source), canonical(s.target)),
    }
}

proof fn lemma_settled_declaration_stays(s: Situation)
    requires
        settles(s, false),
    ensures
        observed_step(after(s, false), false) == Next::Finish(Outcome::AlreadySatisfied),
        after(after(s, false), false) == after(s, false),
{
}

proof fn lemma_second_pass_stays(s: Situation)
    ensures
        after(after(s, false), false) == after(s, false),
        observed_step(after(s, false), false) is Finish
            || observed_step(after(s, false), false) == observed_step(s, false),
{
    if settles(s, false) {
        lemma_settled_declaration_stays(s);
    }
}

/// Reconciling without `force` is idempotent: the second pass over any
/// declarations leaves the filesystem exactly as the first pass left it, and
/// reports `AlreadySatisfied` for every declaration that the first pass
/// settled. Every other declaration meets on the second pass what it met on
/// the first: a final outcome, or the same write that cannot succeed.
pub proof fn lemma_reconcile_idempotent(d: Seq<Situation>)
    ensures
        pass(pass(d, false), false) == pass(d, false),
        forall|i: int| 0 <= i < d.len() && settles(d[i], false) ==>
            observed_step(#[trigger] pass(d, false)[i], false) == Next::Finish(Outcome::AlreadySatisfied),
        forall|i: int| 0 <= i < d.len() ==>
            observed_step(#[trigger] pass(d, false)[i], false) is Finish
                || observed_step(pass(d, false)[i], false) == observed_step(d[i], false),
{
    assert forall|i: int| 0 <= i < d.len() implies
        after(#[trigger] pass(d, false)[i], false) == pass(d, false)[i]
        && (settles(d[i], false) ==> observed_step(pass(d, false)[i], false) == Next::Finish(Outcome::AlreadySatisfied))
        && (observed_step(pass(d, false)[i], false) is Finish
            || observed_step(pass(d, false)[i], false) == observed_step(d[i], false)) by {
        lemma_second_pass_stays(d[i]);
        if settles(d[i], false) {
            lemma_settled_declaration_stays(d[i]);
        }
    }
    assert(pass(pass(d, false), false) =~= pass(d, false));
}

/// Without `force`, a target that exists and differs from its source is
/// reported as `ConflictSkipped` and left as it is.
pub proof fn lemma_conflict_without_force_keeps_target(s: Situation)
    requires
        kind(s.source) != PathKind::Absent,
        conflicting(s),
    ensures
        observed_step(s, false) == Next::Finish(Outcome::ConflictSkipped),
        after(s, false) == s,
{
}

/// Without `force`, no step of the engine removes anything: a target is
/// written only where nothing stands.
pub proof fn lemma_no_removal_without_force(
    mode: DotFileType,
    source: PathKind,
    target: PathKind,
    source_digest: Seq<char>,
    target_digest: Seq<char>,
    source_canonical: Option<Seq<char>>,
    target_canonical: Option<Seq<char>>,
)
    ensures
        first_step(mode, false, source, target) matches Next::Materialize(rm) ==> rm == Removal::Nothing,
        content_step(false, target, source_digest, target_digest) is Finish,
        link_compare_step(false, target, source_canonical, target_canonical) is Finish,
{
}

/// A declaration whose source is missing is reported as `SourceMissing`, and
/// its target is left as it is.
pub proof fn lemma_missing_source_untouched(s: Situation, force: bool)
    requires
        s.source is Missing,
    ensures
        observed_step(s, force) == Next::Finish(Outcome::SourceMissing),
        after(s, force) == s,
{
}

} // verus!
