use vstd::prelude::*;
use crate::model::{DotFile, DotFileType, DotFileView};

verus! {

/// The value of one entry of the files section, as the configuration reader
/// hands it over.
pub enum EntryNode {
    /// A plain string: the source, in link mode.
    Source(String),
    /// A mapping: its pairs in order, each side `None` where it is not a string.
    Settings(Vec<(Option<String>, Option<String>)>),
    /// Any other value.
    Other,
}

/// The lowercase form of `s`, as std defines it.
pub uninterp spec fn lower_of(s: Seq<char>) -> Seq<char>;

/// Relies on str::to_lowercase: the result depends on the characters of `s` alone.
#[verifier::external_body]
fn lowercase(s: &str) -> (r: String)
    ensures
        r@ == lower_of(s@),
{
    s.to_lowercase()
}

/// The mode named by `s`, in any case; an unknown name means link mode.
pub open spec fn type_named(s: Seq<char>) -> DotFileType {
    if lower_of(s) == "copy"@ {
        DotFileType::COPY
    } else {
        DotFileType::LINK
    }
}

/// Whether `s` reads `text`.
pub open spec fn is_text(s: Option<String>, text: Seq<char>) -> bool {
    s matches Some(k) && k@ == text
}

/// The source that the settings `s` give: the last `src`, else a placeholder.
pub open spec fn settings_source(s: Seq<(Option<String>, Option<String>)>) -> Seq<char>
    decreases s.len(),
{
    if s.len() == 0 {
        "<todo>"@
    } else if is_text(s.last().0, "src"@) && s.last().1 is Some {
        s.last().1->0@
    } else {
        settings_source(s.drop_last())
    }
}

/// The mode that the settings `s` give: that of the last `type`, else link mode.
pub open spec fn settings_type(s: Seq<(Option<String>, Option<String>)>) -> DotFileType
    decreases s.len(),
{
    if s.len() == 0 {
        DotFileType::LINK
    } else if is_text(s.last().0, "type"@) && s.last().1 is Some {
        type_named(s.last().1->0@)
    } else {
        settings_type(s.drop_last())
    }
}

/// The declarations that the files section `entries` holds, in order: a
/// string key with a string value, or with a mapping of settings.
pub open spec fn parsed(entries: Seq<(Option<String>, EntryNode)>) -> Seq<DotFileView>
    decreases entries.len(),
{
    if entries.len() == 0 {
        Seq::empty()
    } else {
        let prev = parsed(entries.drop_last());
        match entries.last() {
            (Some(t), EntryNode::Source(s)) => prev.push(
                DotFileView { source: s@, target: t@, dot_file_type: DotFileType::LINK },
            ),
            (Some(t), EntryNode::Settings(st)) => prev.push(
                DotFileView { source: settings_source(st@), target: t@, dot_file_type: settings_type(st@) },
            ),
            _ => prev,
        }
    }
}

fn text_is(s: &Option<String>, text: &str) -> (r: bool)
    ensures
        r == is_text(*s, text@),
{
    match s {
        Some(k) => *k == String::from_str(text),
        None => false,
    }
}

/// The mode that the lowercase name `lower` names: `copy`, else link mode.
pub fn type_from_lowercase(lower: &str) -> (r: DotFileType)
    ensures
        r == (if lower@ == "copy"@ { DotFileType::COPY } else { DotFileType::LINK }),
{
    if String::from_str(lower) == String::from_str("copy") {
        DotFileType::COPY
    } else {
        DotFileType::LINK
    }
}

/// The mode that `s` names, in any case: `copy` or `link`; anything else
/// falls back to link mode.
pub fn dot_file_type_from_string(s: &str) -> (r: DotFileType)
    ensures
        r == type_named(s@),
{
    let lower = lowercase(s);
    type_from_lowercase(lower.as_str())
}

/// Whether `s` names a mode, in any case; a name that is not known falls
/// back to link mode, and callers warn of it.
pub fn is_known_type_name(s: &str) -> (r: bool)
    ensures
        r == (lower_of(s@) == "copy"@ || lower_of(s@) == "link"@),
{
    let lower = lowercase(s);
    lower == String::from_str("copy") || lower == String::from_str("link")
}

/// The declaration for `target` that a mapping of settings gives.
pub fn dot_file_from_settings(target: &str, settings: &Vec<(Option<String>, Option<String>)>) -> (r: DotFile)
    ensures
        r@ == (DotFileView {
            source: settings_source(settings@),
            target: target@,
            dot_file_type: settings_type(settings@),
        }),
{
    let mut source = String::from_str("<todo>");
    let mut dot_file_type = DotFileType::LINK;
    let mut i: usize = 0;
    while i < settings.len()
        invariant
            i <= settings@.len(),
            source@ == settings_source(settings@.take(i as int)),
            dot_file_type == settings_type(settings@.take(i as int)),
        decreases settings@.len() - i,
    {
        assert(settings@.take(i + 1).drop_last() =~= settings@.take(i as int));
        let (key, value) = &settings[i];
        if let Some(v) = value {
            if text_is(key, "src") {
                source = v.clone();
            } else if text_is(key, "type") {
                dot_file_type = dot_file_type_from_string(v.as_str());
            }
        }
        proof {
            reveal_strlit("src");
            reveal_strlit("type");
            assert("src"@ != "type"@) by {
                assert("src"@.len() != "type"@.len());
            }
        }
        i = i + 1;
    }
    assert(settings@.take(i as int) =~= settings@);
    DotFile { source, target: String::from_str(target), dot_file_type }
}

/// The declarations of the files section `entries`, in order. Entries whose
/// key is not a string, or whose value is neither a string nor a mapping,
/// are passed over.
pub fn parse_dot_files(entries: &Vec<(Option<String>, EntryNode)>) -> (r: Vec<DotFile>)
    ensures
        r@.map_values(|d: DotFile| d@) == parsed(entries@),
{
    let mut dot_files: Vec<DotFile> = Vec::new();
    let mut i: usize = 0;
    while i < entries.len()
        invariant
            i <= entries@.len(),
            dot_files@.map_values(|d: DotFile| d@) == parsed(entries@.take(i as int)),
        decreases entries@.len() - i,
    {
        assert(entries@.take(i + 1).drop_last() =~= entries@.take(i as int));
        let (key, value) = &entries[i];
        if let Some(target) = key {
            match value {
                EntryNode::Source(source) => {
                    dot_files.push(
                        DotFile {
                            source: source.clone(),
                            target: target.clone(),
                            dot_file_type: DotFileType::LINK,
                        },
                    );
                },
                EntryNode::Settings(settings) => {
                    dot_files.push(dot_file_from_settings(target.as_str(), settings));
                },
                EntryNode::Other => {},
            }
        }
        assert(dot_files@.map_values(|d: DotFile| d@) =~= parsed(entries@.take(i + 1)));
        i = i + 1;
    }
    assert(entries@.take(i as int) =~= entries@);
    dot_files
}

} // verus!
