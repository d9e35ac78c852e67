use vstd::prelude::*;

verus! {

/// How a declared target is materialized.
#[derive(Debug, Clone, Copy, PartialEq, Eq, Structural)]
pub enum DotFileType {
    /// The target becomes a symbolic link to the canonical source path.
    LINK,
    /// The target becomes an independent copy of the source's bytes.
    COPY,
}

impl DotFileType {
    /// The canonical name of the mode, as written into a configuration.
    pub fn name(&self) -> (r: String)
        ensures
            *self == DotFileType::LINK ==> r@ == "LINK"@,
            *self == DotFileType::COPY ==> r@ == "COPY"@,
    {
        match self {
            DotFileType::LINK => String::from_str("LINK"),
            DotFileType::COPY => String::from_str("COPY"),
        }
    }
}

/// One managed path: the location `target` should reflect `source`.
#[derive(Debug, Clone, PartialEq)]
pub struct DotFile {
    pub source: String,
    pub target: String,
    pub dot_file_type: DotFileType,
}

/// A declaration as plain values.
pub ghost struct DotFileView {
    pub source: Seq<char>,
    pub target: Seq<char>,
    pub dot_file_type: DotFileType,
}

impl View for DotFile {
    type V = DotFileView;

    open spec fn view(&self) -> DotFileView {
        DotFileView { source: self.source@, target: self.target@, dot_file_type: self.dot_file_type }
    }
}

impl DotFile {
    /// Neither path of a declaration is empty.
    pub open spec fn wf(&self) -> bool {
        self.source@.len() > 0 && self.target@.len() > 0
    }
}

} // verus!
