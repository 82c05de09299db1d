use vstd::prelude::*;

verus! {

/// What a target asks to exist on disk.
#[derive(Debug, Clone, Copy, PartialEq, Eq, Structural)]
pub enum TargetType {
    Directory,
    File,
}

/// One filesystem artifact to materialize: a directory at `to`, or a file
/// at `to` whose contents come from the URL `from`.
#[derive(Debug, Clone)]
pub struct DownloadTarget {
    pub target_type: TargetType,
    pub to: String,
    pub from: Option<String>,
}

impl DownloadTarget {
    /// A file target carries a source; a directory target needs none.
    pub open spec fn well_formed(&self) -> bool {
        self.target_type == TargetType::File ==> self.from.is_some()
    }

    pub fn directory(to: String) -> (t: DownloadTarget)
        ensures
            t.target_type == TargetType::Directory,
            t.to@ == to@,
            t.from.is_none(),
            t.well_formed(),
    {
        DownloadTarget { target_type: TargetType::Directory, to, from: None }
    }

    pub fn file(to: String, from: String) -> (t: DownloadTarget)
        ensures
            t.target_type == TargetType::File,
            t.to@ == to@,
            t.from.is_some() && t.from.unwrap()@ == from@,
            t.well_formed(),
    {
        DownloadTarget { target_type: TargetType::File, to, from: Some(from) }
    }

    pub fn is_well_formed(&self) -> (r: bool)
        ensures
            r == self.well_formed(),
    {
        match self.target_type {
            TargetType::Directory => true,
            TargetType::File => self.from.is_some(),
        }
    }
}

/// The staging name a file is downloaded under before it is published.
pub open spec fn staging_path_of(to: Seq<char>) -> Seq<char> {
    to + ".downloading"@
}

pub fn staging_path(to: &String) -> (r: String)
    ensures
        r@ == staging_path_of(to@),
{
    let mut s = to.clone();
    s.append(".downloading");
    s
}

/// The staging name is never the published name.
pub proof fn lemma_staging_differs(to: Seq<char>)
    ensures
        staging_path_of(to) != to,
        staging_path_of(to).len() > to.len(),
{
    reveal_strlit(".downloading");
    assert(staging_path_of(to).len() == to.len() + 12);
}

} // verus!
