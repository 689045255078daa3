use crate::discovery::{plan_entry, plan_fits, EntryKind, EntryPlan};
use crate::words::{lines_of, parse_word_list, word_views};
use vstd::prelude::*;

verus! {

/// An entry of a directory, as the file system reports it.
#[derive(Debug, PartialEq, Eq)]
pub struct DirEntryInfo {
    pub kind: EntryKind,
    pub file_name: String,
}

/// Why a run cannot start.
#[derive(Debug, Clone, Copy, PartialEq, Eq, Structural)]
pub enum RunError {
    /// There is no fonts root directory.
    MissingFontsDirectory,
    /// The word list cannot be read.
    UnreadableWordList,
}

/// The work of a whole run.
#[derive(Debug, PartialEq, Eq)]
pub struct RunPlan {
    /// The words, in the order of the list.
    pub words: Vec<String>,
    /// What to do with each entry of the fonts root, in the order of the listing.
    pub entries: Vec<EntryPlan>,
}

/// The plan holds the lines of the word list and one decision for each
/// entry of the fonts root.
pub open spec fn is_plan_of(plan: RunPlan, entries: Seq<DirEntryInfo>, text: Seq<char>) -> bool {
    &&& word_views(plan.words@) == lines_of(text)
    &&& plan.entries@.len() == entries.len()
    &&& forall|i: int|
        0 <= i < entries.len() ==> plan_fits(
            entries[i].kind,
            entries[i].file_name@,
            #[trigger] plan.entries@[i],
        )
}

impl RunError {
    /// The message shown for the error.
    pub fn message(&self) -> (text: String)
        ensures
            *self == RunError::MissingFontsDirectory ==> text@ == "Font directory does not exist"@,
            *self == RunError::UnreadableWordList ==> text@ == "Failed to read words file"@,
    {
        match self {
            RunError::MissingFontsDirectory => "Font directory does not exist".to_owned(),
            RunError::UnreadableWordList => "Failed to read words file".to_owned(),
        }
    }
}

/// Plans a run from the listing of the fonts root (`None` where the
/// directory is missing) and the contents of the word list (`None` where it
/// cannot be read). Either lack is fatal, the missing directory first.
#[allow(non_snake_case)]
pub fn ImgFont(fonts_root: Option<&Vec<DirEntryInfo>>, words_text: Option<&str>) -> (run: Result<
    RunPlan,
    RunError,
>)
    ensures
        fonts_root is None ==> run == Err::<RunPlan, RunError>(RunError::MissingFontsDirectory),
        fonts_root is Some && words_text is None ==> run == Err::<RunPlan, RunError>(
            RunError::UnreadableWordList,
        ),
        fonts_root is Some && words_text is Some ==> run is Ok && is_plan_of(
            run->Ok_0,
            fonts_root->0@,
            words_text->0@,
        ),
{
    let listing = match fonts_root {
        Some(listing) => listing,
        None => {
            return Err(RunError::MissingFontsDirectory);
        },
    };
    let text = match words_text {
        Some(text) => text,
        None => {
            return Err(RunError::UnreadableWordList);
        },
    };
    let words = parse_word_list(text);
    let mut entries: Vec<EntryPlan> = Vec::new();
    let mut i: usize = 0;
    while i < listing.len()
        invariant
            i <= listing@.len(),
            entries@.len() == i,
            forall|k: int|
                0 <= k < i ==> plan_fits(
                    listing@[k].kind,
                    listing@[k].file_name@,
                    #[trigger] entries@[k],
                ),
        decreases listing@.len() - i,
    {
        entries.push(plan_entry(listing[i].kind, listing[i].file_name.as_str()));
        i = i + 1;
    }
    Ok(RunPlan { words, entries })
}

} // verus!
