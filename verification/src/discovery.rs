use vstd::prelude::*;
use vstd::string::StrSliceExecFns;

verus! {

/// What an entry of a directory is.
#[derive(Debug, Clone, Copy, PartialEq, Eq, Structural)]
pub enum EntryKind {
    File,
    Directory,
    Other,
}

/// What is done with an entry found directly under the fonts root.
#[derive(Debug, PartialEq, Eq)]
pub enum EntryPlan {
    /// A font file: load it under the name of its stem.
    LoadFile { font_name: String },
    /// A directory: load each font file directly inside it under the directory's name.
    ScanDirectory { font_name: String },
    /// Anything else is passed over.
    Ignore,
}

/// The extensions of the font files that are picked up.
pub open spec fn supported_extension(ext: Seq<char>) -> bool {
    ext == "ttf"@ || ext == "otf"@ || ext == "woff"@ || ext == "woff2"@
}

/// One past the position of the last dot of a file name, or 0 if it has none.
pub open spec fn dot_end(name: Seq<char>) -> nat
    decreases name.len(),
{
    if name.len() == 0 {
        0
    } else if name.last() == '.' {
        name.len()
    } else {
        dot_end(name.drop_last())
    }
}

/// The part of a file name after its last dot. A name without a dot has no
/// extension, nor has one whose only dot comes first.
pub open spec fn extension_of(name: Seq<char>) -> Option<Seq<char>> {
    if dot_end(name) <= 1 {
        None
    } else {
        Some(name.subrange(dot_end(name) as int, name.len() as int))
    }
}

/// The file name without its extension and the dot before it.
pub open spec fn stem_of(name: Seq<char>) -> Seq<char> {
    if dot_end(name) <= 1 {
        name
    } else {
        name.subrange(0, dot_end(name) - 1)
    }
}

/// The file name ends in one of the supported extensions.
pub open spec fn has_supported_extension(name: Seq<char>) -> bool {
    match extension_of(name) {
        Some(ext) => supported_extension(ext),
        None => false,
    }
}

/// A regular file whose extension is one of the supported ones.
pub open spec fn is_font_file_spec(kind: EntryKind, name: Seq<char>) -> bool {
    kind == EntryKind::File && has_supported_extension(name)
}

/// What is done with an entry at the top of the fonts tree: a font file is
/// loaded under its stem, a directory is scanned under its name, and
/// anything else is passed over.
pub open spec fn plan_fits(kind: EntryKind, name: Seq<char>, plan: EntryPlan) -> bool {
    if is_font_file_spec(kind, name) {
        plan matches EntryPlan::LoadFile { font_name } && font_name@ == stem_of(name)
    } else if kind == EntryKind::Directory {
        plan matches EntryPlan::ScanDirectory { font_name } && font_name@ == name
    } else {
        plan == EntryPlan::Ignore
    }
}

fn same_text(left: &str, right: &str) -> (same: bool)
    ensures
        same == (left@ == right@),
{
    let a = left.to_owned();
    let b = right.to_owned();
    a == b
}

/// Tells whether the extension is on the list of font formats.
pub fn is_supported_extension(ext: &str) -> (supported: bool)
    ensures
        supported == supported_extension(ext@),
{
    same_text(ext, "ttf") || same_text(ext, "otf") || same_text(ext, "woff") || same_text(
        ext,
        "woff2",
    )
}

/// Finds where the extension starts: one past the last dot, 0 without a dot.
fn find_dot_end(name: &str) -> (end: usize)
    ensures
        end == dot_end(name@),
        end <= name@.len(),
{
    let len: usize = name.unicode_len();
    let mut i: usize = len;
    assert(name@.take(len as int) =~= name@);
    while i > 0
        invariant
            i <= len,
            len == name@.len(),
            dot_end(name@) == dot_end(name@.take(i as int)),
        decreases i,
    {
        if name.get_char(i - 1) == '.' {
            assert(name@.take(i as int).last() == '.');
            return i;
        }
        assert(name@.take(i as int).drop_last() =~= name@.take(i - 1));
        i = i - 1;
    }
    assert(name@.take(0).len() == 0);
    0
}

/// Splits a file name into its stem and its extension.
pub fn split_file_name(name: &str) -> (parts: (String, Option<String>))
    ensures
        parts.0@ == stem_of(name@),
        parts.1 is Some <==> extension_of(name@) is Some,
        parts.1 is Some ==> parts.1->0@ == extension_of(name@)->0,
{
    let end: usize = find_dot_end(name);
    if end <= 1 {
        (name.to_owned(), None)
    } else {
        let len: usize = name.unicode_len();
        let stem = name.substring_char(0, end - 1).to_owned();
        let ext = name.substring_char(end, len).to_owned();
        (stem, Some(ext))
    }
}

/// Tells whether an entry is a font file that is to be loaded.
pub fn is_font_file(kind: EntryKind, file_name: &str) -> (font: bool)
    ensures
        font == is_font_file_spec(kind, file_name@),
{
    match kind {
        EntryKind::File => {
            let parts = split_file_name(file_name);
            match parts.1 {
                Some(ext) => is_supported_extension(ext.as_str()),
                None => false,
            }
        },
        _ => false,
    }
}

/// Decides what to do with an entry directly under the fonts root.
pub fn plan_entry(kind: EntryKind, file_name: &str) -> (plan: EntryPlan)
    ensures
        plan_fits(kind, file_name@, plan),
{
    match kind {
        EntryKind::Directory => EntryPlan::ScanDirectory { font_name: file_name.to_owned() },
        EntryKind::File => {
            let parts = split_file_name(file_name);
            let supported = match &parts.1 {
                Some(ext) => is_supported_extension(ext.as_str()),
                None => false,
            };
            if supported {
                EntryPlan::LoadFile { font_name: parts.0 }
            } else {
                EntryPlan::Ignore
            }
        },
        EntryKind::Other => EntryPlan::Ignore,
    }
}

/// A file without a supported extension is never loaded as a font: neither
/// at the top of the fonts tree nor inside one of its directories.
pub proof fn lemma_unsupported_never_loaded(kind: EntryKind, name: Seq<char>, plan: EntryPlan)
    requires
        !has_supported_extension(name),
        plan_fits(kind, name, plan),
    ensures
        !is_font_file_spec(kind, name),
        !(plan is LoadFile),
{
}

} // verus!
