use vstd::prelude::*;

verus! {

/// A parsed font, opaque to the library: it is produced here and carried to
/// whoever draws with it.
#[verifier::external_type_specification]
#[verifier::external_body]
pub struct ExFont<'a>(rusttype::Font<'a>);

/// Whether `rusttype` recognises the bytes as a font (the first face, where
/// the data is a collection).
pub uninterp spec fn recognised_font(data: Seq<u8>) -> bool;

/// Why a font could not be loaded.
#[derive(Debug, Clone, Copy, PartialEq, Eq, Structural)]
pub enum LoadError {
    /// The bytes are not in any font format that is understood.
    InvalidData,
}

impl LoadError {
    /// The message shown for the error.
    pub fn message(&self) -> (text: String)
        ensures
            text@ == "Failed to load font"@,
    {
        "Failed to load font".to_owned()
    }
}

/// `rusttype::Font::try_from_vec`: parses owned font data, and gives `None`
/// for data that is no font. The outcome depends on the bytes alone, so the
/// contract only gives the test a name.
#[verifier::external_body]
fn parse_font(data: Vec<u8>) -> (font: Option<rusttype::Font<'static>>)
    ensures
        font is Some <==> recognised_font(data@),
{
    rusttype::Font::try_from_vec(data)
}

/// Parses the contents of a font file. Fails exactly on bytes that are not
/// recognised as a font.
pub fn load_font(font_data: Vec<u8>) -> (loaded: Result<rusttype::Font<'static>, LoadError>)
    ensures
        loaded is Ok <==> recognised_font(font_data@),
        loaded is Err ==> loaded == Err::<rusttype::Font<'static>, LoadError>(LoadError::InvalidData),
{
    match parse_font(font_data) {
        Some(font) => Ok(font),
        None => Err(LoadError::InvalidData),
    }
}

} // verus!
