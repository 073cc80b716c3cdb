//! Media types, reduced to the parts that the preview reads.

use vstd::prelude::*;

verus! {

/// The error of the `mime` crate's parser. Nothing is read from it.
#[verifier::external_type_specification]
#[verifier::external_body]
pub struct ExFromStrError(mime_guess::mime::FromStrError);

/// A parsed media type, without its parameters.
#[derive(Debug, Clone, PartialEq, Eq)]
pub struct MediaType {
    /// The top-level type, such as `image` in `image/svg+xml`.
    pub type_: String,
    /// The subtype without its suffix, such as `svg` in `image/svg+xml`.
    pub subtype: String,
    /// The structured syntax suffix, such as `xml` in `image/svg+xml`.
    pub suffix: Option<String>,
    /// The essence, such as `image/svg+xml` in `image/svg+xml; charset=utf-8`.
    pub essence: String,
}

/// The mathematical value of a `MediaType`: the same parts, as sequences of
/// characters.
pub struct MediaTypeView {
    pub type_: Seq<char>,
    pub subtype: Seq<char>,
    pub suffix: Option<Seq<char>>,
    pub essence: Seq<char>,
}

impl View for MediaType {
    type V = MediaTypeView;

    open spec fn view(&self) -> MediaTypeView {
        MediaTypeView {
            type_: self.type_@,
            subtype: self.subtype@,
            suffix: match self.suffix {
                Some(suffix) => Some(suffix@),
                None => None,
            },
            essence: self.essence@,
        }
    }
}

impl MediaTypeView {
    /// What the parts spell: the type, a slash, the subtype and, where there is
    /// a suffix, a plus sign and the suffix.
    pub open spec fn spelled(self) -> Seq<char> {
        self.type_ + seq!['/'] + self.subtype + match self.suffix {
            Some(suffix) => seq!['+'] + suffix,
            None => Seq::<char>::empty(),
        }
    }

    /// Whether the essence is what the parts spell.
    pub open spec fn well_formed(self) -> bool {
        self.essence == self.spelled()
    }
}

/// Why a sniffed content type gave no media type.
#[derive(Debug, Clone, Copy, PartialEq, Eq, Structural)]
pub enum MimeResolutionError {
    /// The content type has no MIME type.
    Unmapped,
    /// The MIME type text is not a media type.
    Malformed,
}

impl MimeResolutionError {
    /// A sentence that says what went wrong.
    pub fn message(&self) -> (text: &'static str)
        ensures
            text@ == match self {
                MimeResolutionError::Unmapped => "guessed content type has no mime type"@,
                MimeResolutionError::Malformed => "could not parse guessed mime type"@,
            },
    {
        match self {
            MimeResolutionError::Unmapped => "guessed content type has no mime type",
            MimeResolutionError::Malformed => "could not parse guessed mime type",
        }
    }
}

/// What the `mime` crate's parser makes of `text`: the parts of the media type
/// it reads, or nothing where it rejects the text.
pub uninterp spec fn parsed_media_type(text: Seq<char>) -> Option<MediaTypeView>;

/// Parses `text` with `Mime::from_str` of the `mime` crate and copies out what
/// `type_`, `subtype`, `suffix` and `essence_str` give for the parsed value.
/// Trusted: the outcome is a function of the text alone, named
/// `parsed_media_type`, and the essence of a parsed value is what its parts
/// spell, since all four are cut from one string at its slash, at its last plus
/// sign and where its parameters start.
#[verifier::external_body]
fn parse_mime(text: &str) -> (parsed: Result<MediaType, mime_guess::mime::FromStrError>)
    ensures
        match parsed {
            Ok(media) => parsed_media_type(text@) == Some(media@) && media@.well_formed(),
            Err(_) => parsed_media_type(text@) is None,
        },
{
    let mime = text.parse::<mime_guess::mime::Mime>()?;
    Ok(MediaType {
        type_: mime.type_().as_str().to_string(),
        subtype: mime.subtype().as_str().to_string(),
        suffix: mime.suffix().map(|name| name.as_str().to_string()),
        essence: mime.essence_str().to_string(),
    })
}

/// The media type that the MIME type text of a sniffed content type stands for:
/// none without such a text, and none where the parser rejects the text.
pub open spec fn resolved(mime: Option<Seq<char>>) -> Result<MediaTypeView, MimeResolutionError> {
    match mime {
        None => Err(MimeResolutionError::Unmapped),
        Some(text) => match parsed_media_type(text) {
            None => Err(MimeResolutionError::Malformed),
            Some(media) => Ok(media),
        },
    }
}

impl MediaType {
    /// Parses a MIME type text such as `text/plain; charset=utf-8`.
    pub fn parse(text: &str) -> (outcome: Result<MediaType, MimeResolutionError>)
        ensures
            match outcome {
                Ok(media) => parsed_media_type(text@) == Some(media@) && media@.well_formed(),
                Err(e) => e == MimeResolutionError::Malformed && parsed_media_type(text@) is None,
            },
    {
        match parse_mime(text) {
            Ok(media) => Ok(media),
            Err(_) => Err(MimeResolutionError::Malformed),
        }
    }

    /// Whether the top-level type is `name`.
    pub fn has_type(&self, name: &str) -> (yes: bool)
        ensures
            yes == (self@.type_ == name@),
    {
        let wanted = name.to_owned();
        self.type_ == wanted
    }
}

} // verus!
