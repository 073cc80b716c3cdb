//! What the preview pane shows for a selection.

use vstd::math::min;
use vstd::prelude::*;
use vstd::utf8::decode_utf8;
use crate::content_block::{leading, lossy_utf8, ContentBlock, BLOCK_SIZE};
use crate::media_type::{
    parsed_media_type, resolved, MediaType, MediaTypeView, MimeResolutionError,
};

verus! {

/// The selected filesystem entry.
#[derive(Debug, Clone, PartialEq, Eq)]
pub struct Selection {
    /// The path of the entry.
    pub item: String,
}

/// What the content sniffer reported for a file.
#[derive(Debug, Clone, PartialEq, Eq)]
pub struct MimeGuess {
    /// The MIME type text of the guessed content type, where it has one.
    pub mime: Option<String>,
    /// Whether the sniffer was unsure. The decision does not depend on it.
    pub uncertain: bool,
}

/// How the preview pane renders the selection.
#[derive(Debug, Clone, PartialEq, Eq)]
pub enum PreviewDecision {
    /// Nothing is selected: the pane shows nothing.
    Hidden,
    /// Show the file at this path as an image.
    ShowImage(String),
    /// Show this text, the decoded content block.
    ShowText(String),
    /// Show the generic icon of the media type with this essence.
    ShowIcon(String),
}

/// The mathematical value of a `PreviewDecision`: the same cases, over
/// sequences of characters.
pub enum Decision {
    Hidden,
    ShowImage(Seq<char>),
    ShowText(Seq<char>),
    ShowIcon(Seq<char>),
}

impl View for PreviewDecision {
    type V = Decision;

    open spec fn view(&self) -> Decision {
        match self {
            PreviewDecision::Hidden => Decision::Hidden,
            PreviewDecision::ShowImage(path) => Decision::ShowImage(path@),
            PreviewDecision::ShowText(text) => Decision::ShowText(text@),
            PreviewDecision::ShowIcon(essence) => Decision::ShowIcon(essence@),
        }
    }
}

/// The path of the selection, if there is one.
pub open spec fn selected_path(selection: Option<&Selection>) -> Option<Seq<char>> {
    match selection {
        Some(chosen) => Some(chosen.item@),
        None => None,
    }
}

/// The MIME type text of a guess, if it has one.
pub open spec fn guessed_mime(guess: &MimeGuess) -> Option<Seq<char>> {
    match guess.mime {
        Some(text) => Some(text@),
        None => None,
    }
}

/// The preview of the file at `path` with content block `block`, once its media
/// type is known: images are shown as they are, text as the decoded block, and
/// everything else as the icon of its media type.
pub open spec fn preview(path: Seq<char>, block: Seq<u8>, media: MediaTypeView) -> Decision {
    if media.type_ == "image"@ {
        Decision::ShowImage(path)
    } else if media.type_ == "text"@ {
        Decision::ShowText(lossy_utf8(block))
    } else {
        Decision::ShowIcon(media.essence)
    }
}

/// The decision for a selection, the content block of its file and the MIME
/// type text that the sniffer's guess resolved to.
pub open spec fn decision(
    selection: Option<Seq<char>>,
    block: Seq<u8>,
    mime: Option<Seq<char>>,
) -> Result<Decision, MimeResolutionError> {
    match selection {
        None => Ok(Decision::Hidden),
        Some(path) => match resolved(mime) {
            Ok(media) => Ok(preview(path, block, media)),
            Err(e) => Err(e),
        },
    }
}

/// Whether the media type that `mime` resolves to, if it resolves to one, is
/// well-formed. This holds of every guess that was resolved.
pub open spec fn resolves_well(mime: Option<Seq<char>>) -> bool {
    resolved(mime) matches Ok(media) ==> media.well_formed()
}

/// The mathematical value of a media type or the error in its place.
pub open spec fn media_view(outcome: Result<MediaType, MimeResolutionError>) -> Result<
    MediaTypeView,
    MimeResolutionError,
> {
    match outcome {
        Ok(media) => Ok(media@),
        Err(e) => Err(e),
    }
}

/// The mathematical value of a decision or the error in its place.
pub open spec fn decision_view(outcome: Result<PreviewDecision, MimeResolutionError>) -> Result<
    Decision,
    MimeResolutionError,
> {
    match outcome {
        Ok(shown) => Ok(shown@),
        Err(e) => Err(e),
    }
}

/// The media type that a guess resolves to: none where the guessed content type
/// has no MIME type or its MIME type text does not parse.
pub fn resolve(guess: &MimeGuess) -> (outcome: Result<MediaType, MimeResolutionError>)
    ensures
        media_view(outcome) == resolved(guessed_mime(guess)),
        outcome matches Ok(media) ==> media@.well_formed(),
{
    match &guess.mime {
        Some(text) => MediaType::parse(text.as_str()),
        None => Err(MimeResolutionError::Unmapped),
    }
}

/// Decides how to show a selected file whose media type is known.
pub fn preview_for(selection: &Selection, block: &ContentBlock, media: &MediaType) -> (shown:
    PreviewDecision)
    ensures
        shown@ == preview(selection.item@, block@, media@),
{
    if media.has_type("image") {
        PreviewDecision::ShowImage(selection.item.clone())
    } else if media.has_type("text") {
        PreviewDecision::ShowText(block.to_text())
    } else {
        PreviewDecision::ShowIcon(media.essence.clone())
    }
}

/// Decides what the preview pane shows.
///
/// With nothing selected the pane is hidden, whatever `block` and `guess` hold.
/// Otherwise the guess is resolved to a media type, which fails where the
/// guessed content type has no MIME type or its MIME type text does not parse,
/// and the media type picks the preview.
pub fn decide(selection: Option<&Selection>, block: &ContentBlock, guess: &MimeGuess) -> (outcome:
    Result<PreviewDecision, MimeResolutionError>)
    ensures
        decision_view(outcome) == decision(selected_path(selection), block@, guessed_mime(guess)),
        selection is Some ==> resolves_well(guessed_mime(guess)),
{
    match selection {
        None => Ok(PreviewDecision::Hidden),
        Some(chosen) => match resolve(guess) {
            Ok(media) => Ok(preview_for(chosen, block, &media)),
            Err(e) => Err(e),
        },
    }
}

/// With nothing selected the pane is hidden, whatever was read or guessed.
pub proof fn lemma_nothing_selected_is_hidden(block: Seq<u8>, mime: Option<Seq<char>>)
    ensures
        decision(None, block, mime) == Ok::<Decision, MimeResolutionError>(Decision::Hidden),
{
}

/// A file whose media type has the top-level type `image` is shown as an image,
/// under the very path that was selected.
pub proof fn lemma_image_is_shown_by_path(
    path: Seq<char>,
    block: Seq<u8>,
    mime: Seq<char>,
    media: MediaTypeView,
)
    requires
        resolved(Some(mime)) == Ok::<MediaTypeView, MimeResolutionError>(media),
        media.type_ == "image"@,
    ensures
        decision(Some(path), block, Some(mime)) == Ok::<Decision, MimeResolutionError>(
            Decision::ShowImage(path),
        ),
{
}

/// A file whose media type has the top-level type `text` is shown as the lossy
/// decoding of its first `BLOCK_SIZE` bytes, or of all its bytes if it has fewer.
pub proof fn lemma_text_is_shown_decoded(
    path: Seq<char>,
    data: Seq<u8>,
    mime: Seq<char>,
    media: MediaTypeView,
)
    requires
        resolved(Some(mime)) == Ok::<MediaTypeView, MimeResolutionError>(media),
        media.type_ == "text"@,
    ensures
        decision(Some(path), leading(data), Some(mime)) == Ok::<Decision, MimeResolutionError>(
            Decision::ShowText(
                lossy_utf8(data.take(min(data.len() as int, BLOCK_SIZE as int))),
            ),
        ),
{
    reveal_strlit("image");
    reveal_strlit("text");
    assert("image"@.len() != "text"@.len());
    assert(data.take(data.len() as int) == data);
}

/// A file of any other media type is shown as the icon of that type's essence.
/// For a well-formed media type that is what its parts spell: type, slash and
/// subtype where it has no suffix.
pub proof fn lemma_other_is_shown_as_icon(
    path: Seq<char>,
    block: Seq<u8>,
    mime: Seq<char>,
    media: MediaTypeView,
)
    requires
        resolved(Some(mime)) == Ok::<MediaTypeView, MimeResolutionError>(media),
        media.type_ != "image"@,
        media.type_ != "text"@,
    ensures
        decision(Some(path), block, Some(mime)) == Ok::<Decision, MimeResolutionError>(
            Decision::ShowIcon(media.essence),
        ),
        media.well_formed() ==> decision(Some(path), block, Some(mime)) == Ok::<
            Decision,
            MimeResolutionError,
        >(Decision::ShowIcon(media.spelled())),
        media.well_formed() && media.suffix is None ==> media.spelled() == media.type_ + seq!['/']
            + media.subtype,
{
}

/// A decision fails only for a selection whose guess does not resolve, and the
/// error says which way it did not: the content type has no MIME type, or the
/// MIME type text does not parse. What was read never makes it fail.
pub proof fn lemma_only_resolution_fails(
    selection: Option<Seq<char>>,
    block: Seq<u8>,
    mime: Option<Seq<char>>,
)
    ensures
        decision(selection, block, mime) is Err <==> selection is Some && resolved(mime) is Err,
        decision(selection, block, mime) == Err::<Decision, MimeResolutionError>(
            MimeResolutionError::Unmapped,
        ) <==> selection is Some && mime is None,
        decision(selection, block, mime) == Err::<Decision, MimeResolutionError>(
            MimeResolutionError::Malformed,
        ) <==> selection is Some && mime is Some && parsed_media_type(mime->0) is None,
{
}

/// A file that could not be read, or that holds no bytes, is decided on an
/// empty block: whenever the guess resolves there is a decision, an image is
/// still shown by its path, an icon by its essence, and text as what decoding
/// no bytes gives, which is no text.
pub proof fn lemma_without_content_still_decided(
    path: Seq<char>,
    mime: Option<Seq<char>>,
    media: MediaTypeView,
)
    requires
        resolved(mime) == Ok::<MediaTypeView, MimeResolutionError>(media),
    ensures
        leading(Seq::<u8>::empty()) == Seq::<u8>::empty(),
        decision(Some(path), Seq::<u8>::empty(), mime) == Ok::<Decision, MimeResolutionError>(
            preview(path, Seq::<u8>::empty(), media),
        ),
        preview(path, Seq::<u8>::empty(), media) is ShowText ==> preview(
            path,
            Seq::<u8>::empty(),
            media,
        ) == Decision::ShowText(Seq::<char>::empty()),
{
    assert(decode_utf8(Seq::<u8>::empty()) == Seq::<char>::empty());
}

/// Deciding again on the same selection, block and guess gives the same decision.
pub proof fn lemma_same_inputs_same_decision(
    first: Result<PreviewDecision, MimeResolutionError>,
    second: Result<PreviewDecision, MimeResolutionError>,
    selection: Option<Seq<char>>,
    block: Seq<u8>,
    mime: Option<Seq<char>>,
)
    requires
        decision_view(first) == decision(selection, block, mime),
        decision_view(second) == decision(selection, block, mime),
    ensures
        decision_view(first) == decision_view(second),
{
}

/// The sniffer's doubt does not change the decision.
pub proof fn lemma_uncertainty_is_ignored(
    selection: Option<Seq<char>>,
    block: Seq<u8>,
    sure: MimeGuess,
    unsure: MimeGuess,
)
    requires
        sure.mime == unsure.mime,
    ensures
        decision(selection, block, guessed_mime(&sure)) == decision(
            selection,
            block,
            guessed_mime(&unsure),
        ),
{
}

} // verus!
