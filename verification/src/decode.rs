//! Pictures from the bytes that a server sent.
use vstd::prelude::*;
use vstd::slice::slice_subrange;
use vstd::string::StringExecFns;

use crate::images::{ImageKind, ImageLoader};
use crate::jpeg::check_frame;
use crate::png::check_palette;

verus! {

/// A picture of `egui_extras`, which this library only carries.
#[verifier::external_type_specification]
#[verifier::external_body]
pub struct ExRetainedImage(egui_extras::RetainedImage);

/// The text of a result, whichever way it went.
pub open spec fn result_text(r: Result<String, String>) -> Result<Seq<char>, Seq<char>> {
    match r {
        Ok(text) => Ok(text@),
        Err(text) => Err(text@),
    }
}

/// Whether a guess came to the format `name`.
pub open spec fn names_format(r: Result<String, String>, name: Seq<char>) -> bool {
    r matches Ok(format) && format@ == name
}

/// The eight bytes that every PNG file starts with.
pub open spec fn png_signature() -> Seq<u8> {
    seq![0x89u8, 0x50u8, 0x4eu8, 0x47u8, 0x0du8, 0x0au8, 0x1au8, 0x0au8]
}

/// The three bytes that every JPEG file starts with.
pub open spec fn jpeg_signature() -> Seq<u8> {
    seq![0xffu8, 0xd8u8, 0xffu8]
}

/// What `image::guess_format` returns for `data`: the name of the format, or the text of
/// its error.
pub uninterp spec fn guessed_format(data: Seq<u8>) -> Result<Seq<char>, Seq<char>>;

/// `image::guess_format`, which tells a picture's format from the bytes at its start.
///
/// The format is given by the name of its variant and the error by its text. The contract
/// claims that the answer depends on the bytes alone, that it is `Png` exactly for bytes
/// that start with the PNG signature and `Jpeg` exactly for those that start with the JPEG
/// signature. Which other formats there are and what they start with is left unsaid.
#[verifier::external_body]
fn guess_format(data: &[u8]) -> (r: Result<String, String>)
    ensures
        result_text(r) == guessed_format(data@),
        names_format(r, "Png"@) <==> png_signature().is_prefix_of(data@),
        names_format(r, "Jpeg"@) <==> jpeg_signature().is_prefix_of(data@),
{
    match image::guess_format(data) {
        Ok(format) => Ok(format!("{format:?}")),
        Err(err) => Err(err.to_string()),
    }
}

/// Whether `data` can be given to the decoder, which every picture can but a PNG file with
/// pixels that are taken from a palette that is none, and a JPEG file with a frame that the
/// decoder cannot cope with.
pub open spec fn decodable(data: Seq<u8>) -> bool {
    &&& png_signature().is_prefix_of(data) ==> crate::png::palette_fits(data)
    &&& jpeg_signature().is_prefix_of(data) ==> crate::jpeg::frame_fits(data)
}

/// The text of the error that `RetainedImage::from_image_bytes` returns for `data`, if it
/// returns one.
pub uninterp spec fn decoding_error(data: Seq<u8>) -> Option<Seq<char>>;

/// The name that a picture was given and the bytes that it was decoded from. A picture is
/// taken for the one that a call made, however alike two may look: it does not keep the bytes.
pub uninterp spec fn picture_source(picture: egui_extras::RetainedImage) -> (Seq<char>, Seq<u8>);

/// `RetainedImage::from_image_bytes` of `egui_extras`, which decodes a picture and names it.
///
/// The contract claims that whether it fails, and with which text, depends on the bytes
/// alone, and that the picture is made of this name and these bytes. It panics on some files
/// that are not [`decodable`], and those are left out: it slices the palette of a PNG file
/// behind its end, copies a lossless JPEG frame into a picture that is too small for it, and
/// overflows where it counts the blocks of a JPEG scan. Some of the files that are left out
/// it would refuse in time, for a checksum or a fault in the pixels, and in a build without
/// overflow checks it counts on. A large JPEG file is decoded by threads of its own; that the
/// system can start them is taken for granted. Nothing is said of the colours of the pixels,
/// which are computed by the instructions that the processor has.
#[verifier::external_body]
fn load_retained_image(url: &str, data: &[u8]) -> (r: Result<egui_extras::RetainedImage, String>)
    requires
        png_signature().is_prefix_of(data@) || jpeg_signature().is_prefix_of(data@),
        decodable(data@),
    ensures
        (match r {
            Ok(_) => None::<Seq<char>>,
            Err(text) => Some(text@),
        }) == decoding_error(data@),
        r matches Ok(picture) ==> picture_source(picture) == (url@, data@),
{
    egui_extras::RetainedImage::from_image_bytes(url, data)
}

/// Why a picture cannot be shown, with the text of the cause.
#[derive(Debug, PartialEq, Eq)]
pub enum LoadError {
    /// The bytes are of no known format.
    Unknown(String),
    /// The format, which is named, is not one that pictures come in.
    Unsupported(String),
    /// The picture cannot be decoded.
    Broken(String),
}

/// [`LoadError`] with its text as a sequence.
pub enum LoadErrorView {
    Unknown(Seq<char>),
    Unsupported(Seq<char>),
    Broken(Seq<char>),
}

impl View for LoadError {
    type V = LoadErrorView;

    open spec fn view(&self) -> LoadErrorView {
        match self {
            LoadError::Unknown(cause) => LoadErrorView::Unknown(cause@),
            LoadError::Unsupported(format) => LoadErrorView::Unsupported(format@),
            LoadError::Broken(cause) => LoadErrorView::Broken(cause@),
        }
    }
}

impl LoadErrorView {
    /// The text that is shown for the picture at `url`.
    pub open spec fn text(self, url: Seq<char>) -> Seq<char> {
        match self {
            LoadErrorView::Unknown(cause) => "unknown format for "@ + url + ": "@ + cause,
            LoadErrorView::Unsupported(format) => "unsupported format for "@ + url + ": "@ + format,
            LoadErrorView::Broken(cause) => "cannot load '"@ + url + "': "@ + cause,
        }
    }
}

impl LoadError {
    /// The text that is shown for the picture at `url`.
    pub fn message(&self, url: &str) -> (r: String)
        ensures
            r@ == self@.text(url@),
    {
        let (before, after, cause) = match self {
            LoadError::Unknown(cause) => ("unknown format for ", ": ", cause),
            LoadError::Unsupported(format) => ("unsupported format for ", ": ", format),
            LoadError::Broken(cause) => ("cannot load '", "': ", cause),
        };
        let mut text = String::from_str(before);
        text.append(url);
        text.append(after);
        text.append(cause.as_str());
        text
    }
}

/// The error that a guess at a picture's format leads to, if it leads to one.
pub open spec fn format_error(guess: Result<Seq<char>, Seq<char>>) -> Option<LoadErrorView> {
    match guess {
        Err(cause) => Some(LoadErrorView::Unknown(cause)),
        Ok(format) => if format == "Png"@ || format == "Jpeg"@ {
            None
        } else {
            Some(LoadErrorView::Unsupported(format))
        },
    }
}

/// The bytes that the format is told from.
pub open spec fn head(data: Seq<u8>) -> Seq<u8> {
    if data.len() <= 128 {
        data
    } else {
        data.take(128)
    }
}

/// The error that loading `data` leads to, if it leads to one.
pub open spec fn loading_error(data: Seq<u8>) -> Option<LoadErrorView> {
    match format_error(guessed_format(head(data))) {
        Some(error) => Some(error),
        None => match decoding_error(data) {
            Some(cause) => Some(LoadErrorView::Broken(cause)),
            None => None,
        },
    }
}

impl ImageLoader {
    /// Accepts the formats that pictures come in, PNG and JPEG.
    pub fn check_format(guess: Result<String, String>) -> (r: Result<(), LoadError>)
        ensures
            match format_error(result_text(guess)) {
                None => r is Ok,
                Some(error) => r matches Err(e) && e@ == error,
            },
    {
        match guess {
            Err(cause) => Err(LoadError::Unknown(cause)),
            Ok(format) => {
                if format == String::from_str("Png") || format == String::from_str("Jpeg") {
                    Ok(())
                } else {
                    Err(LoadError::Unsupported(format))
                }
            },
        }
    }

    /// Whether the decoder of [`ImageLoader::load_image`] can cope with `data`.
    pub fn can_decode(data: &[u8]) -> (r: bool)
        ensures
            r == decodable(data@),
    {
        if data.len() >= 3 && data[0] == 0xff && data[1] == 0xd8 && data[2] == 0xff {
            assert(data@.take(3) =~= jpeg_signature());
            check_frame(data)
        } else if data.len() >= 8 && data[0] == 0x89 && data[1] == 0x50 && data[2] == 0x4e
            && data[3] == 0x47 && data[4] == 0x0d && data[5] == 0x0a && data[6] == 0x1a && data[7]
            == 0x0a {
            assert(data@.take(8) =~= png_signature());
            check_palette(data)
        } else {
            true
        }
    }

    /// Loads the picture that was fetched from `url` for the reason `kind`.
    pub fn load_image(url: String, kind: ImageKind, data: Vec<u8>) -> (r: Result<
        (String, ImageKind, egui_extras::RetainedImage),
        LoadError,
    >)
        requires
            data@.len() > 0,
            decodable(data@),
        ensures
            match loading_error(data@) {
                None => r matches Ok(loaded) && loaded.0 == url && loaded.1 == kind
                    && picture_source(loaded.2) == (url@, data@),
                Some(error) => r matches Err(e) && e@ == error,
            },
            format_error(guessed_format(head(data@))) is None <==> png_signature().is_prefix_of(
                data@,
            ) || jpeg_signature().is_prefix_of(data@),
    {
        let n: usize = if data.len() < 128 {
            data.len()
        } else {
            128
        };
        let start = slice_subrange(data.as_slice(), 0, n);
        assert(start@ =~= head(data@));
        match Self::check_format(guess_format(start)) {
            Err(error) => {
                return Err(error);
            },
            Ok(()) => {},
        }
        match load_retained_image(url.as_str(), data.as_slice()) {
            Ok(image) => Ok((url, kind, image)),
            Err(cause) => Err(LoadError::Broken(cause)),
        }
    }
}

/// The format is told from no more than the first 128 bytes, and from all of them.
pub proof fn formats_are_told_from_the_start(data: Seq<u8>)
    ensures
        data.len() <= 128 ==> head(data) == data,
        data.len() > 128 ==> head(data).len() == 128 && head(data).is_prefix_of(data),
{
    if data.len() > 128 {
        assert(data.take(128) =~= head(data));
    }
}

/// A picture is not shown if its format is unknown, if it is neither PNG nor JPEG, or if it
/// cannot be decoded, and for no other reason; the error says which, and with which cause.
pub proof fn pictures_are_refused_for_a_reason(data: Seq<u8>)
    ensures
        match guessed_format(head(data)) {
            Err(cause) => loading_error(data) == Some(LoadErrorView::Unknown(cause)),
            Ok(format) => if format != "Png"@ && format != "Jpeg"@ {
                loading_error(data) == Some(LoadErrorView::Unsupported(format))
            } else {
                match decoding_error(data) {
                    Some(cause) => loading_error(data) == Some(LoadErrorView::Broken(cause)),
                    None => loading_error(data) is None,
                }
            },
        },
{
}

/// A guess is refused if it came to no format, or to one that is neither PNG nor JPEG.
pub proof fn only_two_formats_are_accepted(cause: Seq<char>, format: Seq<char>)
    ensures
        format_error(Err(cause)) == Some(LoadErrorView::Unknown(cause)),
        format_error(Ok("Png"@)) is None,
        format_error(Ok("Jpeg"@)) is None,
        format != "Png"@ && format != "Jpeg"@ ==> format_error(Ok(format)) == Some(
            LoadErrorView::Unsupported(format),
        ),
{
}

/// The text of an error says what is wrong, names the address and ends with the cause.
pub proof fn errors_name_the_address_and_the_cause(cause: Seq<char>, url: Seq<char>)
    ensures
        LoadErrorView::Unknown(cause).text(url) == "unknown format for "@ + url + ": "@ + cause,
        LoadErrorView::Unsupported(cause).text(url) == "unsupported format for "@ + url + ": "@
            + cause,
        LoadErrorView::Broken(cause).text(url) == "cannot load '"@ + url + "': "@ + cause,
{
}

/// Results and errors are known by their whole texts.
pub proof fn views_of_errors_are_whole(text: String, name: Seq<char>)
    ensures
        result_text(Ok(text)) == Ok::<Seq<char>, Seq<char>>(text@),
        result_text(Err(text)) == Err::<Seq<char>, Seq<char>>(text@),
        names_format(Ok(text), name) <==> text@ == name,
        !names_format(Err(text), name),
        LoadError::Unknown(text)@ == LoadErrorView::Unknown(text@),
        LoadError::Unsupported(text)@ == LoadErrorView::Unsupported(text@),
        LoadError::Broken(text)@ == LoadErrorView::Broken(text@),
{
}

/// What is neither a PNG nor a JPEG file can always be given to the decoder, and of these two
/// only by what is in them.
pub proof fn only_pictures_are_looked_into(data: Seq<u8>)
    ensures
        ({
            let png = data.len() >= 8 && data[0] == 0x89 && data[1] == 0x50 && data[2] == 0x4e
                && data[3] == 0x47 && data[4] == 0x0d && data[5] == 0x0a && data[6] == 0x1a
                && data[7] == 0x0a;
            let jpeg = data.len() >= 3 && data[0] == 0xff && data[1] == 0xd8 && data[2] == 0xff;
            &&& png ==> png_signature().is_prefix_of(data) && decodable(data)
                == crate::png::palette_fits(data)
            &&& jpeg ==> jpeg_signature().is_prefix_of(data) && decodable(data)
                == crate::jpeg::frame_fits(data)
            &&& !png ==> !png_signature().is_prefix_of(data)
            &&& !jpeg ==> !jpeg_signature().is_prefix_of(data)
            &&& !png && !jpeg ==> decodable(data)
        }),
{
    if data.len() >= 8 {
        assert(data.take(8) =~= seq![
            data[0],
            data[1],
            data[2],
            data[3],
            data[4],
            data[5],
            data[6],
            data[7],
        ]);
    }
    if data.len() >= 3 {
        assert(data.take(3) =~= seq![data[0], data[1], data[2]]);
    }
}

} // verus!
