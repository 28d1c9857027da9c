//! ID-photo processing requests: which form fields a request may carry, how
//! they are gathered into the request forwarded to the processing service, and
//! how the images that service returns are stored.

use vstd::prelude::*;
use crate::errors::{AppError, bad_request, internal_error};
use crate::image::check_image_content_type;
use crate::text::{concat2, concat3, str_eq};

verus! {

/// The field that carries the photo.
pub const INPUT_IMAGE_FIELD: &'static str = "input_image";

/// Start of the answer when a request carries a field that is not accepted.
pub const INVALID_FIELD: &'static str = "Invalid field: ";

/// Answer when a request carries no photo.
pub const NO_INPUT_IMAGE: &'static str = "No input image provided";

/// Answer when the processing service does not succeed.
pub const PROCESSING_FAILED: &'static str = "Failed to process image";

/// The names of the form fields a processing request may carry.
pub open spec fn allowed_fields() -> Seq<Seq<char>> {
    seq![
        "input_image"@,
        "mode_option"@,
        "size_list_option"@,
        "color_option"@,
        "render_option"@,
        "image_kb_options"@,
        "custom_color_R"@,
        "custom_color_G"@,
        "custom_color_B"@,
        "custom_size_height"@,
        "custom_size_width"@,
        "custom_image_kb"@,
        "language"@,
        "matting_model_option"@,
        "watermark_option"@,
        "watermark_text"@,
        "watermark_text_color"@,
        "watermark_text_size"@,
        "watermark_text_opacity"@,
        "watermark_text_angle"@,
        "watermark_text_space"@,
        "face_detect_option"@,
        "head_measure_ratio"@,
        "top_distance_max"@,
        "top_distance_min"@,
    ]
}

/// Whether a form field of this name is accepted.
pub fn is_allowed_field(name: &str) -> (b: bool)
    ensures
        b == allowed_fields().contains(name@),
{
    let names: Vec<&str> = vec![
        "input_image",
        "mode_option",
        "size_list_option",
        "color_option",
        "render_option",
        "image_kb_options",
        "custom_color_R",
        "custom_color_G",
        "custom_color_B",
        "custom_size_height",
        "custom_size_width",
        "custom_image_kb",
        "language",
        "matting_model_option",
        "watermark_option",
        "watermark_text",
        "watermark_text_color",
        "watermark_text_size",
        "watermark_text_opacity",
        "watermark_text_angle",
        "watermark_text_space",
        "face_detect_option",
        "head_measure_ratio",
        "top_distance_max",
        "top_distance_min",
    ];
    let ghost views = names@.map_values(|s: &str| s@);
    assert(views =~= allowed_fields());
    let mut i: usize = 0;
    while i < names.len()
        invariant
            i <= names@.len(),
            views == names@.map_values(|s: &str| s@),
            views == allowed_fields(),
            forall|k: int| 0 <= k < i ==> views[k] != name@,
        decreases names@.len() - i,
    {
        if str_eq(names[i], name) {
            assert(views[i as int] == names@[i as int]@);
            assert(views.contains(name@));
            return true;
        }
        i = i + 1;
    }
    proof {
        if views.contains(name@) {
            let k = choose|k: int| 0 <= k < views.len() && views[k] == name@;
            assert(views[k] != name@);
        }
    }
    false
}

/// How a field's content is to be read.
#[derive(Clone, Copy, Debug, PartialEq, Eq, Structural)]
pub enum FieldPlan {
    /// The photo: read as bytes.
    InputImage,
    /// Any other accepted field: read as text and forwarded.
    Text,
}

/// The decision on one form field, from its name (`None` when the part has
/// none, taken as the empty name) and content type: a field not accepted is a
/// bad request (`"Invalid field: "` and the name); the photo must be an image
/// (see `check_image_content_type`); any other accepted field is read as text.
pub fn plan_field(name: Option<&str>, content_type: Option<&str>) -> (r: Result<FieldPlan, AppError>)
    ensures
        ({
            let n = match name {
                Some(n) => n@,
                None => Seq::<char>::empty(),
            };
            if !allowed_fields().contains(n) {
                bad_request(r, INVALID_FIELD@ + n)
            } else if n == INPUT_IMAGE_FIELD@ {
                match check_image_content_outcome(content_type) {
                    Ok(()) => r == Ok::<FieldPlan, AppError>(FieldPlan::InputImage),
                    Err(m) => bad_request(r, m),
                }
            } else {
                r == Ok::<FieldPlan, AppError>(FieldPlan::Text)
            }
        }),
        name matches Some(n) && n@ == INPUT_IMAGE_FIELD@ ==> match content_type {
            None => bad_request(r, crate::image::MISSING_CONTENT_TYPE@),
            Some(ct) => if crate::text::has_prefix(ct@, crate::image::IMAGE_TYPE_PREFIX@) {
                r == Ok::<FieldPlan, AppError>(FieldPlan::InputImage)
            } else {
                bad_request(r, crate::image::INVALID_FILE_TYPE@ + ct@)
            },
        },
{
    let n = match name {
        Some(n) => n,
        None => "",
    };
    proof {
        reveal_strlit("");
        assert(""@ =~= Seq::<char>::empty());
        assert(allowed_fields()[0] == INPUT_IMAGE_FIELD@);
    }
    if !is_allowed_field(n) {
        return Err(AppError::BadRequest(concat2(INVALID_FIELD, n)));
    }
    if str_eq(n, INPUT_IMAGE_FIELD) {
        match check_image_content_type(content_type) {
            Ok(()) => Ok(FieldPlan::InputImage),
            Err(e) => Err(e),
        }
    } else {
        Ok(FieldPlan::Text)
    }
}

/// What `check_image_content_type` decides, the bad request taken by its message.
pub open spec fn check_image_content_outcome(content_type: Option<&str>) -> Result<(), Seq<char>> {
    match content_type {
        None => Err(crate::image::MISSING_CONTENT_TYPE@),
        Some(ct) => if crate::text::has_prefix(ct@, crate::image::IMAGE_TYPE_PREFIX@) {
            Ok(())
        } else {
            Err(crate::image::INVALID_FILE_TYPE@ + ct@)
        },
    }
}

/// The fields of a processing request gathered so far: the photo, if one was
/// read (a later one replaces an earlier), and the text fields in the order
/// they came.
#[derive(Clone, Debug)]
pub struct IdPhotoForm {
    pub input_image: Option<Vec<u8>>,
    pub text_fields: Vec<(String, String)>,
}

/// The text fields of a form, taken by their characters.
pub open spec fn text_fields_view(fields: Seq<(String, String)>) -> Seq<(Seq<char>, Seq<char>)> {
    fields.map_values(|p: (String, String)| (p.0@, p.1@))
}

impl IdPhotoForm {
    /// A form with no field yet.
    pub fn new() -> (f: Self)
        ensures
            f.input_image is None,
            f.text_fields@.len() == 0,
    {
        IdPhotoForm { input_image: None, text_fields: Vec::new() }
    }

    /// Records the photo's bytes, or fails with 500 and the message of the
    /// failed read; the text fields are kept.
    pub fn add_image(&mut self, data: Result<Vec<u8>, String>) -> (r: Result<(), AppError>)
        ensures
            final(self).text_fields@ == old(self).text_fields@,
            match data {
                Ok(d) => r is Ok && final(self).input_image == Some(d),
                Err(e) => internal_error(r, e@) && final(self).input_image == old(self).input_image,
            },
    {
        match data {
            Ok(d) => {
                self.input_image = Some(d);
                Ok(())
            },
            Err(e) => Err(AppError::InternalServerError(e)),
        }
    }

    /// Records a text field after the others, or fails with a bad request and
    /// the message of the failed read; the photo is kept.
    pub fn add_text(&mut self, name: String, value: Result<String, String>) -> (r: Result<(), AppError>)
        ensures
            final(self).input_image == old(self).input_image,
            match value {
                Ok(v) => r is Ok && final(self).text_fields@ == old(self).text_fields@.push((name, v)),
                Err(e) => bad_request(r, e@) && final(self).text_fields@ == old(self).text_fields@,
            },
    {
        match value {
            Ok(v) => {
                self.text_fields.push((name, v));
                Ok(())
            },
            Err(e) => Err(AppError::BadRequest(e)),
        }
    }

    /// The photo and the text fields to forward; without a photo the request is
    /// a bad request (`"No input image provided"`).
    pub fn finish(self) -> (r: Result<(Vec<u8>, Vec<(String, String)>), AppError>)
        ensures
            match self.input_image {
                Some(img) => r matches Ok((i, t)) && i@ == img@ && t@ == self.text_fields@,
                None => bad_request(r, NO_INPUT_IMAGE@),
            },
    {
        match self.input_image {
            Some(img) => Ok((img, self.text_fields)),
            None => Err(AppError::BadRequest(String::from_str(NO_INPUT_IMAGE))),
        }
    }
}

/// The processing service's answer must be a success; otherwise 500
/// (`"Failed to process image"`).
pub fn check_service_status(success: bool) -> (r: Result<(), AppError>)
    ensures
        success ==> r is Ok,
        !success ==> internal_error(r, PROCESSING_FAILED@),
{
    if success {
        Ok(())
    } else {
        Err(AppError::InternalServerError(String::from_str(PROCESSING_FAILED)))
    }
}

/// Names what `base64::decode` (the standard alphabet, padded) returns for
/// the text `input`: the decoded bytes, or the text of the error.
pub uninterp spec fn base64_standard_decode(input: Seq<char>) -> Result<Seq<u8>, Seq<char>>;

/// Calls `base64::decode(data)`, the error turned into its text. Claimed: the
/// outcome is the one named by `base64_standard_decode`.
#[verifier::external_body]
#[allow(deprecated)]
fn decode_base64(data: &str) -> (r: Result<Vec<u8>, String>)
    ensures
        match r {
            Ok(v) => base64_standard_decode(data@) matches Ok(w) && w == v@,
            Err(m) => base64_standard_decode(data@) matches Err(w) && w == m@,
        },
{
    base64::decode(data).map_err(|e| e.to_string())
}

/// A processed image ready to be written: its file name and its bytes.
#[derive(Clone, Debug)]
pub struct SavedImage {
    pub file_name: String,
    pub bytes: Vec<u8>,
}

/// The file name of a processed image: the request's id, `'_'`, the suffix
/// and `".png"`.
pub fn saved_file_name(id: &str, suffix: &str) -> (name: String)
    ensures
        name@ == id@ + "_"@ + suffix@ + ".png"@,
{
    let mut name = concat3(id, "_", suffix);
    name.append(".png");
    name
}

/// A processed image from the outcome of decoding its base64 text: a failed
/// decoding is answered 500 with the decoder's message.
pub fn saved_image_from_decoded(decoded: Result<Vec<u8>, String>, id: &str, suffix: &str) -> (r: Result<
    SavedImage,
    AppError,
>)
    ensures
        match decoded {
            Ok(bytes) => r matches Ok(img) && img.bytes@ == bytes@ && img.file_name@ == id@ + "_"@
                + suffix@ + ".png"@,
            Err(e) => internal_error(r, e@),
        },
{
    match decoded {
        Ok(bytes) => Ok(SavedImage { file_name: saved_file_name(id, suffix), bytes }),
        Err(e) => Err(AppError::InternalServerError(e)),
    }
}

/// A processed image from its base64 text as the service returned it, named
/// after the request's id and the suffix.
pub fn prepare_saved_image(data: &str, suffix: &str, id: &str) -> (r: Result<SavedImage, AppError>)
    ensures
        match base64_standard_decode(data@) {
            Ok(bytes) => r matches Ok(img) && img.bytes@ == bytes && img.file_name@ == id@ + "_"@
                + suffix@ + ".png"@,
            Err(e) => internal_error(r, e),
        },
{
    let decoded = decode_base64(data);
    saved_image_from_decoded(decoded, id, suffix)
}

/// The images of the processing service's answer, each as the text it gave
/// (`None` where the member is missing or not a string).
#[derive(Clone, Debug)]
pub struct ServiceImages {
    pub standard_image: Option<String>,
    pub hd_image: Option<String>,
    pub standard_png: Option<String>,
    pub hd_png: Option<String>,
    pub layout_image: Option<String>,
}

/// The text of an image, or the member's own name where the answer lacks it.
pub open spec fn payload_or_name(v: Option<String>, name: Seq<char>) -> Seq<char> {
    match v {
        Some(s) => s@,
        None => name,
    }
}

/// The text of an image, or the member's own name where the answer lacks it.
fn payload_or(v: &Option<String>, name: &str) -> (s: String)
    ensures
        s@ == payload_or_name(*v, name@),
{
    match v {
        Some(s) => s.clone(),
        None => String::from_str(name),
    }
}

impl ServiceImages {
    /// The images to store, as (base64 text, file-name suffix), in order: the
    /// standard and high-definition images and their PNG forms (each falling
    /// back to its member name where missing), then the layout image where
    /// there is one.
    pub open spec fn to_save(self) -> Seq<(Seq<char>, Seq<char>)> {
        seq![
            (payload_or_name(self.standard_image, "standard_image"@), "standard"@),
            (payload_or_name(self.hd_image, "hd_image"@), "hd"@),
            (payload_or_name(self.standard_png, "standard_png"@), "standard_png"@),
            (payload_or_name(self.hd_png, "hd_png"@), "hd_png"@),
        ] + match self.layout_image {
            Some(l) => seq![(l@, "layout"@)],
            None => Seq::empty(),
        }
    }

    /// The images to store, as (base64 text, file-name suffix); see `to_save`.
    pub fn images_to_save(&self) -> (v: Vec<(String, String)>)
        ensures
            text_fields_view(v@) == self.to_save(),
            v@.len() == if self.layout_image is Some { 5int } else { 4int },
            v@[0].1@ == "standard"@,
            v@[1].1@ == "hd"@,
            v@[2].1@ == "standard_png"@,
            v@[3].1@ == "hd_png"@,
            self.standard_image matches Some(d) ==> v@[0].0@ == d@,
            self.standard_image is None ==> v@[0].0@ == "standard_image"@,
            self.hd_image matches Some(d) ==> v@[1].0@ == d@,
            self.hd_image is None ==> v@[1].0@ == "hd_image"@,
            self.standard_png matches Some(d) ==> v@[2].0@ == d@,
            self.standard_png is None ==> v@[2].0@ == "standard_png"@,
            self.hd_png matches Some(d) ==> v@[3].0@ == d@,
            self.hd_png is None ==> v@[3].0@ == "hd_png"@,
            self.layout_image matches Some(d) ==> v@[4].0@ == d@ && v@[4].1@ == "layout"@,
    {
        let mut v: Vec<(String, String)> = Vec::new();
        v.push((payload_or(&self.standard_image, "standard_image"), String::from_str("standard")));
        v.push((payload_or(&self.hd_image, "hd_image"), String::from_str("hd")));
        v.push((payload_or(&self.standard_png, "standard_png"), String::from_str("standard_png")));
        v.push((payload_or(&self.hd_png, "hd_png"), String::from_str("hd_png")));
        match &self.layout_image {
            Some(l) => v.push((l.clone(), String::from_str("layout"))),
            None => {},
        }
        assert(text_fields_view(v@) =~= self.to_save());
        v
    }
}

/// A JSON value, passed through from the processing service's answer.
#[verifier::external_type_specification]
#[verifier::external_body]
pub struct ExJsonValue(serde_json::Value);

/// The answer to a processing request: the stored images' file names under
/// the service's member names (`layout_image` only where the service sent a
/// layout image), and the service's `notification` and `download_path`
/// members passed on unchanged.
#[derive(Debug)]
pub struct IdPhotoResult {
    pub standard_image: String,
    pub hd_image: String,
    pub standard_png: String,
    pub hd_png: String,
    pub layout_image: Option<String>,
    pub notification: serde_json::Value,
    pub download_path: serde_json::Value,
}

impl IdPhotoResult {
    /// The answer for the images of `images` stored under the request's id
    /// (with the names `prepare_saved_image` gives them), carrying the
    /// service's `notification` and `download_path` members.
    pub fn new(images: &ServiceImages, id: &str, notification: serde_json::Value, download_path: serde_json::Value) -> (r:
        Self)
        ensures
            r.standard_image@ == id@ + "_"@ + "standard"@ + ".png"@,
            r.hd_image@ == id@ + "_"@ + "hd"@ + ".png"@,
            r.standard_png@ == id@ + "_"@ + "standard_png"@ + ".png"@,
            r.hd_png@ == id@ + "_"@ + "hd_png"@ + ".png"@,
            match images.layout_image {
                Some(_) => r.layout_image matches Some(l) && l@ == id@ + "_"@ + "layout"@ + ".png"@,
                None => r.layout_image is None,
            },
            r.notification == notification,
            r.download_path == download_path,
    {
        let layout_image = match &images.layout_image {
            Some(_) => Some(saved_file_name(id, "layout")),
            None => None,
        };
        IdPhotoResult {
            standard_image: saved_file_name(id, "standard"),
            hd_image: saved_file_name(id, "hd"),
            standard_png: saved_file_name(id, "standard_png"),
            hd_png: saved_file_name(id, "hd_png"),
            layout_image,
            notification,
            download_path,
        }
    }
}

} // verus!
