//! Checks and names for uploaded images: the content type must be an image
//! type, and stored files are named after a fresh random UUID.

use vstd::prelude::*;
use crate::errors::{AppError, bad_request};
use crate::text::{concat2, concat3, has_prefix, starts_with};

verus! {

/// Where uploaded and processed images are stored.
pub const IMAGE_LOCATION: &'static str = "./image_upload";

/// Content types accepted for images start with this.
pub const IMAGE_TYPE_PREFIX: &'static str = "image/";

/// File extension used when the content type names none.
pub const DEFAULT_EXTENSION: &'static str = "png";

/// Largest request body, in bytes, that the image-processing route accepts.
pub const UPLOAD_BODY_LIMIT: usize = 12 * 1024;

/// Answer when an uploaded part has no content type.
pub const MISSING_CONTENT_TYPE: &'static str = "Missing content type";

/// Start of the answer when an uploaded part is not an image.
pub const INVALID_FILE_TYPE: &'static str = "Invalid file type: ";

/// Answer when an upload request carries no file.
pub const NO_FILE_UPLOADED: &'static str = "No file uploaded";

/// `s` is a version-4 (random) UUID in its hyphenated lower-case text form:
/// the version digit (position 14) is `'4'` and the variant digit (position
/// 19) is one of `'8'`, `'9'`, `'a'`, `'b'`.
pub open spec fn is_uuid_text(s: Seq<char>) -> bool {
    &&& s.len() == 36
    &&& s[14] == '4'
    &&& (s[19] == '8' || s[19] == '9' || s[19] == 'a' || s[19] == 'b')
    &&& forall|i: int|
        0 <= i < 36 ==> if i == 8 || i == 13 || i == 18 || i == 23 {
            #[trigger] s[i] == '-'
        } else {
            ('0' <= s[i] && s[i] <= '9') || ('a' <= s[i] && s[i] <= 'f')
        }
}

/// Calls `uuid::Uuid::new_v4()` and formats the id with `to_string()`.
/// Claimed, as the crate's source shows (`Display` writes the hyphenated
/// lower-case form; `new_v4` masks in version 4 and the RFC 4122 variant):
/// the text is 36 characters, lower-case hex digits with hyphens at positions
/// 8, 13, 18 and 23, `'4'` at 14 and one of `'8'`..`'b'` at 19. Which id comes out is left unsaid:
/// it is random.
#[verifier::external_body]
fn new_uuid_v4() -> (s: String)
    ensures
        is_uuid_text(s@),
{
    uuid::Uuid::new_v4().to_string()
}

/// A fresh random identifier for the files of one upload.
pub fn new_upload_id() -> (s: String)
    ensures
        is_uuid_text(s@),
{
    new_uuid_v4()
}

/// The characters of `s` before its first `'/'` (all of them if there is none).
pub open spec fn until_slash(s: Seq<char>) -> Seq<char>
    decreases s.len(),
{
    if s.len() == 0 {
        s
    } else if s[0] == '/' {
        Seq::empty()
    } else {
        seq![s[0]] + until_slash(s.drop_first())
    }
}

/// The characters of `s` after its first `'/'`, if it has one.
pub open spec fn after_first_slash(s: Seq<char>) -> Option<Seq<char>>
    decreases s.len(),
{
    if s.len() == 0 {
        None
    } else if s[0] == '/' {
        Some(s.drop_first())
    } else {
        after_first_slash(s.drop_first())
    }
}

/// The second of the pieces that `s` splits into at `'/'`, if there is one.
pub open spec fn second_slash_piece(s: Seq<char>) -> Option<Seq<char>> {
    match after_first_slash(s) {
        Some(rest) => Some(until_slash(rest)),
        None => None,
    }
}

/// The file extension for a content type: its second `'/'`-separated piece,
/// or `"png"` when it has only one.
pub open spec fn extension_for(content_type: Seq<char>) -> Seq<char> {
    match second_slash_piece(content_type) {
        Some(e) => e,
        None => DEFAULT_EXTENSION@,
    }
}

proof fn lemma_after_first_slash_skip(s: Seq<char>, i: int)
    requires
        0 <= i <= s.len(),
        forall|k: int| 0 <= k < i ==> s[k] != '/',
    ensures
        after_first_slash(s) == after_first_slash(s.skip(i)),
    decreases i,
{
    if i > 0 {
        lemma_after_first_slash_skip(s.drop_first(), i - 1);
        assert(s.drop_first().skip(i - 1) =~= s.skip(i));
    } else {
        assert(s.skip(0) =~= s);
    }
}

proof fn lemma_until_slash_take(s: Seq<char>, j: int)
    requires
        0 <= j <= s.len(),
        forall|k: int| 0 <= k < j ==> s[k] != '/',
    ensures
        until_slash(s) == s.take(j) + until_slash(s.skip(j)),
    decreases j,
{
    if j > 0 {
        lemma_until_slash_take(s.drop_first(), j - 1);
        assert(s.drop_first().skip(j - 1) =~= s.skip(j));
        assert(seq![s[0]] + s.drop_first().take(j - 1) =~= s.take(j));
        assert(seq![s[0]] + (s.drop_first().take(j - 1) + until_slash(s.skip(j)))
            =~= s.take(j) + until_slash(s.skip(j)));
    } else {
        assert(s.skip(0) =~= s);
        assert(s.take(0) + until_slash(s) =~= until_slash(s));
    }
}

/// Index of the first `'/'` at or after `from`, or the length when there is none.
fn find_slash(s: &str, from: usize, n: usize) -> (j: usize)
    requires
        n == s@.len(),
        from <= n,
    ensures
        from <= j <= n,
        forall|k: int| from <= k < j ==> s@[k] != '/',
        j < n ==> s@[j as int] == '/',
{
    let mut j = from;
    while j < n
        invariant
            n == s@.len(),
            from <= j <= n,
            forall|k: int| from <= k < j ==> s@[k] != '/',
        decreases n - j,
    {
        if s.get_char(j) == '/' {
            return j;
        }
        j = j + 1;
    }
    j
}

/// The file extension for a content type: the text after its first `'/'` up
/// to the next `'/'`, or `"png"` when it has no `'/'`.
pub fn image_extension(content_type: &str) -> (ext: &str)
    ensures
        ext@ == extension_for(content_type@),
{
    let n = content_type.unicode_len();
    let i = find_slash(content_type, 0, n);
    proof {
        lemma_after_first_slash_skip(content_type@, i as int);
    }
    if i == n {
        proof {
            assert(content_type@.skip(n as int).len() == 0);
        }
        return DEFAULT_EXTENSION;
    }
    let j = find_slash(content_type, i + 1, n);
    let ghost s = content_type@;
    proof {
        let rest = s.skip(i as int).drop_first();
        assert(s.skip(i as int)[0] == '/');
        assert(rest =~= s.skip(i + 1));
        let len = j - (i + 1);
        assert forall|k: int| 0 <= k < len implies rest[k] != '/' by {
            assert(rest[k] == s[i + 1 + k]);
        }
        lemma_until_slash_take(rest, len as int);
        if j < n {
            assert(rest.skip(len as int)[0] == '/');
        } else {
            assert(rest.skip(len as int).len() == 0);
        }
        assert(rest.take(len as int) =~= s.subrange(i + 1, j as int));
        assert(until_slash(rest) =~= s.subrange(i + 1, j as int));
    }
    content_type.substring_char(i + 1, j)
}

/// For an image content type `"image/" + e` where `e` holds no `'/'`, the
/// stored file's extension is exactly `e` (for example `"image/jpeg"` gives
/// `"jpeg"`; `"image/"` gives the empty extension).
pub proof fn image_type_extension(e: Seq<char>)
    requires
        forall|k: int| 0 <= k < e.len() ==> e[k] != '/',
    ensures
        extension_for(IMAGE_TYPE_PREFIX@ + e) == e,
{
    reveal_strlit("image/");
    let s = IMAGE_TYPE_PREFIX@ + e;
    assert(s.len() == 6 + e.len());
    assert forall|k: int| 0 <= k < 5 implies s[k] != '/' by {
        assert(s[k] == IMAGE_TYPE_PREFIX@[k]);
    }
    lemma_after_first_slash_skip(s, 5);
    assert(s.skip(5)[0] == '/');
    assert(s.skip(5).drop_first() =~= e);
    lemma_until_slash_take(e, e.len() as int);
    assert(e.skip(e.len() as int).len() == 0);
    assert(e.take(e.len() as int) =~= e);
    assert(until_slash(e) =~= e);
}

/// Checks the content type of an uploaded image part: it must be present
/// (else `"Missing content type"`) and start with `"image/"` (else
/// `"Invalid file type: "` followed by the content type), both bad requests.
pub fn check_image_content_type(content_type: Option<&str>) -> (r: Result<(), AppError>)
    ensures
        match content_type {
            None => bad_request(r, MISSING_CONTENT_TYPE@),
            Some(ct) => if has_prefix(ct@, IMAGE_TYPE_PREFIX@) {
                r is Ok
            } else {
                bad_request(r, INVALID_FILE_TYPE@ + ct@)
            },
        },
{
    match content_type {
        None => Err(AppError::BadRequest(String::from_str(MISSING_CONTENT_TYPE))),
        Some(ct) => if starts_with(ct, IMAGE_TYPE_PREFIX) {
            Ok(())
        } else {
            Err(AppError::BadRequest(concat2(INVALID_FILE_TYPE, ct)))
        },
    }
}

/// The file name of an uploaded image: the id, a dot, and the extension.
pub fn image_file_name(id: &str, extension: &str) -> (name: String)
    ensures
        name@ == id@ + "."@ + extension@,
{
    concat3(id, ".", extension)
}

/// The decision on a single-image upload, given the content type of the first
/// part (`None` when the request has no part): the part must be an image
/// (see `check_image_content_type`), and it is stored under a fresh random id
/// with the extension its content type names.
pub fn plan_image_upload(first_part: Option<Option<&str>>) -> (r: Result<String, AppError>)
    ensures
        match first_part {
            None => bad_request(r, NO_FILE_UPLOADED@),
            Some(None) => bad_request(r, MISSING_CONTENT_TYPE@),
            Some(Some(ct)) => if has_prefix(ct@, IMAGE_TYPE_PREFIX@) {
                r matches Ok(name) && exists|id: Seq<char>|
                    is_uuid_text(id) && name@ == id + "."@ + #[trigger] extension_for(ct@)
            } else {
                bad_request(r, INVALID_FILE_TYPE@ + ct@)
            },
        },
{
    match first_part {
        None => Err(AppError::BadRequest(String::from_str(NO_FILE_UPLOADED))),
        Some(content_type) => {
            match check_image_content_type(content_type) {
                Err(e) => return Err(e),
                Ok(()) => {},
            }
            let ct = content_type.unwrap();
            let id = new_upload_id();
            let ext = image_extension(ct);
            Ok(image_file_name(id.as_str(), ext))
        },
    }
}

} // verus!
