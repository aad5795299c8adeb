//! Turning a picked file into an attachment.
use vstd::prelude::*;
use crate::encoding::{base64, base64_encode};
use crate::message::Attachment;
use crate::text::str_eq;

verus! {

/// Why a file cannot be attached.
#[derive(Debug, Clone, Copy, PartialEq, Eq, Structural)]
pub enum AttachmentError {
    /// The file is larger than five mebibytes; its size in bytes.
    TooLarge(usize),
    /// The file's extension names no supported image type.
    UnsupportedType,
}

/// The largest file that can be attached, in bytes.
pub const MAX_ATTACHMENT_BYTES: usize = 5242880;

/// The image type named by a file extension, if it is a supported one.
pub open spec fn mime_for(ext: Option<Seq<char>>) -> Option<Seq<char>> {
    match ext {
        Some(e) => if e == "png"@ {
            Some("image/png"@)
        } else if e == "jpg"@ || e == "jpeg"@ {
            Some("image/jpeg"@)
        } else if e == "gif"@ {
            Some("image/gif"@)
        } else if e == "webp"@ {
            Some("image/webp"@)
        } else {
            None
        },
        None => None,
    }
}

/// The name an attachment gets: the file's name, or `unknown`.
pub open spec fn name_for(file_name: Option<Seq<char>>) -> Seq<char> {
    match file_name {
        Some(n) => n,
        None => "unknown"@,
    }
}

/// The characters of an optional text.
pub open spec fn opt_seq(s: Option<&str>) -> Option<Seq<char>> {
    match s {
        Some(x) => Some(x@),
        None => None,
    }
}

/// What building an attachment gives for a file with contents `data`,
/// extension `ext` and name `name`.
pub open spec fn attachment_outcome(
    data: Seq<u8>,
    ext: Option<Seq<char>>,
    name: Option<Seq<char>>,
    r: Result<Attachment, AttachmentError>,
) -> bool {
    if data.len() > MAX_ATTACHMENT_BYTES {
        r == Err::<Attachment, AttachmentError>(AttachmentError::TooLarge(data.len() as usize))
    } else if mime_for(ext) is None {
        r == Err::<Attachment, AttachmentError>(AttachmentError::UnsupportedType)
    } else {
        r matches Ok(a) && a.mime_type@ == mime_for(ext)->0 && a.filename@ == name_for(name)
            && a.base64_data@ == base64(data) && a.size == data.len()
    }
}

/// Builds the attachment for a file with contents `data`, extension
/// `extension` and name `file_name`. A file over the size limit is refused
/// first; then one whose extension is not `png`, `jpg`, `jpeg`, `gif` or
/// `webp`.
pub fn prepare_attachment(data: &[u8], extension: Option<&str>, file_name: Option<&str>) -> (r:
    Result<Attachment, AttachmentError>)
    ensures
        attachment_outcome(data@, opt_seq(extension), opt_seq(file_name), r),
{
    let size = data.len();
    if size > MAX_ATTACHMENT_BYTES {
        return Err(AttachmentError::TooLarge(size));
    }
    let mime: &str = match extension {
        Some(e) => {
            if str_eq(e, "png") {
                "image/png"
            } else if str_eq(e, "jpg") || str_eq(e, "jpeg") {
                "image/jpeg"
            } else if str_eq(e, "gif") {
                "image/gif"
            } else if str_eq(e, "webp") {
                "image/webp"
            } else {
                return Err(AttachmentError::UnsupportedType);
            }
        },
        None => {
            return Err(AttachmentError::UnsupportedType);
        },
    };
    let base64_data = base64_encode(data);
    let filename = match file_name {
        Some(n) => String::from_str(n),
        None => String::from_str("unknown"),
    };
    Ok(Attachment { filename, mime_type: String::from_str(mime), base64_data, size })
}

} // verus!
