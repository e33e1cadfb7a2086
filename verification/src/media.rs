//! Inline media (editor images and videos): accepted file types.

use vstd::prelude::*;
use crate::text::{debug_quote, debug_quoted, owned, str_eq, to_ascii_lower};
use crate::paths::path_extension;
use crate::member::lower_extension;

verus! {

#[derive(Debug)]
pub enum MediaCommands {
    /// Get a temporary view URL for an inline media item
    View {
        /// Inline media ID
        id: String,
        /// Request a download-disposition URL instead of inline display
        download: bool,
        /// Output as JSON
        json: bool,
    },
    /// Upload a local image/video as inline media for a goal's editor content
    Upload {
        /// Local file path (image or video)
        path: String,
        /// Organization ID (uses default if not specified)
        org: Option<String>,
        /// Goal ID the inline media belongs to
        goal: String,
        /// Output as JSON
        json: bool,
    },
}

/// The MIME type for an inline media extension, or the error for an unsupported one.
pub open spec fn guess_inline_media_content_type_for(ext: Option<Seq<char>>) -> Result<Seq<char>, Seq<char>> {
    match ext {
        Some(e) => if e == "jpg"@ || e == "jpeg"@ {
            Ok("image/jpeg"@)
        } else if e == "png"@ {
            Ok("image/png"@)
        } else if e == "gif"@ {
            Ok("image/gif"@)
        } else if e == "webp"@ {
            Ok("image/webp"@)
        } else if e == "mp4"@ {
            Ok("video/mp4"@)
        } else if e == "mov"@ {
            Ok("video/quicktime"@)
        } else if e == "webm"@ {
            Ok("video/webm"@)
        } else {
            Err("Unsupported file extension "@ + debug_quoted(e) + ". Inline media only accepts images (jpg/png/gif/webp) or videos (mp4/mov/webm)."@)
        },
        None => Err("Unsupported file extension "@ + debug_quoted("(none)"@) + ". Inline media only accepts images (jpg/png/gif/webp) or videos (mp4/mov/webm)."@),
    }
}

/// The MIME type of an inline media upload, from its extension; only images and videos are accepted.
pub fn guess_inline_media_content_type(path: &str) -> (r: Result<String, String>)
    ensures
        match guess_inline_media_content_type_for(lower_extension(path@)) {
            Ok(t) => r matches Ok(x) && x@ == t,
            Err(m) => r matches Err(x) && x@ == m,
        },
{
    match path_extension(path) {
        Some(e) => {
            let l = to_ascii_lower(e.as_str());
            let x = l.as_str();
            if str_eq(x, "jpg") || str_eq(x, "jpeg") {
                Ok(owned("image/jpeg"))
            } else if str_eq(x, "png") {
                Ok(owned("image/png"))
            } else if str_eq(x, "gif") {
                Ok(owned("image/gif"))
            } else if str_eq(x, "webp") {
                Ok(owned("image/webp"))
            } else if str_eq(x, "mp4") {
                Ok(owned("video/mp4"))
            } else if str_eq(x, "mov") {
                Ok(owned("video/quicktime"))
            } else if str_eq(x, "webm") {
                Ok(owned("video/webm"))
            } else {
                let mut m = owned("Unsupported file extension ");
                m.append(debug_quote(x).as_str());
                m.append(". Inline media only accepts images (jpg/png/gif/webp) or videos (mp4/mov/webm).");
                Err(m)
            }
        },
        None => {
            let mut m = owned("Unsupported file extension ");
            m.append(debug_quote("(none)").as_str());
            m.append(". Inline media only accepts images (jpg/png/gif/webp) or videos (mp4/mov/webm).");
            Err(m)
        },
    }
}

} // verus!
