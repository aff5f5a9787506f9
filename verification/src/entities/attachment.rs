//! The canonical media attachment.

use vstd::prelude::*;

verus! {

/// A number in IEEE 754 binary64 form, held as its bit pattern. The library
/// carries such numbers and does no arithmetic on them.
#[derive(Debug, Clone, Copy, PartialEq, Eq, Structural)]
pub struct Binary64 {
    pub bits: u64,
}

/// The kind of medium that an attachment holds.
#[derive(Debug, Clone, Copy, PartialEq, Eq, Structural)]
pub enum AttachmentType {
    Image,
    Gifv,
    Video,
    Audio,
    Unknown,
}

/// A media file attached to a post.
#[derive(Debug, Clone, PartialEq, Eq)]
pub struct Attachment {
    pub id: String,
    pub kind: AttachmentType,
    pub url: String,
    pub remote_url: Option<String>,
    pub preview_url: Option<String>,
    pub text_url: Option<String>,
    pub meta: Option<AttachmentMeta>,
    pub description: Option<String>,
    pub blurhash: Option<String>,
}

/// What is known of the medium itself; which parts are present depends on its
/// kind.
#[derive(Debug, Clone, PartialEq, Eq)]
pub struct AttachmentMeta {
    pub original: Option<MetaSub>,
    pub small: Option<MetaSub>,
    pub focus: Option<Focus>,
    pub length: Option<String>,
    pub duration: Option<Binary64>,
    pub fps: Option<u32>,
    pub size: Option<String>,
    pub width: Option<u32>,
    pub height: Option<u32>,
    pub aspect: Option<Binary64>,
    pub audio_encode: Option<String>,
    pub audio_bitrate: Option<String>,
    pub audio_channel: Option<String>,
}

/// The measures of one rendition of a medium.
#[derive(Debug, Clone, PartialEq, Eq)]
pub struct MetaSub {
    pub width: u32,
    pub height: u32,
    pub size: String,
    pub aspect: Binary64,
    pub frame_rate: Option<String>,
    pub duration: Option<Binary64>,
    pub bitrate: Option<u32>,
}

/// The point of an image that should stay visible when it is cropped.
#[derive(Debug, Clone, Copy, PartialEq, Eq, Structural)]
pub struct Focus {
    pub x: Binary64,
    pub y: Binary64,
}

} // verus!
