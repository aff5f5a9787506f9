//! Mastodon media attachments.

use crate::entities::attachment::Attachment as CanonicalAttachment;
use crate::entities::attachment::AttachmentMeta as CanonicalMeta;
use crate::entities::attachment::AttachmentType as CanonicalType;
use crate::entities::attachment::Binary64;
use crate::entities::attachment::Focus as CanonicalFocus;
use crate::entities::attachment::MetaSub as CanonicalSub;
use crate::error::Error;
use crate::text::str_eq;
use vstd::prelude::*;
use vstd::std_specs::convert::FromSpecImpl;

verus! {

/// A media attachment as Mastodon reports it.
#[derive(Debug, Clone, PartialEq, Eq)]
pub struct Attachment {
    pub id: String,
    pub kind: AttachmentType,
    pub url: String,
    pub remote_url: Option<String>,
    pub preview_url: String,
    pub text_url: Option<String>,
    pub meta: Option<AttachmentMeta>,
    pub description: Option<String>,
    pub blurhash: Option<String>,
}

/// What Mastodon tells of the medium itself.
#[derive(Debug, Clone, PartialEq, Eq)]
pub struct AttachmentMeta {
    pub original: Option<MetaSub>,
    pub small: Option<MetaSub>,
    pub focus: Option<Focus>,
    pub length: Option<String>,
    pub duration: Option<Binary64>,
    pub fps: Option<u32>,
    pub size: Option<String>,
    pub width: Option<u32>,
    pub height: Option<u32>,
    pub aspect: Option<Binary64>,
    pub audio_encode: Option<String>,
    pub audio_bitrate: Option<String>,
    pub audio_channel: Option<String>,
}

/// The measures of one rendition of a medium.
#[derive(Debug, Clone, PartialEq, Eq)]
pub struct MetaSub {
    // For Image, Gifv, Video
    pub width: u32,
    pub height: u32,
    pub size: String,
    pub aspect: Binary64,
    // For Gifv, Video
    pub frame_rate: Option<String>,
    // For Audio, Gifv, Video
    pub duration: Option<Binary64>,
    pub bitrate: Option<u32>,
}

/// The point of an image that should stay visible when it is cropped.
#[derive(Debug, Clone, Copy, PartialEq, Eq, Structural)]
pub struct Focus {
    pub x: Binary64,
    pub y: Binary64,
}

/// The kind of medium, as Mastodon names it.
#[derive(Debug, Clone, Copy, PartialEq, Eq, Structural)]
pub enum AttachmentType {
    Image,
    Gifv,
    Video,
    Audio,
    Unknown,
}

impl AttachmentType {
    /// The name of the kind on the wire.
    pub open spec fn name(self) -> Seq<char> {
        match self {
            AttachmentType::Image => "image"@,
            AttachmentType::Gifv => "gifv"@,
            AttachmentType::Video => "video"@,
            AttachmentType::Audio => "audio"@,
            AttachmentType::Unknown => "unknown"@,
        }
    }

    /// The kind that a name on the wire stands for. The four known names are
    /// matched character by character, upper and lower case apart; every other
    /// text stands for `Unknown`.
    pub open spec fn parse(s: Seq<char>) -> AttachmentType {
        if s == "image"@ {
            AttachmentType::Image
        } else if s == "gifv"@ {
            AttachmentType::Gifv
        } else if s == "video"@ {
            AttachmentType::Video
        } else if s == "audio"@ {
            AttachmentType::Audio
        } else {
            AttachmentType::Unknown
        }
    }

    /// The canonical kind that stands for this one.
    pub open spec fn canonical(self) -> CanonicalType {
        match self {
            AttachmentType::Image => CanonicalType::Image,
            AttachmentType::Gifv => CanonicalType::Gifv,
            AttachmentType::Video => CanonicalType::Video,
            AttachmentType::Audio => CanonicalType::Audio,
            AttachmentType::Unknown => CanonicalType::Unknown,
        }
    }

    /// The name of the kind on the wire, as a string.
    pub fn to_string(&self) -> (text: String)
        ensures
            text@ == self.name(),
    {
        match self {
            AttachmentType::Image => "image".to_owned(),
            AttachmentType::Gifv => "gifv".to_owned(),
            AttachmentType::Video => "video".to_owned(),
            AttachmentType::Audio => "audio".to_owned(),
            AttachmentType::Unknown => "unknown".to_owned(),
        }
    }

    /// Reads the kind from its name on the wire. It never fails: a text that
    /// is none of the known names gives `Unknown`.
    pub fn from_str(s: &str) -> (kind: Result<AttachmentType, Error>)
        ensures
            kind == Ok::<AttachmentType, Error>(AttachmentType::parse(s@)),
    {
        if str_eq(s, "image") {
            Ok(AttachmentType::Image)
        } else if str_eq(s, "gifv") {
            Ok(AttachmentType::Gifv)
        } else if str_eq(s, "video") {
            Ok(AttachmentType::Video)
        } else if str_eq(s, "audio") {
            Ok(AttachmentType::Audio)
        } else {
            Ok(AttachmentType::Unknown)
        }
    }
}

/// Writing a kind and reading it back gives the kind.
pub proof fn law_a_written_kind_is_read_back(kind: AttachmentType)
    ensures
        AttachmentType::parse(kind.name()) == kind,
{
    reveal_strlit("image");
    reveal_strlit("gifv");
    reveal_strlit("video");
    reveal_strlit("audio");
    reveal_strlit("unknown");
    assert("image"@.len() == 5 && "image"@[0] == 'i');
    assert("gifv"@.len() == 4);
    assert("video"@.len() == 5 && "video"@[0] == 'v');
    assert("audio"@.len() == 5 && "audio"@[0] == 'a');
    assert("unknown"@.len() == 7);
}

/// Reading never fails, and only the four names are read as a kind of their
/// own: a text that is read as anything but `Unknown` is the name of what it
/// is read as. So every other text, whatever it holds, is read as `Unknown`.
pub proof fn law_every_other_text_is_unknown(s: Seq<char>)
    ensures
        AttachmentType::parse(s) != AttachmentType::Unknown ==> s == AttachmentType::parse(
            s,
        ).name(),
        s != "image"@ && s != "gifv"@ && s != "video"@ && s != "audio"@ ==> AttachmentType::parse(s)
            == AttachmentType::Unknown,
{
}

/// No two kinds share a name.
pub proof fn law_kinds_differ_in_name(a: AttachmentType, b: AttachmentType)
    ensures
        a.name() == b.name() ==> a == b,
{
    law_a_written_kind_is_read_back(a);
    law_a_written_kind_is_read_back(b);
}

impl From<AttachmentType> for CanonicalType {
    fn from(val: AttachmentType) -> (kind: CanonicalType)
        ensures
            kind == val.canonical(),
    {
        match val {
            AttachmentType::Image => CanonicalType::Image,
            AttachmentType::Gifv => CanonicalType::Gifv,
            AttachmentType::Video => CanonicalType::Video,
            AttachmentType::Audio => CanonicalType::Audio,
            AttachmentType::Unknown => CanonicalType::Unknown,
        }
    }
}

impl FromSpecImpl<AttachmentType> for CanonicalType {
    open spec fn obeys_from_spec() -> bool {
        true
    }

    open spec fn from_spec(val: AttachmentType) -> CanonicalType {
        val.canonical()
    }
}

impl Focus {
    /// The canonical focus that stands for this one.
    pub open spec fn canonical(self) -> CanonicalFocus {
        CanonicalFocus { x: self.x, y: self.y }
    }
}

impl From<Focus> for CanonicalFocus {
    fn from(val: Focus) -> (focus: CanonicalFocus)
        ensures
            focus == val.canonical(),
    {
        CanonicalFocus { x: val.x, y: val.y }
    }
}

impl FromSpecImpl<Focus> for CanonicalFocus {
    open spec fn obeys_from_spec() -> bool {
        true
    }

    open spec fn from_spec(val: Focus) -> CanonicalFocus {
        val.canonical()
    }
}

impl MetaSub {
    /// The canonical measures that stand for these.
    pub open spec fn canonical(self) -> CanonicalSub {
        CanonicalSub {
            width: self.width,
            height: self.height,
            size: self.size,
            aspect: self.aspect,
            frame_rate: self.frame_rate,
            duration: self.duration,
            bitrate: self.bitrate,
        }
    }
}

impl From<MetaSub> for CanonicalSub {
    fn from(val: MetaSub) -> (sub: CanonicalSub)
        ensures
            sub == val.canonical(),
    {
        CanonicalSub {
            width: val.width,
            height: val.height,
            size: val.size,
            aspect: val.aspect,
            frame_rate: val.frame_rate,
            duration: val.duration,
            bitrate: val.bitrate,
        }
    }
}

impl FromSpecImpl<MetaSub> for CanonicalSub {
    open spec fn obeys_from_spec() -> bool {
        true
    }

    open spec fn from_spec(val: MetaSub) -> CanonicalSub {
        val.canonical()
    }
}

/// The canonical measures that stand for optional ones.
pub open spec fn canonical_sub(sub: Option<MetaSub>) -> Option<CanonicalSub> {
    match sub {
        Some(s) => Some(s.canonical()),
        None => None,
    }
}

impl AttachmentMeta {
    /// The canonical metadata that stand for these: every part is kept.
    pub open spec fn canonical(self) -> CanonicalMeta {
        CanonicalMeta {
            original: canonical_sub(self.original),
            small: canonical_sub(self.small),
            focus: match self.focus {
                Some(f) => Some(f.canonical()),
                None => None,
            },
            length: self.length,
            duration: self.duration,
            fps: self.fps,
            size: self.size,
            width: self.width,
            height: self.height,
            aspect: self.aspect,
            audio_encode: self.audio_encode,
            audio_bitrate: self.audio_bitrate,
            audio_channel: self.audio_channel,
        }
    }
}

impl From<AttachmentMeta> for CanonicalMeta {
    fn from(val: AttachmentMeta) -> (meta: CanonicalMeta)
        ensures
            meta == val.canonical(),
    {
        CanonicalMeta {
            original: match val.original {
                Some(s) => Some(CanonicalSub::from(s)),
                None => None,
            },
            small: match val.small {
                Some(s) => Some(CanonicalSub::from(s)),
                None => None,
            },
            focus: match val.focus {
                Some(f) => Some(CanonicalFocus::from(f)),
                None => None,
            },
            length: val.length,
            duration: val.duration,
            fps: val.fps,
            size: val.size,
            width: val.width,
            height: val.height,
            aspect: val.aspect,
            audio_encode: val.audio_encode,
            audio_bitrate: val.audio_bitrate,
            audio_channel: val.audio_channel,
        }
    }
}

impl FromSpecImpl<AttachmentMeta> for CanonicalMeta {
    open spec fn obeys_from_spec() -> bool {
        true
    }

    open spec fn from_spec(val: AttachmentMeta) -> CanonicalMeta {
        val.canonical()
    }
}

impl Attachment {
    /// The canonical attachment that stands for this one. Mastodon always
    /// gives a preview; the canonical attachment holds it as present.
    pub open spec fn canonical(self) -> CanonicalAttachment {
        CanonicalAttachment {
            id: self.id,
            kind: self.kind.canonical(),
            url: self.url,
            remote_url: self.remote_url,
            preview_url: Some(self.preview_url),
            text_url: self.text_url,
            meta: match self.meta {
                Some(m) => Some(m.canonical()),
                None => None,
            },
            description: self.description,
            blurhash: self.blurhash,
        }
    }
}

impl From<Attachment> for CanonicalAttachment {
    fn from(val: Attachment) -> (attachment: CanonicalAttachment)
        ensures
            attachment == val.canonical(),
    {
        CanonicalAttachment {
            id: val.id,
            kind: CanonicalType::from(val.kind),
            url: val.url,
            remote_url: val.remote_url,
            preview_url: Some(val.preview_url),
            text_url: val.text_url,
            meta: match val.meta {
                Some(m) => Some(CanonicalMeta::from(m)),
                None => None,
            },
            description: val.description,
            blurhash: val.blurhash,
        }
    }
}

impl FromSpecImpl<Attachment> for CanonicalAttachment {
    open spec fn obeys_from_spec() -> bool {
        true
    }

    open spec fn from_spec(val: Attachment) -> CanonicalAttachment {
        val.canonical()
    }
}

} // verus!
