use megalodon::entities::attachment::Attachment as CanonicalAttachment;
use megalodon::entities::attachment::AttachmentMeta as CanonicalMeta;
use megalodon::entities::attachment::AttachmentType as CanonicalType;
use megalodon::entities::attachment::Binary64;
use megalodon::entities::attachment::Focus as CanonicalFocus;
use megalodon::entities::attachment::MetaSub as CanonicalSub;
use megalodon::mastodon::entities::attachment::{
    Attachment, AttachmentMeta, AttachmentType, Focus, MetaSub,
};

fn number(value: f64) -> Binary64 {
    Binary64 { bits: value.to_bits() }
}

fn rendition(width: u32, height: u32) -> MetaSub {
    MetaSub {
        width,
        height,
        size: format!("{}x{}", width, height),
        aspect: number(width as f64 / height as f64),
        frame_rate: Some("30/1".to_string()),
        duration: Some(number(12.5)),
        bitrate: Some(128_000),
    }
}

fn full_meta() -> AttachmentMeta {
    AttachmentMeta {
        original: Some(rendition(640, 480)),
        small: Some(rendition(320, 240)),
        focus: Some(Focus { x: number(-0.25), y: number(0.5) }),
        length: Some("0:00:12.50".to_string()),
        duration: Some(number(12.5)),
        fps: Some(30),
        size: Some("640x480".to_string()),
        width: Some(640),
        height: Some(480),
        aspect: Some(number(1.3333333333333333)),
        audio_encode: Some("aac".to_string()),
        audio_bitrate: Some("44100 Hz".to_string()),
        audio_channel: Some("stereo".to_string()),
    }
}

#[test]
fn unknown_media_kind_falls_back() {
    assert_eq!(AttachmentType::from_str("sticker").unwrap(), AttachmentType::Unknown);
    let canonical: CanonicalType = AttachmentType::from_str("sticker").unwrap().into();
    assert_eq!(canonical, CanonicalType::Unknown);
}

#[test]
fn known_media_kinds_are_read() {
    assert_eq!(AttachmentType::from_str("image").unwrap(), AttachmentType::Image);
    assert_eq!(AttachmentType::from_str("gifv").unwrap(), AttachmentType::Gifv);
    assert_eq!(AttachmentType::from_str("video").unwrap(), AttachmentType::Video);
    assert_eq!(AttachmentType::from_str("audio").unwrap(), AttachmentType::Audio);
    assert_eq!(AttachmentType::from_str("unknown").unwrap(), AttachmentType::Unknown);
}

#[test]
fn media_kind_is_matched_case_sensitively() {
    assert_eq!(AttachmentType::from_str("Image").unwrap(), AttachmentType::Unknown);
    assert_eq!(AttachmentType::from_str("VIDEO").unwrap(), AttachmentType::Unknown);
    assert_eq!(AttachmentType::from_str("audio ").unwrap(), AttachmentType::Unknown);
    assert_eq!(AttachmentType::from_str(" gifv").unwrap(), AttachmentType::Unknown);
    assert_eq!(AttachmentType::from_str("imag").unwrap(), AttachmentType::Unknown);
    assert_eq!(AttachmentType::from_str("images").unwrap(), AttachmentType::Unknown);
}

#[test]
fn adversarial_media_kinds_are_unknown() {
    assert_eq!(AttachmentType::from_str("").unwrap(), AttachmentType::Unknown);
    assert_eq!(AttachmentType::from_str("\u{0}").unwrap(), AttachmentType::Unknown);
    assert_eq!(AttachmentType::from_str("imagé").unwrap(), AttachmentType::Unknown);
    assert_eq!(AttachmentType::from_str("👍").unwrap(), AttachmentType::Unknown);
    let long = "image".repeat(10_000);
    assert_eq!(AttachmentType::from_str(&long).unwrap(), AttachmentType::Unknown);
}

#[test]
fn media_kind_names() {
    assert_eq!(AttachmentType::Image.to_string(), "image");
    assert_eq!(AttachmentType::Gifv.to_string(), "gifv");
    assert_eq!(AttachmentType::Video.to_string(), "video");
    assert_eq!(AttachmentType::Audio.to_string(), "audio");
    assert_eq!(AttachmentType::Unknown.to_string(), "unknown");
}

#[test]
fn written_media_kind_is_read_back() {
    let kinds = [
        AttachmentType::Image,
        AttachmentType::Gifv,
        AttachmentType::Video,
        AttachmentType::Audio,
        AttachmentType::Unknown,
    ];
    for kind in kinds {
        assert_eq!(AttachmentType::from_str(&kind.to_string()).unwrap(), kind);
    }
}

#[test]
fn media_kinds_keep_their_meaning() {
    assert_eq!(CanonicalType::from(AttachmentType::Image), CanonicalType::Image);
    assert_eq!(CanonicalType::from(AttachmentType::Gifv), CanonicalType::Gifv);
    assert_eq!(CanonicalType::from(AttachmentType::Video), CanonicalType::Video);
    assert_eq!(CanonicalType::from(AttachmentType::Audio), CanonicalType::Audio);
    assert_eq!(CanonicalType::from(AttachmentType::Unknown), CanonicalType::Unknown);
}

#[test]
fn focus_is_carried_bit_for_bit() {
    let focus: CanonicalFocus = Focus { x: number(-0.25), y: number(0.5) }.into();
    assert_eq!(f64::from_bits(focus.x.bits), -0.25);
    assert_eq!(f64::from_bits(focus.y.bits), 0.5);
    let odd: CanonicalFocus = Focus { x: number(f64::NAN), y: number(-0.0) }.into();
    assert_eq!(odd.x.bits, f64::NAN.to_bits());
    assert_eq!(odd.y.bits, (-0.0f64).to_bits());
}

#[test]
fn rendition_is_carried_whole() {
    let sub: CanonicalSub = rendition(640, 480).into();
    assert_eq!(
        sub,
        CanonicalSub {
            width: 640,
            height: 480,
            size: "640x480".to_string(),
            aspect: number(640.0 / 480.0),
            frame_rate: Some("30/1".to_string()),
            duration: Some(number(12.5)),
            bitrate: Some(128_000),
        }
    );
}

#[test]
fn metadata_are_carried_whole() {
    let meta: CanonicalMeta = full_meta().into();
    assert_eq!(
        meta,
        CanonicalMeta {
            original: Some(CanonicalSub::from(rendition(640, 480))),
            small: Some(CanonicalSub::from(rendition(320, 240))),
            focus: Some(CanonicalFocus { x: number(-0.25), y: number(0.5) }),
            length: Some("0:00:12.50".to_string()),
            duration: Some(number(12.5)),
            fps: Some(30),
            size: Some("640x480".to_string()),
            width: Some(640),
            height: Some(480),
            aspect: Some(number(1.3333333333333333)),
            audio_encode: Some("aac".to_string()),
            audio_bitrate: Some("44100 Hz".to_string()),
            audio_channel: Some("stereo".to_string()),
        }
    );
}

#[test]
fn empty_metadata_stay_empty() {
    let meta: CanonicalMeta = AttachmentMeta {
        original: None,
        small: None,
        focus: None,
        length: None,
        duration: None,
        fps: None,
        size: None,
        width: None,
        height: None,
        aspect: None,
        audio_encode: None,
        audio_bitrate: None,
        audio_channel: None,
    }
    .into();
    assert_eq!(meta.original, None);
    assert_eq!(meta.small, None);
    assert_eq!(meta.focus, None);
    assert_eq!(meta.length, None);
    assert_eq!(meta.duration, None);
    assert_eq!(meta.fps, None);
    assert_eq!(meta.size, None);
    assert_eq!(meta.width, None);
    assert_eq!(meta.height, None);
    assert_eq!(meta.aspect, None);
    assert_eq!(meta.audio_encode, None);
    assert_eq!(meta.audio_bitrate, None);
    assert_eq!(meta.audio_channel, None);
}

#[test]
fn attachment_is_normalised() {
    let attachment = Attachment {
        id: "22345792".to_string(),
        kind: AttachmentType::from_str("video").unwrap(),
        url: "https://files.example/movie.mp4".to_string(),
        remote_url: Some("https://remote.example/movie.mp4".to_string()),
        preview_url: "https://files.example/small.png".to_string(),
        text_url: Some("https://example/media/abc".to_string()),
        meta: Some(full_meta()),
        description: Some("a cat".to_string()),
        blurhash: Some("UFBWY:8_0Jxv4mx]t8t64.%M-:IUWGWAt6M}".to_string()),
    };
    let canonical: CanonicalAttachment = attachment.into();
    assert_eq!(canonical.id, "22345792");
    assert_eq!(canonical.kind, CanonicalType::Video);
    assert_eq!(canonical.url, "https://files.example/movie.mp4");
    assert_eq!(canonical.remote_url, Some("https://remote.example/movie.mp4".to_string()));
    assert_eq!(canonical.preview_url, Some("https://files.example/small.png".to_string()));
    assert_eq!(canonical.text_url, Some("https://example/media/abc".to_string()));
    assert_eq!(canonical.meta, Some(CanonicalMeta::from(full_meta())));
    assert_eq!(canonical.description, Some("a cat".to_string()));
    assert_eq!(
        canonical.blurhash,
        Some("UFBWY:8_0Jxv4mx]t8t64.%M-:IUWGWAt6M}".to_string())
    );
}

#[test]
fn attachment_of_unknown_kind_is_normalised() {
    let attachment = Attachment {
        id: "1".to_string(),
        kind: AttachmentType::from_str("sticker").unwrap(),
        url: "https://files.example/1".to_string(),
        remote_url: None,
        preview_url: String::new(),
        text_url: None,
        meta: None,
        description: None,
        blurhash: None,
    };
    let canonical = CanonicalAttachment::from(attachment);
    assert_eq!(
        canonical,
        CanonicalAttachment {
            id: "1".to_string(),
            kind: CanonicalType::Unknown,
            url: "https://files.example/1".to_string(),
            remote_url: None,
            preview_url: Some(String::new()),
            text_url: None,
            meta: None,
            description: None,
            blurhash: None,
        }
    );
}
