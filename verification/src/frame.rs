//! The frame decoders: the 10-byte frame header with its identifier, size
//! and flag bytes, and the body decoder that dispatches on the identifier.
//!
//! A frame consists of a frame header followed by the fields that hold the
//! actual information. The header's layout:
//!
//!   Frame ID   $xx xx xx xx  (four characters)
//!   Size       $xx xx xx xx  (synchsafe)
//!   Flags      $xx xx

use vstd::prelude::*;
use crate::error::ParseError;
use crate::text;
use crate::util;
use vstd::slice::slice_subrange;

verus! {

/// The six frame flag bits. The two preservation flags are inverted in the
/// byte stream: a set bit there means "discard", so a clear bit decodes to
/// `true` here. The remaining four are direct: a set bit means the flag
/// holds. The asymmetry is the format's own and must not be "fixed".
#[derive(Clone, Copy, Debug, PartialEq, Eq, Structural)]
pub struct Flags {
    /// Byte 8, bit 7 clear: keep the frame when the tag is altered.
    pub preserve_frame_if_tag_altered: bool,
    /// Byte 8, bit 6 clear: keep the frame when the file is altered.
    pub preserve_frame_if_file_altered: bool,
    /// Byte 8, bit 5 set: the frame is read-only.
    pub frame_read_only: bool,
    /// Byte 9, bit 7 set: the body is compressed.
    pub frame_compressed: bool,
    /// Byte 9, bit 6 set: the body is encrypted.
    pub frame_encrypted: bool,
    /// Byte 9, bit 5 set: the frame is grouped with others.
    pub grouped_with_other_frames: bool,
}

/// The frame flags decoded from the header's two flag bytes.
pub open spec fn spec_flags(b8: u8, b9: u8) -> Flags {
    Flags {
        preserve_frame_if_tag_altered: b8 & 0x80 == 0,
        preserve_frame_if_file_altered: b8 & 0x40 == 0,
        frame_read_only: b8 & 0x20 != 0,
        frame_compressed: b9 & 0x80 != 0,
        frame_encrypted: b9 & 0x40 != 0,
        grouped_with_other_frames: b9 & 0x20 != 0,
    }
}

impl Flags {
    /// Decodes the two flag bytes of a frame header.
    pub fn new(flag_bytes: Vec<u8>) -> (f: Flags)
        requires
            flag_bytes@.len() >= 2,
        ensures
            f == spec_flags(flag_bytes@[0], flag_bytes@[1]),
    {
        Flags {
            preserve_frame_if_tag_altered: (flag_bytes[0] & 0x80) == 0,
            preserve_frame_if_file_altered: (flag_bytes[0] & 0x40) == 0,
            frame_read_only: (flag_bytes[0] & 0x20) != 0,
            frame_compressed: (flag_bytes[1] & 0x80) != 0,
            frame_encrypted: (flag_bytes[1] & 0x40) != 0,
            grouped_with_other_frames: (flag_bytes[1] & 0x20) != 0,
        }
    }
}

/// The mathematical content of a frame header: the identifier's characters,
/// the declared body size and the flags.
pub struct FrameHeaderView {
    pub id: Seq<char>,
    pub size: u32,
    pub flags: Flags,
}

impl FrameHeaderView {
    /// A decoded frame header holds a 4-character ASCII identifier whose
    /// first character is not the padding marker, and a synchsafe size.
    pub open spec fn wf(self) -> bool {
        &&& self.id.len() == 4
        &&& forall|i: int| 0 <= i < 4 ==> (self.id[i] as u32) < 0x80
        &&& self.id[0] as u32 != 0
        &&& self.size < 0x1000_0000
    }
}

/// A decoded 10-byte frame header.
#[derive(Debug)]
pub struct FrameHeader {
    /// Four ASCII characters naming the frame.
    pub id: String,
    /// The byte length of the body that follows the header.
    pub size: u32,
    /// The two decoded flag bytes.
    pub flags: Flags,
}

impl View for FrameHeader {
    type V = FrameHeaderView;

    open spec fn view(&self) -> FrameHeaderView {
        FrameHeaderView { id: self.id@, size: self.size, flags: self.flags }
    }
}

/// Whether the four identifier bytes are ASCII.
pub open spec fn frame_id_ascii(s: Seq<u8>) -> bool {
    forall|i: int| 0 <= i < 4 ==> s[i] < 0x80
}

/// The identifier characters of a frame header's first four bytes.
pub open spec fn spec_frame_id_chars(s: Seq<u8>) -> Seq<char> {
    text::latin1_chars(s.subrange(0, 4))
}

/// What 10 frame header bytes decode to: the padding marker when the first
/// byte is zero; refused when the identifier is not ASCII; the header's
/// fields otherwise.
pub open spec fn spec_frame_header(s: Seq<u8>) -> Result<Option<FrameHeaderView>, ParseError>
    recommends
        s.len() == 10,
{
    if s[0] == 0 {
        Ok(None)
    } else if !frame_id_ascii(s) {
        Err(ParseError::InvalidEncoding)
    } else {
        Ok(
            Some(
                FrameHeaderView {
                    id: spec_frame_id_chars(s),
                    size: util::synchsafe_decoded(s.subrange(4, 8)),
                    flags: spec_flags(s[8], s[9]),
                },
            ),
        )
    }
}

impl FrameHeader {
    /// Decodes a 10-byte frame header per [`spec_frame_header`]: `Ok(None)`
    /// signals padding, the conventional end of the frames before the tag's
    /// declared boundary.
    pub fn new(header_bytes: [u8; 10]) -> (r: Result<Option<FrameHeader>, ParseError>)
        ensures
            (match r {
                Ok(Some(h)) => spec_frame_header(header_bytes@) == Ok::<
                    Option<FrameHeaderView>,
                    ParseError,
                >(Some(h@)) && h@.wf(),
                Ok(None) => spec_frame_header(header_bytes@) == Ok::<
                    Option<FrameHeaderView>,
                    ParseError,
                >(None),
                Err(e) => spec_frame_header(header_bytes@) == Err::<
                    Option<FrameHeaderView>,
                    ParseError,
                >(e),
            }),
    {
        if header_bytes[0] == 0 {
            return Ok(None);
        }
        if header_bytes[0] >= 0x80 || header_bytes[1] >= 0x80 || header_bytes[2] >= 0x80
            || header_bytes[3] >= 0x80 {
            return Err(ParseError::InvalidEncoding);
        }
        let id = text::latin1_to_string(slice_subrange(header_bytes.as_slice(), 0, 4));
        let size = util::calculate_size(slice_subrange(header_bytes.as_slice(), 4, 8));
        let flags = Flags::new(vec![header_bytes[8], header_bytes[9]]);
        let h = FrameHeader { id, size, flags };
        proof {
            assert(frame_id_ascii(header_bytes@));
            assert(h@.id =~= spec_frame_id_chars(header_bytes@));
        }
        Ok(Some(h))
    }
}

/// A decoded frame body: the text of a text-information frame, or the raw
/// bytes of any other frame.
#[derive(Debug)]
pub enum FrameType {
    Text(String),
    Opaque(Vec<u8>),
}

/// The mathematical content of a frame body.
pub enum FrameBodyView {
    Text(Seq<char>),
    Opaque(Seq<u8>),
}

impl View for FrameType {
    type V = FrameBodyView;

    open spec fn view(&self) -> FrameBodyView {
        match self {
            FrameType::Text(s) => FrameBodyView::Text(s@),
            FrameType::Opaque(v) => FrameBodyView::Opaque(v@),
        }
    }
}

/// One decoded frame: its header, its body, and whether the body still needs
/// a transformation (decompression or decryption) before it can be read.
#[derive(Debug)]
pub struct Frame {
    pub header: FrameHeader,
    pub body: FrameType,
    pub needs_transform: bool,
}

/// The mathematical content of a frame.
pub struct FrameView {
    pub header: FrameHeaderView,
    pub body: FrameBodyView,
    pub needs_transform: bool,
}

impl View for Frame {
    type V = FrameView;

    open spec fn view(&self) -> FrameView {
        FrameView { header: self.header@, body: self.body@, needs_transform: self.needs_transform }
    }
}

/// What a frame header plus its body bytes decode to. An identifier starting
/// with `T` names a text-information frame, whose body is decoded as text —
/// unless the body is compressed or encrypted, in which case it is kept as
/// raw bytes and the frame is marked as needing a transformation, since
/// interpreting such bytes as text would silently produce garbage.
pub open spec fn spec_decode_frame(h: FrameHeaderView, body: Seq<u8>) -> Result<
    FrameView,
    ParseError,
>
    recommends
        h.wf(),
        body.len() == h.size,
{
    let transform = h.flags.frame_compressed || h.flags.frame_encrypted;
    if h.id.len() > 0 && h.id[0] == 'T' && !transform {
        match text::spec_decode_text_body(body) {
            Ok(chars) => Ok(
                FrameView { header: h, body: FrameBodyView::Text(chars), needs_transform: false },
            ),
            Err(e) => Err(e),
        }
    } else {
        Ok(FrameView { header: h, body: FrameBodyView::Opaque(body), needs_transform: transform })
    }
}

impl Frame {
    /// Decodes a frame from its header and exactly `header.size` body bytes,
    /// per [`spec_decode_frame`].
    pub fn new(header: FrameHeader, contents_bytes: Vec<u8>) -> (r: Result<Frame, ParseError>)
        requires
            header@.wf(),
            contents_bytes@.len() == header@.size,
        ensures
            (match r {
                Ok(f) => spec_decode_frame(header@, contents_bytes@) == Ok::<
                    FrameView,
                    ParseError,
                >(f@),
                Err(e) => spec_decode_frame(header@, contents_bytes@) == Err::<
                    FrameView,
                    ParseError,
                >(e),
            }),
    {
        let transform = header.flags.frame_compressed || header.flags.frame_encrypted;
        let first = header.id.as_str().get_char(0);
        if first == 'T' && !transform {
            match text::decode_text_body(contents_bytes.as_slice()) {
                Ok(s) => Ok(
                    Frame { header, body: FrameType::Text(s), needs_transform: false },
                ),
                Err(e) => Err(e),
            }
        } else {
            Ok(Frame { header, body: FrameType::Opaque(contents_bytes), needs_transform: transform })
        }
    }
}

} // verus!
