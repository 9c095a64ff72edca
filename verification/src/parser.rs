//! The frame sequence walker: starting immediately past the tag header it
//! decodes one frame after another, advancing by each frame's declared size,
//! and stops at the tag boundary, at a padding marker, or on the first
//! failure — keeping the frames already decoded either way.

use vstd::prelude::*;
use crate::error::ParseError;
use crate::frame::{spec_decode_frame, spec_frame_header, Frame, FrameHeader, FrameView};
use crate::header::{decode_tag_header, spec_header, Header};
use crate::spec_is_id3v2;
use vstd::slice::{slice_subrange, slice_to_vec};

verus! {

/// What a walk of the frame data yields: the decoded frames in file order,
/// the error that stopped the walk if one did, and the offset of the first
/// byte the walk did not consume.
pub struct WalkView {
    pub frames: Seq<FrameView>,
    pub error: Option<ParseError>,
    pub cursor: int,
}

/// One walk step per recursive call: with no room left in the declared tag
/// size the walk is done; with fewer than 10 bytes left in the input the
/// walk fails truncated; a zero first byte is the padding marker ending the
/// walk; a frame claiming to run past the tag boundary fails oversized; a
/// body running past the input fails truncated; otherwise the decoded frame
/// is prepended to the walk of what follows it.
pub open spec fn spec_walk(data: Seq<u8>, cursor: int, remaining: int) -> WalkView
    decreases remaining,
{
    if remaining <= 0 {
        WalkView { frames: Seq::empty(), error: None, cursor }
    } else if data.len() < cursor + 10 {
        WalkView { frames: Seq::empty(), error: Some(ParseError::TruncatedInput), cursor }
    } else {
        match spec_frame_header(data.subrange(cursor, cursor + 10)) {
            Err(e) => WalkView { frames: Seq::empty(), error: Some(e), cursor },
            Ok(None) => WalkView { frames: Seq::empty(), error: None, cursor },
            Ok(Some(h)) => {
                if 10 + h.size > remaining {
                    WalkView {
                        frames: Seq::empty(),
                        error: Some(ParseError::OversizedFrame),
                        cursor,
                    }
                } else if data.len() < cursor + 10 + h.size {
                    WalkView {
                        frames: Seq::empty(),
                        error: Some(ParseError::TruncatedInput),
                        cursor,
                    }
                } else {
                    match spec_decode_frame(
                        h,
                        data.subrange(cursor + 10, cursor + 10 + h.size),
                    ) {
                        Err(e) => WalkView { frames: Seq::empty(), error: Some(e), cursor },
                        Ok(f) => {
                            let rest = spec_walk(
                                data,
                                cursor + 10 + h.size,
                                remaining - 10 - h.size,
                            );
                            WalkView {
                                frames: seq![f] + rest.frames,
                                error: rest.error,
                                cursor: rest.cursor,
                            }
                        },
                    }
                }
            },
        }
    }
}

/// The walk of a whole tag: from offset 10, with the budget the tag header
/// declares.
pub open spec fn walk_of(data: Seq<u8>) -> WalkView
    recommends
        data.len() >= 10,
{
    spec_walk(data, 10, spec_header(data).tag_length as int)
}

/// Frames already decoded, followed by the rest of a walk.
pub open spec fn walk_after(acc: Seq<FrameView>, w: WalkView) -> WalkView {
    WalkView { frames: acc + w.frames, error: w.error, cursor: w.cursor }
}

/// A decoded tag: its header and its frames in file order.
#[derive(Debug)]
pub struct SongMetadata {
    pub header: Header,
    pub frames: Vec<Frame>,
}

impl SongMetadata {
    /// A tag with its header and no frames yet.
    pub fn new(header: Header) -> (m: SongMetadata)
        ensures
            m.header == header,
            m.frames@.len() == 0,
    {
        SongMetadata { header, frames: Vec::new() }
    }
}

/// What a walk over a well-formed tag header produced: the tag, and the
/// error that stopped the walk early if one did. The frames decoded before
/// a failure are kept: a caller may still want the partial metadata.
#[derive(Debug)]
pub struct ParseOutcome {
    pub tag: SongMetadata,
    pub error: Option<ParseError>,
}

/// The walker's cursor state: the offset of the next unread byte and the
/// length of frame data the last parsed tag header declared.
pub struct Parser {
    pub current_position: usize,
    pub length_of_data: usize,
}

impl Parser {
    /// A parser that has not read anything yet.
    pub fn new() -> (p: Parser)
        ensures
            p.current_position == 0,
            p.length_of_data == 0,
    {
        Parser { current_position: 0, length_of_data: 0 }
    }

    /// Parses one tag from the given bytes: the 10-byte tag header, then the
    /// frame walk. Refused outright, with no tag, when the input is shorter
    /// than a tag header or does not carry the magic; otherwise the outcome
    /// holds exactly the frames of [`walk_of`], and the error that stopped
    /// the walk where one did.
    #[verifier::loop_isolation(false)]
    pub fn parse(&mut self, data: &Vec<u8>) -> (r: Result<ParseOutcome, ParseError>)
        ensures
            (match r {
                Ok(out) => {
                    &&& data@.len() >= 10
                    &&& spec_is_id3v2(data@)
                    &&& out.tag.header == spec_header(data@)
                    &&& out.tag.frames@.map_values(|f: Frame| f@) == walk_of(data@).frames
                    &&& out.error == walk_of(data@).error
                    &&& final(self).length_of_data == spec_header(data@).tag_length as usize
                    &&& final(self).current_position as int == walk_of(data@).cursor
                },
                Err(e) => {
                    &&& *final(self) == *old(self)
                    &&& (e == ParseError::TruncatedInput <==> data@.len() < 10)
                    &&& (e == ParseError::InvalidMagic <==> data@.len() >= 10 && !spec_is_id3v2(
                        data@,
                    ))
                },
            }),
            r is Err <==> (data@.len() < 10 || !spec_is_id3v2(data@)),
    {
        let header = match decode_tag_header(data) {
            Ok(h) => h,
            Err(e) => {
                return Err(e);
            },
        };
        let tag_len = header.tag_length;
        let mut song = SongMetadata::new(header);
        let mut cursor: usize = 10;
        let mut remaining: u32 = tag_len;
        let mut error: Option<ParseError> = None;
        let mut done = false;

        proof {
            assert(song.frames@.map_values(|f: Frame| f@) =~= Seq::<FrameView>::empty());
            assert(walk_of(data@) == walk_after(
                Seq::<FrameView>::empty(),
                spec_walk(data@, 10, tag_len as int),
            ));
        }
        while !done
            invariant
                cursor <= data@.len(),
                remaining <= tag_len,
                song.header == header,
                !done ==> error is None,
                !done ==> walk_of(data@) == walk_after(
                    song.frames@.map_values(|f: Frame| f@),
                    spec_walk(data@, cursor as int, remaining as int),
                ),
                done ==> walk_of(data@) == (WalkView {
                    frames: song.frames@.map_values(|f: Frame| f@),
                    error,
                    cursor: cursor as int,
                }),
            decreases (if done { 0int } else { remaining as int + 1 }),
        {
            if remaining == 0 {
                done = true;
            } else if data.len() - cursor < 10 {
                error = Some(ParseError::TruncatedInput);
                done = true;
            } else {
                let hb: [u8; 10] = [
                    data[cursor],
                    data[cursor + 1],
                    data[cursor + 2],
                    data[cursor + 3],
                    data[cursor + 4],
                    data[cursor + 5],
                    data[cursor + 6],
                    data[cursor + 7],
                    data[cursor + 8],
                    data[cursor + 9],
                ];
                proof {
                    assert(hb@ =~= data@.subrange(cursor as int, cursor as int + 10));
                }
                match FrameHeader::new(hb) {
                    Err(e) => {
                        error = Some(e);
                        done = true;
                    },
                    Ok(None) => {
                        done = true;
                    },
                    Ok(Some(fh)) => {
                        if remaining < 10 || fh.size > remaining - 10 {
                            error = Some(ParseError::OversizedFrame);
                            done = true;
                        } else if data.len() - (cursor + 10) < fh.size as usize {
                            error = Some(ParseError::TruncatedInput);
                            done = true;
                        } else {
                            let size = fh.size as usize;
                            let body = slice_to_vec(
                                slice_subrange(data.as_slice(), cursor + 10, cursor + 10 + size),
                            );
                            let ghost fh_view = fh@;
                            match Frame::new(fh, body) {
                                Err(e) => {
                                    error = Some(e);
                                    done = true;
                                },
                                Ok(f) => {
                                    let ghost old_frames = song.frames@;
                                    song.frames.push(f);
                                    proof {
                                        let vf = |fr: Frame| fr@;
                                        let rest = spec_walk(
                                            data@,
                                            cursor as int + 10 + fh_view.size,
                                            remaining as int - 10 - fh_view.size,
                                        );
                                        assert(spec_walk(
                                            data@,
                                            cursor as int,
                                            remaining as int,
                                        ) == WalkView {
                                            frames: seq![f@] + rest.frames,
                                            error: rest.error,
                                            cursor: rest.cursor,
                                        });
                                        assert(song.frames@.map_values(vf) =~= old_frames.map_values(
                                            vf,
                                        ).push(f@));
                                        assert(old_frames.map_values(vf).push(f@) + rest.frames
                                            =~= old_frames.map_values(vf) + (seq![f@]
                                            + rest.frames));
                                    }
                                    cursor = cursor + 10 + size;
                                    remaining = remaining - 10 - size as u32;
                                },
                            }
                        }
                    },
                }
            }
        }
        self.current_position = cursor;
        self.length_of_data = tag_len as usize;
        Ok(ParseOutcome { tag: song, error })
    }
}

} // verus!
