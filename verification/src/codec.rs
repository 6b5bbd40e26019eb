//! The frame codec: turning a typed message into the exact, ordered frame
//! sequence the wire prescribes, and turning a received frame sequence back
//! into a typed message or a well-defined "no message" outcome.
//!
//! A frame is a byte payload plus a continuation flag; the flag is the only
//! frame-boundary signal the transport gives a receiver, so every encoding
//! branch pins it exactly. The decoder consumes the frames of one logical
//! message (the transport hands them over until the continuation flag
//! clears) and reports both its outcome and how many frames it read.

use vstd::prelude::*;
use vstd::slice::slice_to_vec;
use vstd::string::StrSliceExecFns;
use vstd::utf8::{decode_utf8, encode_utf8, valid_utf8};

use crate::msg::{
    cmd_code, format_code, format_of_code, ContentView, MessageFormat, MessageView, MetaView,
    MsgContent, MsgMetadata, RRMessage, RRMessageCommand, RRMsgHandler,
};

verus! {

/// One transport frame: a byte payload and the continuation flag that says
/// whether more frames belong to the same logical message.
#[derive(Debug, PartialEq, Clone)]
pub struct Frame {
    pub data: Vec<u8>,
    pub more: bool,
}

/// The mathematical value of a [`Frame`].
#[verifier::ext_equal]
pub ghost struct FrameView {
    pub data: Seq<u8>,
    pub more: bool,
}

impl View for Frame {
    type V = FrameView;

    open spec fn view(&self) -> FrameView {
        FrameView { data: self.data@, more: self.more }
    }
}

impl DeepView for Frame {
    type V = FrameView;

    open spec fn deep_view(&self) -> FrameView {
        self@
    }
}

/// The payloads of a frame sequence, in order, with the flags dropped: what
/// a receiver driven by the continuation flag alone gets to see.
pub open spec fn spec_payloads(frames: Seq<FrameView>) -> Seq<Seq<u8>> {
    frames.map_values(|f: FrameView| f.data)
}

/// The common envelope prefix every kind sends: the routing identity when
/// present, the empty delimiter, the version, the correlation id, and the
/// command byte, which closes the message exactly when `last` holds.
pub open spec fn spec_meta_frames(meta: MetaView, last: bool) -> Seq<FrameView> {
    let tail = seq![
        FrameView { data: seq![], more: true },
        FrameView { data: encode_utf8(meta.version), more: true },
        FrameView { data: meta.uid, more: true },
        FrameView { data: seq![cmd_code(meta.cmd)], more: !last },
    ];
    match meta.identity {
        Some(id) => seq![FrameView { data: id, more: true }] + tail,
        None => tail,
    }
}

/// The content suffix REQ, REP and ERROR send: the target (an absent target
/// is sent as an empty frame), the format byte, and, exactly when the format
/// is not NONE, the body as the final frame.
pub open spec fn spec_content_frames(c: ContentView) -> Seq<FrameView> {
    let tbytes = match c.target {
        Some(t) => encode_utf8(t),
        None => seq![],
    };
    let head = seq![
        FrameView { data: tbytes, more: true },
        FrameView { data: seq![format_code(c.format)], more: c.format != MessageFormat::NONE },
    ];
    if c.format != MessageFormat::NONE {
        head + seq![FrameView { data: c.body, more: false }]
    } else {
        head
    }
}

/// The exact frame sequence a message is sent as. OKAY, DISCONNECT and
/// HEARTBEAT close with the command byte; READY closes with it too unless a
/// self-identity follows as one final frame; REQ, REP and ERROR follow the
/// command byte with the content suffix.
pub open spec fn spec_encode(m: MessageView) -> Seq<FrameView> {
    match m {
        MessageView::Ready(meta, selfid) => match selfid {
            Some(sid) => spec_meta_frames(meta, false) + seq![
                FrameView { data: encode_utf8(sid), more: false },
            ],
            None => spec_meta_frames(meta, true),
        },
        MessageView::Okay(meta) => spec_meta_frames(meta, true),
        MessageView::Disconnect(meta) => spec_meta_frames(meta, true),
        MessageView::Heartbeat(meta) => spec_meta_frames(meta, true),
        MessageView::Req(meta, c) => spec_meta_frames(meta, false) + spec_content_frames(c),
        MessageView::Rep(meta, c) => spec_meta_frames(meta, false) + spec_content_frames(c),
        MessageView::Error(meta, c) => spec_meta_frames(meta, false) + spec_content_frames(c),
    }
}

/// What the decoding state machine makes of the payloads of one logical
/// message: the message it reconstructs (or `None` for an incomplete,
/// truncated or otherwise malformed sequence) paired with how many frames it
/// reads before stopping.
///
/// The machine reads, in order: the routing identity or the empty delimiter
/// (a non-empty first frame is the identity and the next frame is discarded
/// as the delimiter), the version, the correlation id, and the one-byte
/// command. Command bytes 1, 2 and 3 complete OKAY, DISCONNECT and HEARTBEAT
/// at once, reading nothing further. Every other command byte takes a target
/// frame (empty means no target); byte 0 then completes READY with the
/// target as its self-identity. What remains takes a one-byte format frame,
/// an optional body frame, and drains every frame still pending, completing
/// REQ, REP or ERROR for bytes 4, 5 and 6 and swallowing any other command
/// whole with no message. A missing frame, a command or format frame that is
/// not one byte, or a version or target that is not valid UTF-8 stops the
/// machine with no message.
pub open spec fn spec_parse(frames: Seq<Seq<u8>>) -> (Option<MessageView>, int) {
    if frames.len() == 0 {
        (None, 0)
    } else {
        let identity = if frames[0].len() > 0 {
            Some(frames[0])
        } else {
            None
        };
        let i = if frames[0].len() > 0 {
            2int
        } else {
            1int
        };
        if frames.len() < i + 1 {
            (None, frames.len() as int)
        } else if !valid_utf8(frames[i]) {
            (None, i + 1)
        } else if frames.len() < i + 2 {
            (None, i + 1)
        } else if frames.len() < i + 3 {
            (None, i + 2)
        } else if frames[i + 2].len() != 1 {
            (None, i + 3)
        } else {
            let version = decode_utf8(frames[i]);
            let uid = frames[i + 1];
            let c = frames[i + 2][0];
            if c == 1 {
                (
                    Some(
                        MessageView::Okay(
                            MetaView { identity, version, uid, cmd: RRMessageCommand::OKAY },
                        ),
                    ),
                    i + 3,
                )
            } else if c == 2 {
                (
                    Some(
                        MessageView::Disconnect(
                            MetaView { identity, version, uid, cmd: RRMessageCommand::DISCONNECT },
                        ),
                    ),
                    i + 3,
                )
            } else if c == 3 {
                (
                    Some(
                        MessageView::Heartbeat(
                            MetaView { identity, version, uid, cmd: RRMessageCommand::HEARTBEAT },
                        ),
                    ),
                    i + 3,
                )
            } else if frames.len() < i + 4 {
                (None, i + 3)
            } else if !valid_utf8(frames[i + 3]) {
                (None, i + 4)
            } else {
                let target = if frames[i + 3].len() == 0 {
                    None
                } else {
                    Some(decode_utf8(frames[i + 3]))
                };
                if c == 0 {
                    (
                        Some(
                            MessageView::Ready(
                                MetaView { identity, version, uid, cmd: RRMessageCommand::READY },
                                target,
                            ),
                        ),
                        i + 4,
                    )
                } else if frames.len() < i + 5 {
                    (None, i + 4)
                } else if frames[i + 4].len() != 1 {
                    (None, i + 5)
                } else {
                    let format = format_of_code(frames[i + 4][0]);
                    let body = if frames.len() > i + 5 {
                        frames[i + 5]
                    } else {
                        seq![]
                    };
                    let content = ContentView { target, format, body };
                    let n = frames.len() as int;
                    if c == 4 {
                        (
                            Some(
                                MessageView::Req(
                                    MetaView { identity, version, uid, cmd: RRMessageCommand::REQ },
                                    content,
                                ),
                            ),
                            n,
                        )
                    } else if c == 5 {
                        (
                            Some(
                                MessageView::Rep(
                                    MetaView { identity, version, uid, cmd: RRMessageCommand::REP },
                                    content,
                                ),
                            ),
                            n,
                        )
                    } else if c == 6 {
                        (
                            Some(
                                MessageView::Error(
                                    MetaView {
                                        identity,
                                        version,
                                        uid,
                                        cmd: RRMessageCommand::ERROR,
                                    },
                                    content,
                                ),
                            ),
                            n,
                        )
                    } else {
                        (None, n)
                    }
                }
            }
        }
    }
}

/// The message the decoder yields for the given payloads, if any.
pub open spec fn spec_decode(frames: Seq<Seq<u8>>) -> Option<MessageView> {
    spec_parse(frames).0
}

/// How many of the given payload frames the decoder reads before stopping.
pub open spec fn spec_consumed(frames: Seq<Seq<u8>>) -> int {
    spec_parse(frames).1
}

/// Relies on `std::string::String::from_utf8`: it returns `Ok` exactly when
/// the bytes are valid UTF-8, and then holds the character sequence those
/// bytes encode.
#[verifier::external_body]
fn bytes_to_string(bytes: Vec<u8>) -> (r: Option<String>)
    ensures
        r is Some <==> valid_utf8(bytes@),
        r is Some ==> r->0@ == decode_utf8(bytes@),
{
    String::from_utf8(bytes).ok()
}

impl RRMsgHandler {
    /// The envelope prefix of `meta` as frames; the command byte closes the
    /// message exactly when `last` holds.
    pub fn encode_rrmeta_msg(meta: MsgMetadata, last: bool) -> (frames: Vec<Frame>)
        ensures
            frames.deep_view() == spec_meta_frames(meta@, last),
    {
        let MsgMetadata { identity, version, uid, cmd } = meta;
        let mut frames: Vec<Frame> = Vec::new();
        match identity {
            Some(id) => frames.push(Frame { data: id, more: true }),
            None => {},
        }
        frames.push(Frame { data: Vec::new(), more: true });
        frames.push(Frame { data: version.as_str().as_bytes_vec(), more: true });
        frames.push(Frame { data: uid, more: true });
        let mut cmd_frame: Vec<u8> = Vec::new();
        cmd_frame.push(cmd.code());
        frames.push(Frame { data: cmd_frame, more: !last });
        proof {
            assert(frames.deep_view() =~~= spec_meta_frames(
                MetaView { identity: identity.deep_view(), version: version@, uid: uid@, cmd },
                last,
            ));
        }
        frames
    }

    /// The content suffix of `content` as frames: target, format byte, and
    /// the body as the final frame exactly when the format is not NONE.
    pub fn encode_rrcontent_msg(content: MsgContent) -> (frames: Vec<Frame>)
        ensures
            frames.deep_view() == spec_content_frames(content@),
    {
        let MsgContent { target, format, content: body } = content;
        let mut frames: Vec<Frame> = Vec::new();
        let tframe: Vec<u8> = match target {
            Some(ref t) => t.as_str().as_bytes_vec(),
            None => Vec::new(),
        };
        frames.push(Frame { data: tframe, more: true });
        let more = format != MessageFormat::NONE;
        let mut format_frame: Vec<u8> = Vec::new();
        format_frame.push(format.code());
        frames.push(Frame { data: format_frame, more });
        if more {
            frames.push(Frame { data: body, more: false });
        }
        proof {
            assert(frames.deep_view() =~~= spec_content_frames(
                ContentView { target: target.deep_view(), format, body: body@ },
            ));
        }
        frames
    }

    /// The full frame sequence `msg` is sent as: exactly
    /// [`spec_encode`]`(msg@)`, in order, flags included.
    pub fn encode_rrmsg(msg: RRMessage) -> (frames: Vec<Frame>)
        ensures
            frames.deep_view() == spec_encode(msg@),
    {
        match msg {
            RRMessage::READY(meta, selfid) => match selfid {
                Some(sid) => {
                    let mut frames = Self::encode_rrmeta_msg(meta, false);
                    frames.push(Frame { data: sid.as_str().as_bytes_vec(), more: false });
                    proof {
                        assert(frames.deep_view() =~~= spec_encode(
                            MessageView::Ready(meta@, Some(sid@)),
                        ));
                    }
                    frames
                },
                None => Self::encode_rrmeta_msg(meta, true),
            },
            RRMessage::OKAY(meta) => Self::encode_rrmeta_msg(meta, true),
            RRMessage::DISCONNECT(meta) => Self::encode_rrmeta_msg(meta, true),
            RRMessage::HEARTBEAT(meta) => Self::encode_rrmeta_msg(meta, true),
            RRMessage::REQ(meta, content) => {
                let mut frames = Self::encode_rrmeta_msg(meta, false);
                let ghost cv = content@;
                let mut rest = Self::encode_rrcontent_msg(content);
                frames.append(&mut rest);
                proof {
                    assert(frames.deep_view() =~~= spec_meta_frames(meta@, false)
                        + spec_content_frames(cv));
                }
                frames
            },
            RRMessage::REP(meta, content) => {
                let mut frames = Self::encode_rrmeta_msg(meta, false);
                let ghost cv = content@;
                let mut rest = Self::encode_rrcontent_msg(content);
                frames.append(&mut rest);
                proof {
                    assert(frames.deep_view() =~~= spec_meta_frames(meta@, false)
                        + spec_content_frames(cv));
                }
                frames
            },
            RRMessage::ERROR(meta, content) => {
                let mut frames = Self::encode_rrmeta_msg(meta, false);
                let ghost cv = content@;
                let mut rest = Self::encode_rrcontent_msg(content);
                frames.append(&mut rest);
                proof {
                    assert(frames.deep_view() =~~= spec_meta_frames(meta@, false)
                        + spec_content_frames(cv));
                }
                frames
            },
        }
    }

    /// Decodes the payloads of one logical message. Returns the message the
    /// sequence encodes, or `None` for an incomplete, truncated or otherwise
    /// malformed sequence, together with how many frames were read — exactly
    /// what [`spec_parse`] states. Malformed input is never an error here; a
    /// transport failure is the caller's to report before frames reach this
    /// function.
    pub fn parse_rrmsg(frames: &Vec<Vec<u8>>) -> (r: (Option<RRMessage>, usize))
        ensures
            r.0.deep_view() == spec_decode(frames.deep_view()),
            r.1 as int == spec_consumed(frames.deep_view()),
    {
        proof {
            assert(frames.deep_view().len() == frames@.len());
            assert forall|j: int| 0 <= j < frames@.len() implies #[trigger] frames.deep_view()[j]
                == frames@[j]@ by {
                assert(frames.deep_view()[j] =~= frames@[j]@);
            }
        }
        if frames.len() == 0 {
            return (None, 0);
        }
        let mut i: usize = 1;
        let identity: Option<Vec<u8>> = if frames[0].len() > 0 {
            i = 2;
            Some(slice_to_vec(frames[0].as_slice()))
        } else {
            None
        };
        if frames.len() < i + 1 {
            return (None, frames.len());
        }
        let version: String = match bytes_to_string(slice_to_vec(frames[i].as_slice())) {
            Some(s) => s,
            None => {
                return (None, i + 1);
            },
        };
        if frames.len() < i + 2 {
            return (None, i + 1);
        }
        let uid: Vec<u8> = slice_to_vec(frames[i + 1].as_slice());
        if frames.len() < i + 3 {
            return (None, i + 2);
        }
        if frames[i + 2].len() != 1 {
            return (None, i + 3);
        }
        let c: u8 = frames[i + 2][0];
        let mut meta = MsgMetadata { identity, version, uid, cmd: RRMessageCommand::OKAY };
        if c == 1 {
            return (Some(RRMessage::OKAY(meta)), i + 3);
        }
        if c == 2 {
            meta.cmd = RRMessageCommand::DISCONNECT;
            return (Some(RRMessage::DISCONNECT(meta)), i + 3);
        }
        if c == 3 {
            meta.cmd = RRMessageCommand::HEARTBEAT;
            return (Some(RRMessage::HEARTBEAT(meta)), i + 3);
        }
        if frames.len() < i + 4 {
            return (None, i + 3);
        }
        let target: Option<String> = if frames[i + 3].len() == 0 {
            None
        } else {
            match bytes_to_string(slice_to_vec(frames[i + 3].as_slice())) {
                Some(s) => Some(s),
                None => {
                    return (None, i + 4);
                },
            }
        };
        if c == 0 {
            meta.cmd = RRMessageCommand::READY;
            return (Some(RRMessage::READY(meta, target)), i + 4);
        }
        if frames.len() < i + 5 {
            return (None, i + 4);
        }
        if frames[i + 4].len() != 1 {
            return (None, i + 5);
        }
        let format = MessageFormat::from_code(frames[i + 4][0]);
        let body: Vec<u8> = if frames.len() > i + 5 {
            slice_to_vec(frames[i + 5].as_slice())
        } else {
            Vec::new()
        };
        let content = MsgContent { target, format, content: body };
        let n = frames.len();
        if c == 4 {
            meta.cmd = RRMessageCommand::REQ;
            return (Some(RRMessage::REQ(meta, content)), n);
        }
        if c == 5 {
            meta.cmd = RRMessageCommand::REP;
            return (Some(RRMessage::REP(meta, content)), n);
        }
        if c == 6 {
            meta.cmd = RRMessageCommand::ERROR;
            return (Some(RRMessage::ERROR(meta, content)), n);
        }
        (None, n)
    }
}

/// The payloads of an encoded frame sequence, in send order: what the
/// receiving side's decoder is handed once the transport has stripped the
/// continuation flags.
pub fn frame_payloads(frames: &Vec<Frame>) -> (r: Vec<Vec<u8>>)
    ensures
        r@.len() == frames@.len(),
        forall|j: int| 0 <= j < frames@.len() ==> r@[j]@ == frames@[j].data@,
        r.deep_view() == spec_payloads(frames.deep_view()),
{
    let mut r: Vec<Vec<u8>> = Vec::new();
    let mut k: usize = 0;
    while k < frames.len()
        invariant
            k <= frames.len(),
            r@.len() == k,
            forall|j: int| 0 <= j < k as int ==> r@[j]@ == frames@[j].data@,
        decreases frames.len() - k,
    {
        r.push(slice_to_vec(frames[k].data.as_slice()));
        k = k + 1;
    }
    proof {
        assert(r.deep_view() =~~= spec_payloads(frames.deep_view()));
    }
    r
}

} // verus!
