//! The laws the codec obeys, stated and proved over the spec-level encoder
//! and decoder: a message that survives the round trip, the exact frame
//! count and flag discipline of every encoding, the decoder's draining of
//! trailing frames, its tolerance of unknown command bytes, and its quiet
//! rejection of truncated sequences.

use vstd::prelude::*;
use vstd::utf8::{
    encode_scalar, encode_utf8, encode_utf8_decode_utf8, encode_utf8_valid_utf8, valid_utf8,
};

use crate::codec::{
    spec_consumed, spec_content_frames, spec_decode, spec_encode, spec_meta_frames, spec_payloads,
    FrameView,
};
use crate::msg::{cmd_code, format_code, MessageFormat, MessageView};

verus! {

/// The messages whose wire image decodes back to the very same value: the
/// envelope's command matches the variant, a routing identity is never the
/// empty sequence (the wire would read it as the delimiter), a READY always
/// carries a non-empty self-identity (the wire has no frame for an absent
/// one, and an empty frame reads back as absent), a target is never the
/// empty string (an empty target frame reads back as absent), and a NONE
/// format carries no body (the wire has no body frame to put it in).
pub open spec fn round_trippable(m: MessageView) -> bool {
    &&& m.wf()
    &&& match m.meta().identity {
        Some(id) => id.len() > 0,
        None => true,
    }
    &&& match m {
        MessageView::Ready(_, sid) => match sid {
            Some(s) => s.len() > 0,
            None => false,
        },
        _ => true,
    }
    &&& (m.is_content() ==> {
        &&& match m.content().target {
            Some(t) => t.len() > 0,
            None => true,
        }
        &&& (m.content().format == MessageFormat::NONE ==> m.content().body.len() == 0)
    })
}

/// The UTF-8 encoding of a non-empty character sequence is non-empty.
proof fn lemma_encode_utf8_nonempty(s: Seq<char>)
    requires
        s.len() > 0,
    ensures
        encode_utf8(s).len() > 0,
{
    assert(encode_utf8(s) == encode_scalar(s[0] as u32) + encode_utf8(s.drop_first()));
    assert(encode_scalar(s[0] as u32).len() > 0);
}

/// Round trip: decoding the payloads of a message's own encoding yields the
/// message back, field for field, and reads every frame.
pub proof fn lemma_round_trip(m: MessageView)
    requires
        round_trippable(m),
    ensures
        spec_decode(spec_payloads(spec_encode(m))) == Some(m),
        spec_consumed(spec_payloads(spec_encode(m))) == spec_encode(m).len(),
{
    broadcast use encode_utf8_valid_utf8, encode_utf8_decode_utf8;

    let fs = spec_encode(m);
    let ps = spec_payloads(fs);
    let meta = m.meta();
    assert(ps.len() == fs.len());
    assert forall|j: int| 0 <= j < fs.len() implies #[trigger] ps[j] == fs[j].data by {}
    match meta.identity {
        Some(id) => {
            assert(fs[0].data == id);
            assert(ps[0].len() > 0);
        },
        None => {
            assert(ps[0].len() == 0);
        },
    }
    let i: int = if meta.identity is Some {
        2
    } else {
        1
    };
    assert(ps[i] == encode_utf8(meta.version));
    assert(ps[i + 1] == meta.uid);
    assert(ps[i + 2] == seq![cmd_code(meta.cmd)]);
    match m {
        MessageView::Ready(_, sid) => {
            let s = sid->0;
            lemma_encode_utf8_nonempty(s);
            assert(ps[i + 3] == encode_utf8(s));
            assert(spec_decode(ps) == Some(m));
        },
        MessageView::Okay(_) => {
            assert(spec_decode(ps) == Some(m));
        },
        MessageView::Disconnect(_) => {
            assert(spec_decode(ps) == Some(m));
        },
        MessageView::Heartbeat(_) => {
            assert(spec_decode(ps) == Some(m));
        },
        MessageView::Req(_, _) => {
            lemma_content_round_trip(m);
        },
        MessageView::Rep(_, _) => {
            lemma_content_round_trip(m);
        },
        MessageView::Error(_, _) => {
            lemma_content_round_trip(m);
        },
    }
}

/// The content-bearing half of the round trip, shared by REQ, REP and
/// ERROR.
proof fn lemma_content_round_trip(m: MessageView)
    requires
        round_trippable(m),
        m.is_content(),
    ensures
        spec_decode(spec_payloads(spec_encode(m))) == Some(m),
        spec_consumed(spec_payloads(spec_encode(m))) == spec_encode(m).len(),
{
    broadcast use encode_utf8_valid_utf8, encode_utf8_decode_utf8;

    let fs = spec_encode(m);
    let ps = spec_payloads(fs);
    let meta = m.meta();
    let c = m.content();
    assert(ps.len() == fs.len());
    assert forall|j: int| 0 <= j < fs.len() implies #[trigger] ps[j] == fs[j].data by {}
    let i: int = if meta.identity is Some {
        2
    } else {
        1
    };
    match meta.identity {
        Some(id) => {
            assert(fs[0].data == id);
            assert(ps[0].len() > 0);
        },
        None => {
            assert(ps[0].len() == 0);
        },
    }
    assert(ps[i] == encode_utf8(meta.version));
    assert(ps[i + 1] == meta.uid);
    assert(ps[i + 2] == seq![cmd_code(meta.cmd)]);
    match c.target {
        Some(t) => {
            lemma_encode_utf8_nonempty(t);
            assert(ps[i + 3] == encode_utf8(t));
        },
        None => {
            assert(ps[i + 3].len() == 0);
        },
    }
    assert(ps[i + 4] == seq![format_code(c.format)]);
    if c.format != MessageFormat::NONE {
        assert(ps.len() == i + 6);
        assert(ps[i + 5] == c.body);
    } else {
        assert(ps.len() == i + 5);
        assert(c.body.len() == 0);
    }
    assert(spec_decode(ps) == Some(m));
}

/// How many frames the encoding of a message has: the four envelope frames,
/// one more for a routing identity, one more for a READY self-identity, two
/// more (target and format) for the content-bearing kinds, and one more for
/// a body when the format is not NONE.
pub open spec fn spec_frame_count(m: MessageView) -> int {
    let base: int = if m.meta().identity is Some {
        5
    } else {
        4
    };
    match m {
        MessageView::Ready(_, sid) => if sid is Some {
            base + 1
        } else {
            base
        },
        MessageView::Okay(_) => base,
        MessageView::Disconnect(_) => base,
        MessageView::Heartbeat(_) => base,
        _ => if m.content().format != MessageFormat::NONE {
            base + 3
        } else {
            base + 2
        },
    }
}

/// Frame-count exactness: every encoding has exactly the frame count its
/// kind prescribes, and its continuation flags mark exactly the last frame
/// as final.
pub proof fn lemma_encode_frame_count(m: MessageView)
    ensures
        spec_encode(m).len() == spec_frame_count(m),
        forall|j: int| 0 <= j < spec_encode(m).len() ==> ((#[trigger] spec_encode(m)[j].more) <==> j
            + 1 < spec_encode(m).len()),
{
    let fs = spec_encode(m);
    let n = fs.len();
    match m {
        MessageView::Ready(meta, sid) => {
            if sid is Some {
                assert(fs == spec_meta_frames(meta, false) + seq![
                    FrameView { data: encode_utf8(sid->0), more: false },
                ]);
                assert forall|j: int| 0 <= j < n implies ((#[trigger] fs[j].more) <==> j + 1
                    < n) by {
                    assert(fs[n - 1].more == false);
                }
            } else {
                assert forall|j: int| 0 <= j < n implies ((#[trigger] fs[j].more) <==> j + 1
                    < n) by {}
            }
        },
        MessageView::Okay(_) => {
            assert forall|j: int| 0 <= j < n implies ((#[trigger] fs[j].more) <==> j + 1 < n) by {}
        },
        MessageView::Disconnect(_) => {
            assert forall|j: int| 0 <= j < n implies ((#[trigger] fs[j].more) <==> j + 1 < n) by {}
        },
        MessageView::Heartbeat(_) => {
            assert forall|j: int| 0 <= j < n implies ((#[trigger] fs[j].more) <==> j + 1 < n) by {}
        },
        _ => {
            let meta = m.meta();
            let c = m.content();
            assert(fs == spec_meta_frames(meta, false) + spec_content_frames(c));
            assert forall|j: int| 0 <= j < n implies ((#[trigger] fs[j].more) <==> j + 1 < n) by {
                if c.format != MessageFormat::NONE {
                    assert(fs[n - 1].more == false);
                } else {
                    assert(fs[n - 1].more == false);
                }
            }
        },
    }
    assert(fs.len() == spec_frame_count(m));
}

/// Defensive draining: appending extra trailing frames to the encoding of a
/// content-bearing message that carries a body changes nothing — the same
/// message comes back and every frame, the extras included, is read, so none
/// is left to desynchronize the next decode.
pub proof fn lemma_decode_drains_trailing(m: MessageView, extra: Seq<Seq<u8>>)
    requires
        round_trippable(m),
        m.is_content(),
        m.content().format != MessageFormat::NONE,
    ensures
        spec_decode(spec_payloads(spec_encode(m)) + extra) == Some(m),
        spec_consumed(spec_payloads(spec_encode(m)) + extra) == spec_payloads(spec_encode(m)).len()
            + extra.len(),
{
    broadcast use encode_utf8_valid_utf8, encode_utf8_decode_utf8;

    let fs = spec_encode(m);
    let ps = spec_payloads(fs) + extra;
    let meta = m.meta();
    let c = m.content();
    assert(spec_payloads(fs).len() == fs.len());
    assert forall|j: int| 0 <= j < fs.len() implies #[trigger] ps[j] == fs[j].data by {}
    let i: int = if meta.identity is Some {
        2
    } else {
        1
    };
    match meta.identity {
        Some(id) => {
            assert(fs[0].data == id);
            assert(ps[0].len() > 0);
        },
        None => {
            assert(ps[0].len() == 0);
        },
    }
    assert(ps[i] == encode_utf8(meta.version));
    assert(ps[i + 1] == meta.uid);
    assert(ps[i + 2] == seq![cmd_code(meta.cmd)]);
    match c.target {
        Some(t) => {
            lemma_encode_utf8_nonempty(t);
            assert(ps[i + 3] == encode_utf8(t));
        },
        None => {
            assert(ps[i + 3].len() == 0);
        },
    }
    assert(ps[i + 4] == seq![format_code(c.format)]);
    assert(ps[i + 5] == c.body);
    assert(spec_decode(ps) == Some(m));
}

/// Unknown-command tolerance: a content-shaped sequence (delimiter, version,
/// correlation id, one-byte command, target, one-byte format, and whatever
/// follows) whose command byte names no known kind is read in full and
/// yields no message — it is swallowed whole, never left half-read and never
/// an error.
pub proof fn lemma_unknown_command_swallowed(frames: Seq<Seq<u8>>)
    requires
        frames.len() >= 6,
        frames[0].len() == 0,
        valid_utf8(frames[1]),
        frames[3].len() == 1,
        frames[3][0] > 6,
        valid_utf8(frames[4]),
        frames[5].len() == 1,
    ensures
        spec_decode(frames) == None::<MessageView>,
        spec_consumed(frames) == frames.len(),
{
}

/// Truncation handling: a sequence that ends before the command byte, or
/// whose command frame is not exactly one byte, yields no message — never an
/// error. (A genuine transport failure never reaches the decoder: the caller
/// reports it before frames are handed over.)
pub proof fn lemma_truncated_no_message(frames: Seq<Seq<u8>>)
    requires
        frames.len() == 0 || ({
            let i: int = if frames[0].len() > 0 {
                2
            } else {
                1
            };
            frames.len() < i + 3 || frames[i + 2].len() != 1
        }),
    ensures
        spec_decode(frames) == None::<MessageView>,
{
}

} // verus!
