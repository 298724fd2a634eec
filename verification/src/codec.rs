//! The framing of the control socket: each message is preceded by its length in
//! bytes, as a 16-bit big-endian number.
use bytes::BytesMut;
use vstd::prelude::*;
use vstd::utf8::encode_utf8;
use crate::buffer::{
    big_endian, big_endian_bytes, buffer_bytes, buffer_extend, buffer_reserve, buffer_split_to,
    contents, held, read_u16, write_u16,
};
use crate::types::{MasterRequest, MasterResponse};

verus! {

/// The number of bytes of a frame's header.
pub const HEADER_LEN: usize = 2;

/// The bytes that carry `body`: its length modulo 2^16 in two bytes, then `body`.
pub open spec fn frame(body: Seq<u8>) -> Seq<u8> {
    big_endian_bytes((body.len() % 0x1_0000) as u16) + body
}

/// The length that the header at the front of `bytes` announces.
pub open spec fn announced(bytes: Seq<u8>) -> nat {
    big_endian(bytes[0], bytes[1])
}

/// `bytes` starts with a header and the whole of the body that it announces.
pub open spec fn holds_frame(bytes: Seq<u8>) -> bool {
    bytes.len() >= HEADER_LEN && bytes.len() >= HEADER_LEN + announced(bytes)
}

/// The body of the frame at the front of `bytes`.
pub open spec fn body(bytes: Seq<u8>) -> Seq<u8> {
    bytes.subrange(HEADER_LEN as int, HEADER_LEN + announced(bytes))
}

/// What follows the frame at the front of `bytes`.
pub open spec fn rest(bytes: Seq<u8>) -> Seq<u8> {
    bytes.skip(HEADER_LEN + announced(bytes))
}

/// Codec for Master transport
pub struct MasterTransportCodec;

impl MasterTransportCodec {
    /// Takes the frame at the front of `src` out of it and returns its body, or
    /// leaves `src` as it is and returns nothing until the whole frame is there.
    pub fn decode_frame(&mut self, src: &mut BytesMut) -> (r: Option<BytesMut>)
        ensures
            r is Some <==> holds_frame(contents(*old(src))),
            r matches Some(buf) ==> contents(buf) == body(contents(*old(src))),
            contents(*final(src)) == if holds_frame(contents(*old(src))) {
                rest(contents(*old(src)))
            } else {
                contents(*old(src))
            },
            ({
                let all = contents(*old(src));
                let n = all[0] * 256 + all[1];
                &&& r is Some <==> all.len() >= 2 && all.len() >= n + 2
                &&& r matches Some(buf) ==> {
                    &&& contents(buf) == all.subrange(2, 2 + n)
                    &&& contents(*final(src)) == all.skip(2 + n)
                }
                &&& r is None ==> contents(*final(src)) == all
            }),
    {
        let len: usize = held(src);
        if len < HEADER_LEN {
            return None;
        }
        let size: usize = read_u16(buffer_bytes(src)) as usize;
        if len >= size + HEADER_LEN {
            let _header = buffer_split_to(src, HEADER_LEN);
            let buf = buffer_split_to(src, size);
            proof {
                let all = contents(*old(src));
                assert(all.skip(HEADER_LEN as int).take(size as int) =~= body(all));
                assert(all.skip(HEADER_LEN as int).skip(size as int) =~= rest(all));
            }
            Some(buf)
        } else {
            None
        }
    }

    /// Takes the request at the front of `src` out of it. `parse` turns the body of a
    /// frame into a request; it is called once the whole frame is there, and the
    /// frame is gone from `src` even where `parse` fails.
    pub fn decode<E, F>(&mut self, src: &mut BytesMut, parse: F) -> (r: Result<
        Option<MasterRequest>,
        E,
    >) where F: FnOnce(&[u8]) -> Result<MasterRequest, E>
        requires
            forall|bytes: &[u8]|
                holds_frame(contents(*old(src))) && bytes@ == body(contents(*old(src)))
                    ==> call_requires(parse, (bytes,)),
        ensures
            !holds_frame(contents(*old(src))) ==> {
                &&& r == Ok::<Option<MasterRequest>, E>(None)
                &&& contents(*final(src)) == contents(*old(src))
            },
            holds_frame(contents(*old(src))) ==> {
                &&& contents(*final(src)) == rest(contents(*old(src)))
                &&& exists|bytes: &[u8], parsed: Result<MasterRequest, E>|
                    {
                        &&& bytes@ == body(contents(*old(src)))
                        &&& #[trigger] call_ensures(parse, (bytes,), parsed)
                        &&& r == match parsed {
                            Ok(request) => Ok(Some(request)),
                            Err(e) => Err(e),
                        }
                    }
            },
            ({
                let all = contents(*old(src));
                let n = all[0] * 256 + all[1];
                if all.len() >= 2 && all.len() >= n + 2 {
                    &&& contents(*final(src)) == all.skip(2 + n)
                    &&& exists|bytes: &[u8], parsed: Result<MasterRequest, E>|
                        {
                            &&& bytes@ == all.subrange(2, 2 + n)
                            &&& #[trigger] call_ensures(parse, (bytes,), parsed)
                            &&& r matches Ok(Some(request)) ==> parsed == Ok::<
                                MasterRequest,
                                E,
                            >(request)
                            &&& r matches Err(e) ==> parsed == Err::<MasterRequest, E>(e)
                            &&& r != Ok::<Option<MasterRequest>, E>(None)
                        }
                } else {
                    r == Ok::<Option<MasterRequest>, E>(None) && contents(*final(src)) == all
                }
            }),
    {
        match self.decode_frame(src) {
            None => Ok(None),
            Some(buf) => {
                let bytes = buffer_bytes(&buf);
                match parse(bytes) {
                    Ok(request) => Ok(Some(request)),
                    Err(e) => Err(e),
                }
            },
        }
    }

    /// Appends the frame of `msg` to `dst`. A body of 2^16 bytes or more is written
    /// whole after a header that holds its length modulo 2^16.
    pub fn encode_frame(&mut self, msg: &[u8], dst: &mut BytesMut)
        requires
            contents(*old(dst)).len() + HEADER_LEN + msg@.len() <= isize::MAX,
        ensures
            contents(*final(dst)) == contents(*old(dst)) + frame(msg@),
            ({
                let out = contents(*final(dst)).skip(contents(*old(dst)).len() as int);
                &&& contents(*final(dst)) == contents(*old(dst)) + out
                &&& out.len() == msg@.len() + 2
                &&& out[0] * 256 + out[1] == msg@.len() % 0x1_0000
                &&& out.skip(2) == msg@
            }),
    {
        buffer_reserve(dst, msg.len() + HEADER_LEN);
        let n: usize = msg.len() % 0x1_0000;
        let header = write_u16(n as u16);
        buffer_extend(dst, &header);
        buffer_extend(dst, msg);
        assert(contents(*dst) =~= contents(*old(dst)) + frame(msg@));
        proof {
            frame_is_length_and_message(msg@);
            assert(contents(*dst).skip(contents(*old(dst)).len() as int) =~= frame(msg@));
        }
    }

    /// Appends the frame of the answer `msg` to `dst`. `to_json` turns the answer into
    /// the text whose UTF-8 bytes are the body.
    pub fn encode<S, P, F>(&mut self, msg: MasterResponse<S, P>, dst: &mut BytesMut, to_json: F)
        where F: FnOnce(&MasterResponse<S, P>) -> String
        requires
            call_requires(to_json, (&msg,)),
            forall|json: String| #[trigger]
                call_ensures(to_json, (&msg,), json) ==> contents(*old(dst)).len() + HEADER_LEN
                    + encode_utf8(json@).len() <= isize::MAX,
        ensures
            exists|json: String|
                {
                    &&& #[trigger] call_ensures(to_json, (&msg,), json)
                    &&& contents(*final(dst)) == contents(*old(dst)) + frame(encode_utf8(json@))
                    &&& {
                        let text = encode_utf8(json@);
                        let out = contents(*final(dst)).skip(contents(*old(dst)).len() as int);
                        &&& contents(*final(dst)) == contents(*old(dst)) + out
                        &&& out.len() == text.len() + 2
                        &&& out[0] * 256 + out[1] == text.len() % 0x1_0000
                        &&& out.skip(2) == text
                    }
                },
    {
        let json = to_json(&msg);
        self.encode_frame(json.as_str().as_bytes(), dst);
    }
}

/// The bodies of the whole frames in `bytes`, first to last.
pub open spec fn bodies(bytes: Seq<u8>) -> Seq<Seq<u8>>
    decreases bytes.len(),
{
    if holds_frame(bytes) {
        seq![body(bytes)] + bodies(rest(bytes))
    } else {
        Seq::empty()
    }
}

/// What is left of `bytes` after its whole frames.
pub open spec fn leftover(bytes: Seq<u8>) -> Seq<u8>
    decreases bytes.len(),
{
    if holds_frame(bytes) {
        leftover(rest(bytes))
    } else {
        bytes
    }
}

/// The frames of `messages`, one after the other.
pub open spec fn frames(messages: Seq<Seq<u8>>) -> Seq<u8>
    decreases messages.len(),
{
    if messages.len() == 0 {
        Seq::empty()
    } else {
        frame(messages[0]) + frames(messages.skip(1))
    }
}

/// A frame is two bytes that stand for the length of the message, the more significant
/// one first, and then the message. Of a length of 2^16 or more they keep the remainder.
pub proof fn frame_is_length_and_message(message: Seq<u8>)
    ensures
        frame(message).len() == message.len() + 2,
        frame(message)[0] * 256 + frame(message)[1] == message.len() % 0x1_0000,
        message.len() < 0x1_0000 ==> frame(message)[0] * 256 + frame(message)[1] == message.len(),
        frame(message).skip(2) == message,
{
    let n = (message.len() % 0x1_0000) as u16;
    assert(frame(message)[0] == (n / 256) as u8 && frame(message)[1] == (n % 256) as u8);
    assert(frame(message).skip(2) =~= message);
}

/// The first two bytes of a stream, the more significant one first, say how many bytes
/// behind them are the first message. It is there once that many have arrived, and the
/// bytes after it are left.
pub proof fn first_message_is_as_long_as_announced(bytes: Seq<u8>, n: int)
    requires
        bytes.len() >= 2,
        n == bytes[0] * 256 + bytes[1],
    ensures
        holds_frame(bytes) <==> bytes.len() >= n + 2,
        holds_frame(bytes) ==> {
            &&& body(bytes).len() == n
            &&& body(bytes) == bytes.subrange(2, 2 + n)
            &&& rest(bytes) == bytes.skip(2 + n)
            &&& bytes.take(2) + body(bytes) + rest(bytes) == bytes
        },
{
    if holds_frame(bytes) {
        assert(bytes.take(2) + body(bytes) + rest(bytes) =~= bytes);
    }
}

/// Fewer than two bytes are no message yet.
pub proof fn no_message_without_header(bytes: Seq<u8>)
    requires
        bytes.len() < 2,
    ensures
        !holds_frame(bytes),
{
}

/// To append the frame of a message to the frames of others is to write it after them.
pub proof fn encode_extends_stream(messages: Seq<Seq<u8>>, message: Seq<u8>)
    ensures
        frames(messages.push(message)) == frames(messages) + frame(message),
    decreases messages.len(),
{
    let all = messages.push(message);
    if messages.len() == 0 {
        assert(frames(all.skip(1)) =~= Seq::<u8>::empty());
        assert(frames(all) =~= frames(messages) + frame(message));
    } else {
        encode_extends_stream(messages.skip(1), message);
        assert(all.skip(1) =~= messages.skip(1).push(message));
        assert(frames(all) =~= frames(messages) + frame(message));
    }
}

/// What is read back of a frame, whatever follows it, is the message that was
/// written, and what follows is left: for every message whose length fits the header.
pub proof fn decode_gives_back_encoded(message: Seq<u8>, following: Seq<u8>)
    requires
        message.len() < 0x1_0000,
    ensures
        holds_frame(frame(message) + following),
        body(frame(message) + following) == message,
        rest(frame(message) + following) == following,
{
    let bytes = frame(message) + following;
    let n = (message.len() % 0x1_0000) as u16;
    assert(bytes[0] == (n / 256) as u8 && bytes[1] == (n % 256) as u8);
    assert(announced(bytes) == message.len());
    assert(body(bytes) =~= message);
    assert(rest(bytes) =~= following);
}

/// A message too long for the header is read back cut: to its first bytes, as many
/// as its length modulo 2^16, with the rest of it left in front of what follows.
pub proof fn long_message_is_cut(message: Seq<u8>, following: Seq<u8>)
    requires
        message.len() >= 0x1_0000,
    ensures
        holds_frame(frame(message) + following),
        body(frame(message) + following) == message.take((message.len() % 0x1_0000) as int),
        rest(frame(message) + following) == message.skip((message.len() % 0x1_0000) as int)
            + following,
{
    let bytes = frame(message) + following;
    let n = (message.len() % 0x1_0000) as u16;
    assert(bytes[0] == (n / 256) as u8 && bytes[1] == (n % 256) as u8);
    assert(announced(bytes) == n);
    assert(body(bytes) =~= message.take(n as int));
    assert(rest(bytes) =~= message.skip(n as int) + following);
}

/// Messages written one after the other are read back one after the other, and
/// nothing is left over.
pub proof fn stream_gives_back_messages(messages: Seq<Seq<u8>>)
    requires
        forall|i: int| 0 <= i < messages.len() ==> (#[trigger] messages[i]).len() < 0x1_0000,
    ensures
        bodies(frames(messages)) == messages,
        leftover(frames(messages)) == Seq::<u8>::empty(),
    decreases messages.len(),
{
    if messages.len() == 0 {
        assert(bodies(frames(messages)) =~= messages);
    } else {
        let tail = messages.skip(1);
        assert forall|i: int| 0 <= i < tail.len() implies (#[trigger] tail[i]).len() < 0x1_0000 by {
            assert(tail[i] == messages[i + 1]);
        }
        stream_gives_back_messages(tail);
        decode_gives_back_encoded(messages[0], frames(tail));
        assert(seq![messages[0]] + tail =~= messages);
    }
}

/// A frame that is there is read the same way whatever bytes arrive behind it.
pub proof fn later_bytes_leave_frame(bytes: Seq<u8>, later: Seq<u8>)
    requires
        holds_frame(bytes),
    ensures
        holds_frame(bytes + later),
        body(bytes + later) == body(bytes),
        rest(bytes + later) == rest(bytes) + later,
{
    let all = bytes + later;
    assert(all[0] == bytes[0] && all[1] == bytes[1]);
    assert(body(all) =~= body(bytes));
    assert(rest(all) =~= rest(bytes) + later);
}

/// How the bytes of a stream are cut into pieces on their way does not matter: to
/// read all frames of the first piece and then, with what was left over, those of
/// the second is to read all frames of both pieces at once.
pub proof fn chunks_do_not_matter(first: Seq<u8>, second: Seq<u8>)
    ensures
        bodies(first + second) == bodies(first) + bodies(leftover(first) + second),
        leftover(first + second) == leftover(leftover(first) + second),
    decreases first.len(),
{
    if holds_frame(first) {
        later_bytes_leave_frame(first, second);
        chunks_do_not_matter(rest(first), second);
        assert(bodies(first + second) =~= bodies(first) + bodies(leftover(first) + second));
    } else {
        assert(bodies(first) + bodies(first + second) =~= bodies(first + second));
    }
}

/// Until its last byte has arrived, a frame is not read.
pub proof fn partial_frame_is_kept(message: Seq<u8>, arrived: int)
    requires
        message.len() < 0x1_0000,
        0 <= arrived < frame(message).len(),
    ensures
        !holds_frame(frame(message).take(arrived)),
{
    let part = frame(message).take(arrived);
    if arrived >= HEADER_LEN {
        let n = (message.len() % 0x1_0000) as u16;
        assert(part[0] == (n / 256) as u8 && part[1] == (n % 256) as u8);
        assert(announced(part) == message.len());
    }
}

} // verus!
