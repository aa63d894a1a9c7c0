//! Packets, the reactor's decisions and the session's end of the two
//! channels.

use crate::framing::{
    decode, frames_of, lemma_decode_encode, mcrf4xx, residual, scan, Frame, Scan, STX,
};
use crate::mavlink::DkMessage;
use crate::watcher::{sweep, sweep_all, watchers_of, Predicate, Watcher, WatcherView};
use crate::wire::{le16, read_u16};
use std::collections::VecDeque;
use vstd::prelude::*;
use vstd::slice::{slice_subrange, slice_to_vec};

verus! {

/// `String::push`: appends one character.
#[verifier::external_body]
fn string_push(s: &mut String, c: char)
    ensures
        final(s)@ == old(s)@.push(c),
{
    s.push(c)
}

/// The number of bytes of `buf` from `i` up to the first zero byte, or to
/// the end where there is none, counted from the start of `buf`.
pub open spec fn text_end(buf: Seq<u8>, i: int) -> int
    decreases buf.len() - i,
{
    if i < 0 || i >= buf.len() || buf[i] == 0 {
        i
    } else {
        text_end(buf, i + 1)
    }
}

/// The text of a fixed-length string field: the bytes before the first
/// zero byte, all of them where there is none, each byte as the character
/// of that number.
pub open spec fn mavlink_string(buf: Seq<u8>) -> Seq<char> {
    Seq::new(text_end(buf, 0) as nat, |i: int| buf[i] as char)
}

/// Reads the text of a fixed-length string field.
pub fn parse_mavlink_string(buf: &[u8]) -> (text: String)
    ensures
        text@ == mavlink_string(buf@),
{
    let mut text = String::new();
    let n = buf.len();
    let mut i: usize = 0;
    while i < n && buf[i] != 0
        invariant
            i <= n,
            n == buf@.len(),
            text_end(buf@, 0) == text_end(buf@, i as int),
            text@ == Seq::new(i as nat, |j: int| buf@[j] as char),
        decreases n - i,
    {
        string_push(&mut text, buf[i] as char);
        i += 1;
        assert(text@ =~= Seq::new(i as nat, |j: int| buf@[j] as char));
    }
    text
}

/// One frame: the header fields, the payload and the checksum.
#[derive(Debug)]
pub struct MavPacket {
    pub seq: u8,
    pub system_id: u8,
    pub component_id: u8,
    pub message_id: u8,
    pub data: Vec<u8>,
    pub checksum: u16,
}

impl View for MavPacket {
    type V = Frame;

    open spec fn view(&self) -> Frame {
        Frame {
            seq: self.seq,
            system_id: self.system_id,
            component_id: self.component_id,
            message_id: self.message_id,
            data: self.data@,
            checksum: self.checksum,
        }
    }
}

impl MavPacket {
    /// Reads a packet from the bytes of one whole frame. The sequence
    /// number, the sender and the message id are taken from their places in
    /// the header, the checksum from the last two bytes, the payload from
    /// between.
    pub fn new(payload: &[u8]) -> (pkt: MavPacket)
        requires
            payload@.len() >= 8,
        ensures
            pkt@ == Frame::of_bytes(payload@),
    {
        let n = payload.len();
        MavPacket {
            seq: payload[2],
            system_id: payload[3],
            component_id: payload[4],
            message_id: payload[5],
            data: slice_to_vec(slice_subrange(payload, 6, n - 2)),
            checksum: read_u16(payload, n - 2),
        }
    }

    /// Decodes the payload by the message id.
    pub fn parse(&self) -> (msg: Option<DkMessage>)
        ensures
            msg == DkMessage::spec_parse(self.message_id, self.data@),
    {
        DkMessage::parse(self.message_id, self.data.as_slice())
    }

    /// The frame without its checksum.
    pub fn encode_nocrc(&self) -> (pkt: Vec<u8>)
        ensures
            pkt@ == self@.body(),
    {
        let mut pkt: Vec<u8> = Vec::new();
        pkt.push(STX);
        pkt.push(self.data.len() as u8);
        pkt.push(self.seq);
        pkt.push(self.system_id);
        pkt.push(self.component_id);
        pkt.push(self.message_id);
        assert(pkt@ =~= self@.header());
        pkt.extend_from_slice(self.data.as_slice());
        pkt
    }

    /// The frame on the wire.
    pub fn encode(&self) -> (pkt: Vec<u8>)
        ensures
            pkt@ == self@.bytes(),
    {
        let mut pkt = self.encode_nocrc();
        let c = self.checksum;
        assert(c & 0xff == c % 0x100 && c >> 8 == c / 0x100) by (bit_vector);
        pkt.push((c & 0xff) as u8);
        pkt.push((c >> 8) as u8);
        assert(pkt@ =~= self@.body() + le16(c));
        pkt
    }

    /// The checksum owed by the header, the payload and the message id.
    pub fn calc_crc(&self) -> (crc: u16)
        ensures
            crc == self@.crc(),
    {
        let mut covered = self.encode_nocrc();
        covered.remove(0);
        covered.push(DkMessage::extra_crc(self.message_id));
        assert(covered@ =~= self@.body().subrange(1, self@.body().len() as int) + seq![
            DkMessage::spec_extra_crc(self.message_id),
        ]);
        mcrf4xx(covered.as_slice())
    }

    /// Puts the checksum owed in place.
    pub fn update_crc(&mut self)
        ensures
            final(self)@ == old(self)@.sealed(),
    {
        self.checksum = self.calc_crc();
    }

    /// Whether the packet carries the checksum owed.
    pub fn check_crc(&self) -> (ok: bool)
        ensures
            ok == self@.valid(),
    {
        self.calc_crc() == self.checksum
    }
}

/// The watchers of a reactor, in the order of registration.
pub type UpdaterList = Vec<Watcher>;

/// What the reactor puts on the inbound channel.
#[derive(Clone, Copy, Debug, PartialEq, Eq)]
pub enum DkHandlerRx {
    /// The reactor has stopped reading.
    RxCork,
    /// A message, as decoded.
    RxMessage(DkMessage),
}

/// What the session puts on the command channel.
#[derive(Debug)]
pub enum DkHandlerMessage {
    /// The bytes of a frame, to write.
    TxMessage(Vec<u8>),
    /// A watcher, to register behind the others.
    TxWatcher(Watcher),
    /// Stop reading, and say so on the inbound channel.
    TxCork,
    /// Read again.
    TxUncork,
}

/// A command as a value.
pub enum DkHandlerMessageView {
    TxMessage(Seq<u8>),
    TxWatcher(WatcherView),
    TxCork,
    TxUncork,
}

impl View for DkHandlerMessage {
    type V = DkHandlerMessageView;

    open spec fn view(&self) -> DkHandlerMessageView {
        match self {
            DkHandlerMessage::TxMessage(bytes) => DkHandlerMessageView::TxMessage(bytes@),
            DkHandlerMessage::TxWatcher(w) => DkHandlerMessageView::TxWatcher(w@),
            DkHandlerMessage::TxCork => DkHandlerMessageView::TxCork,
            DkHandlerMessage::TxUncork => DkHandlerMessageView::TxUncork,
        }
    }
}

/// The commands that a sequence of commands stands for.
pub open spec fn commands_of(v: Seq<DkHandlerMessage>) -> Seq<DkHandlerMessageView> {
    v.map_values(|m: DkHandlerMessage| m@)
}

/// What the reactor's loop owes the transport after a command.
#[derive(Debug)]
pub enum Reaction {
    /// Nothing.
    Idle,
    /// Write these bytes.
    Write(Vec<u8>),
    /// Stop reading, then put `RxCork` on the inbound channel.
    Cork,
    /// Read again.
    Uncork,
}

/// What the reactor's loop owes the session after a read: the messages for
/// the inbound channel, in wire order, and the handles to complete, in the
/// order in which their watchers fired.
#[derive(Debug)]
pub struct Delivery {
    pub inbound: Vec<DkHandlerRx>,
    pub fired: Vec<u64>,
}

/// The messages that frames decode to, in order. A frame whose message id
/// is outside the dialect, or whose payload is shorter than the body,
/// gives none.
pub open spec fn messages_of(frames: Seq<Frame>) -> Seq<DkMessage>
    decreases frames.len(),
{
    if frames.len() == 0 {
        Seq::empty()
    } else {
        let before = messages_of(frames.drop_last());
        match DkMessage::spec_parse(frames.last().message_id, frames.last().data) {
            Some(msg) => before.push(msg),
            None => before,
        }
    }
}

/// The messages as items of the inbound channel.
pub open spec fn inbound_of(msgs: Seq<DkMessage>) -> Seq<DkHandlerRx> {
    msgs.map_values(|m: DkMessage| DkHandlerRx::RxMessage(m))
}

/// The reactor's state: the bytes read and not yet decoded, and the
/// watchers.
#[derive(Debug)]
pub struct DkHandler {
    pub buf: Vec<u8>,
    pub watchers: UpdaterList,
}

impl DkHandler {
    /// A reactor that has read nothing and watches for nothing.
    pub fn new() -> (handler: DkHandler)
        ensures
            handler.buf@ == Seq::<u8>::empty(),
            handler.watchers@ == Seq::<Watcher>::empty(),
    {
        DkHandler { buf: Vec::new(), watchers: Vec::new() }
    }

    /// Offers a decoded message to every watcher, in the order of
    /// registration. Those that fire leave; their handles are returned in
    /// that order.
    pub fn dispatch(&mut self, pkt: DkMessage) -> (fired: Vec<u64>)
        ensures
            final(self).buf == old(self).buf,
            watchers_of(final(self).watchers@) == sweep(watchers_of(old(self).watchers@), pkt).kept,
            fired@ == sweep(watchers_of(old(self).watchers@), pkt).fired,
    {
        let ghost all = watchers_of(self.watchers@);
        let ghost mut k: int = 0;
        let mut fired: Vec<u64> = Vec::new();
        let mut i: usize = 0;
        assert(all.take(0).len() == 0);
        assert(watchers_of(self.watchers@) =~= sweep(all.take(0), pkt).kept + all.skip(0));
        while i < self.watchers.len()
            invariant
                self.buf == old(self).buf,
                all == watchers_of(old(self).watchers@),
                0 <= k <= all.len(),
                i == sweep(all.take(k), pkt).kept.len(),
                watchers_of(self.watchers@) == sweep(all.take(k), pkt).kept + all.skip(k),
                fired@ == sweep(all.take(k), pkt).fired,
            decreases all.len() - k,
        {
            let ghost before = sweep(all.take(k), pkt);
            assert(watchers_of(self.watchers@)[i as int] == all.skip(k)[0]);
            assert(all.take(k + 1).drop_last() =~= all.take(k));
            assert(all.take(k + 1).last() == all[k]);
            let ghost held = self.watchers@;
            let mut w = self.watchers.remove(i);
            assert(w@ == all[k]);
            assert(watchers_of(held.remove(i as int)) =~= watchers_of(held).remove(i as int));
            assert((before.kept + all.skip(k)).remove(i as int) =~= before.kept + all.skip(k + 1));
            if w.predicate.offer(&pkt) {
                fired.push(w.handle);
            } else {
                let ghost rest = self.watchers@;
                self.watchers.insert(i, w);
                assert(watchers_of(rest.insert(i as int, w)) =~= watchers_of(rest).insert(
                    i as int,
                    w@,
                ));
                assert((before.kept + all.skip(k + 1)).insert(i as int, w@) =~= before.kept.push(w@)
                    + all.skip(k + 1));
                i += 1;
            }
            proof {
                k = k + 1;
            }
        }
        assert(all.take(k) =~= all);
        assert(sweep(all, pkt).kept + all.skip(k) =~= sweep(all, pkt).kept);
        fired
    }

    /// Takes the bytes that the transport had ready. They are appended to
    /// what was kept, the frames in the whole are decoded, and each message
    /// is delivered and offered to the watchers, in wire order. What
    /// follows the last frame is kept for the next call.
    pub fn ready(&mut self, input: &[u8]) -> (out: Delivery)
        ensures
            final(self).buf@ == residual(old(self).buf@ + input@),
            out.inbound@ == inbound_of(messages_of(scan(old(self).buf@ + input@, 0).frames)),
            watchers_of(final(self).watchers@) == sweep_all(
                watchers_of(old(self).watchers@),
                messages_of(scan(old(self).buf@ + input@, 0).frames),
            ).kept,
            out.fired@ == sweep_all(
                watchers_of(old(self).watchers@),
                messages_of(scan(old(self).buf@ + input@, 0).frames),
            ).fired,
    {
        self.buf.extend_from_slice(input);
        assert(self.buf@ =~= old(self).buf@ + input@);
        let (packets, consumed) = decode(self.buf.as_slice());
        let rest = self.buf.split_off(consumed);
        self.buf = rest;
        let ghost frames = frames_of(packets@);
        let ghost ws = watchers_of(old(self).watchers@);
        let mut inbound: Vec<DkHandlerRx> = Vec::new();
        let mut fired: Vec<u64> = Vec::new();
        let mut i: usize = 0;
        assert(frames.take(0) =~= Seq::<Frame>::empty());
        assert(inbound@ =~= inbound_of(messages_of(frames.take(0))));
        while i < packets.len()
            invariant
                i <= packets.len(),
                frames == frames_of(packets@),
                ws == watchers_of(old(self).watchers@),
                self.buf@ == residual(old(self).buf@ + input@),
                inbound@ == inbound_of(messages_of(frames.take(i as int))),
                watchers_of(self.watchers@) == sweep_all(
                    ws,
                    messages_of(frames.take(i as int)),
                ).kept,
                fired@ == sweep_all(ws, messages_of(frames.take(i as int))).fired,
            decreases packets.len() - i,
        {
            let ghost seen = messages_of(frames.take(i as int));
            assert(frames.take(i + 1).drop_last() =~= frames.take(i as int));
            assert(frames.take(i + 1).last() == packets@[i as int]@);
            match packets[i].parse() {
                Some(msg) => {
                    assert(seen.push(msg).drop_last() =~= seen);
                    inbound.push(DkHandlerRx::RxMessage(msg));
                    let mut f = self.dispatch(msg);
                    fired.append(&mut f);
                    assert(inbound@ =~= inbound_of(seen.push(msg)));
                },
                None => {},
            }
            i += 1;
        }
        assert(frames.take(i as int) =~= frames);
        Delivery { inbound, fired }
    }

    /// Takes a command from the session. Returns what the loop owes the
    /// transport for it.
    pub fn notify(&mut self, message: DkHandlerMessage) -> (r: Reaction)
        ensures
            final(self).buf == old(self).buf,
            match message {
                DkHandlerMessage::TxMessage(msg) => {
                    &&& r == Reaction::Write(msg)
                    &&& final(self).watchers == old(self).watchers
                },
                DkHandlerMessage::TxWatcher(w) => {
                    &&& r == Reaction::Idle
                    &&& final(self).watchers@ == old(self).watchers@.push(w)
                },
                DkHandlerMessage::TxCork => {
                    &&& r == Reaction::Cork
                    &&& final(self).watchers == old(self).watchers
                },
                DkHandlerMessage::TxUncork => {
                    &&& r == Reaction::Uncork
                    &&& final(self).watchers == old(self).watchers
                },
            },
    {
        match message {
            DkHandlerMessage::TxMessage(msg) => Reaction::Write(msg),
            DkHandlerMessage::TxWatcher(w) => {
                self.watchers.push(w);
                Reaction::Idle
            },
            DkHandlerMessage::TxCork => Reaction::Cork,
            DkHandlerMessage::TxUncork => Reaction::Uncork,
        }
    }
}

/// The frame that the session sends for `data` under the sequence number
/// `seq`: from system 255, component 0, with the checksum owed.
pub open spec fn sent_frame(seq: u8, data: DkMessage) -> Frame {
    (Frame {
        seq,
        system_id: 255,
        component_id: 0,
        message_id: data.spec_message_id(),
        data: data.spec_serialize(),
        checksum: 0,
    }).sealed()
}

/// The session's end of the two channels: the sequence number of the next
/// frame, the handle of the next watcher, and the messages that came in
/// while the session waited for the reactor to stop reading.
#[derive(Debug)]
pub struct VehicleConnection {
    pub msg_id: u8,
    pub started: bool,
    pub next_handle: u64,
    pub buffer: VecDeque<DkMessage>,
}

impl VehicleConnection {
    /// A connection that has sent nothing and buffered nothing.
    pub fn new() -> (conn: VehicleConnection)
        ensures
            conn.msg_id == 0,
            !conn.started,
            conn.next_handle == 0,
            conn.buffer@ == Seq::<DkMessage>::empty(),
    {
        VehicleConnection { msg_id: 0, started: false, next_handle: 0, buffer: VecDeque::new() }
    }

    /// Takes one item from the inbound channel while the session waits for
    /// the reactor to stop reading. A message is buffered, and the wait
    /// goes on. At `RxCork` the wait is over: the messages buffered so far
    /// are returned, and stay buffered.
    pub fn cork(&mut self, rx: DkHandlerRx) -> (snapshot: Option<Vec<DkMessage>>)
        ensures
            final(self).msg_id == old(self).msg_id,
            final(self).started == old(self).started,
            final(self).next_handle == old(self).next_handle,
            match rx {
                DkHandlerRx::RxMessage(msg) => {
                    &&& snapshot is None
                    &&& final(self).buffer@ == old(self).buffer@.push(msg)
                },
                DkHandlerRx::RxCork => {
                    &&& snapshot is Some
                    &&& snapshot.unwrap()@ == old(self).buffer@
                    &&& final(self).buffer@ == old(self).buffer@
                },
            },
    {
        match rx {
            DkHandlerRx::RxMessage(msg) => {
                self.buffer.push_back(msg);
                None
            },
            DkHandlerRx::RxCork => {
                let mut snapshot: Vec<DkMessage> = Vec::new();
                let n = self.buffer.len();
                let mut i: usize = 0;
                while i < n
                    invariant
                        i <= n,
                        n == self.buffer@.len(),
                        self.buffer@ == old(self).buffer@,
                        snapshot@ == self.buffer@.take(i as int),
                    decreases n - i,
                {
                    snapshot.push(self.buffer[i]);
                    i += 1;
                    assert(snapshot@ =~= self.buffer@.take(i as int));
                }
                assert(self.buffer@.take(n as int) =~= self.buffer@);
                Some(snapshot)
            },
        }
    }

    /// The command that lets the reactor read again.
    pub fn uncork(&mut self) -> (out: DkHandlerMessage)
        ensures
            *final(self) == *old(self),
            out@ == DkHandlerMessageView::TxUncork,
    {
        DkHandlerMessage::TxUncork
    }

    /// The next inbound item that the session has at hand: the oldest
    /// buffered message, which leaves the buffer. `None` where the buffer
    /// is empty: the next item is then the channel's, which the caller
    /// waits for.
    pub fn recv(&mut self) -> (item: Option<DkHandlerRx>)
        ensures
            final(self).msg_id == old(self).msg_id,
            final(self).started == old(self).started,
            final(self).next_handle == old(self).next_handle,
            old(self).buffer@.len() == 0 ==> {
                &&& item is None
                &&& final(self).buffer@ == old(self).buffer@
            },
            old(self).buffer@.len() > 0 ==> {
                &&& item == Some(DkHandlerRx::RxMessage(old(self).buffer@[0]))
                &&& final(self).buffer@ == old(self).buffer@.drop_first()
            },
    {
        match self.buffer.pop_front() {
            Some(msg) => Some(DkHandlerRx::RxMessage(msg)),
            None => None,
        }
    }

    /// As `recv`, for a caller that does not wait: `None` where the buffer
    /// is empty, and the next item is then the channel's, if it has one.
    pub fn try_recv(&mut self) -> (item: Option<DkHandlerRx>)
        ensures
            final(self).msg_id == old(self).msg_id,
            final(self).started == old(self).started,
            final(self).next_handle == old(self).next_handle,
            old(self).buffer@.len() == 0 ==> {
                &&& item is None
                &&& final(self).buffer@ == old(self).buffer@
            },
            old(self).buffer@.len() > 0 ==> {
                &&& item == Some(DkHandlerRx::RxMessage(old(self).buffer@[0]))
                &&& final(self).buffer@ == old(self).buffer@.drop_first()
            },
    {
        self.recv()
    }

    /// Frames `data` under the next sequence number, which then advances,
    /// from 255 to 0. Returns the command that has the reactor write the
    /// frame.
    pub fn send(&mut self, data: DkMessage) -> (out: DkHandlerMessage)
        ensures
            out@ == DkHandlerMessageView::TxMessage(sent_frame(old(self).msg_id, data).bytes()),
            final(self).msg_id == (if old(self).msg_id == 255 {
                0u8
            } else {
                (old(self).msg_id + 1) as u8
            }),
            final(self).started == old(self).started,
            final(self).next_handle == old(self).next_handle,
            final(self).buffer == old(self).buffer,
    {
        let mut pkt = MavPacket {
            seq: self.msg_id,
            system_id: 255,
            component_id: 0,
            message_id: data.message_id(),
            data: data.serialize(),
            checksum: 0,
        };
        pkt.update_crc();
        let out = pkt.encode();
        self.msg_id = self.msg_id.wrapping_add(1);
        DkHandlerMessage::TxMessage(out)
    }

    /// Gives `predicate` the next handle, which then advances. Returns the
    /// command that has the reactor register the watcher.
    pub fn complete(&mut self, predicate: Predicate) -> (out: DkHandlerMessage)
        ensures
            out@ == DkHandlerMessageView::TxWatcher(
                WatcherView { handle: old(self).next_handle, predicate: predicate@ },
            ),
            final(self).next_handle == (if old(self).next_handle == u64::MAX {
                0u64
            } else {
                (old(self).next_handle + 1) as u64
            }),
            final(self).msg_id == old(self).msg_id,
            final(self).started == old(self).started,
            final(self).buffer == old(self).buffer,
    {
        let handle = self.next_handle;
        self.next_handle = self.next_handle.wrapping_add(1);
        DkHandlerMessage::TxWatcher(Watcher { handle, predicate })
    }
}

/// What the session sends for a message, the decoder finds, alone, and
/// the registry reads back as that message.
pub proof fn lemma_sent_is_received(seq: u8, data: DkMessage)
    ensures
        scan(sent_frame(seq, data).bytes(), 0) == (Scan {
            frames: seq![sent_frame(seq, data)],
            consumed: sent_frame(seq, data).bytes().len() as int,
        }),
        messages_of(seq![sent_frame(seq, data)]) == seq![data],
{
    let f = sent_frame(seq, data);
    data.lemma_roundtrip();
    DkMessage::lemma_body_len_bound(data.spec_message_id());
    lemma_decode_encode(f);
    let frames = seq![f];
    assert(frames.drop_last() =~= Seq::<Frame>::empty());
    assert(messages_of(frames.drop_last()) =~= Seq::<DkMessage>::empty());
    assert(Seq::<DkMessage>::empty().push(data) =~= seq![data]);
}

} // verus!
