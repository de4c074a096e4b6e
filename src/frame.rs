use vstd::prelude::*;
use crate::error::{Error, Reason, H3_INTERNAL_ERROR};
use crate::headers::HeaderBlock;
use crate::varint::{encode_varint, varint_bytes, VARINT_MAX};

verus! {

/// Unidirectional stream type: control stream.
pub const STREAM_TYPE_CONTROL: u64 = 0x00;

/// Unidirectional stream type: server push.
pub const STREAM_TYPE_PUSH: u64 = 0x01;

/// Unidirectional stream type: QPACK encoder stream.
pub const STREAM_TYPE_ENCODER: u64 = 0x02;

/// Unidirectional stream type: QPACK decoder stream.
pub const STREAM_TYPE_DECODER: u64 = 0x03;

/// Frame type of SETTINGS.
pub const FRAME_TYPE_SETTINGS: u64 = 0x04;

/// Setting identifier of the largest field section a peer accepts.
pub const SETTING_MAX_HEADER_LIST_SIZE: u64 = 0x06;

/// How many settings one SETTINGS frame holds at most.
pub const SETTINGS_CAPACITY: usize = 8;

/// The (identifier, value) pairs of a SETTINGS frame, in insertion order.
#[derive(Clone, Debug, PartialEq, Eq)]
pub struct Settings {
    entries: Vec<(u64, u64)>,
}

/// The value recorded for `id`: the first pair that carries it.
pub open spec fn setting_value(s: Seq<(u64, u64)>, id: u64) -> Option<u64>
    decreases s.len(),
{
    if s.len() == 0 {
        None
    } else if s[0].0 == id {
        Some(s[0].1)
    } else {
        setting_value(s.drop_first(), id)
    }
}

impl View for Settings {
    type V = Seq<(u64, u64)>;

    closed spec fn view(&self) -> Seq<(u64, u64)> {
        self.entries@
    }
}

impl Settings {
    /// At most `SETTINGS_CAPACITY` pairs, each part a valid varint.
    pub open spec fn wf(&self) -> bool {
        &&& self@.len() <= SETTINGS_CAPACITY
        &&& forall|i: int|
            0 <= i < self@.len() ==> #[trigger] self@[i].0 <= VARINT_MAX && self@[i].1 <= VARINT_MAX
    }

    pub fn new() -> (r: Settings)
        ensures
            r@ == Seq::<(u64, u64)>::empty(),
            r.wf(),
    {
        Settings { entries: Vec::new() }
    }

    /// Adds a setting. Fails with `H3_INTERNAL_ERROR` when the frame is full
    /// or a part does not fit in a varint.
    pub fn insert(&mut self, id: u64, value: u64) -> (r: Result<(), Error>)
        requires
            old(self).wf(),
        ensures
            final(self).wf(),
            old(self)@.len() < SETTINGS_CAPACITY && id <= VARINT_MAX && value <= VARINT_MAX ==> r
                is Ok && final(self)@ == old(self)@.push((id, value)),
            !(old(self)@.len() < SETTINGS_CAPACITY && id <= VARINT_MAX && value <= VARINT_MAX)
                ==> r == Err::<(), Error>(
                Error::Protocol { code: H3_INTERNAL_ERROR, reason: Reason::InvalidSetting },
            ) && final(self)@ == old(self)@,
    {
        if self.entries.len() >= SETTINGS_CAPACITY || id > VARINT_MAX || value > VARINT_MAX {
            return Err(Error::protocol(H3_INTERNAL_ERROR, Reason::InvalidSetting));
        }
        self.entries.push((id, value));
        Ok(())
    }

    /// The value of setting `id`, if present.
    pub fn get(&self, id: u64) -> (r: Option<u64>)
        ensures
            r == setting_value(self@, id),
    {
        let mut i: usize = 0;
        assert(self@.subrange(0, self@.len() as int) =~= self@);
        while i < self.entries.len()
            invariant
                i <= self@.len(),
                setting_value(self@, id) == setting_value(self@.subrange(i as int, self@.len() as int), id),
            decreases self@.len() - i,
        {
            let (k, v) = self.entries[i];
            let ghost rest = self@.subrange(i as int, self@.len() as int);
            assert(rest.drop_first() =~= self@.subrange(i + 1, self@.len() as int));
            if k == id {
                return Some(v);
            }
            i += 1;
        }
        None
    }
}

/// A frame of HTTP/3 as the frame codec delivers it. DATA carries its
/// payload; HEADERS carries the decoded field section.
#[derive(Debug, PartialEq, Eq)]
pub enum Frame {
    Data(Vec<u8>),
    Headers(HeaderBlock),
    Settings(Settings),
    CancelPush(u64),
    Goaway(u64),
    MaxPushId(u64),
    PushPromise,
    Reserved(u64),
}

/// The payload of a SETTINGS frame: each pair as two varints.
pub open spec fn settings_payload(s: Seq<(u64, u64)>) -> Seq<u8>
    decreases s.len(),
{
    if s.len() == 0 {
        Seq::empty()
    } else {
        settings_payload(s.drop_last()) + varint_bytes(s.last().0 as nat) + varint_bytes(
            s.last().1 as nat,
        )
    }
}

/// A whole SETTINGS frame: type, payload length, payload.
pub open spec fn settings_frame_bytes(s: Seq<(u64, u64)>) -> Seq<u8> {
    varint_bytes(FRAME_TYPE_SETTINGS as nat) + varint_bytes(settings_payload(s).len()) + settings_payload(s)
}

/// What opens the outbound control stream: the stream type, then SETTINGS.
pub open spec fn control_prelude(s: Seq<(u64, u64)>) -> Seq<u8> {
    varint_bytes(STREAM_TYPE_CONTROL as nat) + settings_frame_bytes(s)
}

proof fn lemma_payload_len(s: Seq<(u64, u64)>)
    requires
        forall|i: int| 0 <= i < s.len() ==> #[trigger] s[i].0 <= VARINT_MAX && s[i].1 <= VARINT_MAX,
    ensures
        settings_payload(s).len() <= 16 * s.len(),
    decreases s.len(),
{
    if s.len() > 0 {
        let t = s.drop_last();
        assert forall|i: int| 0 <= i < t.len() implies #[trigger] t[i].0 <= VARINT_MAX && t[i].1
            <= VARINT_MAX by {
            assert(t[i] == s[i]);
        }
        lemma_payload_len(t);
        assert(s.last() == s[s.len() - 1]);
    }
}

/// Encodes a SETTINGS frame onto `out`.
pub fn encode_settings(s: &Settings, out: &mut Vec<u8>)
    requires
        s.wf(),
    ensures
        final(out)@ == old(out)@ + settings_frame_bytes(s@),
{
    let mut payload: Vec<u8> = Vec::new();
    let mut i: usize = 0;
    while i < s.entries.len()
        invariant
            s.wf(),
            i <= s@.len(),
            payload@ == settings_payload(s@.subrange(0, i as int)),
        decreases s@.len() - i,
    {
        let (k, v) = s.entries[i];
        assert(s@.subrange(0, i + 1).drop_last() =~= s@.subrange(0, i as int));
        encode_varint(k, &mut payload);
        encode_varint(v, &mut payload);
        assert(payload@ =~= settings_payload(s@.subrange(0, i + 1)));
        i += 1;
    }
    assert(s@.subrange(0, s@.len() as int) =~= s@);
    proof {
        lemma_payload_len(s@);
    }
    encode_varint(FRAME_TYPE_SETTINGS, out);
    encode_varint(payload.len() as u64, out);
    let mut p = payload;
    out.append(&mut p);
    assert(out@ =~= old(out)@ + settings_frame_bytes(s@));
}

/// The bytes that open the outbound control stream.
pub fn encode_control_prelude(s: &Settings) -> (r: Vec<u8>)
    requires
        s.wf(),
    ensures
        r@ == control_prelude(s@),
{
    let mut out: Vec<u8> = Vec::new();
    encode_varint(STREAM_TYPE_CONTROL, &mut out);
    encode_settings(s, &mut out);
    assert(out@ =~= control_prelude(s@));
    out
}

/// The outbound control stream of a connection whose local limit is `max`
/// begins with the CONTROL stream type (byte 0x00), then a SETTINGS frame
/// (type byte 0x04) whose only setting is MAX_HEADER_LIST_SIZE = `max`.
pub proof fn lemma_control_prelude_shape(max: u64)
    requires
        max <= VARINT_MAX,
    ensures
        control_prelude(seq![(SETTING_MAX_HEADER_LIST_SIZE, max)]) == seq![0x00u8, 0x04u8]
            + varint_bytes(1 + varint_bytes(max as nat).len()) + seq![0x06u8] + varint_bytes(
            max as nat,
        ),
        control_prelude(seq![(SETTING_MAX_HEADER_LIST_SIZE, max)])[0] == STREAM_TYPE_CONTROL,
        setting_value(seq![(SETTING_MAX_HEADER_LIST_SIZE, max)], SETTING_MAX_HEADER_LIST_SIZE)
            == Some(max),
{
    let s = seq![(SETTING_MAX_HEADER_LIST_SIZE, max)];
    assert(s.drop_last() =~= Seq::<(u64, u64)>::empty());
    assert(settings_payload(s.drop_last()) =~= Seq::<u8>::empty());
    assert(settings_payload(s) =~= seq![0x06u8] + varint_bytes(max as nat));
    assert(control_prelude(s) =~= seq![0x00u8, 0x04u8] + varint_bytes(
        1 + varint_bytes(max as nat).len(),
    ) + seq![0x06u8] + varint_bytes(max as nat));
}

} // verus!
