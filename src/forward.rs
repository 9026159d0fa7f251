//! The plan of datagrams for one batch of blendshape weights.
//!
//! Each channel becomes one OSC message at the caller's address prefix
//! followed by the channel's name, carrying the channel's weight, and goes
//! to the loopback address at the batch's port. The caller sends the
//! datagrams in order and stops at the first failed send.
use vstd::prelude::*;
use vstd::utf8::encode_utf8;
use crate::osc::{encode_float_message, float_message, has_nul};

verus! {

/// One named weight. The weight is a float32 held as its IEEE-754 bit
/// pattern.
pub struct Channel {
    pub name: String,
    pub weight_bits: u32,
}

/// A batch of weights and the local port that they are sent to.
pub struct BlendshapeData {
    pub data: Vec<Channel>,
    pub port: u16,
}

/// An IPv4 address and a port.
pub struct Endpoint {
    pub octets: [u8; 4],
    pub port: u16,
}

/// One UDP datagram to send.
pub struct Datagram {
    pub to: Endpoint,
    pub payload: Vec<u8>,
}

/// Why a batch was not sent in full.
pub enum ForwardError {
    /// No outbound socket could be opened.
    SocketBind { cause: String },
    /// The destination address could not be formed.
    InvalidAddress { cause: String },
    /// The channel's message cannot be encoded.
    Encode { channel: String },
    /// The channel's datagram could not be sent.
    Send { channel: String, cause: String },
}

/// Whether `e` is `127.0.0.1` at `port`.
pub open spec fn is_loopback(e: Endpoint, port: u16) -> bool {
    e.octets@ == seq![127u8, 0u8, 0u8, 1u8] && e.port == port
}

/// The OSC address of the channel `name` under `prefix`, as bytes.
pub open spec fn address_of(prefix: Seq<char>, name: Seq<char>) -> Seq<u8> {
    encode_utf8(prefix) + encode_utf8(name)
}

/// Whether a message at `addr` can be encoded: an OSC string ends at its
/// first NUL byte, and the message must fit in memory.
pub open spec fn encodable(addr: Seq<u8>) -> bool {
    !has_nul(addr) && addr.len() + 12 <= usize::MAX
}

/// The number of leading channels of `data` whose messages can be encoded
/// under `prefix`.
pub open spec fn encodable_prefix_len(prefix: Seq<char>, data: Seq<Channel>) -> nat
    decreases data.len(),
{
    if data.len() == 0 || !encodable(address_of(prefix, data[0].name@)) {
        0
    } else {
        1 + encodable_prefix_len(prefix, data.drop_first())
    }
}

/// `out` and `failed` are the plan of the batch `data` for `port` under
/// `prefix`: one datagram to `127.0.0.1:port` per channel, in order, up to
/// the first channel whose message cannot be encoded, which is then named
/// by an encoding error; with no such channel, one datagram per channel and
/// no error.
pub open spec fn batch_plan(
    prefix: Seq<char>,
    data: Seq<Channel>,
    port: u16,
    out: Seq<Datagram>,
    failed: Option<ForwardError>,
) -> bool {
    &&& out.len() <= data.len()
    &&& forall|i: int|
        0 <= i < out.len() ==> {
            let addr = address_of(prefix, #[trigger] data[i].name@);
            &&& encodable(addr)
            &&& out[i].payload@ == float_message(addr, data[i].weight_bits)
            &&& is_loopback(out[i].to, port)
        }
    &&& failed is None ==> out.len() == data.len()
    &&& failed matches Some(e) ==> {
        &&& out.len() < data.len()
        &&& !encodable(address_of(prefix, data[out.len() as int].name@))
        &&& match e {
            ForwardError::Encode { channel } => channel@ == data[out.len() as int].name@,
            _ => false,
        }
    }
}

/// Planning one batch twice gives the same datagrams and the same outcome:
/// the plan depends on the batch and the prefix alone.
pub proof fn lemma_plan_is_determined(
    prefix: Seq<char>,
    data: Seq<Channel>,
    port: u16,
    out1: Seq<Datagram>,
    failed1: Option<ForwardError>,
    out2: Seq<Datagram>,
    failed2: Option<ForwardError>,
)
    requires
        batch_plan(prefix, data, port, out1, failed1),
        batch_plan(prefix, data, port, out2, failed2),
    ensures
        out1.len() == out2.len(),
        forall|i: int|
            0 <= i < out1.len() ==> #[trigger] out1[i].payload@ == out2[i].payload@
                && out1[i].to.octets@ == out2[i].to.octets@ && out1[i].to.port == out2[i].to.port,
        match (failed1, failed2) {
            (None, None) => true,
            (
                Some(ForwardError::Encode { channel: c1 }),
                Some(ForwardError::Encode { channel: c2 }),
            ) => c1@ == c2@,
            _ => false,
        },
{
    if out1.len() < out2.len() {
        let k = out1.len() as int;
        assert(encodable(address_of(prefix, data[k].name@)));
    }
    if out2.len() < out1.len() {
        let k = out2.len() as int;
        assert(encodable(address_of(prefix, data[k].name@)));
    }
    assert forall|i: int| 0 <= i < out1.len() implies #[trigger] out1[i].payload@
        == out2[i].payload@ && out1[i].to.octets@ == out2[i].to.octets@ && out1[i].to.port
        == out2[i].to.port by {
        assert(data[i].name@ == data[i].name@);
    }
}

/// The datagrams that carry the batch `batch`, each channel's message at
/// `prefix` followed by the channel's name, up to the first channel whose
/// message cannot be encoded; that channel is then named by the error.
pub fn plan_batch(prefix: &str, batch: &BlendshapeData) -> (r: (Vec<Datagram>, Option<
    ForwardError,
>))
    ensures
        batch_plan(prefix@, batch.data@, batch.port, r.0@, r.1),
{
    let n = batch.data.len();
    let mut out: Vec<Datagram> = Vec::new();
    let mut i: usize = 0;
    while i < n
        invariant
            n == batch.data@.len(),
            i <= n,
            out@.len() == i,
            forall|j: int|
                0 <= j < i ==> {
                    let addr = address_of(prefix@, #[trigger] batch.data@[j].name@);
                    &&& encodable(addr)
                    &&& out@[j].payload@ == float_message(addr, batch.data@[j].weight_bits)
                    &&& is_loopback(out@[j].to, batch.port)
                },
        decreases n - i,
    {
        let channel = &batch.data[i];
        let addr = channel_address(prefix, channel.name.as_str());
        if contains_nul(&addr) || addr.len() > usize::MAX - 12 {
            let e = ForwardError::Encode { channel: channel.name.clone() };
            return (out, Some(e));
        }
        let payload = encode_float_message(addr.as_slice(), channel.weight_bits);
        out.push(Datagram { to: loopback(batch.port), payload });
        i = i + 1;
    }
    (out, None)
}

/// `127.0.0.1` at `port`.
pub fn loopback(port: u16) -> (e: Endpoint)
    ensures
        is_loopback(e, port),
{
    let e = Endpoint { octets: [127u8, 0u8, 0u8, 1u8], port };
    assert(e.octets@ =~= seq![127u8, 0u8, 0u8, 1u8]);
    e
}

/// The error for a failed send of the datagram of channel `index` of
/// `batch`: it names that channel and carries the cause.
pub fn send_error(batch: &BlendshapeData, index: usize, cause: String) -> (e: ForwardError)
    requires
        index < batch.data@.len(),
    ensures
        match e {
            ForwardError::Send { channel, cause: c } => channel@ == batch.data@[index as int].name@
                && c@ == cause@,
            _ => false,
        },
{
    ForwardError::Send { channel: batch.data[index].name.clone(), cause }
}

fn append_bytes(out: &mut Vec<u8>, b: &[u8])
    ensures
        final(out)@ == old(out)@ + b@,
{
    let mut i: usize = 0;
    while i < b.len()
        invariant
            i <= b@.len(),
            out@ == old(out)@ + b@.subrange(0, i as int),
        decreases b@.len() - i,
    {
        out.push(b[i]);
        i = i + 1;
        assert(b@.subrange(0, i as int) =~= b@.subrange(0, i - 1) + seq![b@[i - 1]]);
    }
    assert(b@.subrange(0, b@.len() as int) =~= b@);
}

/// The OSC address of the channel `name` under `prefix`, as bytes.
pub fn channel_address(prefix: &str, name: &str) -> (r: Vec<u8>)
    ensures
        r@ == address_of(prefix@, name@),
{
    let mut out: Vec<u8> = Vec::new();
    append_bytes(&mut out, prefix.as_bytes());
    append_bytes(&mut out, name.as_bytes());
    assert(out@ =~= address_of(prefix@, name@));
    out
}

fn contains_nul(b: &Vec<u8>) -> (r: bool)
    ensures
        r == has_nul(b@),
{
    let mut i: usize = 0;
    while i < b.len()
        invariant
            i <= b@.len(),
            forall|j: int| 0 <= j < i ==> b@[j] != 0,
        decreases b@.len() - i,
    {
        if b[i] == 0 {
            return true;
        }
        i = i + 1;
    }
    false
}

} // verus!
