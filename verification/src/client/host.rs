//! Hosting — **playing IS hosting**. A tab runs a replica of every zone in its area of
//! interest, exchanges tick-tagged inputs with the other replicas, and reconciles with them
//! by a periodic state-hash quorum. There is no trusted server: the players present in a
//! zone are its servers.
//!
//! This module is the host's bookkeeping: what a message from the mesh changes, what is
//! published when, and what the page shows. The simulation and the transport are driven by
//! the caller.

use crate::client::json;
use crate::content::item::texts;
use crate::scalar::{
    dec, decimal, decimal_is_nearest, decimal_is_number, one, zero, Scalar, ONE,
};
use crate::table::NameMap;
use crate::text;
use crate::text::{hex, hex_lower, nibble, unhex, unhex_bytes};
use vstd::prelude::*;
use vstd::utf8::{encode_utf8, is_ascii_chars, is_ascii_chars_encode_utf8};

verus! {

/// Lower-case hexadecimal text of the bytes: the bridge's wire form.
pub fn to_hex(bytes: &[u8]) -> (r: String)
    ensures
        r@ == hex(bytes@),
{
    hex_lower(bytes)
}

/// Reads the bridge's wire form: the leading pairs of hexadecimal digits, of either case,
/// of the text without the whitespace around it.
pub fn from_hex(h: &str) -> (r: Vec<u8>)
    ensures
        r@ == unhex(encode_utf8(json::trimmed(h@))),
        json::graphic(h@) ==> r@ == unhex(encode_utf8(h@)),
{
    proof {
        if json::graphic(h@) {
            json::graphic_is_trimmed(h@);
        }
    }
    unhex_bytes(json::trim(h).as_bytes())
}

proof fn hex_from_the_front(bytes: Seq<u8>)
    requires
        bytes.len() > 0,
    ensures
        hex(bytes) == seq![
            text::digit((bytes[0] / 16) as nat),
            text::digit((bytes[0] % 16) as nat),
        ] + hex(bytes.skip(1)),
    decreases bytes.len(),
{
    let front = seq![text::digit((bytes[0] / 16) as nat), text::digit((bytes[0] % 16) as nat)];
    if bytes.len() == 1 {
        assert(bytes.drop_last() =~= seq![]);
        assert(bytes.skip(1) =~= seq![]);
        assert(hex(bytes) =~= front + hex(bytes.skip(1)));
    } else {
        let init = bytes.drop_last();
        hex_from_the_front(init);
        assert(init.skip(1) =~= bytes.skip(1).drop_last());
        assert(bytes.skip(1).last() == bytes.last());
        assert(hex(bytes) =~= front + hex(bytes.skip(1)));
    }
}

/// Whatever is written in hexadecimal reads back as it was: the text is printing ASCII, so
/// nothing is trimmed, and its digit pairs are the bytes.
pub proof fn hex_round_trip(bytes: Seq<u8>)
    ensures
        json::graphic(hex(bytes)),
        unhex(encode_utf8(hex(bytes))) == bytes,
    decreases bytes.len(),
{
    if bytes.len() == 0 {
        assert(hex(bytes) =~= seq![]);
        assert(unhex(encode_utf8(hex(bytes))) =~= bytes);
    } else {
        let rest = bytes.skip(1);
        hex_round_trip(rest);
        hex_from_the_front(bytes);
        let all = hex(bytes);
        let tail = hex(rest);
        let hi = (bytes[0] / 16) as nat;
        let lo = (bytes[0] % 16) as nat;
        assert forall|i: int| 0 <= i < all.len() implies '!' <= #[trigger] all[i] <= '~' by {
            if i >= 2 {
                assert(all[i] == tail[i - 2]);
            }
        }
        assert(is_ascii_chars(all));
        assert(is_ascii_chars(tail));
        is_ascii_chars_encode_utf8(all);
        is_ascii_chars_encode_utf8(tail);
        let b = encode_utf8(all);
        assert(b.skip(2) =~= encode_utf8(tail)) by {
            assert forall|i: int| 0 <= i < encode_utf8(tail).len() implies b.skip(2)[i]
                == encode_utf8(tail)[i] by {
                assert(all[i + 2] == tail[i]);
                assert(all[i + 2] as u8 == b[i + 2]);
                assert(tail[i] as u8 == encode_utf8(tail)[i]);
            }
        }
        assert(all[0] as u8 == b[0] && all[1] as u8 == b[1]);
        assert(nibble(b[0]) == Some(hi as u8));
        assert(nibble(b[1]) == Some(lo as u8));
        assert(hi * 16 + lo == bytes[0]);
        assert(unhex(b) =~= bytes);
    }
}

/// The value of a hexadecimal digit of either case.
pub open spec fn digit_value(c: char) -> Option<u8> {
    if (c as u32) < 128 {
        nibble(c as u8)
    } else {
        None
    }
}

/// The text writes the bytes, two digits to a byte, each digit in either case.
pub open spec fn spells(text: Seq<char>, bytes: Seq<u8>) -> bool {
    &&& text.len() == 2 * bytes.len()
    &&& forall|i: int|
        0 <= i < bytes.len() ==> digit_value(text[2 * i]) == Some((#[trigger] bytes[i] / 16) as u8)
            && digit_value(text[2 * i + 1]) == Some((bytes[i] % 16) as u8)
}

/// The text with its ASCII letters in upper case.
pub open spec fn upper(text: Seq<char>) -> Seq<char> {
    text.map_values(
        |c: char|
            if 'a' <= c <= 'z' {
                ((c as u32 - 32) as u32) as char
            } else {
                c
            },
    )
}

/// The wire form writes the bytes, and so does the wire form in upper case.
pub proof fn either_case_spells(bytes: Seq<u8>)
    ensures
        spells(hex(bytes), bytes),
        spells(upper(hex(bytes)), bytes),
    decreases bytes.len(),
{
    if bytes.len() > 0 {
        let init = bytes.drop_last();
        either_case_spells(init);
        let all = hex(bytes);
        let was = hex(init);
        assert forall|i: int| 0 <= i < bytes.len() implies digit_value(all[2 * i]) == Some(
            (#[trigger] bytes[i] / 16) as u8,
        ) && digit_value(all[2 * i + 1]) == Some((bytes[i] % 16) as u8) && digit_value(
            upper(all)[2 * i],
        ) == Some((bytes[i] / 16) as u8) && digit_value(upper(all)[2 * i + 1]) == Some(
            (bytes[i] % 16) as u8,
        ) by {
            if i < init.len() {
                assert(init[i] == bytes[i]);
                assert(all[2 * i] == was[2 * i] && all[2 * i + 1] == was[2 * i + 1]);
                assert(upper(all)[2 * i] == upper(was)[2 * i]);
                assert(upper(all)[2 * i + 1] == upper(was)[2 * i + 1]);
            } else {
                assert(all[2 * i] == text::digit((bytes[i] / 16) as nat));
                assert(all[2 * i + 1] == text::digit((bytes[i] % 16) as nat));
            }
        }
    }
}

proof fn digit_is_graphic(c: char)
    requires
        digit_value(c) is Some,
    ensures
        '!' <= c <= '~',
{
    assert(c as u8 == c as u32);
    assert(0x30 <= c as u8 <= 0x66);
}

proof fn spelled_then(text: Seq<char>, bytes: Seq<u8>, rest: Seq<char>)
    requires
        spells(text, bytes),
        json::graphic(rest),
    ensures
        json::graphic(text + rest),
        unhex(encode_utf8(text + rest)) == bytes + unhex(encode_utf8(rest)),
    decreases bytes.len(),
{
    let all = text + rest;
    if bytes.len() == 0 {
        assert(all =~= rest);
        assert(bytes + unhex(encode_utf8(rest)) =~= unhex(encode_utf8(rest)));
    } else {
        let (tail, left) = (text.skip(2), bytes.skip(1));
        assert forall|i: int| 0 <= i < left.len() implies digit_value(tail[2 * i]) == Some(
            (#[trigger] left[i] / 16) as u8,
        ) && digit_value(tail[2 * i + 1]) == Some((left[i] % 16) as u8) by {
            assert(left[i] == bytes[i + 1]);
            assert(tail[2 * i] == text[2 * (i + 1)] && tail[2 * i + 1] == text[2 * (i + 1) + 1]);
        }
        spelled_then(tail, left, rest);
        let after = tail + rest;
        assert(all.skip(2) =~= after);
        assert(digit_value(text[0]) == Some((bytes[0] / 16) as u8));
        assert(digit_value(text[1]) == Some((bytes[0] % 16) as u8));
        assert(all[0] == text[0] && all[1] == text[1]);
        digit_is_graphic(all[0]);
        digit_is_graphic(all[1]);
        assert forall|i: int| 0 <= i < all.len() implies '!' <= #[trigger] all[i] <= '~' by {
            if i >= 2 {
                assert(all[i] == after[i - 2]);
            }
        }
        assert(is_ascii_chars(all));
        assert(is_ascii_chars(after));
        is_ascii_chars_encode_utf8(all);
        is_ascii_chars_encode_utf8(after);
        let b = encode_utf8(all);
        assert(b.skip(2) =~= encode_utf8(after)) by {
            assert forall|i: int| 0 <= i < encode_utf8(after).len() implies b.skip(2)[i]
                == encode_utf8(after)[i] by {
                assert(all[i + 2] == after[i]);
                assert(all[i + 2] as u8 == b[i + 2]);
                assert(after[i] as u8 == encode_utf8(after)[i]);
            }
        }
        assert(all[0] as u8 == b[0] && all[1] as u8 == b[1]);
        assert((bytes[0] / 16) * 16 + bytes[0] % 16 == bytes[0]);
        assert(unhex(b) =~= seq![bytes[0]] + unhex(b.skip(2)));
        assert(bytes =~= seq![bytes[0]] + left);
        assert(unhex(b) =~= bytes + unhex(encode_utf8(rest)));
    }
}

/// Whatever surrounds the wire form, the bytes read back: in either case, with white space
/// around it, and with anything printing behind it that does not begin with two more digits.
pub proof fn hex_reads_back(
    bytes: Seq<u8>,
    text: Seq<char>,
    front: Seq<char>,
    rest: Seq<char>,
    back: Seq<char>,
)
    requires
        spells(text, bytes),
        json::all_blank(front),
        json::graphic(rest),
        rest.len() < 2 || digit_value(rest[0]) is None || digit_value(rest[1]) is None,
        json::all_blank(back),
    ensures
        unhex(encode_utf8(json::trimmed(front + (text + rest) + back))) == bytes,
{
    spelled_then(text, bytes, rest);
    json::blanks_around_are_trimmed(front, text + rest, back);
    assert(is_ascii_chars(rest)) by {
        assert forall|i: int| 0 <= i < rest.len() implies '!' <= #[trigger] rest[i] <= '~' by {}
    }
    is_ascii_chars_encode_utf8(rest);
    if rest.len() >= 2 {
        assert('!' <= rest[0] <= '~' && '!' <= rest[1] <= '~');
        assert(rest[0] as u8 == encode_utf8(rest)[0] && rest[1] as u8 == encode_utf8(rest)[1]);
    }
    assert(unhex(encode_utf8(rest)) =~= seq![]);
    assert(bytes + seq![] =~= bytes);
}

/// A message's parts, if all three are there: who sent it, on which topic, and its payload
/// in wire form.
pub open spec fn chunk_parts(members: Map<Seq<char>, Seq<char>>) -> Option<
    (Seq<char>, Seq<char>, Seq<char>),
> {
    if members.contains_key("topic"@) && members.contains_key("from"@) && members.contains_key(
        "payload_hex"@,
    ) {
        Some((members["from"@], members["topic"@], members["payload_hex"@]))
    } else {
        None
    }
}

/// One bridge chunk `{from, topic, payload_hex}`, taken apart: the sender, the topic and
/// the payload bytes. Nothing if the chunk is not JSON or lacks one of the three.
pub fn parse_chunk(chunk: &str) -> (r: Option<(String, String, Vec<u8>)>)
    ensures
        match json::read_members(chunk@) {
            None => r is None,
            Some(members) => match chunk_parts(members) {
                None => r is None,
                Some((from, topic, payload)) => {
                    &&& r matches Some(m) && m.0@ == from && m.1@ == topic && m.2@ == unhex(
                        encode_utf8(json::trimmed(payload)),
                    )
                },
            },
        },
{
    match json::parse(chunk) {
        None => None,
        Some(value) => {
            let topic = json::text_member(&value, "topic");
            let from = json::text_member(&value, "from");
            let payload = json::text_member(&value, "payload_hex");
            join_parts(topic, from, payload)
        }
    }
}

/// Puts the three parts of a chunk together, if all are there.
pub fn join_parts(topic: Option<String>, from: Option<String>, payload: Option<String>) -> (r: Option<
    (String, String, Vec<u8>),
>)
    ensures
        if topic is Some && from is Some && payload is Some {
            r matches Some(m) && m.0 == from->0 && m.1 == topic->0 && m.2@ == unhex(
                encode_utf8(json::trimmed(payload->0@)),
            ) && (json::graphic(payload->0@) ==> m.2@ == unhex(encode_utf8(payload->0@)))
        } else {
            r is None
        },
{
    match (topic, from, payload) {
        (Some(topic), Some(from), Some(payload)) => {
            let bytes = from_hex(payload.as_str());
            Some((from, topic, bytes))
        },
        _ => None,
    }
}

/// The subscription request for the topics: a JSON array of their names.
pub fn subscribe_request(topics: &Vec<String>) -> (r: String)
    ensures
        r@ == json::written_list(texts(topics@)),
{
    or_nothing(json::write_list(topics))
}

/// The written list, or an empty one.
pub fn or_nothing(written: Option<String>) -> (r: String)
    ensures
        r@ == match written {
            Some(text) => text@,
            None => "[]"@,
        },
{
    match written {
        Some(text) => text,
        None => "[]".to_owned(),
    }
}

/// The eight hexadecimal digits of a number, most significant first.
pub open spec fn hex8(n: u32) -> Seq<char> {
    hex(
        seq![
            (n / 0x100_0000) as u8,
            (n / 0x1_0000 % 0x100) as u8,
            (n / 0x100 % 0x100) as u8,
            (n % 0x100) as u8,
        ],
    )
}

/// A tab's own identity: the node it reaches the mesh through, plus a random suffix. All
/// tabs share one node, so the node's name alone would make every player one body.
pub fn player_name(node: &str, suffix: u32) -> (r: String)
    ensures
        r@ == node@ + "-"@ + hex8(suffix),
{
    let bytes: [u8; 4] = [
        (suffix / 0x100_0000) as u8,
        (suffix / 0x1_0000 % 0x100) as u8,
        (suffix / 0x100 % 0x100) as u8,
        (suffix % 0x100) as u8,
    ];
    let digits = hex_lower(bytes.as_slice());
    let mut name = node.to_owned();
    name.append("-");
    name.append(digits.as_str());
    assert(bytes@ =~= seq![
        (suffix / 0x100_0000) as u8,
        (suffix / 0x1_0000 % 0x100) as u8,
        (suffix / 0x100 % 0x100) as u8,
        (suffix % 0x100) as u8,
    ]);
    name
}

/// A zone of the world grid.
#[derive(Debug, Clone, Copy, PartialEq, Eq, Structural)]
pub struct ZoneId {
    pub x: i32,
    pub z: i32,
}

/// Zones in grid order.
pub open spec fn grid_le(a: ZoneId, b: ZoneId) -> bool {
    a.x < b.x || (a.x == b.x && a.z <= b.z)
}

/// Zones in grid order, but for the one that comes first, if any.
pub open spec fn stream_le(first: Option<ZoneId>, a: ZoneId, b: ZoneId) -> bool {
    first == Some(a) || (first != Some(b) && grid_le(a, b))
}

fn stream_before(first: Option<ZoneId>, a: ZoneId, b: ZoneId) -> (r: bool)
    ensures
        r == stream_le(first, a, b),
{
    let (lead, held) = match first {
        Some(zone) => (zone == a, zone == b),
        None => (false, false),
    };
    lead || (!held && (a.x < b.x || (a.x == b.x && a.z <= b.z)))
}

/// The list is in order.
pub open spec fn streamed(first: Option<ZoneId>, zones: Seq<ZoneId>) -> bool {
    forall|i: int, j: int|
        0 <= i < j < zones.len() ==> stream_le(first, #[trigger] zones[i], #[trigger] zones[j])
}

/// The zones in a stable order: grid order, led by the one that comes first.
fn in_order(zones: &Vec<ZoneId>, first: Option<ZoneId>) -> (r: Vec<ZoneId>)
    requires
        zones@.no_duplicates(),
    ensures
        r@.len() == zones@.len(),
        r@.no_duplicates(),
        forall|z: ZoneId| r@.contains(z) <==> zones@.contains(z),
        streamed(first, r@),
{
    let mut out: Vec<ZoneId> = Vec::new();
    let mut i: usize = 0;
    while i < zones.len()
        invariant
            i <= zones.len(),
            zones@.no_duplicates(),
            out@.len() == i,
            out@.no_duplicates(),
            forall|z: ZoneId| out@.contains(z) <==> zones@.take(i as int).contains(z),
            streamed(first, out@),
        decreases zones.len() - i,
    {
        let zone = zones[i];
        let ghost was = out@;
        let mut at: usize = 0;
        while at < out.len() && stream_before(first, out[at], zone)
            invariant
                at <= out.len(),
                out@ == was,
                forall|k: int| 0 <= k < at ==> stream_le(first, #[trigger] was[k], zone),
            decreases out.len() - at,
        {
            at = at + 1;
        }
        out.insert(at, zone);
        proof {
            let done = zones@.take(i as int);
            let next = zones@.take(i + 1);
            assert(!done.contains(zone)) by {
                if done.contains(zone) {
                    let k = choose|k: int| 0 <= k < done.len() && done[k] == zone;
                    assert(zones@[k] == zones@[i as int]);
                }
            }
            assert(!was.contains(zone));
            assert forall|z: ZoneId| out@.contains(z) <==> next.contains(z) by {
                if out@.contains(z) {
                    let k = choose|k: int| 0 <= k < out@.len() && out@[k] == z;
                    if k == at {
                        assert(next[i as int] == z);
                    } else {
                        if k < at {
                            assert(was[k] == z);
                        } else {
                            assert(was[k - 1] == z);
                        }
                        assert(was.contains(z));
                        assert(done.contains(z));
                        let m = choose|m: int| 0 <= m < done.len() && done[m] == z;
                        assert(next[m] == z);
                    }
                }
                if next.contains(z) {
                    let m = choose|m: int| 0 <= m < next.len() && next[m] == z;
                    if m == i {
                        assert(out@[at as int] == z);
                    } else {
                        assert(done[m] == z);
                        assert(done.contains(z) && was.contains(z));
                        let k = choose|k: int| 0 <= k < was.len() && was[k] == z;
                        if k < at {
                            assert(out@[k] == z);
                        } else {
                            assert(out@[k + 1] == z);
                        }
                    }
                }
            }
            assert forall|a: int, b: int| 0 <= a < b < out@.len() implies stream_le(
                first,
                #[trigger] out@[a],
                #[trigger] out@[b],
            ) && out@[a] != out@[b] by {
                let oa = if a < at {
                    was[a]
                } else if a == at {
                    zone
                } else {
                    was[a - 1]
                };
                let ob = if b < at {
                    was[b]
                } else if b == at {
                    zone
                } else {
                    was[b - 1]
                };
                assert(out@[a] == oa && out@[b] == ob);
                if a == at {
                    assert(was[b - 1] != zone);
                    if b - 1 > at {
                        assert(stream_le(first, was[at as int], was[b - 1]));
                    }
                }
            }
        }
        i = i + 1;
    }
    assert(zones@.take(zones@.len() as int) =~= zones@);
    out
}

/// Of two zones one comes first, so the order of a list of zones is determined by them.
pub proof fn streaming_order_is_total(first: Option<ZoneId>, a: ZoneId, b: ZoneId)
    ensures
        stream_le(first, a, b) || stream_le(first, b, a),
        stream_le(first, a, b) && stream_le(first, b, a) ==> a == b,
{
}

/// What a host holds of one zone besides its simulation: the state hashes that replicas
/// have voted for this round, by voter, and the newest snapshot advertised.
pub struct HostedZone {
    pub zone: ZoneId,
    pub proofs: NameMap<[u8; 32]>,
    pub latest_snapshot: Option<(u32, String)>,
}

/// One message from another replica.
pub enum ReplicaMessage<T> {
    /// A tick-tagged input, for the zone whose input topic it came on.
    Input(T),
    /// A vote on the state of a zone.
    Proof { zone: ZoneId, hash: [u8; 32] },
    /// Where a zone's state at a tick can be fetched.
    Snapshot { zone: ZoneId, tick: u32, cid: String },
}

/// One zone's closed round: every vote, and the snapshot to fall back to.
pub struct Round {
    pub votes: Vec<(String, [u8; 32])>,
    pub snapshot: Option<String>,
}

/// The host's bookkeeping.
pub struct Hosting {
    pub me: String,
    pub local_zone: ZoneId,
    pub zones: Vec<HostedZone>,
    pub input_topics: NameMap<ZoneId>,
    pub seq: u32,
    pub proof_interval: u32,
}

/// `k` is where the zone stands in the list.
pub open spec fn stands_at(zones: Seq<HostedZone>, zone: ZoneId, k: int) -> bool {
    0 <= k < zones.len() && zones[k].zone == zone
}

/// The zone is in the list.
pub open spec fn hosts(zones: Seq<HostedZone>, zone: ZoneId) -> bool {
    exists|k: int| stands_at(zones, zone, k)
}

/// The two lists are the same but for the entry at `k`, which keeps its zone.
pub open spec fn differs_at(before: Seq<HostedZone>, after: Seq<HostedZone>, k: int) -> bool {
    &&& after.len() == before.len()
    &&& forall|i: int| 0 <= i < before.len() && i != k ==> after[i] == before[i]
    &&& after[k].zone == before[k].zone
}

impl Hosting {
    /// No zone is hosted twice, and the maps are in order.
    pub open spec fn well_formed(self) -> bool {
        &&& self.input_topics.well_formed()
        &&& self.proof_interval != 0
        &&& forall|i: int|
            0 <= i < self.zones@.len() ==> (#[trigger] self.zones@[i]).proofs.well_formed()
        &&& forall|i: int, j: int|
            0 <= i < j < self.zones@.len() ==> (#[trigger] self.zones@[i]).zone != (
            #[trigger] self.zones@[j]).zone
    }

    /// A host of no zone yet.
    pub fn new(me: String, local_zone: ZoneId) -> (r: Hosting)
        ensures
            r.well_formed(),
            r.me == me,
            r.local_zone == local_zone,
            r.zones@ == Seq::<HostedZone>::empty(),
            r.input_topics@ == Map::<Seq<char>, ZoneId>::empty(),
            r.seq == 0,
            r.proof_interval == 32,
    {
        Hosting {
            me,
            local_zone,
            zones: Vec::new(),
            input_topics: NameMap::new(),
            seq: 0,
            proof_interval: 32,
        }
    }

    fn find(&self, zone: ZoneId) -> (r: Option<usize>)
        ensures
            match r {
                Some(k) => stands_at(self.zones@, zone, k as int),
                None => !hosts(self.zones@, zone),
            },
    {
        let mut i: usize = 0;
        while i < self.zones.len()
            invariant
                i <= self.zones.len(),
                forall|j: int| 0 <= j < i ==> (#[trigger] self.zones@[j]).zone != zone,
            decreases self.zones.len() - i,
        {
            if self.zones[i].zone == zone {
                return Some(i);
            }
            i = i + 1;
        }
        None
    }

    /// The zones of interest that are not hosted yet, in the order given.
    pub fn unhosted(&self, interest: &Vec<ZoneId>) -> (r: Vec<ZoneId>)
        ensures
            r@ == interest@.filter(|z: ZoneId| !hosts(self.zones@, z)),
    {
        let mut out: Vec<ZoneId> = Vec::new();
        let ghost wanted = |z: ZoneId| !hosts(self.zones@, z);
        let mut i: usize = 0;
        while i < interest.len()
            invariant
                i <= interest.len(),
                wanted == (|z: ZoneId| !hosts(self.zones@, z)),
                out@ == interest@.take(i as int).filter(wanted),
            decreases interest.len() - i,
        {
            let zone = interest[i];
            proof {
                reveal(Seq::filter);
                assert(interest@.take(i + 1).drop_last() =~= interest@.take(i as int));
            }
            if self.find(zone).is_none() {
                out.push(zone);
            }
            i = i + 1;
        }
        assert(interest@.take(interest@.len() as int) =~= interest@);
        out
    }

    /// Starts hosting a zone whose inputs come on the topic. A zone that was hosted
    /// already starts afresh.
    pub fn host(&mut self, zone: ZoneId, in_topic: String)
        requires
            old(self).well_formed(),
        ensures
            final(self).well_formed(),
            final(self).input_topics@ == old(self).input_topics@.insert(in_topic@, zone),
            *final(self) == (Hosting {
                zones: final(self).zones,
                input_topics: final(self).input_topics,
                ..*old(self)
            }),
            forall|z: ZoneId| #[trigger]
                hosts(final(self).zones@, z) <==> z == zone || hosts(old(self).zones@, z),
            forall|k: int| #[trigger]
                stands_at(final(self).zones@, zone, k) ==> {
                    let fresh = final(self).zones@[k];
                    fresh.proofs@ == Map::<Seq<char>, [u8; 32]>::empty()
                        && fresh.latest_snapshot is None
                },
            forall|k: int| #[trigger]
                stands_at(old(self).zones@, zone, k) ==> differs_at(
                    old(self).zones@,
                    final(self).zones@,
                    k,
                ),
            !hosts(old(self).zones@, zone) ==> final(self).zones@.drop_last()
                == old(self).zones@ && final(self).zones@.len() == old(self).zones@.len() + 1,
    {
        let fresh = HostedZone { zone, proofs: NameMap::new(), latest_snapshot: None };
        let ghost was = self.zones@;
        match self.find(zone) {
            Some(k) => {
                self.zones.set(k, fresh);
                proof {
                    assert forall|z: ZoneId| #[trigger]
                        hosts(self.zones@, z) <==> z == zone || hosts(was, z) by {
                        assert(stands_at(was, zone, k as int));
                        assert(stands_at(self.zones@, zone, k as int));
                        if hosts(was, z) {
                            let j = choose|j: int| stands_at(was, z, j);
                            assert(stands_at(self.zones@, z, j));
                        }
                        if hosts(self.zones@, z) {
                            let j = choose|j: int| stands_at(self.zones@, z, j);
                            assert(stands_at(was, z, j));
                        }
                    }
                }
            },
            None => {
                self.zones.push(fresh);
                proof {
                    assert forall|i: int| 0 <= i < was.len() implies (#[trigger] was[i]).zone
                        != zone by {
                        if was[i].zone == zone {
                            assert(stands_at(was, zone, i));
                        }
                    }
                    assert forall|z: ZoneId| #[trigger]
                        hosts(self.zones@, z) <==> z == zone || hosts(was, z) by {
                        assert(stands_at(self.zones@, zone, was.len() as int));
                        if hosts(was, z) {
                            let j = choose|j: int| stands_at(was, z, j);
                            assert(stands_at(self.zones@, z, j));
                        }
                        if hosts(self.zones@, z) {
                            let j = choose|j: int| stands_at(self.zones@, z, j);
                            if j < was.len() {
                                assert(stands_at(was, z, j));
                            }
                        }
                    }
                    assert(self.zones@.drop_last() =~= was);
                }
            },
        }
        self.input_topics.insert(in_topic, zone);
    }

    /// Takes in one message from `from`. An input for a hosted zone is handed back with its
    /// zone and author, to be scheduled; a vote replaces the author's earlier one; a
    /// snapshot is kept unless a later one is known. Whatever concerns a zone that is not
    /// hosted is dropped.
    pub fn route<T>(&mut self, from: String, in_topic: &str, msg: ReplicaMessage<T>) -> (r: Option<
        (ZoneId, String, T),
    >)
        requires
            old(self).well_formed(),
        ensures
            final(self).well_formed(),
            *final(self) == (Hosting { zones: final(self).zones, ..*old(self) }),
            match msg {
                ReplicaMessage::Input(input) => {
                    &&& final(self).zones == old(self).zones
                    &&& if old(self).input_topics@.contains_key(in_topic@) && hosts(
                        old(self).zones@,
                        old(self).input_topics@[in_topic@],
                    ) {
                        r == Some((old(self).input_topics@[in_topic@], from, input))
                    } else {
                        r is None
                    }
                },
                ReplicaMessage::Proof { zone, hash } => {
                    &&& r is None
                    &&& !hosts(old(self).zones@, zone) ==> final(self).zones == old(self).zones
                    &&& forall|k: int| #[trigger]
                        stands_at(old(self).zones@, zone, k) ==> {
                            let before = old(self).zones@[k];
                            let after = final(self).zones@[k];
                            &&& differs_at(old(self).zones@, final(self).zones@, k)
                            &&& after.proofs@ == before.proofs@.insert(from@, hash)
                            &&& after.latest_snapshot == before.latest_snapshot
                        }
                },
                ReplicaMessage::Snapshot { zone, tick, cid } => {
                    &&& r is None
                    &&& !hosts(old(self).zones@, zone) ==> final(self).zones == old(self).zones
                    &&& forall|k: int| #[trigger]
                        stands_at(old(self).zones@, zone, k) ==> {
                            let before = old(self).zones@[k];
                            let after = final(self).zones@[k];
                            &&& differs_at(old(self).zones@, final(self).zones@, k)
                            &&& after.proofs == before.proofs
                            &&& after.latest_snapshot == newest(before.latest_snapshot, tick, cid)
                        }
                },
            },
    {
        match msg {
            ReplicaMessage::Input(input) => {
                let zone = match self.input_topics.get(in_topic) {
                    Some(zone) => *zone,
                    None => {
                        return None;
                    },
                };
                if self.find(zone).is_some() {
                    Some((zone, from, input))
                } else {
                    None
                }
            },
            ReplicaMessage::Proof { zone, hash } => {
                match self.find(zone) {
                    Some(k) => {
                        self.zones[k].proofs.insert(from, hash);
                    },
                    None => {},
                }
                None
            },
            ReplicaMessage::Snapshot { zone, tick, cid } => {
                match self.find(zone) {
                    Some(k) => {
                        let stale = match &self.zones[k].latest_snapshot {
                            Some((held, _)) => tick < *held,
                            None => false,
                        };
                        if !stale {
                            self.zones[k].latest_snapshot = Some((tick, cid));
                        }
                    },
                    None => {},
                }
                None
            },
        }
    }

    /// The hosted zones, as they stand in the table.
    pub fn hosted(&self) -> (r: Vec<ZoneId>)
        requires
            self.well_formed(),
        ensures
            r@ == self.zones@.map_values(|z: HostedZone| z.zone),
            r@.no_duplicates(),
            forall|z: ZoneId| r@.contains(z) <==> hosts(self.zones@, z),
    {
        let mut out: Vec<ZoneId> = Vec::new();
        let mut i: usize = 0;
        while i < self.zones.len()
            invariant
                i <= self.zones.len(),
                out@ == self.zones@.take(i as int).map_values(|z: HostedZone| z.zone),
            decreases self.zones.len() - i,
        {
            out.push(self.zones[i].zone);
            i = i + 1;
            assert(out@ =~= self.zones@.take(i as int).map_values(|z: HostedZone| z.zone));
        }
        assert(self.zones@.take(self.zones@.len() as int) =~= self.zones@);
        assert forall|z: ZoneId| out@.contains(z) <==> hosts(self.zones@, z) by {
            if out@.contains(z) {
                let k = choose|k: int| 0 <= k < out@.len() && out@[k] == z;
                assert(stands_at(self.zones@, z, k));
            }
            if hosts(self.zones@, z) {
                let k = choose|k: int| stands_at(self.zones@, z, k);
                assert(out@[k] == z);
            }
        }
        out
    }

    /// How many zones this tab hosts.
    pub fn hosted_zone_count(&self) -> (r: usize)
        ensures
            r == self.zones@.len(),
    {
        self.zones.len()
    }

    /// The hosted zones, the player's local zone first then the rest in a stable order. The
    /// client extracts terrain one zone per frame in this order, so the zone you stand in
    /// renders immediately and the neighbours stream in.
    pub fn hosted_zones_local_first(&self) -> (r: Vec<ZoneId>)
        requires
            self.well_formed(),
        ensures
            r@.no_duplicates(),
            forall|z: ZoneId| r@.contains(z) <==> hosts(self.zones@, z),
            streamed(Some(self.local_zone), r@),
    {
        in_order(&self.hosted(), Some(self.local_zone))
    }

    /// The hosted zones in grid order, in which their meshes are rebuilt.
    pub fn hosted_zones_in_grid_order(&self) -> (r: Vec<ZoneId>)
        requires
            self.well_formed(),
        ensures
            r@.no_duplicates(),
            forall|z: ZoneId| r@.contains(z) <==> hosts(self.zones@, z),
            streamed(None, r@),
    {
        in_order(&self.hosted(), None)
    }

    /// Next monotonic input sequence for this node.
    pub fn next_seq(&mut self) -> (r: u32)
        ensures
            *final(self) == (Hosting { seq: old(self).seq.wrapping_add(1), ..*old(self) }),
            r == final(self).seq,
    {
        self.seq = self.seq.wrapping_add(1);
        self.seq
    }

    /// True where a round ends at the tick.
    pub fn round_ends(&self, tick: u32) -> (r: bool)
        requires
            self.well_formed(),
        ensures
            r == (tick % self.proof_interval == 0),
    {
        tick % self.proof_interval == 0
    }

    /// Closes a zone's round, if one ends at the tick: casts this host's own vote, hands
    /// out every vote of the round with the snapshot to fall back to, and starts the next
    /// round empty.
    pub fn tally(&mut self, zone: ZoneId, tick: u32, hash: [u8; 32]) -> (r: Option<Round>)
        requires
            old(self).well_formed(),
        ensures
            final(self).well_formed(),
            *final(self) == (Hosting { zones: final(self).zones, ..*old(self) }),
            r is Some <==> tick % old(self).proof_interval == 0 && hosts(old(self).zones@, zone),
            r is None ==> final(self).zones == old(self).zones,
            r matches Some(round) ==> forall|k: int| #[trigger]
                stands_at(old(self).zones@, zone, k) ==> {
                    let before = old(self).zones@[k];
                    let after = final(self).zones@[k];
                    &&& differs_at(old(self).zones@, final(self).zones@, k)
                    &&& after.proofs@ == Map::<Seq<char>, [u8; 32]>::empty()
                    &&& after.latest_snapshot == before.latest_snapshot
                    &&& (NameMap { entries: round.votes }).well_formed()
                    &&& (NameMap { entries: round.votes })@ == before.proofs@.insert(
                        old(self).me@,
                        hash,
                    )
                    &&& match before.latest_snapshot {
                        Some((_, cid)) => round.snapshot matches Some(c) && c@ == cid@,
                        None => round.snapshot is None,
                    }
                },
    {
        if !self.round_ends(tick) {
            return None;
        }
        match self.find(zone) {
            Some(k) => {
                let me = self.me.clone();
                self.zones[k].proofs.insert(me, hash);
                let mut votes: NameMap<[u8; 32]> = NameMap::new();
                std::mem::swap(&mut votes, &mut self.zones[k].proofs);
                let snapshot = match &self.zones[k].latest_snapshot {
                    Some((_, cid)) => Some(cid.clone()),
                    None => None,
                };
                Some(Round { votes: votes.entries, snapshot })
            },
            None => None,
        }
    }
}

/// The snapshot to fetch after a round: the newest known, if the vote went against us.
pub fn resync(outvoted: bool, round: Round) -> (r: Option<String>)
    ensures
        r == if outvoted {
            round.snapshot
        } else {
            None
        },
{
    if outvoted {
        round.snapshot
    } else {
        None
    }
}

/// Every player has at most one vote in a round: the votes are listed by voter, each once.
pub proof fn one_vote_each(round: Round, i: int, j: int)
    requires
        (NameMap { entries: round.votes }).well_formed(),
        0 <= i < round.votes@.len(),
        0 <= j < round.votes@.len(),
        round.votes@[i].0@ == round.votes@[j].0@,
    ensures
        i == j,
{
    (NameMap { entries: round.votes }).keys_distinct(i, j);
}

/// The snapshot that is kept is never earlier than the one held or the one advertised.
pub proof fn snapshots_only_advance(held: Option<(u32, String)>, tick: u32, cid: String)
    ensures
        newest(held, tick, cid) matches Some((t, _)) && t >= tick && (held matches Some((was, _))
            ==> t >= was),
{
}

/// The snapshot to keep when another is advertised: the later one, the new one of two for
/// the same tick.
pub open spec fn newest(held: Option<(u32, String)>, tick: u32, cid: String) -> Option<
    (u32, String),
> {
    match held {
        Some((at, _)) if tick < at => held,
        _ => Some((tick, cid)),
    }
}

/// The local mage's body, as the simulation holds it.
pub struct Body {
    pub health: i32,
    pub armor: i32,
    pub alive: bool,
    /// Where it stands, as text.
    pub coord: String,
}

/// What the page overlay shows.
pub struct Page {
    pub status: String,
    pub hp: String,
    pub hp_frac: Scalar,
    pub ar_frac: Scalar,
    pub coord: String,
    pub peers: String,
    pub dead: bool,
}

/// Points out of a hundred, as a fraction between nothing and all.
pub open spec fn fraction(points: int) -> Scalar {
    decimal(floor_zero(points), 2).clamped(Scalar { bits: 0 }, Scalar { bits: ONE })
}

pub open spec fn floor_zero(n: int) -> int {
    if n < 0 {
        0
    } else {
        n
    }
}

/// The players in view besides the local one.
pub open spec fn peers_of(players: usize, spawned: bool) -> nat {
    if spawned && players > 0 {
        (players - 1) as nat
    } else {
        players as nat
    }
}

/// The status line.
pub open spec fn status_line(zones: usize, peers: nat, local: Option<Body>) -> Seq<char> {
    match local {
        None => "entering Cerena…"@,
        Some(body) => if !body.alive {
            "you have fallen"@
        } else if peers > 0 {
            "hosting "@ + text::decimal(zones as nat) + " zones · "@ + text::decimal(peers)
                + " nearby"@
        } else {
            "hosting "@ + text::decimal(zones as nat) + " zones · exploring"@
        },
    }
}

/// The page overlay for a host of `zones` zones with `players` players in view, of whom the
/// local one may not have spawned yet.
pub fn page(zones: usize, players: usize, local: Option<Body>) -> (r: Page)
    ensures
        r.status@ == status_line(zones, peers_of(players, local is Some), local),
        r.peers@ == if peers_of(players, local is Some) > 0 {
            text::decimal(peers_of(players, local is Some)) + " mage(s) near"@
        } else {
            Seq::<char>::empty()
        },
        match local {
            Some(body) => {
                &&& r.hp@ == text::decimal(floor_zero(body.health as int) as nat)
                &&& r.hp_frac == fraction(body.health as int)
                &&& r.ar_frac == fraction(body.armor as int)
                &&& r.coord@ == body.coord@
                &&& r.dead == !body.alive
            },
            None => {
                &&& r.hp@ == "—"@
                &&& r.hp_frac == Scalar { bits: ONE }
                &&& r.ar_frac == Scalar { bits: 0 }
                &&& r.coord@ == Seq::<char>::empty()
                &&& !r.dead
            },
        },
{
    let peers: usize = if local.is_some() && players > 0 {
        players - 1
    } else {
        players
    };
    let mut near = String::new();
    if peers > 0 {
        text::push_decimal(&mut near, peers as u64);
        near.append(" mage(s) near");
    }
    match local {
        Some(body) => {
            let hp: i32 = if body.health < 0 {
                0
            } else {
                body.health
            };
            let armor: i32 = if body.armor < 0 {
                0
            } else {
                body.armor
            };
            let mut status = String::new();
            if !body.alive {
                status.append("you have fallen");
            } else {
                status.append("hosting ");
                text::push_decimal(&mut status, zones as u64);
                if peers > 0 {
                    status.append(" zones · ");
                    text::push_decimal(&mut status, peers as u64);
                    status.append(" nearby");
                } else {
                    status.append(" zones · exploring");
                }
            }
            let mut points = String::new();
            text::push_decimal(&mut points, hp as u64);
            proof {
                assert(status@ =~= status_line(zones, peers as nat, Some(body)));
                assert(near@ =~= if peers > 0 {
                    text::decimal(peers as nat) + " mage(s) near"@
                } else {
                    Seq::<char>::empty()
                });
            }
            Page {
                status,
                hp: points,
                hp_frac: dec(hp, 2).clamp(zero(), one()),
                ar_frac: dec(armor, 2).clamp(zero(), one()),
                coord: body.coord,
                peers: near,
                dead: !body.alive,
            }
        },
        None => Page {
            status: "entering Cerena…".to_owned(),
            hp: "—".to_owned(),
            hp_frac: one(),
            ar_frac: zero(),
            coord: String::new(),
            peers: near,
            dead: false,
        },
    }
}

/// The zone that comes first leads, and the others follow by column, then by row.
pub proof fn the_local_zone_leads(first: ZoneId, zones: Seq<ZoneId>)
    requires
        streamed(Some(first), zones),
        zones.no_duplicates(),
        zones.contains(first),
    ensures
        zones[0] == first,
        forall|i: int, j: int|
            0 < i < j < zones.len() ==> (#[trigger] zones[i]).x < (#[trigger] zones[j]).x || (
            zones[i].x == zones[j].x && zones[i].z < zones[j].z),
{
    let k = choose|k: int| 0 <= k < zones.len() && zones[k] == first;
    if k > 0 {
        assert(stream_le(Some(first), zones[0], zones[k]));
        assert(zones[0] == first);
    }
    assert forall|i: int, j: int| 0 < i < j < zones.len() implies (#[trigger] zones[i]).x < (
    #[trigger] zones[j]).x || (zones[i].x == zones[j].x && zones[i].z < zones[j].z) by {
        assert(stream_le(Some(first), zones[i], zones[j]));
        assert(zones[i] != zones[j]);
        assert(zones[i] != zones[0]);
        assert(zones[j] != zones[0]);
    }
}

/// Without a zone to lead, all are in order by column, then by row.
pub proof fn the_grid_is_in_order(zones: Seq<ZoneId>, i: int, j: int)
    requires
        streamed(None, zones),
        zones.no_duplicates(),
        0 <= i < j < zones.len(),
    ensures
        zones[i].x < zones[j].x || (zones[i].x == zones[j].x && zones[i].z < zones[j].z),
{
    assert(stream_le(None, zones[i], zones[j]));
    assert(zones[i] != zones[j]);
}

/// A zone is hosted exactly if it stands in the table.
pub proof fn hosted_means_listed(zones: Seq<HostedZone>, zone: ZoneId)
    ensures
        hosts(zones, zone) <==> exists|k: int| 0 <= k < zones.len() && (#[trigger] zones[k]).zone == zone,
{
    if hosts(zones, zone) {
        let k = choose|k: int| stands_at(zones, zone, k);
        assert(zones[k].zone == zone);
    }
    if exists|k: int| 0 <= k < zones.len() && (#[trigger] zones[k]).zone == zone {
        let k = choose|k: int| 0 <= k < zones.len() && (#[trigger] zones[k]).zone == zone;
        assert(stands_at(zones, zone, k));
    }
}

/// A later snapshot replaces an earlier one, one of the same tick too, and the first is always
/// kept; an earlier one changes nothing.
pub proof fn the_latest_snapshot_is_kept(held: Option<(u32, String)>, tick: u32, cid: String)
    ensures
        held is None ==> newest(held, tick, cid) == Some((tick, cid)),
        held matches Some(h) ==> h.0 <= tick ==> newest(held, tick, cid) == Some((tick, cid)),
        held matches Some(h) ==> tick < h.0 ==> newest(held, tick, cid) == held,
{
}

/// A chunk is read only if all its parts are there, and each part is taken for what it is.
pub proof fn chunks_need_all_parts(members: Map<Seq<char>, Seq<char>>)
    ensures
        chunk_parts(members) is Some <==> members.contains_key("from"@) && members.contains_key(
            "topic"@,
        ) && members.contains_key("payload_hex"@),
        chunk_parts(members) matches Some(parts) ==> parts.0 == members["from"@] && parts.1
            == members["topic"@] && parts.2 == members["payload_hex"@],
{
}

/// Names of players on one node differ where their suffixes do.
pub proof fn suffixes_tell_players_apart(node: Seq<char>, a: u32, b: u32)
    requires
        node + "-"@ + hex8(a) == node + "-"@ + hex8(b),
    ensures
        a == b,
{
    reveal_strlit("-");
    let (x, y) = (node + "-"@ + hex8(a), node + "-"@ + hex8(b));
    let n = node.len() + 1;
    assert(x.skip(n as int) =~= hex8(a));
    assert(y.skip(n as int) =~= hex8(b));
    hex_round_trip(quarters(a));
    hex_round_trip(quarters(b));
    quarters_make_the_whole(a, b);
}

/// The bytes of a number, most significant first.
spec fn quarters(n: u32) -> Seq<u8> {
    seq![
        (n / 0x100_0000) as u8,
        (n / 0x1_0000 % 0x100) as u8,
        (n / 0x100 % 0x100) as u8,
        (n % 0x100) as u8,
    ]
}

proof fn quarters_make_the_whole(a: u32, b: u32)
    requires
        quarters(a) == quarters(b),
    ensures
        a == b,
{
    assert(quarters(a)[0] == quarters(b)[0]);
    assert(quarters(a)[1] == quarters(b)[1]);
    assert(quarters(a)[2] == quarters(b)[2]);
    assert(quarters(a)[3] == quarters(b)[3]);
    assert((a / 0x100_0000) as u8 == (b / 0x100_0000) as u8 && (a / 0x1_0000 % 0x100) as u8 == (b
        / 0x1_0000 % 0x100) as u8 && (a / 0x100 % 0x100) as u8 == (b / 0x100 % 0x100) as u8 && (a
        % 0x100) as u8 == (b % 0x100) as u8 ==> a == b) by (bit_vector);
}

/// One is not one's own peer, and nobody is counted below none.
pub proof fn one_is_not_ones_own_peer(players: usize)
    ensures
        peers_of(players, false) == players,
        players > 0 ==> peers_of(players, true) + 1 == players,
        players == 0 ==> peers_of(players, true) == 0,
{
}

/// A bar shows the points as a share of a hundred, never less than empty or more than full.
pub proof fn bars_show_shares_of_a_hundred(points: int)
    requires
        -0x8000_0000 <= points <= 0x7fff_ffff,
    ensures
        points <= 0 ==> fraction(points).bits == 0,
        (Scalar { bits: 0 }).at_most(fraction(points)),
        fraction(points).at_most(Scalar { bits: ONE }),
        points > 0 && decimal(points, 2).at_most(Scalar { bits: ONE }) ==> fraction(points) == decimal(
            points,
            2,
        ),
        points > 0 && (Scalar { bits: ONE }).below(decimal(points, 2)) ==> fraction(points).bits == ONE,
{
    decimal_is_number(floor_zero(points), 2);
    if points > 0 {
        decimal_is_nearest(points as nat, 2);
    }
}

/// The line on the page says how one fares: still entering without a body, fallen with a dead one,
/// else hosting, with the peers nearby if there are any.
pub proof fn the_page_says_how_one_fares(zones: usize, peers: nat, local: Option<Body>)
    ensures
        local is None ==> status_line(zones, peers, local) == "entering Cerena…"@,
        local matches Some(body) ==> !body.alive ==> status_line(zones, peers, local)
            == "you have fallen"@,
        local matches Some(body) ==> body.alive && peers > 0 ==> status_line(zones, peers, local)
            == "hosting "@ + text::decimal(zones as nat) + " zones · "@ + text::decimal(peers)
            + " nearby"@,
        local matches Some(body) ==> body.alive && peers == 0 ==> status_line(zones, peers, local)
            == "hosting "@ + text::decimal(zones as nat) + " zones · exploring"@,
{
}

/// A vote counts in the round that it was cast in and in no other: the round that closes holds it, and
/// this host's own; the next one holds nothing but what is cast after.
pub proof fn votes_count_in_their_round<T>(
    voting: &mut Hosting,
    from: String,
    in_topic: &str,
    zone: ZoneId,
    hash: [u8; 32],
    input: Option<(ZoneId, String, T)>,
    closing: &mut Hosting,
    tick: u32,
    own: [u8; 32],
    round: Round,
    next: &mut Hosting,
    later: u32,
    next_own: [u8; 32],
    next_round: Round,
)
    requires
        old(voting).well_formed(),
        hosts(old(voting).zones@, zone),
        call_ensures(
            Hosting::route::<T>,
            (voting, from, in_topic, ReplicaMessage::Proof { zone, hash }),
            input,
        ),
        *old(closing) == *final(voting),
        call_ensures(Hosting::tally, (closing, zone, tick, own), Some(round)),
        *old(next) == *final(closing),
        call_ensures(Hosting::tally, (next, zone, later, next_own), Some(next_round)),
    ensures
        input is None,
        ({
            let votes = NameMap { entries: round.votes };
            &&& votes@.contains_key(old(voting).me@) && votes@[old(voting).me@] == own
            &&& votes@.contains_key(from@)
            &&& from@ != old(voting).me@ ==> votes@[from@] == hash
        }),
        (NameMap { entries: next_round.votes })@ == Map::<Seq<char>, [u8; 32]>::empty().insert(
            old(voting).me@,
            next_own,
        ),
{
    let k = choose|k: int| stands_at(old(voting).zones@, zone, k);
    assert(stands_at(old(closing).zones@, zone, k));
    assert(stands_at(old(next).zones@, zone, k));
}

/// Inputs reach the zone whose topic they come on, with their author; what comes on a topic of no hosted
/// zone is dropped.
pub proof fn inputs_reach_their_zone<T>(
    hosting: &mut Hosting,
    zone: ZoneId,
    topic: String,
    routing: &mut Hosting,
    from: String,
    in_topic: &str,
    input: T,
    r: Option<(ZoneId, String, T)>,
)
    requires
        old(hosting).input_topics@ == Map::<Seq<char>, ZoneId>::empty(),
        call_ensures(Hosting::host, (hosting, zone, topic), ()),
        *old(routing) == *final(hosting),
        call_ensures(Hosting::route::<T>, (routing, from, in_topic, ReplicaMessage::Input(input)), r),
    ensures
        in_topic@ == topic@ ==> r == Some((zone, from, input)),
        in_topic@ != topic@ ==> r is None,
{
    assert(hosts(final(hosting).zones@, zone));
}

/// Input numbers go up one by one, rounds end every so many ticks, and only the outvoted resync.
pub proof fn rounds_come_round(
    first: &mut Hosting,
    a: u32,
    second: &mut Hosting,
    b: u32,
    tick: u32,
    ends: bool,
    outvoted: bool,
    round: Round,
    fetched: Option<String>,
)
    requires
        call_ensures(Hosting::next_seq, (first,), a),
        *old(second) == *final(first),
        call_ensures(Hosting::next_seq, (second,), b),
        call_ensures(Hosting::round_ends, (final(second), tick), ends),
        call_ensures(resync, (outvoted, round), fetched),
    ensures
        a < u32::MAX ==> b == a + 1,
        ends <==> tick % old(first).proof_interval == 0,
        fetched == if outvoted {
            round.snapshot
        } else {
            None
        },
{
}

} // verus!
