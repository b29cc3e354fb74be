//! Version 1 UUIDs: timestamps in the format's native unit, the clock
//! sequence abstraction, and assembly into / disassembly out of the 128-bit
//! identifier.

use vstd::prelude::*;

use core::sync::atomic::AtomicUsize;
use core::sync::atomic::Ordering;

use crate::error::Error;
use crate::identifier::Uuid;
use crate::identifier::Variant;
use crate::identifier::Version;
use crate::identifier::fields_to_bytes;

verus! {

/// The number of 100 ns ticks between the UUID epoch
/// `1582-10-15 00:00:00` and the Unix epoch `1970-01-01 00:00:00`.
pub const UUID_TICKS_BETWEEN_EPOCHS: u64 = 0x01B2_1DD2_1381_4000;

/// A trait that abstracts over generation of UUID v1 "Clock Sequence"
/// values.
pub trait ClockSequence {
    /// Return a 16-bit number that will be used as the "clock sequence" in
    /// the UUID. The number should be different if the time has changed
    /// since the last time a clock sequence was requested.
    fn generate_sequence(&self, seconds: u64, subsec_nanos: u32) -> u16;
}

impl<'a, T: ClockSequence + ?Sized> ClockSequence for &'a T {
    fn generate_sequence(&self, seconds: u64, subsec_nanos: u32) -> u16 {
        (**self).generate_sequence(seconds, subsec_nanos)
    }
}

/// A thread-safe, stateful context for the v1 generator to help ensure
/// process-wide uniqueness: an atomically incremented counter whose low 16
/// bits become the clock sequence.
#[derive(Debug)]
pub struct Context {
    count: AtomicUsize,
}

impl Context {
    /// Creates a thread-safe, internally mutable context to help ensure
    /// uniqueness, starting from `count`.
    ///
    /// The context can be shared across threads. Every request atomically
    /// increments the internal counter and hands out its previous value, so
    /// no two requests — even concurrent ones — observe the same value
    /// until the counter wraps past 16 bits.
    pub fn new(count: u16) -> Context {
        Context { count: AtomicUsize::new(count as usize) }
    }
}

impl ClockSequence for Context {
    fn generate_sequence(&self, _seconds: u64, _subsec_nanos: u32) -> u16 {
        let prev = self.count.fetch_add(1, Ordering::SeqCst);
        proof {
            assert(prev & 0xffff < 0x10000) by (bit_vector);
        }
        (prev & 0xffff) as u16
    }
}

/// Stores the number of 100-nanosecond ticks from the UUID epoch and a
/// counter for ensuring version 1 ids generated on the same host are unique.
#[derive(Clone, Copy, Debug, PartialEq, Eq, Hash, Structural)]
pub struct Timestamp {
    ticks: u64,
    counter: u16,
}

impl Timestamp {
    /// The stored tick count: 100-nanosecond intervals since
    /// 1582-10-15T00:00:00.
    pub closed spec fn spec_ticks(self) -> u64 {
        self.ticks
    }

    /// The stored disambiguation counter.
    pub closed spec fn spec_counter(self) -> u16 {
        self.counter
    }

    /// Construct a `Timestamp` from its raw component values: a tick count
    /// (100-nanosecond intervals since 1582-10-15T00:00:00) and a counter
    /// disambiguating ids generated at the same observed time.
    ///
    /// No validation is performed; only the low 60 bits of `ticks` and the
    /// low 14 bits of `counter` survive assembly into an identifier.
    pub fn from_rfc4122(ticks: u64, counter: u16) -> (r: Timestamp)
        ensures
            r.spec_ticks() == ticks,
            r.spec_counter() == counter,
    {
        Timestamp { ticks, counter }
    }

    /// Construct a `Timestamp` from a unix timestamp (seconds since
    /// 1970-01-01 plus fractional nanoseconds) and a sequence-generating
    /// `context`, which is consulted once for the counter value.
    ///
    /// The seconds are converted at 10,000,000 ticks per second and the
    /// nanoseconds at one tick per 100 ns, truncating any remainder below
    /// 100 ns; the fixed epoch offset is added on top. The function is not
    /// guaranteed to produce monotonically increasing values: callers
    /// needing that must ensure the time inputs themselves increase.
    pub fn from_unix<C: ClockSequence>(context: C, seconds: u64, subsec_nanos: u32) -> (r: Timestamp)
        requires
            subsec_nanos < 1_000_000_000,
            UUID_TICKS_BETWEEN_EPOCHS + seconds * 10_000_000 + subsec_nanos / 100 <= u64::MAX,
        ensures
            r.spec_ticks() == UUID_TICKS_BETWEEN_EPOCHS + seconds * 10_000_000 + subsec_nanos / 100,
    {
        let counter = context.generate_sequence(seconds, subsec_nanos);
        let ticks = UUID_TICKS_BETWEEN_EPOCHS + seconds * 10_000_000 + (subsec_nanos as u64) / 100;
        Timestamp { ticks, counter }
    }

    /// Returns the raw tick count and counter stored by the `Timestamp`.
    pub fn to_rfc4122(&self) -> (r: (u64, u16))
        ensures
            r.0 == self.spec_ticks(),
            r.1 == self.spec_counter(),
    {
        (self.ticks, self.counter)
    }

    /// Returns the timestamp converted to seconds and fractional
    /// nanoseconds since 1970-01-01.
    ///
    /// The stored unit is 100 ns, so the nanosecond component is always a
    /// multiple of 100. The tick count must not predate the unix epoch.
    pub fn to_unix(&self) -> (r: (u64, u32))
        requires
            self.spec_ticks() >= UUID_TICKS_BETWEEN_EPOCHS,
        ensures
            r.0 == (self.spec_ticks() - UUID_TICKS_BETWEEN_EPOCHS) / 10_000_000,
            r.1 == ((self.spec_ticks() - UUID_TICKS_BETWEEN_EPOCHS) % 10_000_000) * 100,
    {
        let since_unix_epoch = self.ticks - UUID_TICKS_BETWEEN_EPOCHS;
        (since_unix_epoch / 10_000_000, (since_unix_epoch % 10_000_000) as u32 * 100)
    }

    /// Returns the timestamp converted into nanoseconds elapsed since
    /// 1970-01-01. The tick count must not predate the unix epoch, and the
    /// result must fit in 64 bits.
    pub fn to_unix_nanos(&self) -> (r: u64)
        requires
            self.spec_ticks() >= UUID_TICKS_BETWEEN_EPOCHS,
            (self.spec_ticks() - UUID_TICKS_BETWEEN_EPOCHS) * 100 <= u64::MAX,
        ensures
            r == (self.spec_ticks() - UUID_TICKS_BETWEEN_EPOCHS) * 100,
    {
        (self.ticks - UUID_TICKS_BETWEEN_EPOCHS) * 100
    }
}

/// The 16 bytes of a version 1 identifier assembled from a tick count, a
/// counter, and a 6-byte node ID: the ticks split big-endian across the
/// three time fields with the version marker `0001` in the high four bits of
/// byte 6, the counter's low 14 bits in bytes 8–9 under the variant marker
/// `10`, and the node ID in bytes 10–15.
pub open spec fn v1_bytes(ticks: u64, counter: u16, node: Seq<u8>) -> Seq<u8> {
    let time_low = (ticks & 0xFFFF_FFFF) as u32;
    let time_mid = ((ticks >> 32) & 0xFFFF) as u16;
    let time_high_and_version = (((ticks >> 48) & 0x0FFF) as u16) | (1u16 << 12);
    let counter_high = (((counter & 0x3F00) >> 8) as u8) | 0x80;
    let counter_low = (counter & 0xFF) as u8;
    fields_to_bytes(time_low, time_mid, time_high_and_version, seq![counter_high, counter_low] + node)
}

/// The 60-bit tick count carried by a version 1 identifier with raw bytes
/// `b`, reassembled from the three big-endian time fields.
pub open spec fn extract_ticks(b: Seq<u8>) -> u64 {
    ((b[6] & 0x0F) as u64) << 56 | (b[7] as u64) << 48 | (b[4] as u64) << 40 | (b[5] as u64) << 32
        | (b[0] as u64) << 24 | (b[1] as u64) << 16 | (b[2] as u64) << 8 | (b[3] as u64)
}

/// The 14-bit counter carried by a version 1 identifier with raw bytes `b`.
pub open spec fn extract_counter(b: Seq<u8>) -> u16 {
    ((b[8] & 0x3F) as u16) << 8 | (b[9] as u16)
}

/// Round-trip law: the fields extracted back out of an assembled version 1
/// identifier are the tick count masked to its low 60 bits and the counter
/// masked to its low 14 bits; the assembled bytes always carry the version
/// marker `0001` in the high four bits of byte 6, the variant marker `10`
/// in the top two bits of byte 8, and the node ID unchanged in bytes 10–15.
pub proof fn lemma_v1_round_trip(ticks: u64, counter: u16, node: Seq<u8>)
    requires
        node.len() == 6,
    ensures
        v1_bytes(ticks, counter, node).len() == 16,
        v1_bytes(ticks, counter, node)[6] >> 4 == 1,
        v1_bytes(ticks, counter, node)[8] & 0xC0 == 0x80,
        crate::identifier::spec_version(v1_bytes(ticks, counter, node)) == Some(Version::Mac),
        crate::identifier::spec_variant(v1_bytes(ticks, counter, node)) == Some(Variant::RFC4122),
        extract_ticks(v1_bytes(ticks, counter, node)) == ticks & 0x0FFF_FFFF_FFFF_FFFF,
        extract_counter(v1_bytes(ticks, counter, node)) == counter & 0x3FFF,
        forall|i: int| 0 <= i < 6 ==> v1_bytes(ticks, counter, node)[10 + i] == node[i],
{
    let b = v1_bytes(ticks, counter, node);
    let time_low = (ticks & 0xFFFF_FFFF) as u32;
    let time_mid = ((ticks >> 32) & 0xFFFF) as u16;
    let time_high_and_version = (((ticks >> 48) & 0x0FFF) as u16) | (1u16 << 12);
    let b0 = (time_low >> 24) as u8;
    let b1 = (time_low >> 16) as u8;
    let b2 = (time_low >> 8) as u8;
    let b3 = time_low as u8;
    let b4 = (time_mid >> 8) as u8;
    let b5 = time_mid as u8;
    let b6 = (time_high_and_version >> 8) as u8;
    let b7 = time_high_and_version as u8;
    let b8 = (((counter & 0x3F00) >> 8) as u8) | 0x80;
    let b9 = (counter & 0xFF) as u8;
    assert(b6 >> 4 == 1) by (bit_vector)
        requires
            b6 == (((((ticks >> 48) & 0x0FFF) as u16) | (1u16 << 12)) >> 8) as u8,
    ;
    assert(((b6 & 0x0F) as u64) << 56 | (b7 as u64) << 48 | (b4 as u64) << 40 | (b5 as u64) << 32
        | (b0 as u64) << 24 | (b1 as u64) << 16 | (b2 as u64) << 8 | (b3 as u64) == ticks
        & 0x0FFF_FFFF_FFFF_FFFF) by (bit_vector)
        requires
            b0 == ((ticks & 0xFFFF_FFFF) as u32 >> 24) as u8,
            b1 == ((ticks & 0xFFFF_FFFF) as u32 >> 16) as u8,
            b2 == ((ticks & 0xFFFF_FFFF) as u32 >> 8) as u8,
            b3 == (ticks & 0xFFFF_FFFF) as u32 as u8,
            b4 == ((((ticks >> 32) & 0xFFFF) as u16) >> 8) as u8,
            b5 == ((ticks >> 32) & 0xFFFF) as u16 as u8,
            b6 == (((((ticks >> 48) & 0x0FFF) as u16) | (1u16 << 12)) >> 8) as u8,
            b7 == ((((ticks >> 48) & 0x0FFF) as u16) | (1u16 << 12)) as u8,
    ;
    assert(((b8 & 0x3F) as u16) << 8 | (b9 as u16) == counter & 0x3FFF) by (bit_vector)
        requires
            b8 == (((counter & 0x3F00) >> 8) as u8) | 0x80,
            b9 == (counter & 0xFF) as u8,
    ;
    assert(b8 & 0xC0 == 0x80 && b8 & 0x80 == 0x80) by (bit_vector)
        requires
            b8 == (((counter & 0x3F00) >> 8) as u8) | 0x80,
    ;
    assert(b[6] == b6);
    assert(b[8] == b8);
    assert(extract_ticks(b) == ticks & 0x0FFF_FFFF_FFFF_FFFF);
    assert(extract_counter(b) == counter & 0x3FFF);
}

/// Unix-time round-trip law, lossy below 100 ns: converting seconds and a
/// sub-second nanosecond count that is a multiple of 100 into native ticks
/// and back recovers exactly the seconds and nanoseconds put in.
pub proof fn lemma_unix_round_trip(seconds: u64, subsec_nanos: u32)
    requires
        subsec_nanos < 1_000_000_000,
        subsec_nanos % 100 == 0,
        UUID_TICKS_BETWEEN_EPOCHS + seconds * 10_000_000 + subsec_nanos / 100 <= u64::MAX,
    ensures
        ({
            let ticks = UUID_TICKS_BETWEEN_EPOCHS + seconds * 10_000_000 + subsec_nanos / 100;
            (ticks - UUID_TICKS_BETWEEN_EPOCHS) / 10_000_000 == seconds
                && ((ticks - UUID_TICKS_BETWEEN_EPOCHS) % 10_000_000) * 100 == subsec_nanos
        }),
{
    let sub_ticks: int = subsec_nanos as int / 100;
    assert(0 <= sub_ticks < 10_000_000);
    vstd::arithmetic::div_mod::lemma_fundamental_div_mod_converse(
        seconds * 10_000_000 + sub_ticks,
        10_000_000,
        seconds as int,
        sub_ticks,
    );
    vstd::arithmetic::div_mod::lemma_fundamental_div_mod(subsec_nanos as int, 100);
}

impl Uuid {
    /// Create a new UUID (version 1) from a timestamp and a *NodeId*, which
    /// must be exactly 6 bytes long; any other length is rejected with an
    /// [`Error`] carrying the expected and the supplied length.
    ///
    /// Only the low 60 bits of the tick count and the low 14 bits of the
    /// counter are embedded; the remaining bits of those fields hold the
    /// fixed version and variant markers.
    pub fn new_v1(ts: Timestamp, node_id: &[u8]) -> (r: Result<Uuid, Error>)
        ensures
            node_id@.len() == 6 ==> (r matches Ok(u)
                && u@ == v1_bytes(ts.spec_ticks(), ts.spec_counter(), node_id@)),
            node_id@.len() != 6 ==> (r matches Err(e)
                && e.expected == 6 && e.actual == node_id@.len()),
    {
        let len = node_id.len();
        if len != 6 {
            return Err(Error::new(6, len));
        }

        let time_low = #[verifier::truncate] ((ts.ticks & 0xFFFF_FFFF) as u32);
        let time_mid = #[verifier::truncate] (((ts.ticks >> 32) & 0xFFFF) as u16);
        let time_high_and_version = #[verifier::truncate] ((((ts.ticks >> 48) & 0x0FFF) as u16))
            | (1u16 << 12);

        let mut d4: [u8; 8] = [0; 8];
        d4[0] = #[verifier::truncate] ((((ts.counter & 0x3F00) >> 8) as u8)) | 0x80;
        d4[1] = #[verifier::truncate] ((ts.counter & 0xFF) as u8);
        d4[2] = node_id[0];
        d4[3] = node_id[1];
        d4[4] = node_id[2];
        d4[5] = node_id[3];
        d4[6] = node_id[4];
        d4[7] = node_id[5];

        let u = Uuid::from_fields(time_low, time_mid, time_high_and_version, &d4);
        proof {
            assert(d4@ =~= seq![
                (((ts.counter & 0x3F00) >> 8) as u8) | 0x80,
                (ts.counter & 0xFF) as u8,
            ] + node_id@);
            assert(u@ =~= v1_bytes(ts.spec_ticks(), ts.spec_counter(), node_id@));
        }
        Ok(u)
    }

    /// Returns the [`Timestamp`] stored in a version 1 UUID: the tick count
    /// and counter parsed back out of the raw bytes.
    ///
    /// Returns `None` if the identifier does not carry the version marker
    /// `0001`, i.e. is not a version 1 UUID.
    pub fn to_timestamp(&self) -> (r: Option<Timestamp>)
        ensures
            (self@[6] >> 4 == 1) <==> (r is Some),
            r matches Some(t) ==> t.spec_ticks() == extract_ticks(self@)
                && t.spec_counter() == extract_counter(self@),
    {
        match self.get_version() {
            Some(Version::Mac) => {}
            _ => {
                return None;
            }
        }

        let bytes = self.as_bytes();

        let ticks: u64 = ((bytes[6] & 0x0F) as u64) << 56
            | (bytes[7] as u64) << 48
            | (bytes[4] as u64) << 40
            | (bytes[5] as u64) << 32
            | (bytes[0] as u64) << 24
            | (bytes[1] as u64) << 16
            | (bytes[2] as u64) << 8
            | (bytes[3] as u64);

        let counter: u16 = ((bytes[8] & 0x3F) as u16) << 8 | (bytes[9] as u16);

        Some(Timestamp::from_rfc4122(ticks, counter))
    }
}

} // verus!
