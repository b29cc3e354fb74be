//! The 128-bit identifier value: construction from raw fields, access to the
//! raw bytes, and inspection of the version and variant markers.

use vstd::prelude::*;
use vstd::string::StringExecFns;

verus! {

/// The lower-case hexadecimal digit for a value below 16.
pub open spec fn hex_char(n: u8) -> char
    recommends
        n < 16,
{
    if n == 0 {
        '0'
    } else if n == 1 {
        '1'
    } else if n == 2 {
        '2'
    } else if n == 3 {
        '3'
    } else if n == 4 {
        '4'
    } else if n == 5 {
        '5'
    } else if n == 6 {
        '6'
    } else if n == 7 {
        '7'
    } else if n == 8 {
        '8'
    } else if n == 9 {
        '9'
    } else if n == 10 {
        'a'
    } else if n == 11 {
        'b'
    } else if n == 12 {
        'c'
    } else if n == 13 {
        'd'
    } else if n == 14 {
        'e'
    } else {
        'f'
    }
}

/// The two lower-case hexadecimal digits of a byte, high nibble first.
pub open spec fn byte_chars(b: u8) -> Seq<char> {
    seq![hex_char(b / 16), hex_char(b % 16)]
}

/// The first `i` bytes of `b` rendered in the hyphenated form: two
/// hexadecimal digits per byte, with a hyphen before bytes 4, 6, 8 and 10.
pub open spec fn hyphenated_prefix(b: Seq<u8>, i: int) -> Seq<char>
    decreases i,
{
    if i <= 0 {
        Seq::<char>::empty()
    } else {
        hyphenated_prefix(b, i - 1) + (if i - 1 == 4 || i - 1 == 6 || i - 1 == 8 || i - 1 == 10 {
            seq!['-']
        } else {
            Seq::<char>::empty()
        }) + byte_chars(b[i - 1])
    }
}

/// Sixteen raw bytes rendered as lower-case hexadecimal digits in the
/// hyphenated 8-4-4-4-12 form.
pub open spec fn spec_hyphenated(b: Seq<u8>) -> Seq<char> {
    hyphenated_prefix(b, 16)
}

/// The one-character string holding the lower-case hexadecimal digit of a
/// value below 16.
fn hex_str(n: u8) -> (r: &'static str)
    requires
        n < 16,
    ensures
        r@.len() == 1,
        r@[0] == hex_char(n),
{
    proof {
        reveal_strlit("0");
        reveal_strlit("1");
        reveal_strlit("2");
        reveal_strlit("3");
        reveal_strlit("4");
        reveal_strlit("5");
        reveal_strlit("6");
        reveal_strlit("7");
        reveal_strlit("8");
        reveal_strlit("9");
        reveal_strlit("a");
        reveal_strlit("b");
        reveal_strlit("c");
        reveal_strlit("d");
        reveal_strlit("e");
        reveal_strlit("f");
    }
    match n {
        0 => "0",
        1 => "1",
        2 => "2",
        3 => "3",
        4 => "4",
        5 => "5",
        6 => "6",
        7 => "7",
        8 => "8",
        9 => "9",
        10 => "a",
        11 => "b",
        12 => "c",
        13 => "d",
        14 => "e",
        _ => "f",
    }
}

/// The version of a UUID, noted in the four bits above the high 12 timestamp
/// bits (byte 6 of the raw representation).
#[derive(Clone, Copy, Debug, PartialEq, Eq, Structural)]
pub enum Version {
    /// All bits zero.
    Nil,
    /// Version 1: time-based.
    Mac,
    /// Version 2: DCE security.
    Dce,
    /// Version 3: MD5 name-based.
    Md5,
    /// Version 4: random.
    Random,
    /// Version 5: SHA-1 name-based.
    Sha1,
}

/// The variant of a UUID, noted in the top bits of byte 8 of the raw
/// representation.
#[derive(Clone, Copy, Debug, PartialEq, Eq, Structural)]
pub enum Variant {
    /// Reserved, NCS backward compatibility.
    NCS,
    /// The layout this crate produces (top two bits `10`).
    RFC4122,
    /// Reserved, Microsoft backward compatibility.
    Microsoft,
    /// Reserved for future definition.
    Future,
}

/// A 128-bit universally unique identifier, stored as its 16 raw bytes in
/// network (big-endian, RFC-field) order.
#[derive(Clone, Copy, Debug)]
pub struct Uuid {
    bytes: [u8; 16],
}

impl View for Uuid {
    type V = Seq<u8>;

    closed spec fn view(&self) -> Seq<u8> {
        self.bytes@
    }
}

/// The 16 bytes laid out from a 32-bit, a 16-bit, a 16-bit and an 8-byte raw
/// field, each scalar placed most-significant byte first.
pub open spec fn fields_to_bytes(d1: u32, d2: u16, d3: u16, d4: Seq<u8>) -> Seq<u8> {
    seq![
        (d1 >> 24) as u8,
        (d1 >> 16) as u8,
        (d1 >> 8) as u8,
        d1 as u8,
        (d2 >> 8) as u8,
        d2 as u8,
        (d3 >> 8) as u8,
        d3 as u8,
    ] + d4
}

/// All sixteen bytes are zero.
pub open spec fn spec_is_nil(b: Seq<u8>) -> bool {
    forall|i: int| 0 <= i < 16 ==> b[i] == 0
}

/// The version an identifier with raw bytes `b` declares, if any.
pub open spec fn spec_version(b: Seq<u8>) -> Option<Version> {
    let n = b[6] >> 4;
    if n == 0 && spec_is_nil(b) {
        Some(Version::Nil)
    } else if n == 1 {
        Some(Version::Mac)
    } else if n == 2 {
        Some(Version::Dce)
    } else if n == 3 {
        Some(Version::Md5)
    } else if n == 4 {
        Some(Version::Random)
    } else if n == 5 {
        Some(Version::Sha1)
    } else {
        None
    }
}

/// The variant an identifier with raw bytes `b` declares.
pub open spec fn spec_variant(b: Seq<u8>) -> Option<Variant> {
    let x = b[8];
    if x & 0x80 == 0 {
        Some(Variant::NCS)
    } else if x & 0xC0 == 0x80 {
        Some(Variant::RFC4122)
    } else if x & 0xE0 == 0xC0 {
        Some(Variant::Microsoft)
    } else {
        Some(Variant::Future)
    }
}

impl Uuid {
    /// Build an identifier from its four raw fields, placing each scalar
    /// most-significant byte first.
    pub fn from_fields(d1: u32, d2: u16, d3: u16, d4: &[u8; 8]) -> (r: Uuid)
        ensures
            r@ == fields_to_bytes(d1, d2, d3, d4@),
    {
        let mut bytes: [u8; 16] = [0; 16];
        bytes[0] = (d1 >> 24) as u8;
        bytes[1] = #[verifier::truncate] ((d1 >> 16) as u8);
        bytes[2] = #[verifier::truncate] ((d1 >> 8) as u8);
        bytes[3] = #[verifier::truncate] (d1 as u8);
        bytes[4] = (d2 >> 8) as u8;
        bytes[5] = #[verifier::truncate] (d2 as u8);
        bytes[6] = (d3 >> 8) as u8;
        bytes[7] = #[verifier::truncate] (d3 as u8);
        bytes[8] = d4[0];
        bytes[9] = d4[1];
        bytes[10] = d4[2];
        bytes[11] = d4[3];
        bytes[12] = d4[4];
        bytes[13] = d4[5];
        bytes[14] = d4[6];
        bytes[15] = d4[7];
        let r = Uuid { bytes };
        proof {
            assert(r@ =~= fields_to_bytes(d1, d2, d3, d4@));
        }
        r
    }

    /// The identifier's 16 raw bytes, most-significant field bytes first.
    pub fn as_bytes(&self) -> (r: &[u8; 16])
        ensures
            r@ == self@,
    {
        &self.bytes
    }

    /// Whether every bit of the identifier is zero.
    pub fn is_nil(&self) -> (r: bool)
        ensures
            r == spec_is_nil(self@),
    {
        let mut i: usize = 0;
        while i < 16
            invariant
                i <= 16,
                forall|j: int| 0 <= j < i ==> self@[j] == 0,
            decreases 16 - i,
        {
            if self.bytes[i] != 0 {
                return false;
            }
            i = i + 1;
        }
        true
    }

    /// The version declared in the high four bits of byte 6, if those bits
    /// name one.
    pub fn get_version(&self) -> (r: Option<Version>)
        ensures
            r == spec_version(self@),
    {
        let n = self.bytes[6] >> 4;
        if n == 0 {
            if self.is_nil() {
                Some(Version::Nil)
            } else {
                None
            }
        } else if n == 1 {
            Some(Version::Mac)
        } else if n == 2 {
            Some(Version::Dce)
        } else if n == 3 {
            Some(Version::Md5)
        } else if n == 4 {
            Some(Version::Random)
        } else if n == 5 {
            Some(Version::Sha1)
        } else {
            None
        }
    }

    /// The variant declared in the top bits of byte 8.
    pub fn get_variant(&self) -> (r: Option<Variant>)
        ensures
            r == spec_variant(self@),
    {
        let x = self.bytes[8];
        if x & 0x80 == 0 {
            Some(Variant::NCS)
        } else if x & 0xC0 == 0x80 {
            Some(Variant::RFC4122)
        } else if x & 0xE0 == 0xC0 {
            Some(Variant::Microsoft)
        } else {
            Some(Variant::Future)
        }
    }

    /// The identifier rendered as lower-case hexadecimal digits in the
    /// hyphenated 8-4-4-4-12 form.
    pub fn to_hyphenated(&self) -> (r: String)
        ensures
            r@ == spec_hyphenated(self@),
    {
        let mut s = String::new();
        let mut i: usize = 0;
        while i < 16
            invariant
                i <= 16,
                s@ == hyphenated_prefix(self@, i as int),
            decreases 16 - i,
        {
            proof {
                reveal_strlit("-");
            }
            if i == 4 || i == 6 || i == 8 || i == 10 {
                s.append("-");
            }
            let b = self.bytes[i];
            s.append(hex_str(b / 16));
            s.append(hex_str(b % 16));
            proof {
                assert(s@ =~= hyphenated_prefix(self@, i as int + 1));
            }
            i = i + 1;
        }
        s
    }
}

} // verus!
