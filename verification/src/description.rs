//! The fixed-layout description record and its JSON wire shape: both
//! fixed-capacity arrays are rendered in full, zero-padded past their logical
//! length, and the length fields are the truncation boundary for consumers.

use vstd::prelude::*;
use crate::gateway::Digest;

verus! {

/// The decimal digit character for a value below ten.
pub open spec fn spec_digit(d: int) -> char {
    (d + 48) as char
}

/// The decimal rendering of a nonnegative number, most significant digit
/// first, no sign and no leading zero.
pub open spec fn dec_str(n: int) -> Seq<char>
    recommends
        n >= 0,
    decreases n,
{
    if n < 10 {
        seq![spec_digit(n)]
    } else {
        dec_str(n / 10).push(spec_digit(n % 10))
    }
}

/// The digit character of a value below ten.
fn digit_str(d: u32) -> (r: &'static str)
    requires
        d < 10,
    ensures
        r@ =~= seq![spec_digit(d as int)],
{
    let r: &'static str = match d {
        0 => "0",
        1 => "1",
        2 => "2",
        3 => "3",
        4 => "4",
        5 => "5",
        6 => "6",
        7 => "7",
        8 => "8",
        _ => "9",
    };
    proof {
        reveal_strlit("0");
        reveal_strlit("1");
        reveal_strlit("2");
        reveal_strlit("3");
        reveal_strlit("4");
        reveal_strlit("5");
        reveal_strlit("6");
        reveal_strlit("7");
        reveal_strlit("8");
        reveal_strlit("9");
    }
    r
}

/// The decimal rendering of a number.
pub fn u32_string(n: u32) -> (r: String)
    ensures
        r@ == dec_str(n as int),
    decreases n,
{
    if n < 10 {
        let r = String::from_str(digit_str(n));
        proof {
            assert(r@ =~= dec_str(n as int));
        }
        r
    } else {
        let mut r = u32_string(n / 10);
        r.append(digit_str(n % 10));
        proof {
            assert(r@ =~= dec_str(n as int));
        }
        r
    }
}

/// The comma-separated decimal renderings of a byte sequence.
pub open spec fn json_u8_list(s: Seq<u8>) -> Seq<char>
    decreases s.len(),
{
    if s.len() == 0 {
        Seq::empty()
    } else if s.len() == 1 {
        dec_str(s[0] as int)
    } else {
        dec_str(s[0] as int) + ","@ + json_u8_list(s.skip(1))
    }
}

/// The comma-separated decimal renderings of a sequence of 16-bit numbers.
pub open spec fn json_u16_list(s: Seq<u16>) -> Seq<char>
    decreases s.len(),
{
    if s.len() == 0 {
        Seq::empty()
    } else if s.len() == 1 {
        dec_str(s[0] as int)
    } else {
        dec_str(s[0] as int) + ","@ + json_u16_list(s.skip(1))
    }
}

/// Appending an entry extends the rendered list by a comma and the entry.
proof fn lemma_json_u8_list_push(s: Seq<u8>, x: u8)
    ensures
        json_u8_list(s.push(x)) == if s.len() == 0 {
            dec_str(x as int)
        } else {
            json_u8_list(s) + ","@ + dec_str(x as int)
        },
    decreases s.len(),
{
    if s.len() == 0 {
        assert(s.push(x) =~= seq![x]);
    } else if s.len() == 1 {
        assert(s.push(x)[0] == s[0]);
        assert(s.push(x).skip(1) =~= seq![x]);
        assert(json_u8_list(seq![x]) =~= dec_str(x as int));
        assert(json_u8_list(s) =~= dec_str(s[0] as int));
        assert(json_u8_list(s.push(x)) =~= json_u8_list(s) + ","@ + dec_str(x as int));
    } else {
        lemma_json_u8_list_push(s.skip(1), x);
        assert(s.push(x).skip(1) =~= s.skip(1).push(x));
        assert(json_u8_list(s.push(x)) =~= json_u8_list(s) + ","@ + dec_str(x as int));
    }
}

/// Appending an entry extends the rendered list by a comma and the entry.
proof fn lemma_json_u16_list_push(s: Seq<u16>, x: u16)
    ensures
        json_u16_list(s.push(x)) == if s.len() == 0 {
            dec_str(x as int)
        } else {
            json_u16_list(s) + ","@ + dec_str(x as int)
        },
    decreases s.len(),
{
    if s.len() == 0 {
        assert(s.push(x) =~= seq![x]);
    } else if s.len() == 1 {
        assert(s.push(x)[0] == s[0]);
        assert(s.push(x).skip(1) =~= seq![x]);
        assert(json_u16_list(seq![x]) =~= dec_str(x as int));
        assert(json_u16_list(s) =~= dec_str(s[0] as int));
        assert(json_u16_list(s.push(x)) =~= json_u16_list(s) + ","@ + dec_str(x as int));
    } else {
        lemma_json_u16_list_push(s.skip(1), x);
        assert(s.push(x).skip(1) =~= s.skip(1).push(x));
        assert(json_u16_list(s.push(x)) =~= json_u16_list(s) + ","@ + dec_str(x as int));
    }
}

/// The rendered list of a byte vector.
fn u8_list_string(v: &Vec<u8>) -> (r: String)
    ensures
        r@ == json_u8_list(v@),
{
    let mut r = String::new();
    let mut i: usize = 0;
    proof {
        assert(v@.take(0) =~= Seq::<u8>::empty());
    }
    while i < v.len()
        invariant
            i <= v@.len(),
            r@ == json_u8_list(v@.take(i as int)),
        decreases v@.len() - i,
    {
        if i > 0 {
            r.append(",");
        }
        r.append(u32_string(v[i] as u32).as_str());
        proof {
            lemma_json_u8_list_push(v@.take(i as int), v@[i as int]);
            assert(v@.take(i as int).push(v@[i as int]) =~= v@.take(i as int + 1));
        }
        i = i + 1;
    }
    proof {
        assert(v@.take(v@.len() as int) =~= v@);
    }
    r
}

/// The rendered list of a vector of 16-bit numbers.
fn u16_list_string(v: &Vec<u16>) -> (r: String)
    ensures
        r@ == json_u16_list(v@),
{
    let mut r = String::new();
    let mut i: usize = 0;
    proof {
        assert(v@.take(0) =~= Seq::<u16>::empty());
    }
    while i < v.len()
        invariant
            i <= v@.len(),
            r@ == json_u16_list(v@.take(i as int)),
        decreases v@.len() - i,
    {
        if i > 0 {
            r.append(",");
        }
        r.append(u32_string(v[i] as u32).as_str());
        proof {
            lemma_json_u16_list_push(v@.take(i as int), v@[i as int]);
            assert(v@.take(i as int).push(v@[i as int]) =~= v@.take(i as int + 1));
        }
        i = i + 1;
    }
    proof {
        assert(v@.take(v@.len() as int) =~= v@);
    }
    r
}

/// The name of a digest algorithm.
pub open spec fn digest_name(d: Digest) -> Seq<char> {
    match d {
        Digest::SHA256 => "SHA256"@,
        Digest::SHA384 => "SHA384"@,
        Digest::SHA512 => "SHA512"@,
    }
}

/// The module description as the gateway reports it, in the fixed wire
/// layout: a 100-slot identifier array and a 64-slot lock array, both
/// zero-filled past their logical length.
pub struct NsmDescription {
    pub version_major: u16,
    pub version_minor: u16,
    pub version_patch: u16,
    pub module_id: Vec<u8>,
    pub module_id_len: u32,
    pub max_pcrs: u16,
    pub locked_pcrs: Vec<u16>,
    pub locked_pcrs_len: u32,
    pub digest: Digest,
}

/// The identifier truncated to 99 bytes and zero-padded to the 100-slot
/// array; the slot after the used bytes is the null terminator.
pub open spec fn pad_module_id(id: Seq<u8>) -> Seq<u8> {
    Seq::new(100, |i: int| if i < id.len() && i < 99 { id[i] } else { 0u8 })
}

/// The lock indices zero-padded to the 64-slot array.
pub open spec fn pad_locked_pcrs(l: Seq<u16>) -> Seq<u16> {
    Seq::new(64, |i: int| if i < l.len() { l[i] } else { 0u16 })
}

impl NsmDescription {
    /// The record's invariant: full-capacity arrays, and the length fields
    /// inside their documented bounds.
    pub open spec fn wf(self) -> bool {
        &&& self.module_id@.len() == 100
        &&& self.module_id_len < 100
        &&& self.locked_pcrs@.len() == 64
        &&& self.locked_pcrs_len <= 64
    }

    /// The record built from a gateway reply: the identifier is truncated to
    /// 99 bytes, null-terminated and zero-padded; the lock list is recorded
    /// with its count and zero-padded.
    pub fn from_reply(
        version_major: u16,
        version_minor: u16,
        version_patch: u16,
        module_id: &Vec<u8>,
        max_pcrs: u16,
        locked_pcrs: &Vec<u16>,
        digest: Digest,
    ) -> (d: NsmDescription)
        requires
            locked_pcrs@.len() <= 64,
        ensures
            d.wf(),
            d.version_major == version_major,
            d.version_minor == version_minor,
            d.version_patch == version_patch,
            d.module_id@ == pad_module_id(module_id@),
            d.module_id_len == if module_id@.len() < 99 {
                module_id@.len() as u32
            } else {
                99u32
            },
            d.max_pcrs == max_pcrs,
            d.locked_pcrs@ == pad_locked_pcrs(locked_pcrs@),
            d.locked_pcrs_len == locked_pcrs@.len(),
            d.digest == digest,
    {
        let id_len: usize = if module_id.len() < 99 {
            module_id.len()
        } else {
            99
        };
        let mut id: Vec<u8> = Vec::new();
        let mut i: usize = 0;
        while i < 100
            invariant
                i <= 100,
                id_len == if module_id@.len() < 99 {
                    module_id@.len() as int
                } else {
                    99int
                },
                id@.len() == i,
                forall|j: int| 0 <= j < i ==> id@[j] == pad_module_id(module_id@)[j],
            decreases 100 - i,
        {
            if i < id_len {
                id.push(module_id[i]);
            } else {
                id.push(0);
            }
            i = i + 1;
        }
        let mut locks: Vec<u16> = Vec::new();
        let mut i: usize = 0;
        while i < 64
            invariant
                i <= 64,
                locked_pcrs@.len() <= 64,
                locks@.len() == i,
                forall|j: int| 0 <= j < i ==> locks@[j] == pad_locked_pcrs(locked_pcrs@)[j],
            decreases 64 - i,
        {
            if i < locked_pcrs.len() {
                locks.push(locked_pcrs[i]);
            } else {
                locks.push(0);
            }
            i = i + 1;
        }
        proof {
            assert(id@ =~= pad_module_id(module_id@));
            assert(locks@ =~= pad_locked_pcrs(locked_pcrs@));
        }
        NsmDescription {
            version_major,
            version_minor,
            version_patch,
            module_id: id,
            module_id_len: id_len as u32,
            max_pcrs,
            locked_pcrs: locks,
            locked_pcrs_len: locked_pcrs.len() as u32,
            digest,
        }
    }
}

/// The JSON wire shape of a description record. Every record field appears,
/// in declaration order; the two arrays are rendered as complete sequences
/// whatever the length fields say.
pub open spec fn description_json(
    vmaj: u16,
    vmin: u16,
    vpat: u16,
    module_id: Seq<u8>,
    module_id_len: u32,
    max_pcrs: u16,
    locked: Seq<u16>,
    locked_len: u32,
    digest: Digest,
) -> Seq<char> {
    "{\"version_major\":"@ + dec_str(vmaj as int) + ",\"version_minor\":"@ + dec_str(vmin as int)
        + ",\"version_patch\":"@ + dec_str(vpat as int) + ",\"module_id\":["@ + json_u8_list(
        module_id,
    ) + "],\"module_id_len\":"@ + dec_str(module_id_len as int) + ",\"max_pcrs\":"@ + dec_str(
        max_pcrs as int,
    ) + ",\"locked_pcrs\":["@ + json_u16_list(locked) + "],\"locked_pcrs_len\":"@ + dec_str(
        locked_len as int,
    ) + ",\"digest\":\""@ + digest_name(digest) + "\"}"@
}

/// The JSON rendering of a description record.
pub fn describe_json(d: &NsmDescription) -> (r: String)
    ensures
        r@ == description_json(
            d.version_major,
            d.version_minor,
            d.version_patch,
            d.module_id@,
            d.module_id_len,
            d.max_pcrs,
            d.locked_pcrs@,
            d.locked_pcrs_len,
            d.digest,
        ),
{
    let mut r = String::from_str("{\"version_major\":");
    r.append(u32_string(d.version_major as u32).as_str());
    r.append(",\"version_minor\":");
    r.append(u32_string(d.version_minor as u32).as_str());
    r.append(",\"version_patch\":");
    r.append(u32_string(d.version_patch as u32).as_str());
    r.append(",\"module_id\":[");
    r.append(u8_list_string(&d.module_id).as_str());
    r.append("],\"module_id_len\":");
    r.append(u32_string(d.module_id_len).as_str());
    r.append(",\"max_pcrs\":");
    r.append(u32_string(d.max_pcrs as u32).as_str());
    r.append(",\"locked_pcrs\":[");
    r.append(u16_list_string(&d.locked_pcrs).as_str());
    r.append("],\"locked_pcrs_len\":");
    r.append(u32_string(d.locked_pcrs_len).as_str());
    r.append(",\"digest\":\"");
    match d.digest {
        Digest::SHA256 => r.append("SHA256"),
        Digest::SHA384 => r.append("SHA384"),
        Digest::SHA512 => r.append("SHA512"),
    }
    r.append("\"}");
    r
}

/// The two arrays hold their full capacity in every well-formed record, and
/// the identifier's used length stays below the capacity: the wire shape
/// always carries 100 identifier slots and 64 lock slots.
pub proof fn lemma_description_wire_shape(d: NsmDescription)
    requires
        d.wf(),
    ensures
        d.module_id@.len() == 100,
        d.module_id_len < 100,
        d.locked_pcrs@.len() == 64,
        d.locked_pcrs_len <= 64,
{
}

impl Default for NsmDescription {
    /// The all-zero record with a SHA256 digest.
    fn default() -> (d: NsmDescription)
        ensures
            d.wf(),
            d.version_major == 0 && d.version_minor == 0 && d.version_patch == 0,
            d.module_id@ =~= Seq::new(100, |i: int| 0u8),
            d.module_id_len == 0,
            d.max_pcrs == 0,
            d.locked_pcrs@ =~= Seq::new(64, |i: int| 0u16),
            d.locked_pcrs_len == 0,
            d.digest == Digest::SHA256,
    {
        let empty_id: Vec<u8> = Vec::new();
        let empty_locks: Vec<u16> = Vec::new();
        let d = NsmDescription::from_reply(0, 0, 0, &empty_id, 0, &empty_locks, Digest::SHA256);
        proof {
            assert(d.module_id@ =~= Seq::new(100, |i: int| 0u8));
            assert(d.locked_pcrs@ =~= Seq::new(64, |i: int| 0u16));
        }
        d
    }
}

} // verus!
