use vstd::prelude::*;
use crate::keys::{
    convert_hid_to_key, convert_modifiers, hid_key, is_modifier, modifier_of_bit, modifier_set,
    LogicalKey,
};
use crate::keyset::KeySet;

verus! {

broadcast use vstd::seq_lib::group_seq_properties;

/// Bytes of a report that carry meaning: the modifier byte, a reserved byte
/// and six keycode slots.
pub const REPORT_LEN: usize = 8;

/// Offset of the first keycode slot.
pub const FIRST_SLOT: usize = 2;

/// Byte `i` of a report; a byte past its end reads as 0, an empty slot.
pub open spec fn report_byte(r: Seq<u8>, i: int) -> u8 {
    if 0 <= i < r.len() {
        r[i]
    } else {
        0
    }
}

/// The keys that the keycode slots of `r` name. Bytes past the eighth are
/// not read.
pub open spec fn slot_keys(r: Seq<u8>) -> Set<LogicalKey> {
    Set::new(|k: LogicalKey| exists|i: int| 2 <= i < 8 && #[trigger] hid_key(report_byte(r, i)) == Some(k))
}

/// The key set that report `r` stands for: the modifiers of byte 0 together
/// with the keys of the keycode slots.
pub open spec fn decoded_keys(r: Seq<u8>) -> Set<LogicalKey> {
    modifier_set(report_byte(r, 0)).union(slot_keys(r))
}

/// Fills `out` with the key set of `report`, replacing what it held.
pub fn decode_into(report: &[u8], out: &mut KeySet)
    ensures
        final(out).wf(),
        final(out)@ == decoded_keys(report@),
{
    out.clear();
    let m: u8 = if report.len() > 0 { report[0] } else { 0 };
    let modifiers = convert_modifiers(m);
    let mut j: usize = 0;
    while j < modifiers.len()
        invariant
            out.wf(),
            j <= modifiers@.len(),
            out@ == modifiers@.take(j as int).to_set(),
        decreases modifiers@.len() - j,
    {
        assert(modifiers@.take(j + 1) =~= modifiers@.take(j as int).push(modifiers@[j as int]));
        proof {
            modifiers@.take(j as int).lemma_push_to_set_commute(modifiers@[j as int]);
        }
        out.insert(modifiers[j]);
        j = j + 1;
    }
    assert(modifiers@.take(j as int) =~= modifiers@);
    let mut i: usize = FIRST_SLOT;
    while i < REPORT_LEN
        invariant
            out.wf(),
            FIRST_SLOT <= i <= REPORT_LEN,
            forall|k: LogicalKey|
                #![trigger out@.contains(k)]
                out@.contains(k) <==> modifier_set(report_byte(report@, 0)).contains(k)
                    || exists|s: int| 2 <= s < i && #[trigger] hid_key(report_byte(report@, s)) == Some(k),
        decreases REPORT_LEN - i,
    {
        let code: u8 = if i < report.len() { report[i] } else { 0 };
        if code != 0 {
            if let Some(k) = convert_hid_to_key(code) {
                out.insert(k);
            }
        }
        proof {
            assert forall|k: LogicalKey|
                out@.contains(k) <==> modifier_set(report_byte(report@, 0)).contains(k)
                    || exists|s: int| 2 <= s < i + 1 && #[trigger] hid_key(report_byte(report@, s)) == Some(k) by {
                if hid_key(report_byte(report@, i as int)) == Some(k) {
                    assert(2 <= i < i + 1);
                }
            }
        }
        i = i + 1;
    }
    assert(out@ =~= decoded_keys(report@));
}

/// The key set of `report`: modifiers and keycodes alike. Every byte value
/// is accepted; an unmapped code adds nothing.
pub fn decode(report: &[u8]) -> (r: KeySet)
    ensures
        r.wf(),
        r@ == decoded_keys(report@),
{
    let mut r = KeySet::new();
    decode_into(report, &mut r);
    r
}

/// A code that the table does not map adds no key: the report decodes as if
/// its slot were empty.
pub proof fn lemma_unmapped_code_adds_nothing(r: Seq<u8>, i: int, code: u8)
    requires
        2 <= i < 8,
        i < r.len(),
        hid_key(code) is None,
    ensures
        decoded_keys(r.update(i, code)) == decoded_keys(r.update(i, 0)),
{
    let a = r.update(i, code);
    let b = r.update(i, 0);
    assert forall|k: LogicalKey| slot_keys(a).contains(k) <==> slot_keys(b).contains(k) by {
        if slot_keys(a).contains(k) {
            let s = choose|s: int| 2 <= s < 8 && #[trigger] hid_key(report_byte(a, s)) == Some(k);
            assert(s != i);
            assert(hid_key(report_byte(b, s)) == Some(k));
        }
        if slot_keys(b).contains(k) {
            let s = choose|s: int| 2 <= s < 8 && #[trigger] hid_key(report_byte(b, s)) == Some(k);
            assert(s != i);
            assert(hid_key(report_byte(a, s)) == Some(k));
        }
    }
    assert(slot_keys(a) =~= slot_keys(b));
    assert(decoded_keys(a) =~= decoded_keys(b));
}

/// Each bit of the modifier byte stands for one modifier on its own: the
/// modifiers in a report's key set are exactly those of its set bits, whatever
/// the other bytes hold.
pub proof fn lemma_modifier_bits(r: Seq<u8>)
    ensures
        forall|b: u8| b < 8 ==> is_modifier(#[trigger] modifier_of_bit(b)),
        forall|k: LogicalKey|
            is_modifier(k) ==> (decoded_keys(r).contains(k) <==> exists|b: u8|
                b < 8 && (report_byte(r, 0) >> b) & 1 == 1 && k == #[trigger] modifier_of_bit(b)),
{
    let m = report_byte(r, 0);
    assert(forall|m: u8| (m & 0x01 != 0) == ((m >> 0u8) & 1 == 1)) by (bit_vector);
    assert(forall|m: u8| (m & 0x02 != 0) == ((m >> 1u8) & 1 == 1)) by (bit_vector);
    assert(forall|m: u8| (m & 0x04 != 0) == ((m >> 2u8) & 1 == 1)) by (bit_vector);
    assert(forall|m: u8| (m & 0x08 != 0) == ((m >> 3u8) & 1 == 1)) by (bit_vector);
    assert(forall|m: u8| (m & 0x10 != 0) == ((m >> 4u8) & 1 == 1)) by (bit_vector);
    assert(forall|m: u8| (m & 0x20 != 0) == ((m >> 5u8) & 1 == 1)) by (bit_vector);
    assert(forall|m: u8| (m & 0x40 != 0) == ((m >> 6u8) & 1 == 1)) by (bit_vector);
    assert(forall|m: u8| (m & 0x80 != 0) == ((m >> 7u8) & 1 == 1)) by (bit_vector);
    assert forall|c: u8, k: LogicalKey| hid_key(c) == Some(k) implies !is_modifier(k) by {}
    assert forall|k: LogicalKey| is_modifier(k) implies (decoded_keys(r).contains(k) <==> exists|b: u8|
        b < 8 && (m >> b) & 1 == 1 && k == #[trigger] modifier_of_bit(b)) by {
        assert(!slot_keys(r).contains(k));
        match k {
            LogicalKey::LeftControl => assert(k == modifier_of_bit(0)),
            LogicalKey::LeftShift => assert(k == modifier_of_bit(1)),
            LogicalKey::LeftAlt => assert(k == modifier_of_bit(2)),
            LogicalKey::LeftMeta => assert(k == modifier_of_bit(3)),
            LogicalKey::RightControl => assert(k == modifier_of_bit(4)),
            LogicalKey::RightShift => assert(k == modifier_of_bit(5)),
            LogicalKey::RightAlt => assert(k == modifier_of_bit(6)),
            _ => assert(k == modifier_of_bit(7)),
        }
    }
}

} // verus!
