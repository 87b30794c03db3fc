use vstd::prelude::*;
use crate::config::{HidUuid, DEVICE_NAME};

verus! {

/// A discovered GATT service: its UUID and those of its characteristics, all
/// in hyphenated lower-case form.
pub struct ServiceInfo {
    pub uuid: String,
    pub characteristics: Vec<String>,
}

/// Why the report endpoint could not be found on a peripheral.
#[derive(Clone, Copy, Debug, PartialEq, Eq, Structural)]
pub enum ResolveError {
    ServiceNotFound,
    CharacteristicNotFound,
}

/// `needle` occurs in `hay` starting at `i`.
pub open spec fn occurs_at(hay: Seq<u8>, needle: Seq<u8>, i: int) -> bool {
    0 <= i && i + needle.len() <= hay.len() && hay.subrange(i, i + needle.len()) == needle
}

pub open spec fn occurs_in(hay: Seq<u8>, needle: Seq<u8>) -> bool {
    exists|i: int| occurs_at(hay, needle, i)
}

/// The advertised name `name` contains the target device name.
pub open spec fn is_target_name_spec(name: Seq<char>) -> bool {
    occurs_in(vstd::utf8::encode_utf8(name), vstd::utf8::encode_utf8(DEVICE_NAME@))
}

/// Whether `needle` occurs in `hay` starting at `i`.
fn occurs_here(hay: &[u8], needle: &[u8], i: usize) -> (r: bool)
    requires
        i + needle@.len() <= hay@.len(),
    ensures
        r == occurs_at(hay@, needle@, i as int),
{
    let hay_len: usize = hay.len();
    let mut j: usize = 0;
    while j < needle.len()
        invariant
            hay_len == hay@.len(),
            i + needle@.len() <= hay@.len(),
            j <= needle@.len(),
            forall|t: int| 0 <= t < j ==> hay@[i + t] == needle@[t],
        decreases needle@.len() - j,
    {
        if hay[i + j] != needle[j] {
            assert(hay@.subrange(i as int, i + needle@.len())[j as int] != needle@[j as int]);
            return false;
        }
        j = j + 1;
    }
    assert(hay@.subrange(i as int, i + needle@.len()) =~= needle@);
    true
}

/// Whether the byte string `needle` occurs in `hay`.
fn bytes_occur(hay: &[u8], needle: &[u8]) -> (r: bool)
    ensures
        r == occurs_in(hay@, needle@),
{
    if needle.len() > hay.len() {
        return false;
    }
    let last: usize = hay.len() - needle.len();
    let mut i: usize = 0;
    while i <= last
        invariant
            last == hay@.len() - needle@.len(),
            needle@.len() <= hay@.len(),
            i <= last,
            forall|s: int| 0 <= s < i ==> !#[trigger] occurs_at(hay@, needle@, s),
        decreases last - i,
    {
        if occurs_here(hay, needle, i) {
            return true;
        }
        if i == last {
            assert forall|s: int| !occurs_at(hay@, needle@, s) by {
                if 0 <= s && s + needle@.len() <= hay@.len() {
                    assert(s <= last);
                }
            }
            return false;
        }
        i = i + 1;
    }
    false
}

/// Whether an advertised name marks the target keyboard.
pub fn is_target_name(name: &str) -> (r: bool)
    ensures
        r == is_target_name_spec(name@),
{
    bytes_occur(name.as_bytes(), DEVICE_NAME.as_bytes())
}

/// The first peripheral, in listing order, whose advertised name marks the
/// target keyboard; peripherals without a name are passed over.
pub fn find_target(names: &Vec<Option<String>>) -> (r: Option<usize>)
    ensures
        match r {
            Some(i) => {
                &&& i < names@.len()
                &&& names@[i as int] matches Some(n) && is_target_name_spec(n@)
                &&& forall|j: int|
                    0 <= j < i ==> !(#[trigger] names@[j] matches Some(n) && is_target_name_spec(n@))
            },
            None => forall|j: int|
                0 <= j < names@.len() ==> !(#[trigger] names@[j] matches Some(n) && is_target_name_spec(n@)),
        },
{
    let mut i: usize = 0;
    while i < names.len()
        invariant
            i <= names@.len(),
            forall|j: int|
                0 <= j < i ==> !(#[trigger] names@[j] matches Some(n) && is_target_name_spec(n@)),
        decreases names@.len() - i,
    {
        match &names[i] {
            Some(n) => {
                if is_target_name(n.as_str()) {
                    return Some(i);
                }
            },
            None => {},
        }
        i = i + 1;
    }
    None
}

/// Locates the HID report endpoint: the first service whose UUID is the HID
/// service UUID and, within it, the first characteristic whose UUID is the
/// report UUID. A missing service or characteristic is an error; no other
/// service is tried.
pub fn resolve_endpoint(services: &Vec<ServiceInfo>, uuids: &HidUuid) -> (r: Result<(usize, usize), ResolveError>)
    ensures
        match r {
            Ok((si, ci)) => {
                &&& si < services@.len()
                &&& services@[si as int].uuid@ == uuids.yolk_hid_service_uuid@
                &&& forall|j: int| 0 <= j < si ==> #[trigger] services@[j].uuid@ != uuids.yolk_hid_service_uuid@
                &&& ci < services@[si as int].characteristics@.len()
                &&& services@[si as int].characteristics@[ci as int]@ == uuids.report_uuid@
                &&& forall|j: int|
                    0 <= j < ci ==> #[trigger] services@[si as int].characteristics@[j]@ != uuids.report_uuid@
            },
            Err(ResolveError::ServiceNotFound) => forall|j: int|
                0 <= j < services@.len() ==> #[trigger] services@[j].uuid@ != uuids.yolk_hid_service_uuid@,
            Err(ResolveError::CharacteristicNotFound) => exists|si: int| {
                &&& 0 <= si < services@.len()
                &&& services@[si].uuid@ == uuids.yolk_hid_service_uuid@
                &&& (forall|j: int| 0 <= j < si ==> #[trigger] services@[j].uuid@ != uuids.yolk_hid_service_uuid@)
                &&& (forall|c: int|
                    0 <= c < services@[si].characteristics@.len() ==> #[trigger] services@[si].characteristics@[c]@
                        != uuids.report_uuid@)
            },
        },
{
    let mut si: usize = 0;
    while si < services.len()
        invariant
            si <= services@.len(),
            forall|j: int| 0 <= j < si ==> #[trigger] services@[j].uuid@ != uuids.yolk_hid_service_uuid@,
        decreases services@.len() - si,
    {
        if services[si].uuid == uuids.yolk_hid_service_uuid {
            let chars = &services[si].characteristics;
            let mut ci: usize = 0;
            while ci < chars.len()
                invariant
                    si < services@.len(),
                    chars@ == services@[si as int].characteristics@,
                    services@[si as int].uuid@ == uuids.yolk_hid_service_uuid@,
                    forall|j: int| 0 <= j < si ==> #[trigger] services@[j].uuid@ != uuids.yolk_hid_service_uuid@,
                    ci <= chars@.len(),
                    forall|j: int| 0 <= j < ci ==> #[trigger] chars@[j]@ != uuids.report_uuid@,
                decreases chars@.len() - ci,
            {
                if chars[ci] == uuids.report_uuid {
                    return Ok((si, ci));
                }
                ci = ci + 1;
            }
            assert(services@[si as int].uuid@ == uuids.yolk_hid_service_uuid@);
            return Err(ResolveError::CharacteristicNotFound);
        }
        si = si + 1;
    }
    Err(ResolveError::ServiceNotFound)
}

} // verus!
