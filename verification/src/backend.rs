//! Decisions of the production backend that do not depend on the radio
//! stack: which characteristic of a peripheral a GATT key names, and which
//! write mode a characteristic allows.
use vstd::prelude::*;

use crate::event::GattKey;
use crate::info::CharacteristicProperties;
use crate::text::{ascii_lower_spec, ascii_lowercase};
use crate::types::{BleError, BleErrorView};

verus! {

/// Whether a characteristic, given by the texts of its service UUID and its
/// UUID, is the one that `key` names, ignoring ASCII case.
pub open spec fn names_characteristic(entry: (Seq<char>, Seq<char>), key: (Seq<char>, Seq<char>)) -> bool {
    &&& ascii_lower_spec(entry.1) == ascii_lower_spec(key.1)
    &&& ascii_lower_spec(entry.0) == ascii_lower_spec(key.0)
}

/// The by-value form of a list of (service UUID, UUID) texts.
pub open spec fn entries_view(v: Seq<(String, String)>) -> Seq<(Seq<char>, Seq<char>)> {
    Seq::new(v.len(), |i: int| (v[i].0@, v[i].1@))
}

/// The error for a key that names no characteristic of the peripheral.
pub open spec fn characteristic_not_found(key: (Seq<char>, Seq<char>)) -> BleErrorView {
    BleErrorView::CharacteristicNotFound(key.1 + " in service "@ + key.0)
}

/// Whether two texts are equal ignoring ASCII case.
fn same_ignoring_ascii_case(a: &str, b: &str) -> (r: bool)
    ensures
        r == (ascii_lower_spec(a@) == ascii_lower_spec(b@)),
{
    let a = ascii_lowercase(a);
    let b = ascii_lowercase(b);
    a.eq(&b)
}

/// The position of the first characteristic, among a peripheral's
/// (service UUID, UUID) texts in the order the peripheral lists them, that
/// `key` names; `CharacteristicNotFound` when there is none.
pub fn find_characteristic(characteristics: &Vec<(String, String)>, key: &GattKey) -> (r: Result<
    usize,
    BleError,
>)
    ensures
        match r {
            Ok(i) => {
                &&& i < characteristics.len()
                &&& names_characteristic(entries_view(characteristics@)[i as int], key@)
                &&& forall|j: int|
                    0 <= j < i ==> !names_characteristic(
                        #[trigger] entries_view(characteristics@)[j],
                        key@,
                    )
            },
            Err(e) => {
                &&& e@ == characteristic_not_found(key@)
                &&& forall|j: int|
                    0 <= j < characteristics.len() ==> !names_characteristic(
                        #[trigger] entries_view(characteristics@)[j],
                        key@,
                    )
            },
        },
{
    let ghost entries = entries_view(characteristics@);
    for i in 0..characteristics.len()
        invariant
            entries == entries_view(characteristics@),
            forall|j: int| 0 <= j < i ==> !names_characteristic(#[trigger] entries[j], key@),
    {
        let (service, uuid) = &characteristics[i];
        if same_ignoring_ascii_case(uuid.as_str(), key.characteristic_uuid())
            && same_ignoring_ascii_case(service.as_str(), key.service_uuid()) {
            return Ok(i);
        }
    }
    let mut message = String::from_str(key.characteristic_uuid());
    message.append(" in service ");
    message.append(key.service_uuid());
    Err(BleError::CharacteristicNotFound(message))
}

/// The write mode of a request: with response where `with_response` and the
/// characteristic allows writes, without response where it does not ask for
/// one and the characteristic allows writes without response; otherwise a
/// `WriteFailed` error that names the missing capability.
pub fn write_mode(properties: CharacteristicProperties, with_response: bool) -> (r: Result<bool, BleError>)
    ensures
        if with_response {
            if properties.write {
                r matches Ok(m) && m
            } else {
                r matches Err(BleError::WriteFailed(msg)) && msg@
                    == "characteristic does not support writes with response"@
            }
        } else {
            if properties.write_without_response {
                r matches Ok(m) && !m
            } else {
                r matches Err(BleError::WriteFailed(msg)) && msg@
                    == "characteristic does not support writes without response"@
            }
        },
{
    if with_response {
        if !properties.write {
            return Err(
                BleError::WriteFailed(String::from_str("characteristic does not support writes with response")),
            );
        }
        Ok(true)
    } else {
        if !properties.write_without_response {
            return Err(
                BleError::WriteFailed(String::from_str("characteristic does not support writes without response")),
            );
        }
        Ok(false)
    }
}

} // verus!
