use vstd::prelude::*;

use crate::constants::{BLE_RX_UUID_HINT, BLE_SERVICE_UUID_SUFFIX, BLE_TX_UUID_HINT, SPECIAL_BLE_RX_UUIDS, SPECIAL_BLE_TX_UUIDS, W800K_SERVICE_UUID};
use crate::profile::{lower_chars_of_vec, trim_braces, trim_braces_exec, DeviceProfile};
use crate::text::{chars_of, contains_chars, contains_exec, lower_chars, lower_chars_of, push_str, string_of};

verus! {

/// Whether a service UUID looks like an Edifier BLE service (see
/// `DeviceProfile::looks_like_edifier_ble_service`).
pub open spec fn edifier_service(u: Seq<char>) -> bool {
    contains_chars(lower_chars(u), BLE_SERVICE_UUID_SUFFIX@) || lower_chars(u) == lower_chars(W800K_SERVICE_UUID@)
}

/// Whether a characteristic UUID (in lower case) is the one the host writes
/// to: it holds the write hint or one of the special write UUIDs.
pub open spec fn is_tx_spec(u: Seq<char>) -> bool {
    contains_chars(u, BLE_TX_UUID_HINT@) || contains_chars(u, SPECIAL_BLE_TX_UUIDS[0]@) || contains_chars(
        u,
        SPECIAL_BLE_TX_UUIDS[1]@,
    )
}

/// Whether a characteristic UUID (in lower case) is the one the headset
/// notifies on: it holds the notify hint or one of the special notify UUIDs.
pub open spec fn is_rx_spec(u: Seq<char>) -> bool {
    contains_chars(u, BLE_RX_UUID_HINT@) || contains_chars(u, SPECIAL_BLE_RX_UUIDS[0]@) || contains_chars(
        u,
        SPECIAL_BLE_RX_UUIDS[1]@,
    )
}

fn contains_str(hay: &Vec<char>, needle: &str) -> (r: bool)
    ensures
        r == contains_chars(hay@, needle@),
{
    let n = chars_of(needle);
    contains_exec(hay, &n)
}

/// Whether a characteristic UUID is the write characteristic.
pub fn is_tx(uuid: &str) -> (r: bool)
    ensures
        r == is_tx_spec(uuid@),
{
    let u = chars_of(uuid);
    contains_str(&u, BLE_TX_UUID_HINT) || contains_str(&u, SPECIAL_BLE_TX_UUIDS[0]) || contains_str(
        &u,
        SPECIAL_BLE_TX_UUIDS[1],
    )
}

/// Whether a characteristic UUID is the notify characteristic.
pub fn is_rx(uuid: &str) -> (r: bool)
    ensures
        r == is_rx_spec(uuid@),
{
    let u = chars_of(uuid);
    contains_str(&u, BLE_RX_UUID_HINT) || contains_str(&u, SPECIAL_BLE_RX_UUIDS[0]) || contains_str(
        &u,
        SPECIAL_BLE_RX_UUIDS[1],
    )
}

/// The first of a device's GATT services that looks like an Edifier one.
pub fn choose_service(uuids: &[String]) -> (r: Option<usize>)
    ensures
        match r {
            Some(i) => i < uuids@.len() && edifier_service(uuids@[i as int]@) && forall|k: int|
                0 <= k < i ==> !edifier_service(#[trigger] uuids@[k]@),
            None => forall|k: int| 0 <= k < uuids@.len() ==> !edifier_service(#[trigger] uuids@[k]@),
        },
{
    let mut i: usize = 0;
    while i < uuids.len()
        invariant
            i <= uuids@.len(),
            forall|k: int| 0 <= k < i ==> !edifier_service(#[trigger] uuids@[k]@),
        decreases uuids@.len() - i,
    {
        if DeviceProfile::looks_like_edifier_ble_service(uuids[i].as_str()) {
            return Some(i);
        }
        i = i + 1;
    }
    None
}

/// The service UUID a scan reports for a device: the first Edifier service,
/// braces trimmed, in lower case.
pub fn scan_service_uuid(uuids: &[String]) -> (r: Option<String>)
    ensures
        match r {
            Some(s) => exists|i: int|
                0 <= i < uuids@.len() && edifier_service(#[trigger] uuids@[i]@) && (forall|k: int|
                    0 <= k < i ==> !edifier_service(#[trigger] uuids@[k]@)) && s@ == lower_chars(
                    trim_braces(uuids@[i]@),
                ),
            None => forall|k: int| 0 <= k < uuids@.len() ==> !edifier_service(#[trigger] uuids@[k]@),
        },
{
    match choose_service(uuids) {
        Some(i) => {
            let trimmed = trim_braces_exec(&chars_of(uuids[i].as_str()));
            let lower = lower_chars_of_vec(&trimmed);
            Some(string_of(&lower))
        },
        None => None,
    }
}

/// Message when a device offers no Edifier BLE service.
pub open spec fn no_service_message(address: Seq<char>) -> Seq<char> {
    "设备 "@ + address + " 没有漫步者 BLE 服务, Windows 随机 MAC 时请改用 RFCOMM"@
}

/// The Edifier service of a device the host links to over BLE; fails with
/// a hint where the device offers none.
pub fn link_service(address: &str, uuids: &[String]) -> (r: Result<usize, String>)
    ensures
        match r {
            Ok(i) => i < uuids@.len() && edifier_service(uuids@[i as int]@) && forall|k: int|
                0 <= k < i ==> !edifier_service(#[trigger] uuids@[k]@),
            Err(m) => (forall|k: int| 0 <= k < uuids@.len() ==> !edifier_service(#[trigger] uuids@[k]@)) && m@
                == no_service_message(address@),
        },
{
    match choose_service(uuids) {
        Some(i) => Ok(i),
        None => {
            let mut m = String::new();
            push_str(&mut m, "设备 ");
            push_str(&mut m, address);
            push_str(&mut m, " 没有漫步者 BLE 服务, Windows 随机 MAC 时请改用 RFCOMM");
            Err(m)
        },
    }
}

/// Message when no write characteristic is found.
pub open spec fn no_tx_message() -> Seq<char> {
    "未找到 BLE 写特征"@
}

/// Message when no notify characteristic is found.
pub open spec fn no_rx_message() -> Seq<char> {
    "未找到 BLE 通知特征"@
}

/// The index of the last write characteristic (UUIDs read in lower case).
pub open spec fn last_tx(uuids: Seq<Seq<char>>) -> Option<int>
    decreases uuids.len(),
{
    if uuids.len() == 0 {
        None
    } else if is_tx_spec(lower_chars(uuids.last())) {
        Some(uuids.len() - 1)
    } else {
        last_tx(uuids.drop_last())
    }
}

/// The index of the last notify characteristic that is not a write one.
pub open spec fn last_rx(uuids: Seq<Seq<char>>) -> Option<int>
    decreases uuids.len(),
{
    if uuids.len() == 0 {
        None
    } else if !is_tx_spec(lower_chars(uuids.last())) && is_rx_spec(lower_chars(uuids.last())) {
        Some(uuids.len() - 1)
    } else {
        last_rx(uuids.drop_last())
    }
}

/// The texts of a list of strings.
pub open spec fn uuid_texts(v: Seq<String>) -> Seq<Seq<char>> {
    v.map_values(|s: String| s@)
}

/// Picks the write and the notify characteristic of the Edifier service by
/// their UUIDs (any case): the last write one, and the last notify one that
/// is not a write one.
pub fn choose_characteristics(uuids: &[String]) -> (r: Result<(usize, usize), String>)
    ensures
        match (last_tx(uuid_texts(uuids@)), last_rx(uuid_texts(uuids@))) {
            (Some(t), Some(x)) => r == Ok::<(usize, usize), String>((t as usize, x as usize)),
            (None, _) => (r matches Err(m) && m@ == no_tx_message()),
            (Some(_), None) => (r matches Err(m) && m@ == no_rx_message()),
        },
{
    let ghost texts = uuid_texts(uuids@);
    let mut tx: Option<usize> = None;
    let mut rx: Option<usize> = None;
    let mut i: usize = 0;
    while i < uuids.len()
        invariant
            i <= uuids@.len(),
            texts == uuid_texts(uuids@),
            texts.len() == uuids@.len(),
            match last_tx(texts.take(i as int)) {
                Some(t) => tx == Some(t as usize),
                None => tx is None,
            },
            match last_rx(texts.take(i as int)) {
                Some(x) => rx == Some(x as usize),
                None => rx is None,
            },
        decreases uuids@.len() - i,
    {
        assert(texts.take(i + 1).drop_last() =~= texts.take(i as int));
        assert(texts.take(i + 1).last() == uuids@[i as int]@);
        let lower = string_of(&lower_chars_of(uuids[i].as_str()));
        if is_tx(lower.as_str()) {
            tx = Some(i);
        } else if is_rx(lower.as_str()) {
            rx = Some(i);
        }
        i = i + 1;
    }
    assert(texts.take(i as int) =~= texts);
    let t = match tx {
        Some(t) => t,
        None => return Err("未找到 BLE 写特征".to_owned()),
    };
    let x = match rx {
        Some(x) => x,
        None => return Err("未找到 BLE 通知特征".to_owned()),
    };
    Ok((t, x))
}

} // verus!
