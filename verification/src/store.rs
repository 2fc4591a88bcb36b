use crate::model::WindowSnapshot;
use vstd::bytes::{
    lemma_auto_spec_u32_to_from_le_bytes, spec_u32_from_le_bytes, spec_u32_to_le_bytes,
    u32_from_le_bytes, u32_to_le_bytes,
};
use vstd::prelude::*;
use vstd::slice::{slice_subrange, slice_to_vec};
use vstd::utf8::{encode_utf8, is_ascii_chars, is_ascii_chars_encode_utf8};

verus! {

/// The text of the preference record.
pub open spec fn preference_text(is_tray_app: bool) -> Seq<char> {
    if is_tray_app {
        "{\"is_tray_app\":true}"@
    } else {
        "{\"is_tray_app\":false}"@
    }
}

/// The bytes that the preference store holds for a flag.
pub open spec fn preference_record(is_tray_app: bool) -> Seq<u8> {
    encode_utf8(preference_text(is_tray_app))
}

/// The flag that the bytes of the preference store stand for, if they stand for one.
pub open spec fn stored_preference(bytes: Seq<u8>) -> Option<bool> {
    if bytes == preference_record(true) {
        Some(true)
    } else if bytes == preference_record(false) {
        Some(false)
    } else {
        None
    }
}

/// Whether two runs of bytes are the same.
pub fn same_bytes(left: &[u8], right: &[u8]) -> (same: bool)
    ensures
        same == (left@ == right@),
{
    if left.len() != right.len() {
        return false;
    }
    let mut at: usize = 0;
    while at < left.len()
        invariant
            at <= left.len() == right.len(),
            forall|k: int| 0 <= k < at ==> left@[k] == right@[k],
        decreases left.len() - at,
    {
        if left[at] != right[at] {
            return false;
        }
        at += 1;
    }
    assert(left@ =~= right@);
    true
}

/// Writes the preference record.
pub fn encode_preference(is_tray_app: bool) -> (record: Vec<u8>)
    ensures
        record@ == preference_record(is_tray_app),
{
    let text = if is_tray_app {
        "{\"is_tray_app\":true}"
    } else {
        "{\"is_tray_app\":false}"
    };
    slice_to_vec(text.as_bytes())
}

/// Reads the preference record: anything but one of the two records is unreadable.
pub fn decode_preference(bytes: &[u8]) -> (flag: Option<bool>)
    ensures
        flag == stored_preference(bytes@),
{
    if same_bytes(bytes, "{\"is_tray_app\":true}".as_bytes()) {
        Some(true)
    } else if same_bytes(bytes, "{\"is_tray_app\":false}".as_bytes()) {
        Some(false)
    } else {
        None
    }
}

/// What is written to the preference store is read back as the same flag.
pub proof fn preference_survives_storing(is_tray_app: bool)
    ensures
        stored_preference(preference_record(is_tray_app)) == Some(is_tray_app),
{
    reveal_strlit("{\"is_tray_app\":true}");
    reveal_strlit("{\"is_tray_app\":false}");
    let yes = preference_text(true);
    let no = preference_text(false);
    assert(yes.len() == 20);
    assert(no.len() == 21);
    assert(is_ascii_chars(yes));
    assert(is_ascii_chars(no));
    is_ascii_chars_encode_utf8(yes);
    is_ascii_chars_encode_utf8(no);
}

/// The byte that stands for a flag.
pub open spec fn flag_byte(flag: bool) -> u8 {
    if flag {
        1
    } else {
        0
    }
}

/// The bytes that the window geometry memory holds for a snapshot: width,
/// height, x and y as four little-endian bytes each, the coordinates in two's
/// complement, then one byte each for decorated and resizable.
pub open spec fn snapshot_record(snapshot: WindowSnapshot) -> Seq<u8> {
    spec_u32_to_le_bytes(snapshot.width) + spec_u32_to_le_bytes(snapshot.height)
        + spec_u32_to_le_bytes(snapshot.x as u32) + spec_u32_to_le_bytes(snapshot.y as u32)
        + seq![flag_byte(snapshot.decorated), flag_byte(snapshot.resizable)]
}

/// The snapshot that the bytes of the window geometry memory stand for, if
/// they stand for one: there are eighteen of them, and the last two are flags.
pub open spec fn stored_snapshot(bytes: Seq<u8>) -> Option<WindowSnapshot> {
    if bytes.len() == 18 && bytes[16] <= 1 && bytes[17] <= 1 {
        Some(
            WindowSnapshot {
                width: spec_u32_from_le_bytes(bytes.subrange(0, 4)),
                height: spec_u32_from_le_bytes(bytes.subrange(4, 8)),
                x: spec_u32_from_le_bytes(bytes.subrange(8, 12)) as i32,
                y: spec_u32_from_le_bytes(bytes.subrange(12, 16)) as i32,
                decorated: bytes[16] == 1,
                resizable: bytes[17] == 1,
            },
        )
    } else {
        None
    }
}

fn append_bytes(record: &mut Vec<u8>, tail: &Vec<u8>)
    ensures
        final(record)@ == old(record)@ + tail@,
{
    let mut at: usize = 0;
    while at < tail.len()
        invariant
            at <= tail.len(),
            record@ == old(record)@ + tail@.subrange(0, at as int),
        decreases tail.len() - at,
    {
        record.push(tail[at]);
        assert(tail@.subrange(0, at + 1) =~= tail@.subrange(0, at as int).push(tail@[at as int]));
        assert(record@ =~= old(record)@ + tail@.subrange(0, at + 1));
        at += 1;
    }
    assert(tail@.subrange(0, at as int) =~= tail@);
}

/// Writes the record of a snapshot.
pub fn encode_snapshot(snapshot: WindowSnapshot) -> (record: Vec<u8>)
    ensures
        record@ == snapshot_record(snapshot),
{
    let mut record = u32_to_le_bytes(snapshot.width);
    append_bytes(&mut record, &u32_to_le_bytes(snapshot.height));
    append_bytes(&mut record, &u32_to_le_bytes(snapshot.x as u32));
    append_bytes(&mut record, &u32_to_le_bytes(snapshot.y as u32));
    record.push(if snapshot.decorated { 1u8 } else { 0u8 });
    record.push(if snapshot.resizable { 1u8 } else { 0u8 });
    assert(record@ =~= snapshot_record(snapshot));
    record
}

/// Reads the record of a snapshot.
pub fn decode_snapshot(bytes: &[u8]) -> (snapshot: Option<WindowSnapshot>)
    ensures
        snapshot == stored_snapshot(bytes@),
{
    if bytes.len() != 18 || bytes[16] > 1 || bytes[17] > 1 {
        return None;
    }
    let width = u32_from_le_bytes(slice_subrange(bytes, 0, 4));
    let height = u32_from_le_bytes(slice_subrange(bytes, 4, 8));
    let x = u32_from_le_bytes(slice_subrange(bytes, 8, 12));
    let y = u32_from_le_bytes(slice_subrange(bytes, 12, 16));
    Some(
        WindowSnapshot {
            width,
            height,
            x: x as i32,
            y: y as i32,
            decorated: bytes[16] == 1,
            resizable: bytes[17] == 1,
        },
    )
}

/// What is written to the window geometry memory is read back as the same snapshot.
pub proof fn snapshot_survives_storing(snapshot: WindowSnapshot)
    ensures
        stored_snapshot(snapshot_record(snapshot)) == Some(snapshot),
{
    lemma_auto_spec_u32_to_from_le_bytes();
    let record = snapshot_record(snapshot);
    let x = snapshot.x;
    let y = snapshot.y;
    assert((x as u32) as i32 == x) by (bit_vector);
    assert((y as u32) as i32 == y) by (bit_vector);
    assert(record.subrange(0, 4) =~= spec_u32_to_le_bytes(snapshot.width));
    assert(record.subrange(4, 8) =~= spec_u32_to_le_bytes(snapshot.height));
    assert(record.subrange(8, 12) =~= spec_u32_to_le_bytes(snapshot.x as u32));
    assert(record.subrange(12, 16) =~= spec_u32_to_le_bytes(snapshot.y as u32));
}

} // verus!
