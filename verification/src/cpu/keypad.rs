//! The sixteen-key keypad, held as a bitmap: bit `k` is set while key `k` is
//! down.

use vstd::prelude::*;

verus! {

/// Whether bit `key` of the bitmap is set. No key above `0xF` is ever down.
pub open spec fn key_down(bitmap: u16, key: int) -> bool {
    0 <= key < 16 && (bitmap >> (key as u16)) & 1 == 1
}

/// The keys that are down in a bitmap.
pub open spec fn pressed(bitmap: u16) -> Set<int> {
    Set::new(|key: int| key_down(bitmap, key))
}

/// The lowest key of `keys` that is not below `from`, if there is one.
pub open spec fn lowest_from(keys: Set<int>, from: int) -> Option<u8>
    decreases 16 - from,
{
    if from < 0 || from >= 16 {
        None
    } else if keys.contains(from) {
        Some(from as u8)
    } else {
        lowest_from(keys, from + 1)
    }
}

/// The lowest key that is down, if any is.
pub open spec fn lowest_key(keys: Set<int>) -> Option<u8> {
    lowest_from(keys, 0)
}

/// `lowest_from` finds a key that is down with none below it down, and
/// finds none only where none is down.
pub proof fn lemma_lowest_from(keys: Set<int>, from: int)
    requires
        0 <= from <= 16,
    ensures
        match lowest_from(keys, from) {
            Some(key) => from <= key < 16 && keys.contains(key as int) && forall|j: int|
                from <= j < key ==> !keys.contains(j),
            None => forall|j: int| from <= j < 16 ==> !keys.contains(j),
        },
    decreases 16 - from,
{
    if from < 16 && !keys.contains(from) {
        lemma_lowest_from(keys, from + 1);
    }
}

/// Setting and clearing one bit changes that key and no other; the empty
/// bitmap has no key down.
pub proof fn lemma_bits(bitmap: u16, key: u16, other: u16)
    by (bit_vector)
    requires
        key < 16,
        other < 16,
    ensures
        ((bitmap | (1u16 << key)) >> other) & 1 == 1 <==> (other == key || (bitmap >> other) & 1
            == 1),
        ((bitmap & !(1u16 << key)) >> other) & 1 == 1 <==> (other != key && (bitmap >> other) & 1
            == 1),
        (0u16 >> other) & 1 == 0,
{
}

/// The bitmap with bit `key` set holds one more key.
pub proof fn lemma_press(bitmap: u16, key: u16)
    requires
        key < 16,
    ensures
        pressed(bitmap | (1u16 << key)) == pressed(bitmap).insert(key as int),
{
    assert forall|k: int| pressed(bitmap | (1u16 << key)).contains(k) == pressed(bitmap).insert(
        key as int,
    ).contains(k) by {
        if 0 <= k < 16 {
            lemma_bits(bitmap, key, k as u16);
        }
    }
}

/// The bitmap with bit `key` cleared holds one key less.
pub proof fn lemma_release(bitmap: u16, key: u16)
    requires
        key < 16,
    ensures
        pressed(bitmap & !(1u16 << key)) == pressed(bitmap).remove(key as int),
{
    assert forall|k: int| pressed(bitmap & !(1u16 << key)).contains(k) == pressed(bitmap).remove(
        key as int,
    ).contains(k) by {
        if 0 <= k < 16 {
            lemma_bits(bitmap, key, k as u16);
        }
    }
}

/// The zero bitmap holds no key.
pub proof fn lemma_none_pressed()
    ensures
        pressed(0) == Set::<int>::empty(),
{
    assert forall|k: int| !pressed(0).contains(k) by {
        if 0 <= k < 16 {
            lemma_bits(0, 0, k as u16);
        }
    }
}

} // verus!
