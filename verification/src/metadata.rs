//! Flattening of the engine's metadata into the boundary's parallel arrays.
//!
//! An entry whose key or joined values hold a zero byte cannot be carried by
//! a C string. Such an entry is skipped; every other entry is kept, in the
//! order in which it was handed in.
use vstd::prelude::*;
use vstd::utf8::*;

use crate::text::{
    c_string, is_c_string, join_strings, lemma_c_string_well_formed, to_c_string,
};
use crate::types::{has_distinct_keys, CMetadata, MetadataEntry, VALUE_SEPARATOR};

verus! {

/// The entries that cross the boundary, in order.
pub open spec fn flattened(entries: Seq<MetadataEntry>) -> Seq<MetadataEntry> {
    entries.filter(|e: MetadataEntry| e.is_representable())
}

/// `m` holds exactly the entries `kept`, pair by pair and in order.
pub open spec fn carries(m: CMetadata, kept: Seq<MetadataEntry>) -> bool {
    &&& m.len == kept.len()
    &&& m.keys@.len() == kept.len()
    &&& m.values@.len() == kept.len()
    &&& forall|i: int|
        0 <= i < kept.len() ==> (#[trigger] m.keys@[i])@ == c_string(kept[i].key_bytes())
    &&& forall|i: int|
        0 <= i < kept.len() ==> (#[trigger] m.values@[i])@ == c_string(kept[i].value_bytes())
}

/// Flattens the metadata of one extraction. The result holds one pair for
/// each entry that can be carried, in the order of `metadata`, and nothing
/// for the others. The entries are those of a map, handed in one by one in
/// any order: where no key occurs twice among them, none occurs twice in
/// the result.
pub fn metadata_to_c(metadata: Vec<MetadataEntry>) -> (r: Box<CMetadata>)
    ensures
        carries(*r, flattened(metadata@)),
        r.is_well_formed(),
        has_distinct_keys(metadata@) ==> r.has_distinct_keys(),
{
    let mut keys: Vec<Vec<u8>> = Vec::new();
    let mut values: Vec<Vec<u8>> = Vec::new();
    let mut i: usize = 0;
    while i < metadata.len()
        invariant
            i <= metadata.len(),
            keys@.len() == flattened(metadata@.take(i as int)).len(),
            values@.len() == keys@.len(),
            forall|j: int|
                0 <= j < keys@.len() ==> (#[trigger] keys@[j])@ == c_string(
                    flattened(metadata@.take(i as int))[j].key_bytes(),
                ),
            forall|j: int|
                0 <= j < keys@.len() ==> (#[trigger] values@[j])@ == c_string(
                    flattened(metadata@.take(i as int))[j].value_bytes(),
                ),
        decreases metadata.len() - i,
    {
        let entry = &metadata[i];
        proof {
            lemma_flattened_step(metadata@, i as int);
        }
        match to_c_string(entry.key.as_str().as_bytes()) {
            Some(key) => {
                let joined = join_strings(&entry.values, VALUE_SEPARATOR);
                match to_c_string(joined.as_slice()) {
                    Some(value) => {
                        keys.push(key);
                        values.push(value);
                    },
                    None => {},
                }
            },
            None => {},
        }
        i = i + 1;
    }
    assert(metadata@.take(i as int) == metadata@);
    proof {
        lemma_flattened_fits(metadata@);
        let kept = flattened(metadata@);
        assert forall|j: int| 0 <= j < kept.len() implies kept[j].is_representable() by {
            metadata@.lemma_filter_pred(|e: MetadataEntry| e.is_representable(), j);
        }
        assert forall|j: int| 0 <= j < keys@.len() implies is_c_string(
            #[trigger] keys@[j]@,
        ) by {
            lemma_c_string_well_formed(kept[j].key_bytes());
        }
        assert forall|j: int| 0 <= j < values@.len() implies is_c_string(
            #[trigger] values@[j]@,
        ) by {
            lemma_c_string_well_formed(kept[j].value_bytes());
        }
    }
    let len: usize = keys.len();
    let flat = CMetadata { keys, values, len };
    proof {
        lemma_carried_keys_distinct(metadata@, flat);
    }
    Box::new(flat)
}

/// Releases flattened metadata: every string, both arrays and the
/// container go with the value. Nothing happens for the null handle.
pub fn extractous_metadata_free(metadata: Option<Box<CMetadata>>) {
}

/// One more entry either joins the flattened entries or leaves them as
/// they were.
pub proof fn lemma_flattened_step(entries: Seq<MetadataEntry>, i: int)
    requires
        0 <= i < entries.len(),
    ensures
        flattened(entries.take(i + 1)) == if entries[i].is_representable() {
            flattened(entries.take(i)).push(entries[i])
        } else {
            flattened(entries.take(i))
        },
{
    reveal(Seq::filter);
    assert(entries.take(i + 1).drop_last() == entries.take(i));
}

/// Flattening never yields more entries than it was given.
pub proof fn lemma_flattened_fits(entries: Seq<MetadataEntry>)
    ensures
        flattened(entries).len() <= entries.len(),
{
    entries.lemma_filter_len(|e: MetadataEntry| e.is_representable());
}

/// Flattening works through a list piece by piece.
pub proof fn lemma_flattened_concat(a: Seq<MetadataEntry>, b: Seq<MetadataEntry>)
    ensures
        flattened(a + b) == flattened(a) + flattened(b),
{
    Seq::filter_distributes_over_add(a, b, |e: MetadataEntry| e.is_representable());
}

/// Metadata without entries flattens to the empty set: both arrays are
/// empty, the length is zero, and the result is well formed.
pub proof fn lemma_empty_metadata(entries: Seq<MetadataEntry>, m: CMetadata)
    requires
        entries.len() == 0,
        carries(m, flattened(entries)),
    ensures
        m.len == 0,
        m.keys@.len() == 0,
        m.values@.len() == 0,
        m.is_well_formed(),
{
    lemma_flattened_fits(entries);
}

/// An entry that cannot be carried is skipped, and the entries around it
/// are flattened as if it had not been there.
pub proof fn lemma_unrepresentable_entry_skipped(
    before: Seq<MetadataEntry>,
    entry: MetadataEntry,
    after: Seq<MetadataEntry>,
)
    requires
        !entry.is_representable(),
    ensures
        flattened(before.push(entry) + after) == flattened(before + after),
{
    reveal(Seq::filter);
    let one = seq![entry];
    assert(flattened(one.drop_last()).len() == 0);
    assert(before.push(entry) == before + one);
    lemma_flattened_concat(before, one);
    lemma_flattened_concat(before + one, after);
    lemma_flattened_concat(before, after);
}

/// Where every entry can be carried, flattening keeps them all, in order.
pub proof fn lemma_representable_entries_kept(entries: Seq<MetadataEntry>)
    requires
        forall|i: int| 0 <= i < entries.len() ==> (#[trigger] entries[i]).is_representable(),
    ensures
        flattened(entries) == entries,
    decreases entries.len(),
{
    reveal(Seq::filter);
    if entries.len() > 0 {
        lemma_representable_entries_kept(entries.drop_last());
    }
}

/// Every flattened entry can be carried and comes from the entries handed
/// in, and every entry that can be carried is among the flattened ones.
pub proof fn lemma_flattened_members(entries: Seq<MetadataEntry>)
    ensures
        forall|j: int|
            0 <= j < flattened(entries).len() ==> (#[trigger] flattened(
                entries,
            )[j]).is_representable(),
        forall|i: int|
            0 <= i < entries.len() && (#[trigger] entries[i]).is_representable() ==> flattened(
                entries,
            ).contains(entries[i]),
{
    let pred = |e: MetadataEntry| e.is_representable();
    assert forall|j: int| 0 <= j < flattened(entries).len() implies (#[trigger] flattened(
        entries,
    )[j]).is_representable() by {
        entries.lemma_filter_pred(pred, j);
    }
    assert forall|i: int|
        0 <= i < entries.len() && (#[trigger] entries[i]).is_representable() implies flattened(
        entries,
    ).contains(entries[i]) by {
        entries.lemma_filter_contains(pred, i);
    }
}

/// Every flattened entry is one of the entries handed in.
pub proof fn lemma_flattened_from_entries(entries: Seq<MetadataEntry>)
    ensures
        forall|j: int|
            0 <= j < flattened(entries).len() ==> entries.contains(#[trigger] flattened(entries)[j]),
    decreases entries.len(),
{
    reveal(Seq::filter);
    if entries.len() > 0 {
        let front = entries.drop_last();
        lemma_flattened_from_entries(front);
        assert forall|j: int| 0 <= j < flattened(entries).len() implies entries.contains(
            #[trigger] flattened(entries)[j],
        ) by {
            if j < flattened(front).len() {
                let e = flattened(front)[j];
                assert(front.contains(e));
                let i = choose|i: int| 0 <= i < front.len() && front[i] == e;
                assert(entries[i] == e);
            } else {
                assert(entries[entries.len() - 1] == flattened(entries)[j]);
            }
        }
    }
}

/// Where no key occurs twice among the entries, none occurs twice among
/// the flattened ones.
pub proof fn lemma_flattened_keys_distinct(entries: Seq<MetadataEntry>)
    requires
        has_distinct_keys(entries),
    ensures
        has_distinct_keys(flattened(entries)),
    decreases entries.len(),
{
    reveal(Seq::filter);
    if entries.len() > 0 {
        let front = entries.drop_last();
        let last = entries.last();
        assert(has_distinct_keys(front)) by {
            assert forall|i: int, j: int| 0 <= i < j < front.len() implies (#[trigger] front[i]).key@
                != (#[trigger] front[j]).key@ by {
                assert(front[i] == entries[i] && front[j] == entries[j]);
            }
        }
        lemma_flattened_keys_distinct(front);
        lemma_flattened_from_entries(front);
        let kept = flattened(entries);
        assert forall|i: int, j: int| 0 <= i < j < kept.len() implies (#[trigger] kept[i]).key@ != (
        #[trigger] kept[j]).key@ by {
            if j < flattened(front).len() {
                assert(kept[i] == flattened(front)[i] && kept[j] == flattened(front)[j]);
            } else {
                let e = flattened(front)[i];
                assert(kept[i] == e && kept[j] == last);
                assert(front.contains(e));
                let k = choose|k: int| 0 <= k < front.len() && front[k] == e;
                assert(entries[k] == e && entries[entries.len() - 1] == last);
            }
        }
    }
}

/// Flattened metadata that carries the entries of a map holds no key twice:
/// two keys that differ as text differ as C strings.
pub proof fn lemma_carried_keys_distinct(entries: Seq<MetadataEntry>, m: CMetadata)
    requires
        carries(m, flattened(entries)),
    ensures
        has_distinct_keys(entries) ==> m.has_distinct_keys(),
{
    if has_distinct_keys(entries) {
        lemma_flattened_keys_distinct(entries);
        let kept = flattened(entries);
        assert forall|i: int, j: int| 0 <= i < j < m.keys@.len() implies (#[trigger] m.keys@[i])@ != (
        #[trigger] m.keys@[j])@ by {
            let a = kept[i].key@;
            let b = kept[j].key@;
            assert(a != b);
            encode_utf8_decode_utf8(a);
            encode_utf8_decode_utf8(b);
            assert(encode_utf8(a) != encode_utf8(b));
            assert(c_string(encode_utf8(a)).drop_last() == encode_utf8(a));
            assert(c_string(encode_utf8(b)).drop_last() == encode_utf8(b));
        }
    }
}

} // verus!
