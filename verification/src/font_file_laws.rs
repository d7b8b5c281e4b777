//! What holds of every file that is, or is not, let through as a font, byte by byte.

use crate::font_file::{
    char_map_in_range, directory_in_range, font_file_in_range, number16, number32, scan,
    starts_like_collection, starts_like_font, tagged, unicode_record, TableScan,
};
use vstd::prelude::*;

verus! {

/// Numbers are read with the most significant byte first.
pub proof fn law_numbers_are_big_endian(bytes: Seq<u8>, at: int)
    ensures
        number16(bytes, at) == 256 * bytes[at] + bytes[at + 1],
        number32(bytes, at) == 16_777_216 * bytes[at] + 65_536 * bytes[at + 1] + 256 * bytes[at + 2]
            + bytes[at + 3],
{
}

/// A tag is there exactly where its four bytes are, in their order.
pub proof fn law_tag_is_its_four_bytes(bytes: Seq<u8>, at: int, b0: u8, b1: u8, b2: u8, b3: u8)
    ensures
        tagged(bytes, at, b0, b1, b2, b3) <==> (bytes[at] == b0 && bytes[at + 1] == b1 && bytes[at
            + 2] == b2 && bytes[at + 3] == b3),
{
}

/// A file is taken for a font by its first four bytes, and for a collection by others.
pub proof fn law_kind_is_told_by_first_bytes(bytes: Seq<u8>)
    requires
        4 <= bytes.len(),
    ensures
        starts_like_font(bytes) <==> {
            ||| bytes.take(4) == seq![0x31u8, 0, 0, 0]
            ||| bytes.take(4) == seq![0x74u8, 0x79, 0x70, 0x31]
            ||| bytes.take(4) == seq![0x4fu8, 0x54, 0x54, 0x4f]
            ||| bytes.take(4) == seq![0u8, 1, 0, 0]
        },
        starts_like_collection(bytes) <==> bytes.take(4) == seq![0x74u8, 0x74, 0x63, 0x66],
        !(starts_like_font(bytes) && starts_like_collection(bytes)),
{
    let first = bytes.take(4);
    assert(first[0] == bytes[0] && first[1] == bytes[1] && first[2] == bytes[2] && first[3]
        == bytes[3]);
    assert(tagged(bytes, 0, 0x31, 0, 0, 0) <==> first =~= seq![0x31u8, 0, 0, 0]);
    assert(tagged(bytes, 0, 0x74, 0x79, 0x70, 0x31) <==> first =~= seq![0x74u8, 0x79, 0x70, 0x31]);
    assert(tagged(bytes, 0, 0x4f, 0x54, 0x54, 0x4f) <==> first =~= seq![0x4fu8, 0x54, 0x54, 0x4f]);
    assert(tagged(bytes, 0, 0, 1, 0, 0) <==> first =~= seq![0u8, 1, 0, 0]);
    assert(tagged(bytes, 0, 0x74, 0x74, 0x63, 0x66) <==> first =~= seq![0x74u8, 0x74, 0x63, 0x66]);
}

/// Where entry `i` of the directory of the font at `start` begins.
pub open spec fn entry_at(start: int, i: int) -> int {
    start + 12 + 16 * i
}

/// Entry `i` of the directory of the font at `start` is the first one with this tag.
pub open spec fn first_entry(
    bytes: Seq<u8>,
    start: int,
    i: int,
    b0: u8,
    b1: u8,
    b2: u8,
    b3: u8,
) -> bool {
    &&& 0 <= i < number16(bytes, start + 4)
    &&& tagged(bytes, entry_at(start, i), b0, b1, b2, b3)
    &&& forall|j: int| 0 <= j < i ==> !tagged(bytes, #[trigger] entry_at(start, j), b0, b1, b2, b3)
}

/// The directory of the font at `start` lies inside the file and has no entry with this tag.
pub open spec fn no_entry(bytes: Seq<u8>, start: int, b0: u8, b1: u8, b2: u8, b3: u8) -> bool {
    forall|j: int|
        0 <= j < number16(bytes, start + 4) ==> {
            &&& (#[trigger] entry_at(start, j)) + 4 <= bytes.len()
            &&& !tagged(bytes, entry_at(start, j), b0, b1, b2, b3)
        }
}

/// Whether the tag is one of a table that is looked for when a font is opened: "cmap", "head",
/// "maxp", "loca", "glyf", "hhea", "hmtx", "name" or "kern".
pub open spec fn looked_for(b0: u8, b1: u8, b2: u8, b3: u8) -> bool {
    ||| (b0, b1, b2, b3) == (0x63u8, 0x6du8, 0x61u8, 0x70u8)
    ||| (b0, b1, b2, b3) == (0x68u8, 0x65u8, 0x61u8, 0x64u8)
    ||| (b0, b1, b2, b3) == (0x6du8, 0x61u8, 0x78u8, 0x70u8)
    ||| (b0, b1, b2, b3) == (0x6cu8, 0x6fu8, 0x63u8, 0x61u8)
    ||| (b0, b1, b2, b3) == (0x67u8, 0x6cu8, 0x79u8, 0x66u8)
    ||| (b0, b1, b2, b3) == (0x68u8, 0x68u8, 0x65u8, 0x61u8)
    ||| (b0, b1, b2, b3) == (0x68u8, 0x6du8, 0x74u8, 0x78u8)
    ||| (b0, b1, b2, b3) == (0x6eu8, 0x61u8, 0x6du8, 0x65u8)
    ||| (b0, b1, b2, b3) == (0x6bu8, 0x65u8, 0x72u8, 0x6eu8)
}

proof fn lemma_scan_from(bytes: Seq<u8>, start: int, i: int, b0: u8, b1: u8, b2: u8, b3: u8)
    requires
        0 <= i,
        forall|j: int|
            0 <= j < i ==> {
                &&& (#[trigger] entry_at(start, j)) + 4 <= bytes.len()
                &&& !tagged(bytes, entry_at(start, j), b0, b1, b2, b3)
            },
    ensures
        match scan(bytes, start, i, b0, b1, b2, b3) {
            TableScan::Missing => no_entry(bytes, start, b0, b1, b2, b3),
            TableScan::Found(at) => exists|k: int| #[trigger]
                first_entry(bytes, start, k, b0, b1, b2, b3) && entry_at(start, k) + 12
                    <= bytes.len() && at == number32(bytes, entry_at(start, k) + 8),
            TableScan::Outside => {
                &&& !no_entry(bytes, start, b0, b1, b2, b3)
                &&& forall|k: int| #[trigger]
                    first_entry(bytes, start, k, b0, b1, b2, b3) ==> entry_at(start, k) + 12
                        > bytes.len()
            },
        },
    decreases number16(bytes, start + 4) - i,
{
    let entry = entry_at(start, i);
    if i < number16(bytes, start + 4) {
        if entry + 4 <= bytes.len() && !tagged(bytes, entry, b0, b1, b2, b3) {
            lemma_scan_from(bytes, start, i + 1, b0, b1, b2, b3);
        } else if entry + 4 <= bytes.len() {
            assert(first_entry(bytes, start, i, b0, b1, b2, b3));
            assert forall|k: int| #[trigger]
                first_entry(bytes, start, k, b0, b1, b2, b3) implies k == i by {
                if k > i {
                    assert(!tagged(bytes, entry_at(start, i), b0, b1, b2, b3));
                }
                if k < i {
                    assert(!tagged(bytes, entry_at(start, k), b0, b1, b2, b3));
                }
            }
        } else {
            assert forall|k: int| #[trigger]
                first_entry(bytes, start, k, b0, b1, b2, b3) implies entry_at(start, k) + 12
                > bytes.len() by {
                if k < i {
                    assert(!tagged(bytes, entry_at(start, k), b0, b1, b2, b3));
                }
            }
        }
    }
}

proof fn lemma_entry_is_unique(
    bytes: Seq<u8>,
    start: int,
    i: int,
    k: int,
    b0: u8,
    b1: u8,
    b2: u8,
    b3: u8,
)
    requires
        first_entry(bytes, start, i, b0, b1, b2, b3),
        first_entry(bytes, start, k, b0, b1, b2, b3),
    ensures
        i == k,
        !no_entry(bytes, start, b0, b1, b2, b3),
{
    if i < k {
        assert(!tagged(bytes, entry_at(start, i), b0, b1, b2, b3));
    }
    if k < i {
        assert(!tagged(bytes, entry_at(start, k), b0, b1, b2, b3));
    }
    assert(tagged(bytes, entry_at(start, i), b0, b1, b2, b3));
}

/// Looking for a table gives the offset in the first entry with its tag; it finds the table
/// missing where no entry has its tag; and it leaves the file where neither can be read there.
pub proof fn law_first_entry_is_found(
    bytes: Seq<u8>,
    start: int,
    b0: u8,
    b1: u8,
    b2: u8,
    b3: u8,
)
    ensures
        forall|i: int| #[trigger]
            first_entry(bytes, start, i, b0, b1, b2, b3) && entry_at(start, i) + 12 <= bytes.len()
                ==> (scan(bytes, start, 0, b0, b1, b2, b3) matches TableScan::Found(at) && at
                == number32(bytes, entry_at(start, i) + 8)),
        no_entry(bytes, start, b0, b1, b2, b3) <==> scan(
            bytes,
            start,
            0,
            b0,
            b1,
            b2,
            b3,
        ) is Missing,
        scan(bytes, start, 0, b0, b1, b2, b3) !is Outside <==> {
            ||| no_entry(bytes, start, b0, b1, b2, b3)
            ||| exists|i: int| #[trigger]
                first_entry(bytes, start, i, b0, b1, b2, b3) && entry_at(start, i) + 12
                    <= bytes.len()
        },
{
    lemma_scan_from(bytes, start, 0, b0, b1, b2, b3);
    assert forall|i: int, k: int|
        #![trigger first_entry(bytes, start, i, b0, b1, b2, b3), first_entry(
            bytes,
            start,
            k,
            b0,
            b1,
            b2,
            b3,
        )]
        first_entry(bytes, start, i, b0, b1, b2, b3) && first_entry(
            bytes,
            start,
            k,
            b0,
            b1,
            b2,
            b3,
        ) implies i == k && !no_entry(bytes, start, b0, b1, b2, b3) by {
        lemma_entry_is_unique(bytes, start, i, k, b0, b1, b2, b3);
    }
}

/// Whether the file holds what is read of a character map at `at`: its records, and the start
/// of each map that a record for Unicode (platform 0, or platform 3 with encoding 1 or 10)
/// points to, whose offset has to fit in 32 bits.
pub open spec fn holds_char_map(bytes: Seq<u8>, at: int) -> bool {
    let records = number16(bytes, at + 2);
    &&& at + 4 <= bytes.len()
    &&& at + 4 + 8 * records <= bytes.len()
    &&& records > 0 ==> at + 8 * (records - 1) + 4 <= u32::MAX
    &&& forall|i: int|
        #![trigger number32(bytes, at + 4 + 8 * i + 4)]
        0 <= i < records ==> {
            let platform = number16(bytes, at + 4 + 8 * i);
            let encoding = number16(bytes, at + 4 + 8 * i + 2);
            (platform == 0 || (platform == 3 && encoding == 1) || (platform == 3 && encoding
                == 10)) ==> at + number32(bytes, at + 4 + 8 * i + 4) <= u32::MAX
        }
}

proof fn lemma_char_map(bytes: Seq<u8>, at: int)
    requires
        0 <= at <= u32::MAX,
    ensures
        char_map_in_range(bytes, at) <==> holds_char_map(bytes, at),
{
    if holds_char_map(bytes, at) {
        assert forall|i: int|
            0 <= i < number16(bytes, at + 2) && #[trigger] unicode_record(
                bytes,
                at + 4 + 8 * i,
            ) implies at + number32(bytes, at + 8 + 8 * i) <= u32::MAX by {
            assert(at + 8 + 8 * i == at + 4 + 8 * i + 4);
            assert(at + number32(bytes, at + 4 + 8 * i + 4) <= u32::MAX);
        }
    }
    if char_map_in_range(bytes, at) {
        assert forall|i: int|
            #![trigger number32(bytes, at + 4 + 8 * i + 4)]
            0 <= i < number16(bytes, at + 2) implies {
            let platform = number16(bytes, at + 4 + 8 * i);
            let encoding = number16(bytes, at + 4 + 8 * i + 2);
            (platform == 0 || (platform == 3 && encoding == 1) || (platform == 3 && encoding
                == 10)) ==> at + number32(bytes, at + 4 + 8 * i + 4) <= u32::MAX
        } by {
            assert(at + 8 + 8 * i == at + 4 + 8 * i + 4);
            if unicode_record(bytes, at + 4 + 8 * i) {
                assert(at + number32(bytes, at + 8 + 8 * i) <= u32::MAX);
            }
        }
    }
}

/// Whether the file holds what is read of it when the font at `start` is opened. Each table
/// that is looked for has its first entry inside the file, or has none in a directory that
/// lies inside the file. The tables that are read, "cmap", "head" and "maxp", lie inside the
/// file as far as they are read, where their offset is not zero.
pub open spec fn holds_font(bytes: Seq<u8>, start: int) -> bool {
    &&& start + 6 <= bytes.len()
    &&& forall|b0: u8, b1: u8, b2: u8, b3: u8| #[trigger]
        looked_for(b0, b1, b2, b3) ==> {
            ||| no_entry(bytes, start, b0, b1, b2, b3)
            ||| exists|i: int| #[trigger]
                first_entry(bytes, start, i, b0, b1, b2, b3) && entry_at(start, i) + 12
                    <= bytes.len()
        }
    &&& forall|i: int| #[trigger]
        first_entry(bytes, start, i, 0x63, 0x6d, 0x61, 0x70) ==> {
            let at = number32(bytes, entry_at(start, i) + 8);
            at == 0 || holds_char_map(bytes, at)
        }
    &&& forall|i: int| #[trigger]
        first_entry(bytes, start, i, 0x68, 0x65, 0x61, 0x64) ==> {
            let at = number32(bytes, entry_at(start, i) + 8);
            at == 0 || at + 52 <= bytes.len()
        }
    &&& forall|i: int| #[trigger]
        first_entry(bytes, start, i, 0x6d, 0x61, 0x78, 0x70) ==> {
            let at = number32(bytes, entry_at(start, i) + 8);
            at == 0 || at + 6 <= bytes.len()
        }
}

/// Of a table that is read: what is asked of its offset wherever it is found is asked of the
/// offset in its first entry, and the other way round.
proof fn lemma_found_offset(
    bytes: Seq<u8>,
    start: int,
    b0: u8,
    b1: u8,
    b2: u8,
    b3: u8,
    fits: spec_fn(int) -> bool,
)
    requires
        scan(bytes, start, 0, b0, b1, b2, b3) !is Outside,
    ensures
        (scan(bytes, start, 0, b0, b1, b2, b3) matches TableScan::Found(at) ==> fits(at as int))
            <==> (forall|i: int| #[trigger]
            first_entry(bytes, start, i, b0, b1, b2, b3) ==> fits(
                number32(bytes, entry_at(start, i) + 8),
            )),
        scan(bytes, start, 0, b0, b1, b2, b3) matches TableScan::Found(at) ==> at <= u32::MAX,
{
    law_first_entry_is_found(bytes, start, b0, b1, b2, b3);
    if exists|i: int| #[trigger]
        first_entry(bytes, start, i, b0, b1, b2, b3) && entry_at(start, i) + 12 <= bytes.len() {
        let k = choose|i: int| #[trigger]
            first_entry(bytes, start, i, b0, b1, b2, b3) && entry_at(start, i) + 12 <= bytes.len();
        assert forall|i: int| #[trigger]
            first_entry(bytes, start, i, b0, b1, b2, b3) implies i == k by {
            lemma_entry_is_unique(bytes, start, i, k, b0, b1, b2, b3);
        }
    } else {
        assert forall|i: int| #[trigger]
            first_entry(bytes, start, i, b0, b1, b2, b3) implies false by {
            lemma_entry_is_unique(bytes, start, i, i, b0, b1, b2, b3);
        }
    }
}

/// A font is let through exactly where the file holds what is read of it.
pub proof fn law_directory_in_range_is_exact(bytes: Seq<u8>, start: int)
    ensures
        directory_in_range(bytes, start) <==> holds_font(bytes, start),
{
    assert forall|b0: u8, b1: u8, b2: u8, b3: u8| #[trigger]
        looked_for(b0, b1, b2, b3) implies (scan(bytes, start, 0, b0, b1, b2, b3) !is Outside <==> {
        ||| no_entry(bytes, start, b0, b1, b2, b3)
        ||| exists|i: int| #[trigger]
            first_entry(bytes, start, i, b0, b1, b2, b3) && entry_at(start, i) + 12 <= bytes.len()
    }) by {
        law_first_entry_is_found(bytes, start, b0, b1, b2, b3);
    }
    assert(looked_for(0x63, 0x6d, 0x61, 0x70));
    assert(looked_for(0x68, 0x65, 0x61, 0x64));
    assert(looked_for(0x6d, 0x61, 0x78, 0x70));
    assert(looked_for(0x6c, 0x6f, 0x63, 0x61));
    assert(looked_for(0x67, 0x6c, 0x79, 0x66));
    assert(looked_for(0x68, 0x68, 0x65, 0x61));
    assert(looked_for(0x68, 0x6d, 0x74, 0x78));
    assert(looked_for(0x6e, 0x61, 0x6d, 0x65));
    assert(looked_for(0x6b, 0x65, 0x72, 0x6e));
    let char_map = |at: int| at == 0 || holds_char_map(bytes, at);
    let head = |at: int| at == 0 || at + 52 <= bytes.len();
    let maxp = |at: int| at == 0 || at + 6 <= bytes.len();
    if scan(bytes, start, 0, 0x63, 0x6d, 0x61, 0x70) !is Outside {
        lemma_found_offset(bytes, start, 0x63, 0x6d, 0x61, 0x70, char_map);
        if let TableScan::Found(at) = scan(bytes, start, 0, 0x63, 0x6d, 0x61, 0x70) {
            lemma_char_map(bytes, at as int);
        }
    }
    if scan(bytes, start, 0, 0x68, 0x65, 0x61, 0x64) !is Outside {
        lemma_found_offset(bytes, start, 0x68, 0x65, 0x61, 0x64, head);
    }
    if scan(bytes, start, 0, 0x6d, 0x61, 0x78, 0x70) !is Outside {
        lemma_found_offset(bytes, start, 0x6d, 0x61, 0x78, 0x70, maxp);
    }
}

proof fn lemma_first_exists(
    bytes: Seq<u8>,
    start: int,
    i: int,
    b0: u8,
    b1: u8,
    b2: u8,
    b3: u8,
) -> (k: int)
    requires
        0 <= i < number16(bytes, start + 4),
        tagged(bytes, entry_at(start, i), b0, b1, b2, b3),
    ensures
        k <= i,
        first_entry(bytes, start, k, b0, b1, b2, b3),
    decreases i,
{
    if first_entry(bytes, start, i, b0, b1, b2, b3) {
        i
    } else {
        let j = choose|j: int|
            0 <= j < i && tagged(bytes, #[trigger] entry_at(start, j), b0, b1, b2, b3);
        lemma_first_exists(bytes, start, j, b0, b1, b2, b3)
    }
}

/// A font whose directory lies inside the file, and whose "cmap", "head" and "maxp" tables do
/// as far as they are read, is let through, whichever other tables it has and wherever they
/// are.
pub proof fn law_well_formed_font_is_let_through(bytes: Seq<u8>, start: int)
    requires
        0 <= start,
        start + 12 + 16 * number16(bytes, start + 4) <= bytes.len(),
        forall|i: int|
            0 <= i < number16(bytes, start + 4) && #[trigger] tagged(
                bytes,
                start + 12 + 16 * i,
                0x63,
                0x6d,
                0x61,
                0x70,
            ) ==> {
                let at = number32(bytes, start + 12 + 16 * i + 8);
                let records = number16(bytes, at + 2);
                &&& at + 4 + 8 * records <= bytes.len()
                &&& at + 8 * records - 4 <= u32::MAX
                &&& forall|k: int|
                    0 <= k < records ==> at + #[trigger] number32(bytes, at + 4 + 8 * k + 4)
                        <= u32::MAX
            },
        forall|i: int|
            0 <= i < number16(bytes, start + 4) && #[trigger] tagged(
                bytes,
                start + 12 + 16 * i,
                0x68,
                0x65,
                0x61,
                0x64,
            ) ==> number32(bytes, start + 12 + 16 * i + 8) + 52 <= bytes.len(),
        forall|i: int|
            0 <= i < number16(bytes, start + 4) && #[trigger] tagged(
                bytes,
                start + 12 + 16 * i,
                0x6d,
                0x61,
                0x78,
                0x70,
            ) ==> number32(bytes, start + 12 + 16 * i + 8) + 6 <= bytes.len(),
    ensures
        directory_in_range(bytes, start),
        start == 0 && starts_like_font(bytes) ==> font_file_in_range(bytes),
{
    assert forall|b0: u8, b1: u8, b2: u8, b3: u8| #[trigger] looked_for(b0, b1, b2, b3) implies {
        ||| no_entry(bytes, start, b0, b1, b2, b3)
        ||| exists|i: int| #[trigger]
            first_entry(bytes, start, i, b0, b1, b2, b3) && entry_at(start, i) + 12 <= bytes.len()
    } by {
        lemma_scan_from(bytes, start, 0, b0, b1, b2, b3);
        if scan(bytes, start, 0, b0, b1, b2, b3) is Outside {
            let j = choose|j: int|
                0 <= j < number16(bytes, start + 4) && !((#[trigger] entry_at(start, j)) + 4
                    <= bytes.len() && !tagged(bytes, entry_at(start, j), b0, b1, b2, b3));
            let k = lemma_first_exists(bytes, start, j, b0, b1, b2, b3);
            assert(entry_at(start, k) + 12 <= bytes.len());
        }
    }
    law_directory_in_range_is_exact(bytes, start);
}

/// Of a font that is let through, the first entry of each table that is looked for lies inside
/// the file, and so do the tables that are read, as far as they are read, where their offset
/// is not zero.
pub proof fn law_font_let_through_is_inside(
    bytes: Seq<u8>,
    start: int,
    i: int,
    b0: u8,
    b1: u8,
    b2: u8,
    b3: u8,
)
    requires
        directory_in_range(bytes, start),
        looked_for(b0, b1, b2, b3),
        0 <= i < number16(bytes, start + 4),
        tagged(bytes, start + 12 + 16 * i, b0, b1, b2, b3),
        forall|j: int|
            0 <= j < i ==> !#[trigger] tagged(bytes, start + 12 + 16 * j, b0, b1, b2, b3),
        number32(bytes, start + 12 + 16 * i + 8) != 0,
    ensures
        start + 12 + 16 * i + 12 <= bytes.len(),
        seq![b0, b1, b2, b3] == seq![0x68u8, 0x65, 0x61, 0x64] ==> number32(
            bytes,
            start + 12 + 16 * i + 8,
        ) + 52 <= bytes.len(),
        seq![b0, b1, b2, b3] == seq![0x6du8, 0x61, 0x78, 0x70] ==> number32(
            bytes,
            start + 12 + 16 * i + 8,
        ) + 6 <= bytes.len(),
        seq![b0, b1, b2, b3] == seq![0x63u8, 0x6d, 0x61, 0x70] ==> {
            let at = number32(bytes, start + 12 + 16 * i + 8);
            let records = number16(bytes, at + 2);
            &&& at + 4 <= bytes.len()
            &&& at + 4 + 8 * records <= bytes.len()
            &&& forall|k: int|
                0 <= k < records && number16(bytes, at + 4 + 8 * k) == 0 ==> at
                    + #[trigger] number32(bytes, at + 4 + 8 * k + 4) <= u32::MAX
            &&& forall|k: int|
                0 <= k < records && number16(bytes, at + 4 + 8 * k) == 3 && (number16(
                    bytes,
                    at + 4 + 8 * k + 2,
                ) == 1 || number16(bytes, at + 4 + 8 * k + 2) == 10) ==> at + #[trigger] number32(
                    bytes,
                    at + 4 + 8 * k + 4,
                ) <= u32::MAX
        },
{
    law_directory_in_range_is_exact(bytes, start);
    assert(first_entry(bytes, start, i, b0, b1, b2, b3)) by {
        assert forall|j: int| 0 <= j < i implies !tagged(
            bytes,
            #[trigger] entry_at(start, j),
            b0,
            b1,
            b2,
            b3,
        ) by {
            assert(!tagged(bytes, start + 12 + 16 * j, b0, b1, b2, b3));
        }
    }
    lemma_entry_is_unique(bytes, start, i, i, b0, b1, b2, b3);
    let k = choose|k: int| #[trigger]
        first_entry(bytes, start, k, b0, b1, b2, b3) && entry_at(start, k) + 12 <= bytes.len();
    lemma_entry_is_unique(bytes, start, i, k, b0, b1, b2, b3);
    let tag = seq![b0, b1, b2, b3];
    assert(tag[0] == b0 && tag[1] == b1 && tag[2] == b2 && tag[3] == b3);
}

/// A file that starts like a single font is let through exactly where it holds what is read
/// of that font.
pub proof fn law_font_file_is_checked_as_font(bytes: Seq<u8>)
    requires
        4 <= bytes.len(),
        bytes.take(4) == seq![0x31u8, 0, 0, 0] || bytes.take(4) == seq![0x74u8, 0x79, 0x70, 0x31]
            || bytes.take(4) == seq![0x4fu8, 0x54, 0x54, 0x4f] || bytes.take(4) == seq![
            0u8,
            1,
            0,
            0,
        ],
    ensures
        font_file_in_range(bytes) <==> holds_font(bytes, 0),
{
    law_kind_is_told_by_first_bytes(bytes);
    law_directory_in_range_is_exact(bytes, 0);
}

/// A file that starts like a collection is let through exactly where it holds the header as
/// far as it is read, and, where it is a collection of a single font, what is read of that
/// font. Past the version nothing is read of a version that is not known, and past the number
/// of fonts nothing where that number is zero or negative.
pub proof fn law_collection_is_checked_by_its_header(bytes: Seq<u8>)
    requires
        4 <= bytes.len(),
        bytes.take(4) == seq![0x74u8, 0x74, 0x63, 0x66],
    ensures
        bytes.len() < 8 ==> !font_file_in_range(bytes),
        8 <= bytes.len() && number32(bytes, 4) != 0x1_0000 && number32(bytes, 4) != 0x2_0000
            ==> font_file_in_range(bytes),
        8 <= bytes.len() && (number32(bytes, 4) == 0x1_0000 || number32(bytes, 4) == 0x2_0000)
            ==> {
            &&& bytes.len() < 12 ==> !font_file_in_range(bytes)
            &&& 12 <= bytes.len() && number32(bytes, 8) == 1 ==> (font_file_in_range(bytes) <==> 16
                <= bytes.len() && holds_font(bytes, number32(bytes, 12)))
            &&& 12 <= bytes.len() && 2 <= number32(bytes, 8) <= 0x7fff_ffff ==> (font_file_in_range(
                bytes,
            ) <==> 20 <= bytes.len())
            &&& 12 <= bytes.len() && (number32(bytes, 8) == 0 || number32(bytes, 8) > 0x7fff_ffff)
                ==> font_file_in_range(bytes)
        },
{
    law_kind_is_told_by_first_bytes(bytes);
    law_directory_in_range_is_exact(bytes, number32(bytes, 12));
}

/// A file too short to tell what it is, is stopped. One that starts neither like a font nor
/// like a collection is let through: nothing more is read of it.
pub proof fn law_other_files_are_told_by_their_start(bytes: Seq<u8>)
    ensures
        bytes.len() < 4 ==> !font_file_in_range(bytes),
        4 <= bytes.len() && bytes.take(4) != seq![0x31u8, 0, 0, 0] && bytes.take(4) != seq![
            0x74u8,
            0x79,
            0x70,
            0x31,
        ] && bytes.take(4) != seq![0x4fu8, 0x54, 0x54, 0x4f] && bytes.take(4) != seq![0u8, 1, 0, 0]
            && bytes.take(4) != seq![0x74u8, 0x74, 0x63, 0x66] ==> font_file_in_range(bytes),
{
    if 4 <= bytes.len() {
        law_kind_is_told_by_first_bytes(bytes);
    }
}

} // verus!
