use vstd::prelude::*;

verus! {

/// The big-endian number in the two bytes from `at`.
pub open spec fn number16(bytes: Seq<u8>, at: int) -> int {
    bytes[at] * 0x100 + bytes[at + 1]
}

/// The big-endian number in the four bytes from `at`.
pub open spec fn number32(bytes: Seq<u8>, at: int) -> int {
    number16(bytes, at) * 0x1_0000 + number16(bytes, at + 2)
}

/// Whether the four bytes from `at` are these.
pub open spec fn tagged(bytes: Seq<u8>, at: int, b0: u8, b1: u8, b2: u8, b3: u8) -> bool {
    bytes[at] == b0 && bytes[at + 1] == b1 && bytes[at + 2] == b2 && bytes[at + 3] == b3
}

/// Whether the file starts like a single font.
pub open spec fn starts_like_font(bytes: Seq<u8>) -> bool {
    ||| tagged(bytes, 0, 0x31, 0, 0, 0)
    ||| tagged(bytes, 0, 0x74, 0x79, 0x70, 0x31)
    ||| tagged(bytes, 0, 0x4f, 0x54, 0x54, 0x4f)
    ||| tagged(bytes, 0, 0, 1, 0, 0)
}

/// Whether the file starts like a collection of fonts ("ttcf").
pub open spec fn starts_like_collection(bytes: Seq<u8>) -> bool {
    tagged(bytes, 0, 0x74, 0x74, 0x63, 0x66)
}

/// What looking for a table in a directory comes to.
#[derive(Debug, Clone, Copy, PartialEq, Eq, Structural)]
pub enum TableScan {
    /// There is no such table.
    Missing,
    /// The directory runs out of the file before the table is found.
    Outside,
    /// The first table of the tag is at this offset.
    Found(u64),
}

/// What looking for the table of a tag comes to, from entry `i` of the directory of the font
/// at `start`.
pub open spec fn scan(
    bytes: Seq<u8>,
    start: int,
    i: int,
    b0: u8,
    b1: u8,
    b2: u8,
    b3: u8,
) -> TableScan
    decreases number16(bytes, start + 4) - i,
{
    let entry = start + 12 + 16 * i;
    if i >= number16(bytes, start + 4) {
        TableScan::Missing
    } else if entry + 4 > bytes.len() {
        TableScan::Outside
    } else if !tagged(bytes, entry, b0, b1, b2, b3) {
        scan(bytes, start, i + 1, b0, b1, b2, b3)
    } else if entry + 12 > bytes.len() {
        TableScan::Outside
    } else {
        TableScan::Found(number32(bytes, entry + 8) as u64)
    }
}

/// Whether a record of a character map is for Unicode, on its own or in one of the two
/// Microsoft encodings.
pub open spec fn unicode_record(bytes: Seq<u8>, at: int) -> bool {
    let platform = number16(bytes, at);
    let encoding = number16(bytes, at + 2);
    platform == 0 || platform == 3 && (encoding == 1 || encoding == 10)
}

/// Whether a character map at `at` has its records inside the file, and the offset of each
/// record, and the one that a Unicode record points to, fit in 32 bits.
pub open spec fn char_map_in_range(bytes: Seq<u8>, at: int) -> bool {
    &&& at + 4 <= bytes.len()
    &&& at + 4 + 8 * number16(bytes, at + 2) <= bytes.len()
    &&& at + 8 * number16(bytes, at + 2) <= u32::MAX + 4
    &&& forall|i: int|
        0 <= i < number16(bytes, at + 2) && #[trigger] unicode_record(bytes, at + 4 + 8 * i) ==> at
            + number32(bytes, at + 8 + 8 * i) <= u32::MAX
}

/// Whether looking for a table does not leave the file, and where one is found, its first
/// `size` bytes lie inside the file. A table at offset zero counts as missing.
pub open spec fn header_in_range(bytes: Seq<u8>, table: TableScan, size: int) -> bool {
    match table {
        TableScan::Missing => true,
        TableScan::Outside => false,
        TableScan::Found(at) => at == 0 || at + size <= bytes.len(),
    }
}

/// Whether the tables that are looked for when the font at `start` is opened are found, or
/// found missing, without leaving the file, and the parts of them that are read lie inside
/// the file: of "cmap" the records, of "head" and "maxp" a field of the header.
pub open spec fn directory_in_range(bytes: Seq<u8>, start: int) -> bool {
    &&& start + 6 <= bytes.len()
    // cmap
    &&& match scan(bytes, start, 0, 0x63, 0x6d, 0x61, 0x70) {
        TableScan::Missing => true,
        TableScan::Outside => false,
        TableScan::Found(at) => at == 0 || char_map_in_range(bytes, at as int),
    }
    // head, maxp
    &&& header_in_range(bytes, scan(bytes, start, 0, 0x68, 0x65, 0x61, 0x64), 52)
    &&& header_in_range(bytes, scan(bytes, start, 0, 0x6d, 0x61, 0x78, 0x70), 6)
    // loca, glyf, hhea, hmtx, name, kern
    &&& scan(bytes, start, 0, 0x6c, 0x6f, 0x63, 0x61) !is Outside
    &&& scan(bytes, start, 0, 0x67, 0x6c, 0x79, 0x66) !is Outside
    &&& scan(bytes, start, 0, 0x68, 0x68, 0x65, 0x61) !is Outside
    &&& scan(bytes, start, 0, 0x68, 0x6d, 0x74, 0x78) !is Outside
    &&& scan(bytes, start, 0, 0x6e, 0x61, 0x6d, 0x65) !is Outside
    &&& scan(bytes, start, 0, 0x6b, 0x65, 0x72, 0x6e) !is Outside
}

/// Whether a collection has the header that is read of it inside the file, and, where it holds
/// a single font, that font's directory is in range.
pub open spec fn collection_in_range(bytes: Seq<u8>) -> bool {
    &&& 8 <= bytes.len()
    &&& number32(bytes, 4) == 0x1_0000 || number32(bytes, 4) == 0x2_0000 ==> {
        &&& 12 <= bytes.len()
        &&& 1 < number32(bytes, 8) <= i32::MAX ==> 20 <= bytes.len()
        &&& number32(bytes, 8) == 1 ==> 16 <= bytes.len() && directory_in_range(
            bytes,
            number32(bytes, 12),
        )
    }
}

/// A condition under which opening this file as a font reads nothing outside of it.
///
/// It is a sufficient one. Of a file that lacks a table, or that is refused for another reason,
/// it asks for more than is read. A file that opens as a font, without pointing past 32 bits,
/// meets it.
pub open spec fn font_file_in_range(bytes: Seq<u8>) -> bool {
    &&& 4 <= bytes.len()
    &&& starts_like_font(bytes) ==> directory_in_range(bytes, 0)
    &&& starts_like_collection(bytes) ==> collection_in_range(bytes)
}

fn read16(bytes: &[u8], at: usize) -> (r: u64)
    requires
        at + 2 <= bytes@.len(),
    ensures
        r == number16(bytes@, at as int),
        r < 0x1_0000,
{
    bytes[at] as u64 * 0x100 + bytes[at + 1] as u64
}

fn read32(bytes: &[u8], at: usize) -> (r: u64)
    requires
        at + 4 <= bytes@.len(),
    ensures
        r == number32(bytes@, at as int),
        r < 0x1_0000_0000,
{
    assert(bytes@.len() == bytes.len());
    read16(bytes, at) * 0x1_0000 + read16(bytes, at + 2)
}

fn has_tag(bytes: &[u8], at: usize, b0: u8, b1: u8, b2: u8, b3: u8) -> (r: bool)
    requires
        at + 4 <= bytes@.len(),
    ensures
        r == tagged(bytes@, at as int, b0, b1, b2, b3),
{
    bytes[at] == b0 && bytes[at + 1] == b1 && bytes[at + 2] == b2 && bytes[at + 3] == b3
}

fn check_char_map(bytes: &[u8], at: u64) -> (r: bool)
    requires
        at < 0x1_0000_0000,
    ensures
        r == char_map_in_range(bytes@, at as int),
{
    let len: u64 = bytes.len() as u64;
    if len < 4 || at > len - 4 {
        return false;
    }
    let records: u64 = read16(bytes, (at + 2) as usize);
    if at + 4 + 8 * records > len || at + 8 * records > 0x1_0000_0003 {
        return false;
    }
    for i in 0..records
        invariant
            len == bytes@.len(),
            len == bytes.len(),
            at < 0x1_0000_0000,
            records < 0x1_0000,
            records == number16(bytes@, at + 2),
            at + 4 + 8 * records <= len,
            forall|j: int|
                0 <= j < i && #[trigger] unicode_record(bytes@, at + 4 + 8 * j) ==> at + number32(
                    bytes@,
                    at + 8 + 8 * j,
                ) <= u32::MAX,
    {
        let record = (at + 4 + 8 * i) as usize;
        let platform: u64 = read16(bytes, record);
        let encoding: u64 = read16(bytes, record + 2);
        if platform == 0 || platform == 3 && (encoding == 1 || encoding == 10) {
            if at + read32(bytes, record + 4) > 0xffff_ffff {
                assert(unicode_record(bytes@, at + 4 + 8 * (i as int)));
                return false;
            }
        }
    }
    true
}

fn find_table(bytes: &[u8], start: u64, b0: u8, b1: u8, b2: u8, b3: u8) -> (r: TableScan)
    requires
        start < 0x1_0000_0000,
        start + 6 <= bytes@.len(),
    ensures
        r == scan(bytes@, start as int, 0, b0, b1, b2, b3),
        r matches TableScan::Found(at) ==> at < 0x1_0000_0000,
{
    let len: u64 = bytes.len() as u64;
    let tables: u64 = read16(bytes, (start + 4) as usize);
    for i in 0..tables
        invariant
            len == bytes@.len(),
            len == bytes.len(),
            start < 0x1_0000_0000,
            tables < 0x1_0000,
            tables == number16(bytes@, start + 4),
            scan(bytes@, start as int, 0, b0, b1, b2, b3) == scan(
                bytes@,
                start as int,
                i as int,
                b0,
                b1,
                b2,
                b3,
            ),
    {
        let entry: u64 = start + 12 + 16 * i;
        if entry + 4 > len {
            return TableScan::Outside;
        }
        if has_tag(bytes, entry as usize, b0, b1, b2, b3) {
            if entry + 12 > len {
                return TableScan::Outside;
            }
            return TableScan::Found(read32(bytes, (entry + 8) as usize));
        }
    }
    TableScan::Missing
}

fn check_header(bytes: &[u8], table: TableScan, size: u64) -> (r: bool)
    requires
        table matches TableScan::Found(at) ==> at < 0x1_0000_0000,
        size < 0x1_0000,
    ensures
        r == header_in_range(bytes@, table, size as int),
{
    match table {
        TableScan::Missing => true,
        TableScan::Outside => false,
        TableScan::Found(at) => at == 0 || at + size <= bytes.len() as u64,
    }
}

fn check_directory(bytes: &[u8], start: u64) -> (r: bool)
    requires
        start < 0x1_0000_0000,
    ensures
        r == directory_in_range(bytes@, start as int),
{
    if start + 6 > bytes.len() as u64 {
        return false;
    }
    let char_map = match find_table(bytes, start, 0x63, 0x6d, 0x61, 0x70) {
        TableScan::Missing => true,
        TableScan::Outside => false,
        TableScan::Found(at) => at == 0 || check_char_map(bytes, at),
    };
    let head = find_table(bytes, start, 0x68, 0x65, 0x61, 0x64);
    let maxp = find_table(bytes, start, 0x6d, 0x61, 0x78, 0x70);
    char_map && check_header(bytes, head, 52) && check_header(bytes, maxp, 6)
        && find_table(bytes, start, 0x6c, 0x6f, 0x63, 0x61) != TableScan::Outside
        && find_table(bytes, start, 0x67, 0x6c, 0x79, 0x66) != TableScan::Outside
        && find_table(bytes, start, 0x68, 0x68, 0x65, 0x61) != TableScan::Outside
        && find_table(bytes, start, 0x68, 0x6d, 0x74, 0x78) != TableScan::Outside
        && find_table(bytes, start, 0x6e, 0x61, 0x6d, 0x65) != TableScan::Outside
        && find_table(bytes, start, 0x6b, 0x65, 0x72, 0x6e) != TableScan::Outside
}

fn check_collection(bytes: &[u8]) -> (r: bool)
    ensures
        r == collection_in_range(bytes@),
{
    let len = bytes.len();
    if len < 8 {
        return false;
    }
    let version: u64 = read32(bytes, 4);
    if version != 0x1_0000 && version != 0x2_0000 {
        return true;
    }
    if len < 12 {
        return false;
    }
    let fonts: u64 = read32(bytes, 8);
    if fonts == 1 {
        len >= 16 && check_directory(bytes, read32(bytes, 12))
    } else if fonts > 1 && fonts <= 0x7fff_ffff {
        len >= 20
    } else {
        true
    }
}

/// Whether the file meets the condition under which it can be opened as a font.
pub fn check_font_file(bytes: &[u8]) -> (r: bool)
    ensures
        r == font_file_in_range(bytes@),
{
    if bytes.len() < 4 {
        return false;
    }
    if has_tag(bytes, 0, 0x31, 0, 0, 0) || has_tag(bytes, 0, 0x74, 0x79, 0x70, 0x31) || has_tag(
        bytes,
        0,
        0x4f,
        0x54,
        0x54,
        0x4f,
    ) || has_tag(bytes, 0, 0, 1, 0, 0) {
        check_directory(bytes, 0)
    } else if has_tag(bytes, 0, 0x74, 0x74, 0x63, 0x66) {
        check_collection(bytes)
    } else {
        true
    }
}

} // verus!
