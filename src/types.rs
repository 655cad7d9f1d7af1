use vstd::prelude::*;
use crate::records::{u16_at, u32_at, scan_spec, scan_error, scan_prefix, spans_view, read_u16, read_u32, scan_records_prefix, lemma_prefix_contiguous, RecordSpan, ScanError};
use crate::symbols::{cstr_spec, pascal_spec, read_cstr, read_pascal};

verus! {

/// Size of the fixed part of the type stream's header.
pub const TPI_HEADER_SIZE: u32 = 56;

pub const LF_CLASS_ST: u16 = 0x1004;
pub const LF_STRUCTURE_ST: u16 = 0x1005;
pub const LF_UNION_ST: u16 = 0x1006;
pub const LF_ENUM_ST: u16 = 0x1007;

/// Kinds below this one carry names prefixed by their 8-bit length.
pub const LF_ST_MAX: u16 = 0x1500;

pub const LF_CLASS: u16 = 0x1504;
pub const LF_STRUCTURE: u16 = 0x1505;
pub const LF_UNION: u16 = 0x1506;
pub const LF_ENUM: u16 = 0x1507;

pub const LF_MODIFIER: u16 = 0x1001;
pub const LF_POINTER: u16 = 0x1002;
pub const LF_PROCEDURE: u16 = 0x1008;
pub const LF_ARRAY: u16 = 0x1503;

/// The decoded fields of a type record.
#[derive(Clone, Copy, Debug, PartialEq, Eq)]
pub enum TypeData {
    /// A type with `const`, `volatile` or `unaligned` added.
    Modifier { underlying: u32, attributes: u16 },
    /// A pointer to `underlying`.
    Pointer { underlying: u32, attributes: u32 },
    /// A procedure signature.
    Procedure { return_type: u32, calling_convention: u8, attributes: u8, parameter_count: u16, argument_list: u32 },
    /// An array of `element_type`, indexed by `index_type`.
    Array { element_type: u32, index_type: u32 },
    /// A class or structure with `count` members, listed in `fields`.
    Class { count: u16, fields: u32 },
    /// A union with `count` members, listed in `fields`.
    Union { count: u16, fields: u32 },
    /// An enum with `count` enumerators over `underlying`, listed in `fields`.
    Enum { count: u16, underlying: u32, fields: u32 },
    /// A record of one of those kinds too short for its fields.
    Malformed,
    /// A record of another kind, kept as its kind.
    Raw { kind: u16 },
}

/// The decoded fields of the type record at `start` with length `len`.
pub open spec fn type_data_spec(s: Seq<u8>, start: int, len: int) -> TypeData {
    let kind = u16_at(s, start + 2);
    let b = start + 4;
    let room = len - 2;
    if kind == LF_MODIFIER {
        if room < 6 {
            TypeData::Malformed
        } else {
            TypeData::Modifier { underlying: u32_at(s, b) as u32, attributes: u16_at(s, b + 4) as u16 }
        }
    } else if kind == LF_POINTER {
        if room < 8 {
            TypeData::Malformed
        } else {
            TypeData::Pointer { underlying: u32_at(s, b) as u32, attributes: u32_at(s, b + 4) as u32 }
        }
    } else if kind == LF_PROCEDURE {
        if room < 12 {
            TypeData::Malformed
        } else {
            TypeData::Procedure {
                return_type: u32_at(s, b) as u32,
                calling_convention: s[b + 4],
                attributes: s[b + 5],
                parameter_count: u16_at(s, b + 6) as u16,
                argument_list: u32_at(s, b + 8) as u32,
            }
        }
    } else if kind == LF_ARRAY {
        if room < 8 {
            TypeData::Malformed
        } else {
            TypeData::Array { element_type: u32_at(s, b) as u32, index_type: u32_at(s, b + 4) as u32 }
        }
    } else if is_class_kind(kind) || is_union_kind(kind) {
        if room < 8 {
            TypeData::Malformed
        } else if is_union_kind(kind) {
            TypeData::Union { count: u16_at(s, b) as u16, fields: u32_at(s, b + 4) as u32 }
        } else {
            TypeData::Class { count: u16_at(s, b) as u16, fields: u32_at(s, b + 4) as u32 }
        }
    } else if is_enum_kind(kind) {
        if room < 12 {
            TypeData::Malformed
        } else {
            TypeData::Enum {
                count: u16_at(s, b) as u16,
                underlying: u32_at(s, b + 4) as u32,
                fields: u32_at(s, b + 8) as u32,
            }
        }
    } else {
        TypeData::Raw { kind: kind as u16 }
    }
}

/// Decodes the fields of the type record at `span`.
pub fn decode_type(s: &Vec<u8>, span: RecordSpan) -> (r: TypeData)
    requires
        span.len >= 2,
        span.start + 2 + span.len <= s.len(),
    ensures
        r == type_data_spec(s@, span.start as int, span.len as int),
{
    let kind = read_u16(s, span.start + 2);
    let b = span.start + 4;
    let room = span.len - 2;
    if kind == LF_MODIFIER {
        if room < 6 {
            TypeData::Malformed
        } else {
            TypeData::Modifier { underlying: read_u32(s, b), attributes: read_u16(s, b + 4) }
        }
    } else if kind == LF_POINTER {
        if room < 8 {
            TypeData::Malformed
        } else {
            TypeData::Pointer { underlying: read_u32(s, b), attributes: read_u32(s, b + 4) }
        }
    } else if kind == LF_PROCEDURE {
        if room < 12 {
            TypeData::Malformed
        } else {
            TypeData::Procedure {
                return_type: read_u32(s, b),
                calling_convention: s[b + 4],
                attributes: s[b + 5],
                parameter_count: read_u16(s, b + 6),
                argument_list: read_u32(s, b + 8),
            }
        }
    } else if kind == LF_ARRAY {
        if room < 8 {
            TypeData::Malformed
        } else {
            TypeData::Array { element_type: read_u32(s, b), index_type: read_u32(s, b + 4) }
        }
    } else if kind == LF_CLASS || kind == LF_STRUCTURE || kind == LF_CLASS_ST || kind == LF_STRUCTURE_ST
        || kind == LF_UNION || kind == LF_UNION_ST {
        if room < 8 {
            TypeData::Malformed
        } else if kind == LF_UNION || kind == LF_UNION_ST {
            TypeData::Union { count: read_u16(s, b), fields: read_u32(s, b + 4) }
        } else {
            TypeData::Class { count: read_u16(s, b), fields: read_u32(s, b + 4) }
        }
    } else if kind == LF_ENUM || kind == LF_ENUM_ST {
        if room < 12 {
            TypeData::Malformed
        } else {
            TypeData::Enum { count: read_u16(s, b), underlying: read_u32(s, b + 4), fields: read_u32(s, b + 8) }
        }
    } else {
        TypeData::Raw { kind }
    }
}

/// Width in bytes of the numeric leaf whose first 16 bits are `v`; 0 for a leaf not known here.
pub open spec fn numeric_width(v: int) -> int {
    if v < 0x8000 {
        2
    } else if v == 0x8000 {
        3
    } else if v == 0x8001 || v == 0x8002 {
        4
    } else if v == 0x8003 || v == 0x8004 {
        6
    } else if v == 0x8009 || v == 0x800a {
        10
    } else {
        0
    }
}

/// Kinds of enum records.
pub open spec fn is_enum_kind(k: int) -> bool {
    k == LF_ENUM || k == LF_ENUM_ST
}

/// Kinds of union records.
pub open spec fn is_union_kind(k: int) -> bool {
    k == LF_UNION || k == LF_UNION_ST
}

/// Kinds of class and structure records.
pub open spec fn is_class_kind(k: int) -> bool {
    k == LF_CLASS || k == LF_STRUCTURE || k == LF_CLASS_ST || k == LF_STRUCTURE_ST
}

/// Where the name of a named type record starts, for one that is at `start` with length `len`.
pub open spec fn name_pos_spec(s: Seq<u8>, start: int, len: int) -> Option<int> {
    let kind = u16_at(s, start + 2);
    let body = start + 4;
    let end = start + 2 + len;
    if is_enum_kind(kind) {
        Some(body + 12)
    } else if is_class_kind(kind) || is_union_kind(kind) {
        let at = if is_union_kind(kind) { body + 8 } else { body + 16 };
        if at + 2 > end || numeric_width(u16_at(s, at)) == 0 {
            None
        } else {
            Some(at + numeric_width(u16_at(s, at)))
        }
    } else {
        None
    }
}

/// The printable name of the type record at `start` with length `len`: structures, classes,
/// unions and enums carry one; `None` for other kinds, or when it does not fit in the record.
/// The older kinds (below `LF_ST_MAX`) prefix the name by its 8-bit length. The newer kinds
/// end it with a zero byte; a name of theirs with no zero byte before the record's end is
/// read as length-prefixed.
pub open spec fn type_name_spec(s: Seq<u8>, start: int, len: int) -> Option<Seq<u8>> {
    let end = start + 2 + len;
    match name_pos_spec(s, start, len) {
        Some(p) => if p > end {
            None
        } else if u16_at(s, start + 2) < LF_ST_MAX {
            pascal_spec(s, p, end)
        } else {
            match cstr_spec(s, p, end) {
                Some(n) => Some(n),
                None => pascal_spec(s, p, end),
            }
        },
        None => None,
    }
}

/// One type record of a dump.
#[derive(Clone, Debug, PartialEq, Eq)]
pub struct TypeLine {
    /// Its type index.
    pub index: u64,
    /// Its kind.
    pub kind: u16,
    /// Where its length prefix stands in the stream.
    pub offset: usize,
    /// Its length, kind included.
    pub len: usize,
    /// Its name, when its kind has one.
    pub name: Option<Vec<u8>>,
    /// Its decoded fields.
    pub data: TypeData,
}

/// Why the type stream could not be dumped.
#[derive(Clone, Copy, Debug, PartialEq, Eq)]
pub enum TypeError {
    /// The stream is shorter than its fixed header.
    TruncatedHeader,
    /// The header gives a header size below the fixed one or past the stream's end.
    BadHeaderSize,
    /// The first type index is below the first one left after the built-in types, or the
    /// index past the last is below it.
    BadIndexRange,
}

/// A dump of the type stream: the lines of the records up to the first one that cannot be
/// read, and the error that one gives.
#[derive(Clone, Debug, PartialEq, Eq)]
pub struct TypeDump {
    pub lines: Vec<TypeLine>,
    pub error: Option<ScanError>,
}

/// Where the records of the type stream `s` start: its declared header size.
pub open spec fn records_start(s: Seq<u8>) -> int {
    u32_at(s, 4)
}

/// The first type index of the type stream `s`.
pub open spec fn first_index(s: Seq<u8>) -> int {
    u32_at(s, 8)
}

/// Type indices below this one stand for built-in types, which have no record.
pub const FIRST_RECORD_INDEX: u32 = 0x1000;

/// The header of the type stream `s` gives a range of type indices that records can have.
pub open spec fn index_range_ok(s: Seq<u8>) -> bool {
    first_index(s) >= FIRST_RECORD_INDEX && u32_at(s, 12) >= first_index(s)
}

/// The header of the type stream `s` is whole and gives a usable header size.
pub open spec fn header_ok(s: Seq<u8>) -> bool {
    &&& s.len() >= TPI_HEADER_SIZE
    &&& TPI_HEADER_SIZE <= records_start(s) <= s.len()
}

/// `line` is the dump of record number `i` of the type stream `s`.
pub open spec fn type_line_spec(line: TypeLine, s: Seq<u8>, i: int) -> bool {
    let r = scan_prefix(s, records_start(s))[i];
    &&& line.index == first_index(s) + i
    &&& line.kind == u16_at(s, r.0 + 2)
    &&& line.offset == r.0
    &&& line.len == r.1
    &&& line.data == type_data_spec(s, r.0, r.1)
    &&& match type_name_spec(s, r.0, r.1) {
        Some(n) => line.name matches Some(v) && v@ == n,
        None => line.name is None,
    }
}

/// `d` dumps the type stream `s`: one line per record, in stream order, up to the first
/// record that cannot be read, and the error that one gives.
pub open spec fn type_dump_spec(d: TypeDump, s: Seq<u8>) -> bool {
    &&& header_ok(s)
    &&& index_range_ok(s)
    &&& d.lines@.len() == scan_prefix(s, records_start(s)).len()
    &&& forall|i: int| 0 <= i < d.lines@.len() ==> #[trigger] type_line_spec(d.lines@[i], s, i)
    &&& (d.error is None <==> scan_spec(s, records_start(s)) is Some)
    &&& d.error matches Some(e) ==> e == scan_error(s, records_start(s))
}

/// The error a type stream `s` whose header cannot be read gives.
pub open spec fn type_header_error(s: Seq<u8>) -> TypeError {
    if s.len() < TPI_HEADER_SIZE {
        TypeError::TruncatedHeader
    } else if !header_ok(s) {
        TypeError::BadHeaderSize
    } else {
        TypeError::BadIndexRange
    }
}

/// The header of the type stream `s` can be read.
pub open spec fn types_ok(s: Seq<u8>) -> bool {
    header_ok(s) && index_range_ok(s)
}

/// The name of the type record at `span`, when its kind carries one.
pub fn record_name(s: &Vec<u8>, span: RecordSpan) -> (r: Option<Vec<u8>>)
    requires
        span.len >= 2,
        span.start + 2 + span.len <= s.len(),
    ensures
        r matches Some(v) ==> type_name_spec(s@, span.start as int, span.len as int) == Some(v@),
        r is None <==> type_name_spec(s@, span.start as int, span.len as int) is None,
{
    let kind = read_u16(s, span.start + 2);
    let body = span.start + 4;
    let end = span.start + 2 + span.len;
    let room = end - body;
    let p: usize;
    let is_enum = kind == LF_ENUM || kind == LF_ENUM_ST;
    let is_union = kind == LF_UNION || kind == LF_UNION_ST;
    let is_class = kind == LF_CLASS || kind == LF_STRUCTURE || kind == LF_CLASS_ST || kind == LF_STRUCTURE_ST;
    if is_enum {
        if room < 12 {
            return None;
        }
        p = body + 12;
    } else if is_class || is_union {
        let off: usize = if is_union { 8 } else { 16 };
        if room < off + 2 {
            return None;
        }
        let at = body + off;
        let v = read_u16(s, at);
        let w: usize = if v < 0x8000 {
            2
        } else if v == 0x8000 {
            3
        } else if v == 0x8001 || v == 0x8002 {
            4
        } else if v == 0x8003 || v == 0x8004 {
            6
        } else if v == 0x8009 || v == 0x800a {
            10
        } else {
            0
        };
        if w == 0 || end - at < w {
            return None;
        }
        p = at + w;
    } else {
        return None;
    }
    if kind < LF_ST_MAX {
        read_pascal(s, p, end)
    } else {
        match read_cstr(s, p, end) {
            Some(n) => Some(n),
            None => read_pascal(s, p, end),
        }
    }
}

/// Dumps the type stream `s`: one line per record, in stream order, numbered from the
/// stream's first type index, whatever the record's kind. Where a record cannot be read, the
/// lines of the records before it are kept and the error is given beside them.
pub fn dump_types(s: &Vec<u8>) -> (r: Result<TypeDump, TypeError>)
    ensures
        r matches Err(TypeError::TruncatedHeader) <==> s@.len() < TPI_HEADER_SIZE,
        r matches Err(TypeError::BadHeaderSize) <==> (s@.len() >= TPI_HEADER_SIZE && !header_ok(s@)),
        r matches Err(TypeError::BadIndexRange) <==> (header_ok(s@) && !index_range_ok(s@)),
        r matches Err(e) ==> e == type_header_error(s@),
        r matches Ok(d) ==> type_dump_spec(d, s@),
        r matches Ok(d) ==> forall|i: int| 0 <= i < d.lines@.len() ==> (#[trigger] d.lines@[i]).index >= FIRST_RECORD_INDEX,
{
    if s.len() < TPI_HEADER_SIZE as usize {
        return Err(TypeError::TruncatedHeader);
    }
    let header_size = read_u32(s, 4);
    if header_size < TPI_HEADER_SIZE || header_size as usize > s.len() {
        return Err(TypeError::BadHeaderSize);
    }
    let first = read_u32(s, 8);
    if first < FIRST_RECORD_INDEX || read_u32(s, 12) < first {
        return Err(TypeError::BadIndexRange);
    }
    let start = header_size as usize;
    let (spans, error) = scan_records_prefix(s, start);
    let ghost sp = scan_prefix(s@, start as int);
    let n = s.len();
    let mut out: Vec<TypeLine> = Vec::new();
    let mut i: usize = 0;
    while i < spans.len()
        invariant
            0 <= i <= spans@.len(),
            n == s@.len(),
            sp == spans_view(spans@),
            start == records_start(s@),
            first == first_index(s@),
            scan_prefix(s@, start as int) == sp,
            out@.len() == i,
            forall|j: int| 0 <= j < i ==> #[trigger] type_line_spec(out@[j], s@, j),
        decreases spans@.len() - i,
    {
        proof {
            lemma_prefix_contiguous(s@, start as int, i as int);
        }
        let span = spans[i];
        assert(4 * i <= span.start);
        let line = TypeLine {
            index: first as u64 + i as u64,
            kind: read_u16(s, span.start + 2),
            offset: span.start,
            len: span.len,
            name: record_name(s, span),
            data: decode_type(s, span),
        };
        out.push(line);
        i = i + 1;
    }
    assert forall|j: int| 0 <= j < out@.len() implies (#[trigger] out@[j]).index >= FIRST_RECORD_INDEX by {
        assert(type_line_spec(out@[j], s@, j));
    }
    Ok(TypeDump { lines: out, error })
}

/// Finds the line of type index `index` in a type dump; `None` when no record has it.
pub fn find_type(lines: &Vec<TypeLine>, index: u64) -> (r: Option<usize>)
    ensures
        r matches Some(k) ==> k < lines@.len() && lines@[k as int].index == index,
        r is None <==> forall|k: int| 0 <= k < lines@.len() ==> (#[trigger] lines@[k]).index != index,
{
    if lines.len() == 0 {
        return None;
    }
    let first = lines[0].index;
    if index >= first && index - first < lines.len() as u64 {
        let k = (index - first) as usize;
        if lines[k].index == index {
            return Some(k);
        }
    }
    let mut k: usize = 0;
    while k < lines.len()
        invariant
            k <= lines@.len(),
            forall|j: int| 0 <= j < k ==> (#[trigger] lines@[j]).index != index,
        decreases lines@.len() - k,
    {
        if lines[k].index == index {
            return Some(k);
        }
        k = k + 1;
    }
    None
}

} // verus!
