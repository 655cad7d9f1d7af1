use vstd::prelude::*;
use crate::records::{u16_at, u32_at, read_u16, read_u32, RecordSpan};

verus! {

pub const S_SKIP: u16 = 0x0007;
pub const S_ALIGN: u16 = 0x0402;
pub const S_LDATA32_ST: u16 = 0x1007;
pub const S_GDATA32_ST: u16 = 0x1008;
pub const S_PUB32_ST: u16 = 0x1009;
pub const S_LPROC32_ST: u16 = 0x100a;
pub const S_GPROC32_ST: u16 = 0x100b;
pub const S_LMANDATA_ST: u16 = 0x1020;
pub const S_GMANDATA_ST: u16 = 0x1021;
pub const S_LDATA32: u16 = 0x110c;
pub const S_GDATA32: u16 = 0x110d;
pub const S_PUB32: u16 = 0x110e;
pub const S_LPROC32: u16 = 0x110f;
pub const S_GPROC32: u16 = 0x1110;
pub const S_LMANDATA: u16 = 0x111c;
pub const S_GMANDATA: u16 = 0x111d;
pub const S_LPROC32_ID: u16 = 0x1146;
pub const S_GPROC32_ID: u16 = 0x1147;
pub const S_LPROC32_DPC: u16 = 0x1155;
pub const S_LPROC32_DPC_ID: u16 = 0x1156;

/// Kinds below this one carry a name prefixed by its 8-bit length; the others a
/// zero-terminated name.
pub const S_ST_MAX: u16 = 0x1100;

/// Kinds of public symbol records.
pub open spec fn is_public_kind(k: int) -> bool {
    k == S_PUB32 || k == S_PUB32_ST
}

/// Kinds of data symbol records, global, module-local and managed.
pub open spec fn is_data_kind(k: int) -> bool {
    k == S_LDATA32 || k == S_GDATA32 || k == S_LDATA32_ST || k == S_GDATA32_ST || k == S_LMANDATA
        || k == S_GMANDATA || k == S_LMANDATA_ST || k == S_GMANDATA_ST
}

/// Kinds of procedure symbol records.
pub open spec fn is_procedure_kind(k: int) -> bool {
    k == S_LPROC32 || k == S_GPROC32 || k == S_LPROC32_ST || k == S_GPROC32_ST || k == S_LPROC32_ID
        || k == S_GPROC32_ID || k == S_LPROC32_DPC || k == S_LPROC32_DPC_ID
}

/// Whether `k` is a public, data or procedure kind.
pub fn kind_class(k: u16) -> (r: (bool, bool, bool))
    ensures
        r.0 == is_public_kind(k as int),
        r.1 == is_data_kind(k as int),
        r.2 == is_procedure_kind(k as int),
{
    (
        k == S_PUB32 || k == S_PUB32_ST,
        k == S_LDATA32 || k == S_GDATA32 || k == S_LDATA32_ST || k == S_GDATA32_ST || k == S_LMANDATA
            || k == S_GMANDATA || k == S_LMANDATA_ST || k == S_GMANDATA_ST,
        k == S_LPROC32 || k == S_GPROC32 || k == S_LPROC32_ST || k == S_GPROC32_ST || k
            == S_LPROC32_ID || k == S_GPROC32_ID || k == S_LPROC32_DPC || k == S_LPROC32_DPC_ID,
    )
}

/// The string at `p` prefixed by its 8-bit length, which must end by `end`.
pub open spec fn pascal_spec(s: Seq<u8>, p: int, end: int) -> Option<Seq<u8>> {
    if p < end && p + 1 + s[p] <= end {
        Some(s.subrange(p + 1, p + 1 + s[p]))
    } else {
        None
    }
}

/// The name at `p`, ending before `end`, of a record of kind `kind`: length-prefixed for the
/// older kinds, zero-terminated for the others.
pub open spec fn name_spec(s: Seq<u8>, p: int, end: int, kind: int) -> Option<Seq<u8>> {
    if kind < S_ST_MAX {
        pascal_spec(s, p, end)
    } else {
        cstr_spec(s, p, end)
    }
}

/// Position of the first zero byte of `s` in `[p, end)`, or `end` when there is none.
pub open spec fn first_nul(s: Seq<u8>, p: int, end: int) -> int
    decreases end - p,
{
    if p >= end {
        end
    } else if s[p] == 0 {
        p
    } else {
        first_nul(s, p + 1, end)
    }
}

pub proof fn lemma_first_nul_bounds(s: Seq<u8>, p: int, end: int)
    requires
        p <= end,
    ensures
        p <= first_nul(s, p, end) <= end,
    decreases end - p,
{
    if p < end && s[p] != 0 {
        lemma_first_nul_bounds(s, p + 1, end);
    }
}

/// The zero-terminated string at `p` that ends before `end`; `None` when it has no terminator.
pub open spec fn cstr_spec(s: Seq<u8>, p: int, end: int) -> Option<Seq<u8>> {
    if p <= end && first_nul(s, p, end) < end {
        Some(s.subrange(p, first_nul(s, p, end)))
    } else {
        None
    }
}

/// A decoded symbol record.
#[derive(Clone, Debug, PartialEq, Eq)]
pub enum SymbolData {
    /// An externally visible function or datum.
    Public { section: u16, offset: u32, name: Vec<u8> },
    /// A function body.
    Procedure { section: u16, offset: u32, code_len: u32, name: Vec<u8> },
    /// A global or static variable.
    Data { section: u16, offset: u32, name: Vec<u8> },
    /// A kind that is kept as it is: its kind and the bytes after it.
    Other { kind: u16, payload: Vec<u8> },
}

/// The decoded form of a symbol record, over plain values.
pub ghost enum SymbolModel {
    Public { section: u16, offset: u32, name: Seq<u8> },
    Procedure { section: u16, offset: u32, code_len: u32, name: Seq<u8> },
    Data { section: u16, offset: u32, name: Seq<u8> },
    Other { kind: u16, payload: Seq<u8> },
}

impl SymbolData {
    pub open spec fn view(self) -> SymbolModel {
        match self {
            SymbolData::Public { section, offset, name } => SymbolModel::Public {
                section,
                offset,
                name: name@,
            },
            SymbolData::Procedure { section, offset, code_len, name } => SymbolModel::Procedure {
                section,
                offset,
                code_len,
                name: name@,
            },
            SymbolData::Data { section, offset, name } => SymbolModel::Data {
                section,
                offset,
                name: name@,
            },
            SymbolData::Other { kind, payload } => SymbolModel::Other { kind, payload: payload@ },
        }
    }
}

/// The symbol record whose length prefix is at `start` and whose length is `len`: its kind
/// at `start + 2`, its fields after that. `None` when the fields do not fit in the record.
pub open spec fn symbol_spec(s: Seq<u8>, start: int, len: int) -> Option<SymbolModel> {
    let kind = u16_at(s, start + 2);
    let body = start + 4;
    let end = start + 2 + len;
    if is_public_kind(kind) || is_data_kind(kind) {
        if body + 10 > end {
            None
        } else {
            match name_spec(s, body + 10, end, kind) {
                Some(name) => Some(
                    if is_public_kind(kind) {
                        SymbolModel::Public {
                            section: u16_at(s, body + 8) as u16,
                            offset: u32_at(s, body + 4) as u32,
                            name,
                        }
                    } else {
                        SymbolModel::Data {
                            section: u16_at(s, body + 8) as u16,
                            offset: u32_at(s, body + 4) as u32,
                            name,
                        }
                    },
                ),
                None => None,
            }
        }
    } else if is_procedure_kind(kind) {
        if body + 35 > end {
            None
        } else {
            match name_spec(s, body + 35, end, kind) {
                Some(name) => Some(
                    SymbolModel::Procedure {
                        section: u16_at(s, body + 32) as u16,
                        offset: u32_at(s, body + 28) as u32,
                        code_len: u32_at(s, body + 12) as u32,
                        name,
                    },
                ),
                None => None,
            }
        }
    } else {
        Some(SymbolModel::Other { kind: kind as u16, payload: s.subrange(body, end) })
    }
}

/// The payload of one symbol record does not hold what its kind calls for.
#[derive(Clone, Copy, Debug, PartialEq, Eq)]
pub struct MalformedRecord {
    pub at: usize,
}

/// Reads the zero-terminated string at `p`, which must end before `end`.
pub fn read_cstr(s: &Vec<u8>, p: usize, end: usize) -> (r: Option<Vec<u8>>)
    requires
        p <= end <= s@.len(),
    ensures
        r matches Some(v) ==> cstr_spec(s@, p as int, end as int) == Some(v@),
        r is None <==> cstr_spec(s@, p as int, end as int) is None,
{
    let mut q: usize = p;
    while q < end && s[q] != 0
        invariant
            p <= q <= end <= s@.len(),
            first_nul(s@, p as int, end as int) == first_nul(s@, q as int, end as int),
        decreases end - q,
    {
        q = q + 1;
    }
    if q == end {
        return None;
    }
    let mut out: Vec<u8> = Vec::new();
    let mut k: usize = p;
    while k < q
        invariant
            p <= k <= q < end <= s@.len(),
            out@ =~= s@.subrange(p as int, k as int),
        decreases q - k,
    {
        out.push(s[k]);
        k = k + 1;
    }
    Some(out)
}

/// Reads the string at `p` prefixed by its 8-bit length, which must end by `end`.
pub fn read_pascal(s: &Vec<u8>, p: usize, end: usize) -> (r: Option<Vec<u8>>)
    requires
        p <= end <= s@.len(),
    ensures
        r matches Some(v) ==> pascal_spec(s@, p as int, end as int) == Some(v@),
        r is None <==> pascal_spec(s@, p as int, end as int) is None,
{
    if p == end {
        return None;
    }
    let n = s[p] as usize;
    if end - p - 1 < n {
        return None;
    }
    let mut out: Vec<u8> = Vec::new();
    let mut k: usize = p + 1;
    while k < p + 1 + n
        invariant
            p + 1 <= k <= p + 1 + n <= end <= s@.len(),
            out@ =~= s@.subrange(p + 1, k as int),
        decreases p + 1 + n - k,
    {
        out.push(s[k]);
        k = k + 1;
    }
    Some(out)
}

/// Reads the name at `p`, ending before `end`, of a record of kind `kind`.
pub fn read_name(s: &Vec<u8>, p: usize, end: usize, kind: u16) -> (r: Option<Vec<u8>>)
    requires
        p <= end <= s@.len(),
    ensures
        r matches Some(v) ==> name_spec(s@, p as int, end as int, kind as int) == Some(v@),
        r is None <==> name_spec(s@, p as int, end as int, kind as int) is None,
{
    if kind < S_ST_MAX {
        read_pascal(s, p, end)
    } else {
        read_cstr(s, p, end)
    }
}

/// Decodes the symbol record at `span`. A record whose payload does not fit its kind gives
/// an error for that record alone.
pub fn decode_symbol(s: &Vec<u8>, span: RecordSpan) -> (r: Result<SymbolData, MalformedRecord>)
    requires
        span.len >= 2,
        span.start + 2 + span.len <= s.len(),
    ensures
        r matches Ok(d) ==> symbol_spec(s@, span.start as int, span.len as int) == Some(d@),
        r is Err <==> symbol_spec(s@, span.start as int, span.len as int) is None,
{
    let kind = read_u16(s, span.start + 2);
    let body = span.start + 4;
    let end = span.start + 2 + span.len;
    let (public, data, procedure) = kind_class(kind);
    if public || data {
        if end - body < 10 {
            return Err(MalformedRecord { at: span.start });
        }
        let name = match read_name(s, body + 10, end, kind) {
            Some(n) => n,
            None => return Err(MalformedRecord { at: span.start }),
        };
        let section = read_u16(s, body + 8);
        let offset = read_u32(s, body + 4);
        if public {
            Ok(SymbolData::Public { section, offset, name })
        } else {
            Ok(SymbolData::Data { section, offset, name })
        }
    } else if procedure {
        if end - body < 35 {
            return Err(MalformedRecord { at: span.start });
        }
        let name = match read_name(s, body + 35, end, kind) {
            Some(n) => n,
            None => return Err(MalformedRecord { at: span.start }),
        };
        Ok(
            SymbolData::Procedure {
                section: read_u16(s, body + 32),
                offset: read_u32(s, body + 28),
                code_len: read_u32(s, body + 12),
                name,
            },
        )
    } else {
        let mut payload: Vec<u8> = Vec::new();
        let mut k: usize = body;
        while k < end
            invariant
                body <= k <= end <= s@.len(),
                payload@ =~= s@.subrange(body as int, k as int),
            decreases end - k,
        {
            payload.push(s[k]);
            k = k + 1;
        }
        Ok(SymbolData::Other { kind, payload })
    }
}

} // verus!
