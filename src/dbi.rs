use vstd::prelude::*;
use crate::records::{u16_at, u32_at, read_u16, read_u32};
use crate::symbols::{cstr_spec, first_nul, read_cstr, lemma_first_nul_bounds};

verus! {

/// Size of the fixed header of the debug information stream.
pub const DBI_HEADER_SIZE: usize = 64;

/// Size of the fixed part of a module descriptor.
pub const MODULE_FIXED_SIZE: usize = 64;

/// Stream number that stands for "no stream".
pub const NO_STREAM: u16 = 0xffff;

/// The fields of the debug information header that a dump needs.
#[derive(Clone, Copy, Debug, PartialEq, Eq)]
pub struct DbiHeader {
    /// Stream of the global symbol records.
    pub symbol_records_stream: u16,
    /// Size of the module table, which follows the header.
    pub module_info_size: u32,
}

/// Why the debug information stream could not be read.
#[derive(Clone, Copy, Debug, PartialEq, Eq)]
pub enum DbiError {
    /// The stream is shorter than its fixed header.
    TruncatedHeader,
    /// The module table runs past the end of the stream.
    TruncatedModules,
    /// A module descriptor, its names or its padding run past the end of the module table.
    BadModule { at: usize },
}

/// One compilation unit.
#[derive(Clone, Debug, PartialEq, Eq)]
pub struct ModuleEntry {
    /// Stream of its private symbols; `NO_STREAM` when it has none.
    pub stream: u16,
    /// Bytes of that stream that hold symbols, signature included.
    pub symbols_size: u32,
    pub module_name: Vec<u8>,
    pub object_name: Vec<u8>,
}

pub ghost struct ModuleModel {
    pub stream: u16,
    pub symbols_size: u32,
    pub module_name: Seq<u8>,
    pub object_name: Seq<u8>,
}

impl ModuleEntry {
    pub open spec fn view(self) -> ModuleModel {
        ModuleModel {
            stream: self.stream,
            symbols_size: self.symbols_size,
            module_name: self.module_name@,
            object_name: self.object_name@,
        }
    }

    /// Whether the module has a private symbol stream.
    pub fn has_symbols(&self) -> (r: bool)
        ensures
            r == (self.stream != NO_STREAM),
    {
        self.stream != NO_STREAM
    }
}

pub open spec fn modules_view(v: Seq<ModuleEntry>) -> Seq<ModuleModel> {
    v.map_values(|m: ModuleEntry| m.view())
}

/// `q` rounded up to a multiple of four.
pub open spec fn align4(q: int) -> int {
    if q % 4 == 0 {
        q
    } else {
        q + (4 - q % 4)
    }
}

/// The module descriptors of `s` from `pos` up to `end`. Each is a fixed part, then the
/// module's name and its object file's name, both zero-terminated, then padding to four bytes.
pub open spec fn modules_spec(s: Seq<u8>, pos: int, end: int) -> Option<Seq<ModuleModel>>
    decreases end - pos,
{
    if pos >= end {
        Some(Seq::empty())
    } else if pos + MODULE_FIXED_SIZE > end {
        None
    } else {
        let p = pos + MODULE_FIXED_SIZE;
        match cstr_spec(s, p, end) {
            None => None,
            Some(name) => {
                let p2 = first_nul(s, p, end) + 1;
                match cstr_spec(s, p2, end) {
                    None => None,
                    Some(obj) => {
                        let next = align4(first_nul(s, p2, end) + 1);
                        if next <= pos || next > end {
                            None
                        } else {
                            match modules_spec(s, next, end) {
                                None => None,
                                Some(rest) => Some(
                                    seq![
                                        ModuleModel {
                                            stream: u16_at(s, pos + 34) as u16,
                                            symbols_size: u32_at(s, pos + 36) as u32,
                                            module_name: name,
                                            object_name: obj,
                                        },
                                    ] + rest,
                                ),
                            }
                        }
                    },
                }
            },
        }
    }
}

/// Reads the fixed header of the debug information stream `s`.
pub fn parse_header(s: &Vec<u8>) -> (r: Result<DbiHeader, DbiError>)
    ensures
        r is Err <==> s@.len() < DBI_HEADER_SIZE,
        r is Err ==> r == Err::<DbiHeader, DbiError>(DbiError::TruncatedHeader),
        r matches Ok(h) ==> h.symbol_records_stream == u16_at(s@, 20) && h.module_info_size
            == u32_at(s@, 24),
{
    if s.len() < DBI_HEADER_SIZE {
        return Err(DbiError::TruncatedHeader);
    }
    Ok(DbiHeader { symbol_records_stream: read_u16(s, 20), module_info_size: read_u32(s, 24) })
}

/// Reads the module table of the debug information stream `s`, in on-disk order.
pub fn parse_modules(s: &Vec<u8>) -> (r: Result<Vec<ModuleEntry>, DbiError>)
    ensures
        r matches Err(DbiError::TruncatedHeader) <==> s@.len() < DBI_HEADER_SIZE,
        r matches Err(DbiError::TruncatedModules) <==> (s@.len() >= DBI_HEADER_SIZE
            && DBI_HEADER_SIZE + u32_at(s@, 24) > s@.len()),
        r matches Err(DbiError::BadModule { .. }) <==> (s@.len() >= DBI_HEADER_SIZE
            && DBI_HEADER_SIZE + u32_at(s@, 24) <= s@.len() && modules_spec(
            s@,
            DBI_HEADER_SIZE as int,
            DBI_HEADER_SIZE + u32_at(s@, 24),
        ) is None),
        r matches Ok(v) ==> s@.len() >= DBI_HEADER_SIZE && DBI_HEADER_SIZE + u32_at(s@, 24)
            <= s@.len() && modules_spec(s@, DBI_HEADER_SIZE as int, DBI_HEADER_SIZE + u32_at(s@, 24))
            == Some(modules_view(v@)),
{
    let header = match parse_header(s) {
        Ok(h) => h,
        Err(e) => return Err(e),
    };
    let n = s.len();
    let size = header.module_info_size as usize;
    if size > s.len() - DBI_HEADER_SIZE {
        return Err(DbiError::TruncatedModules);
    }
    let end = DBI_HEADER_SIZE + size;
    let mut out: Vec<ModuleEntry> = Vec::new();
    let mut pos: usize = DBI_HEADER_SIZE;
    while pos < end
        invariant
            DBI_HEADER_SIZE <= pos,
            n == s@.len(),
            end <= s@.len(),
            end == DBI_HEADER_SIZE + u32_at(s@, 24),
            modules_spec(s@, DBI_HEADER_SIZE as int, end as int) == match modules_spec(
                s@,
                pos as int,
                end as int,
            ) {
                Some(rest) => Some(modules_view(out@) + rest),
                None => None::<Seq<ModuleModel>>,
            },
        decreases end - pos,
    {
        if end - pos < MODULE_FIXED_SIZE {
            return Err(DbiError::BadModule { at: pos });
        }
        let p = pos + MODULE_FIXED_SIZE;
        let module_name = match read_cstr(s, p, end) {
            Some(n) => n,
            None => return Err(DbiError::BadModule { at: pos }),
        };
        proof {
            lemma_first_nul_bounds(s@, p as int, end as int);
        }
        let p2 = p + module_name.len() + 1;
        let object_name = match read_cstr(s, p2, end) {
            Some(n) => n,
            None => return Err(DbiError::BadModule { at: pos }),
        };
        proof {
            lemma_first_nul_bounds(s@, p2 as int, end as int);
        }
        let q = p2 + object_name.len() + 1;
        let pad: usize = if q % 4 == 0 { 0 } else { 4 - q % 4 };
        if end - q < pad {
            return Err(DbiError::BadModule { at: pos });
        }
        let next = q + pad;
        let entry = ModuleEntry {
            stream: read_u16(s, pos + 34),
            symbols_size: read_u32(s, pos + 36),
            module_name,
            object_name,
        };
        let ghost old_out = out@;
        out.push(entry);
        proof {
            assert(modules_view(out@) =~= modules_view(old_out).push(entry@));
            let rest = modules_spec(s@, next as int, end as int);
            if rest is Some {
                assert(modules_view(old_out) + (seq![entry@] + rest.unwrap()) =~= modules_view(out@)
                    + rest.unwrap());
            }
        }
        pos = next;
    }
    proof {
        assert(modules_view(out@) + Seq::<ModuleModel>::empty() =~= modules_view(out@));
    }
    Ok(out)
}

} // verus!
