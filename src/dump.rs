use vstd::prelude::*;
use crate::address::{SectionHeader, rva_spec, resolve_rva};
use crate::records::{u16_at, scan_spec, scan_error, scan_prefix, spans_view, read_u16, scan_records_prefix, lemma_prefix_contiguous, lemma_prefix_of_success, RecordSpan, ScanError};
use crate::symbols::{SymbolData, SymbolModel, symbol_spec, decode_symbol, S_ALIGN, S_SKIP};

verus! {

/// Which record categories a dump shows.
#[derive(Clone, Copy, Debug, PartialEq, Eq)]
pub struct DumpOptions {
    /// Show the type records.
    pub types: bool,
    /// Show rows for variables, among the global and the module symbols.
    pub variables: bool,
    /// Asks for the module walk, which a dump always makes: what it shows of each module's
    /// symbols follows `functions` and `variables`.
    pub modules: bool,
    /// Show rows for functions, among the global and the module symbols.
    pub functions: bool,
}

/// The category column of a symbol row.
#[derive(Clone, Copy, Debug, PartialEq, Eq)]
pub enum RowKind {
    Function,
    Data,
}

/// What a dump shows for one symbol record, after its index and kind.
#[derive(Clone, Debug, PartialEq, Eq)]
pub enum SymbolEntry {
    /// A row: section, offset, category, name, and the relative virtual address when it resolves.
    Row { section: u16, offset: u32, kind: RowKind, name: Vec<u8>, rva: Option<u64> },
    /// A record of another kind, shown in its decoded form.
    Raw { data: SymbolData },
    /// A known kind whose category the options leave out.
    Hidden,
    /// A record whose payload could not be decoded.
    Malformed,
    /// Padding between records, which holds no symbol.
    Padding,
}

/// One symbol record of a dump: where it stands in its stream, its kind, and what is shown.
#[derive(Clone, Debug, PartialEq, Eq)]
pub struct SymbolLine {
    pub index: usize,
    pub kind: u16,
    pub entry: SymbolEntry,
}

/// `e` is the row for a record with the given section, offset and name.
pub open spec fn is_row(
    e: SymbolEntry,
    kind: RowKind,
    section: u16,
    offset: u32,
    name: Seq<u8>,
    sections: Seq<SectionHeader>,
) -> bool {
    match e {
        SymbolEntry::Row { section: s2, offset: o2, kind: k2, name: n2, rva } => s2 == section
            && o2 == offset && k2 == kind && n2@ == name && match rva {
            Some(v) => rva_spec(sections, section, offset) == Some(v as int),
            None => rva_spec(sections, section, offset) is None,
        },
        _ => false,
    }
}

/// What the dump shows for a record that decodes to `m` (`None`: it does not decode).
pub open spec fn entry_spec(
    e: SymbolEntry,
    m: Option<SymbolModel>,
    opts: DumpOptions,
    sections: Seq<SectionHeader>,
) -> bool {
    match m {
        None => e is Malformed,
        Some(SymbolModel::Public { section, offset, name }) => if opts.functions {
            is_row(e, RowKind::Function, section, offset, name, sections)
        } else {
            e is Hidden
        },
        Some(SymbolModel::Procedure { section, offset, name, .. }) => if opts.functions {
            is_row(e, RowKind::Function, section, offset, name, sections)
        } else {
            e is Hidden
        },
        Some(SymbolModel::Data { section, offset, name }) => if opts.variables {
            is_row(e, RowKind::Data, section, offset, name, sections)
        } else {
            e is Hidden
        },
        Some(m) => e matches SymbolEntry::Raw { data } && data@ == m,
    }
}

/// `line` is what the dump shows for the record at `start` of length `len` in `s`.
pub open spec fn line_spec(
    line: SymbolLine,
    s: Seq<u8>,
    start: int,
    len: int,
    opts: DumpOptions,
    sections: Seq<SectionHeader>,
) -> bool {
    &&& line.index == start
    &&& line.kind == u16_at(s, start + 2)
    &&& if line.kind == S_ALIGN || line.kind == S_SKIP {
        line.entry is Padding
    } else {
        entry_spec(line.entry, symbol_spec(s, start, len), opts, sections)
    }
}

/// The row for a symbol with the given section, offset and name.
fn make_row(kind: RowKind, section: u16, offset: u32, name: Vec<u8>, sections: &Vec<SectionHeader>) -> (r: SymbolEntry)
    ensures
        is_row(r, kind, section, offset, name@, sections@),
{
    SymbolEntry::Row { section, offset, kind, name, rva: resolve_rva(sections, section, offset) }
}

/// What the dump shows for the symbol record at `span`.
pub fn symbol_line(s: &Vec<u8>, span: RecordSpan, opts: DumpOptions, sections: &Vec<SectionHeader>) -> (r: SymbolLine)
    requires
        span.len >= 2,
        span.start + 2 + span.len <= s.len(),
    ensures
        line_spec(r, s@, span.start as int, span.len as int, opts, sections@),
{
    let kind = read_u16(s, span.start + 2);
    if kind == S_ALIGN || kind == S_SKIP {
        return SymbolLine { index: span.start, kind, entry: SymbolEntry::Padding };
    }
    let entry = match decode_symbol(s, span) {
        Err(_) => SymbolEntry::Malformed,
        Ok(SymbolData::Public { section, offset, name }) => if opts.functions {
            make_row(RowKind::Function, section, offset, name, sections)
        } else {
            SymbolEntry::Hidden
        },
        Ok(SymbolData::Procedure { section, offset, name, .. }) => if opts.functions {
            make_row(RowKind::Function, section, offset, name, sections)
        } else {
            SymbolEntry::Hidden
        },
        Ok(SymbolData::Data { section, offset, name }) => if opts.variables {
            make_row(RowKind::Data, section, offset, name, sections)
        } else {
            SymbolEntry::Hidden
        },
        Ok(data) => SymbolEntry::Raw { data },
    };
    SymbolLine { index: span.start, kind, entry }
}

/// `lines` show, one for one and in order, the records of `s` from `start` on.
pub open spec fn lines_spec(
    lines: Seq<SymbolLine>,
    s: Seq<u8>,
    start: int,
    opts: DumpOptions,
    sections: Seq<SectionHeader>,
) -> bool {
    &&& scan_spec(s, start) is Some
    &&& lines.len() == scan_spec(s, start).unwrap().len()
    &&& forall|i: int|
        0 <= i < lines.len() ==> #[trigger] line_spec(
            lines[i],
            s,
            scan_spec(s, start).unwrap()[i].0,
            scan_spec(s, start).unwrap()[i].1,
            opts,
            sections,
        )
}

/// `lines` show, one for one and in order, the records of `s` from `start` on that come
/// before the first one that cannot be read.
pub open spec fn prefix_lines_spec(
    lines: Seq<SymbolLine>,
    s: Seq<u8>,
    start: int,
    opts: DumpOptions,
    sections: Seq<SectionHeader>,
) -> bool {
    &&& lines.len() == scan_prefix(s, start).len()
    &&& forall|i: int|
        0 <= i < lines.len() ==> #[trigger] line_spec(
            lines[i],
            s,
            scan_prefix(s, start)[i].0,
            scan_prefix(s, start)[i].1,
            opts,
            sections,
        )
}

/// A symbol dump of one stream: the lines of the records up to the first one that cannot be
/// read, and the error that one gives.
#[derive(Clone, Debug, PartialEq, Eq)]
pub struct SymbolDump {
    pub lines: Vec<SymbolLine>,
    pub error: Option<ScanError>,
}

/// `d` is the symbol dump of the records of `s` from `start` on.
pub open spec fn symbol_dump_spec(
    d: SymbolDump,
    s: Seq<u8>,
    start: int,
    opts: DumpOptions,
    sections: Seq<SectionHeader>,
) -> bool {
    &&& prefix_lines_spec(d.lines@, s, start, opts, sections)
    &&& (d.error is None <==> scan_spec(s, start) is Some)
    &&& d.error matches Some(e) ==> e == scan_error(s, start)
}

/// Dumps the symbol records of `s` from `start` on: one line per record, whatever its kind,
/// and a record that does not decode spoils its own line only. Where a record cannot be read
/// at all, the lines of the records before it are kept and the error is given beside them.
pub fn dump_symbol_records(s: &Vec<u8>, start: usize, opts: DumpOptions, sections: &Vec<SectionHeader>) -> (r: SymbolDump)
    requires
        start <= s@.len(),
    ensures
        symbol_dump_spec(r, s@, start as int, opts, sections@),
{
    let (spans, error) = scan_records_prefix(s, start);
    let ghost sp = scan_prefix(s@, start as int);
    let mut out: Vec<SymbolLine> = Vec::new();
    let mut i: usize = 0;
    while i < spans.len()
        invariant
            0 <= i <= spans@.len(),
            sp == spans_view(spans@),
            sp == scan_prefix(s@, start as int),
            out@.len() == i,
            forall|j: int| 0 <= j < i ==> #[trigger] line_spec(out@[j], s@, sp[j].0, sp[j].1, opts, sections@),
        decreases spans@.len() - i,
    {
        proof {
            lemma_prefix_contiguous(s@, start as int, i as int);
        }
        let line = symbol_line(s, spans[i], opts, sections);
        out.push(line);
        i = i + 1;
    }
    SymbolDump { lines: out, error }
}

/// Dumps the symbol records of `s` from `start` on, as `dump_symbol_records` does, when every
/// record can be read; the error of the first one that cannot otherwise.
pub fn dump_symbols(s: &Vec<u8>, start: usize, opts: DumpOptions, sections: &Vec<SectionHeader>) -> (r: Result<Vec<SymbolLine>, ScanError>)
    requires
        start <= s@.len(),
    ensures
        r matches Ok(lines) ==> lines_spec(lines@, s@, start as int, opts, sections@),
        r is Err <==> scan_spec(s@, start as int) is None,
        r matches Err(e) ==> e == scan_error(s@, start as int),
{
    let d = dump_symbol_records(s, start, opts, sections);
    match d.error {
        Some(e) => Err(e),
        None => {
            proof {
                lemma_prefix_of_success(s@, start as int);
            }
            Ok(d.lines)
        },
    }
}

/// Every row of a symbol dump reports, as its relative virtual address, the virtual address
/// of its section plus its offset when the offset lies inside the section, and no address
/// otherwise.
pub proof fn lemma_row_rva(
    lines: Seq<SymbolLine>,
    s: Seq<u8>,
    start: int,
    opts: DumpOptions,
    sections: Seq<SectionHeader>,
    i: int,
)
    requires
        lines_spec(lines, s, start, opts, sections),
        0 <= i < lines.len(),
    ensures
        lines[i].entry matches SymbolEntry::Row { section, offset, rva, .. } ==> match rva {
            Some(v) => 1 <= section <= sections.len() && offset < sections[section - 1].size && v
                == sections[section - 1].virtual_address + offset,
            None => !(1 <= section <= sections.len() && offset < sections[section - 1].size),
        },
{
    let r = scan_spec(s, start).unwrap()[i];
    assert(line_spec(lines[i], s, r.0, r.1, opts, sections));
}

} // verus!
