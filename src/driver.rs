use vstd::prelude::*;
use crate::address::SectionHeader;
use crate::container::{Container, stream_of, sections_of, section_lookup_safe};
use crate::dbi::{DbiError, ModuleModel, modules_spec, modules_view, parse_header, parse_modules, DBI_HEADER_SIZE, NO_STREAM};
use crate::dump::{DumpOptions, SymbolDump, symbol_dump_spec, dump_symbol_records};
use crate::records::{u16_at, u32_at, read_u32, scan_spec, scan_prefix, consumed, lemma_prefix_of_success, lemma_scan_consumes_all};
use crate::types::{TypeError, TypeDump, type_dump_spec, types_ok, type_header_error, dump_types};

verus! {

/// Stream of the type records.
pub const TPI_STREAM: u16 = 2;

/// Stream of the debug information: module table and the numbers of other streams.
pub const DBI_STREAM: u16 = 3;

/// Why a module's private symbols could not be dumped.
#[derive(Clone, Copy, Debug, PartialEq, Eq)]
pub enum ModuleSymbolsError {
    /// The symbol size that the module table gives does not fit the stream, or has no room
    /// for the signature.
    BadSize,
}

/// Where the records of a module's symbols start: after the signature, if there are any.
pub open spec fn module_records_start(size: int) -> int {
    if size == 0 {
        0
    } else {
        4
    }
}

/// The symbol size of a module fits its stream `s`.
pub open spec fn module_size_ok(s: Seq<u8>, size: int) -> bool {
    size <= s.len() && (size == 0 || size >= 4)
}

/// Dumps the private symbols of a module: the first `size` bytes of its stream `s`, whose
/// first four bytes are a signature.
pub fn dump_module_symbols(s: &Vec<u8>, size: u32, opts: DumpOptions, sections: &Vec<SectionHeader>) -> (r: Result<
    SymbolDump,
    ModuleSymbolsError,
>)
    ensures
        r is Err <==> !module_size_ok(s@, size as int),
        r matches Ok(d) ==> symbol_dump_spec(
            d,
            s@.subrange(0, size as int),
            module_records_start(size as int),
            opts,
            sections@,
        ),
{
    let size = size as usize;
    if size > s.len() || (size != 0 && size < 4) {
        return Err(ModuleSymbolsError::BadSize);
    }
    let mut body: Vec<u8> = Vec::new();
    let mut k: usize = 0;
    while k < size
        invariant
            k <= size <= s@.len(),
            body@ =~= s@.subrange(0, k as int),
        decreases size - k,
    {
        body.push(s[k]);
        k = k + 1;
    }
    let start: usize = if size == 0 { 0 } else { 4 };
    Ok(dump_symbol_records(&body, start, opts, sections))
}

/// What a dump shows of one module.
#[derive(Clone, Debug, PartialEq, Eq)]
pub struct ModuleDump {
    /// The module's object file name.
    pub name: Vec<u8>,
    /// Its private symbols; `None` when the module has no symbol stream.
    pub symbols: Option<SymbolDump>,
}

/// The whole dump of a program database.
#[derive(Clone, Debug, PartialEq, Eq)]
pub struct Dump {
    /// The type records, when asked for.
    pub types: Option<TypeDump>,
    /// The global symbols, when functions or variables are asked for.
    pub globals: Option<SymbolDump>,
    /// Every module, in on-disk order.
    pub modules: Vec<ModuleDump>,
}

/// Why a program database could not be dumped.
#[derive(Clone, Copy, Debug, PartialEq, Eq)]
pub enum DumpError {
    /// A stream that the dump needs cannot be read.
    MissingStream(u16),
    Types(TypeError),
    Dbi(DbiError),
    ModuleSymbols(ModuleSymbolsError),
}

/// The section headers a dump resolves addresses with: none when they cannot be read, or
/// when the debug information header gives substream sizes too large to look them up.
pub open spec fn sections_or_empty(src: Seq<u8>) -> Seq<SectionHeader> {
    if section_lookup_safe(src) {
        match sections_of(src) {
            Some(v) => v,
            None => Seq::empty(),
        }
    } else {
        Seq::empty()
    }
}

/// The section headers of the container, as `sections_or_empty` gives them; `dbi` is its
/// debug information stream.
fn section_table(c: &mut Container, dbi: &Vec<u8>) -> (r: Vec<SectionHeader>)
    requires
        stream_of(old(c).source(), DBI_STREAM) == Some(dbi@),
    ensures
        final(c).source() == old(c).source(),
        r@ == sections_or_empty(old(c).source()),
{
    if dbi.len() >= DBI_HEADER_SIZE {
        let total = read_u32(dbi, 24) as u64 + read_u32(dbi, 28) as u64 + read_u32(dbi, 32) as u64
            + read_u32(dbi, 36) as u64 + read_u32(dbi, 40) as u64 + read_u32(dbi, 52) as u64;
        if total > u32::MAX as u64 {
            return Vec::new();
        }
    }
    match c.sections() {
        Some(v) => v,
        None => Vec::new(),
    }
}

/// The module table of the debug information stream `dbi`.
pub open spec fn module_table(dbi: Seq<u8>) -> Option<Seq<ModuleModel>> {
    if dbi.len() >= DBI_HEADER_SIZE && DBI_HEADER_SIZE + u32_at(dbi, 24) <= dbi.len() {
        modules_spec(dbi, DBI_HEADER_SIZE as int, DBI_HEADER_SIZE + u32_at(dbi, 24))
    } else {
        None
    }
}

/// The private symbols of module `m` of the file `src` can be dumped (or it has none).
pub open spec fn module_ok(src: Seq<u8>, m: ModuleModel) -> bool {
    m.stream != NO_STREAM ==> match stream_of(src, m.stream) {
        Some(s) => module_size_ok(s, m.symbols_size as int),
        None => false,
    }
}

/// `d` is the dump of module `m` of the file `src`.
pub open spec fn module_dump_spec(d: ModuleDump, src: Seq<u8>, m: ModuleModel, opts: DumpOptions) -> bool {
    &&& d.name@ == m.object_name
    &&& (d.symbols is None <==> m.stream == NO_STREAM)
    &&& d.symbols matches Some(sd) ==> symbol_dump_spec(
        sd,
        stream_of(src, m.stream).unwrap().subrange(0, m.symbols_size as int),
        module_records_start(m.symbols_size as int),
        opts,
        sections_or_empty(src),
    )
}

/// The file `src` can be dumped with `opts`: the streams it needs are there, the type
/// stream's header can be read, and every module's symbol size fits its stream. A record
/// stream that cannot be walked to its end gives a dump that reports it.
pub open spec fn dump_ok(src: Seq<u8>, opts: DumpOptions) -> bool {
    &&& opts.types ==> (stream_of(src, TPI_STREAM) matches Some(t) && types_ok(t))
    &&& stream_of(src, DBI_STREAM) matches Some(dbi) && {
        &&& (opts.functions || opts.variables) ==> {
            &&& dbi.len() >= DBI_HEADER_SIZE
            &&& stream_of(src, u16_at(dbi, 20) as u16) is Some
        }
        &&& module_table(dbi) matches Some(ms) && forall|i: int| 0 <= i < ms.len() ==> #[trigger] module_ok(src, ms[i])
    }
}

/// The type stream of `src` is there and its header cannot be read.
pub open spec fn types_fail(src: Seq<u8>) -> bool {
    stream_of(src, TPI_STREAM) matches Some(t) && !types_ok(t)
}

/// `i` is the stream a dump of `src` with `opts` reports missing: the type stream when it is
/// asked for and missing, else the debug information stream when that is missing, else a
/// missing stream that the debug information names.
pub open spec fn missing_first(src: Seq<u8>, opts: DumpOptions, i: u16) -> bool {
    &&& stream_of(src, i) is None
    &&& (opts.types && stream_of(src, TPI_STREAM) is None) ==> i == TPI_STREAM
    &&& !(opts.types && stream_of(src, TPI_STREAM) is None) && stream_of(src, DBI_STREAM) is None ==> i
        == DBI_STREAM
}

/// The debug information stream of `src` is there and the dump fails on it with `e`: a
/// truncated header exactly when it is shorter than its header, a truncated module table
/// when the table runs past its end, a bad module when a descriptor cannot be read.
pub open spec fn dbi_fail(src: Seq<u8>, opts: DumpOptions, e: DbiError) -> bool {
    &&& stream_of(src, DBI_STREAM) matches Some(dbi)
    &&& (e == DbiError::TruncatedHeader <==> dbi.len() < DBI_HEADER_SIZE)
    &&& (e is TruncatedModules ==> dbi.len() >= DBI_HEADER_SIZE && DBI_HEADER_SIZE + u32_at(dbi, 24)
        > dbi.len())
    &&& (e is BadModule ==> dbi.len() >= DBI_HEADER_SIZE && DBI_HEADER_SIZE + u32_at(dbi, 24) <= dbi.len()
        && module_table(dbi) is None)
}

/// `d` is the dump of the file `src` with `opts`.
pub open spec fn dump_spec(d: Dump, src: Seq<u8>, opts: DumpOptions) -> bool {
    let dbi = stream_of(src, DBI_STREAM).unwrap();
    let ms = module_table(dbi).unwrap();
    &&& (d.types is Some <==> opts.types)
    &&& d.types matches Some(t) ==> type_dump_spec(t, stream_of(src, TPI_STREAM).unwrap())
    &&& (d.globals is Some <==> (opts.functions || opts.variables))
    &&& d.globals matches Some(g) ==> symbol_dump_spec(
        g,
        stream_of(src, u16_at(dbi, 20) as u16).unwrap(),
        0,
        opts,
        sections_or_empty(src),
    )
    &&& d.modules@.len() == ms.len()
    &&& forall|i: int| 0 <= i < ms.len() ==> #[trigger] module_dump_spec(d.modules@[i], src, ms[i], opts)
}

/// A module whose symbols cannot be dumped spoils the dump.
proof fn lemma_failed_module(src: Seq<u8>, opts: DumpOptions, dbi: Seq<u8>, ms: Seq<ModuleModel>, i: int)
    requires
        stream_of(src, DBI_STREAM) == Some(dbi),
        module_table(dbi) == Some(ms),
        0 <= i < ms.len(),
        !module_ok(src, ms[i]),
    ensures
        !dump_ok(src, opts),
{
    if dump_ok(src, opts) {
        let ms2 = module_table(stream_of(src, DBI_STREAM).unwrap()).unwrap();
        assert(ms2 == ms);
        assert(module_ok(src, ms2[i]));
    }
}

/// Reads a stream the dump cannot go without.
fn needed_stream(c: &mut Container, index: u16) -> (r: Result<Vec<u8>, DumpError>)
    ensures
        final(c).source() == old(c).source(),
        r matches Ok(v) ==> stream_of(old(c).source(), index) == Some(v@),
        r is Err ==> stream_of(old(c).source(), index) is None && r == Err::<Vec<u8>, DumpError>(
            DumpError::MissingStream(index),
        ),
{
    match c.read_stream(index) {
        Some(v) => Ok(v),
        None => Err(DumpError::MissingStream(index)),
    }
}

/// Dumps what `opts` asks for of the opened container `c`: its types, its global symbols, and
/// the private symbols of each module, in on-disk order.
pub fn dump_pdb(c: &mut Container, opts: DumpOptions) -> (r: Result<Dump, DumpError>)
    ensures
        final(c).source() == old(c).source(),
        r is Ok <==> dump_ok(old(c).source(), opts),
        r matches Ok(d) ==> dump_spec(d, old(c).source(), opts),
        r matches Err(DumpError::MissingStream(i)) ==> missing_first(old(c).source(), opts, i),
        r matches Err(DumpError::Types(e)) ==> opts.types && types_fail(old(c).source()) && e == type_header_error(
            stream_of(old(c).source(), TPI_STREAM).unwrap(),
        ),
        r matches Err(DumpError::Dbi(e)) ==> dbi_fail(old(c).source(), opts, e),
        r matches Err(DumpError::ModuleSymbols(_)) ==> stream_of(old(c).source(), DBI_STREAM) matches Some(dbi)
            && module_table(dbi) matches Some(ms) && exists|i: int|
            0 <= i < ms.len() && !#[trigger] module_ok(old(c).source(), ms[i]),
{
    let ghost src = c.source();
    let types = if opts.types {
        let tpi = needed_stream(c, TPI_STREAM)?;
        match dump_types(&tpi) {
            Ok(t) => Some(t),
            Err(e) => return Err(DumpError::Types(e)),
        }
    } else {
        None
    };
    let dbi = needed_stream(c, DBI_STREAM)?;
    let sections = section_table(c, &dbi);
    let globals = if opts.functions || opts.variables {
        let header = match parse_header(&dbi) {
            Ok(h) => h,
            Err(e) => return Err(DumpError::Dbi(e)),
        };
        let g = needed_stream(c, header.symbol_records_stream)?;
        Some(dump_symbol_records(&g, 0, opts, &sections))
    } else {
        None
    };
    let modules = match parse_modules(&dbi) {
        Ok(m) => m,
        Err(e) => return Err(DumpError::Dbi(e)),
    };
    let ghost ms = modules_view(modules@);
    assert(module_table(dbi@) == Some(ms));
    let mut out: Vec<ModuleDump> = Vec::new();
    let mut i: usize = 0;
    #[verifier::loop_isolation(false)]
    while i < modules.len()
        invariant
            i <= modules@.len(),
            ms == modules_view(modules@),
            c.source() == src,
            sections@ == sections_or_empty(src),
            out@.len() == i,
            forall|j: int| 0 <= j < i ==> #[trigger] module_ok(src, ms[j]),
            forall|j: int| 0 <= j < i ==> #[trigger] module_dump_spec(out@[j], src, ms[j], opts),
        decreases modules@.len() - i,
    {
        let m = &modules[i];
        assert(ms[i as int] == m@);
        let symbols = if m.has_symbols() {
            let s = match needed_stream(c, m.stream) {
                Ok(s) => s,
                Err(e) => {
                    proof {
                        lemma_failed_module(src, opts, dbi@, ms, i as int);
                    }
                    return Err(e);
                },
            };
            match dump_module_symbols(&s, m.symbols_size, opts, &sections) {
                Ok(sd) => Some(sd),
                Err(e) => {
                    proof {
                        lemma_failed_module(src, opts, dbi@, ms, i as int);
                    }
                    return Err(DumpError::ModuleSymbols(e));
                },
            }
        } else {
            None
        };
        out.push(ModuleDump { name: m.object_name.clone(), symbols });
        i = i + 1;
    }
    Ok(Dump { types, globals, modules: out })
}

/// With every category asked for, a dump has exactly one type line per record of the type
/// stream, and one symbol line per record of the global symbol stream and of each module's
/// symbols, records of unknown kinds included; where a symbol stream cannot be walked to its
/// end, one line per record before the one that cannot be read, and the error beside them.
pub proof fn lemma_dump_counts(d: Dump, src: Seq<u8>, opts: DumpOptions)
    requires
        opts.types && opts.functions && opts.variables,
        dump_spec(d, src, opts),
    ensures
        d.types.unwrap().lines@.len() == scan_prefix(
            stream_of(src, TPI_STREAM).unwrap(),
            crate::types::records_start(stream_of(src, TPI_STREAM).unwrap()),
        ).len(),
        d.types.unwrap().error is None ==> d.types.unwrap().lines@.len() == scan_spec(
            stream_of(src, TPI_STREAM).unwrap(),
            crate::types::records_start(stream_of(src, TPI_STREAM).unwrap()),
        ).unwrap().len(),
        d.globals.unwrap().lines@.len() == scan_prefix(
            stream_of(src, u16_at(stream_of(src, DBI_STREAM).unwrap(), 20) as u16).unwrap(),
            0,
        ).len(),
        d.globals.unwrap().error is None ==> d.globals.unwrap().lines@.len() == scan_spec(
            stream_of(src, u16_at(stream_of(src, DBI_STREAM).unwrap(), 20) as u16).unwrap(),
            0,
        ).unwrap().len(),
        forall|i: int|
            0 <= i < d.modules@.len() && (#[trigger] d.modules@[i]).symbols is Some ==> d.modules@[i].symbols.unwrap().lines@.len()
                == scan_prefix(
                stream_of(src, module_table(stream_of(src, DBI_STREAM).unwrap()).unwrap()[i].stream).unwrap().subrange(
                    0,
                    module_table(stream_of(src, DBI_STREAM).unwrap()).unwrap()[i].symbols_size as int,
                ),
                module_records_start(module_table(stream_of(src, DBI_STREAM).unwrap()).unwrap()[i].symbols_size as int),
            ).len(),
{
    let t = stream_of(src, TPI_STREAM).unwrap();
    if d.types.unwrap().error is None {
        lemma_prefix_of_success(t, crate::types::records_start(t));
    }
    let g = stream_of(src, u16_at(stream_of(src, DBI_STREAM).unwrap(), 20) as u16).unwrap();
    if d.globals.unwrap().error is None {
        lemma_prefix_of_success(g, 0);
    }
    let ms = module_table(stream_of(src, DBI_STREAM).unwrap()).unwrap();
    assert forall|i: int| 0 <= i < d.modules@.len() && (#[trigger] d.modules@[i]).symbols is Some implies d.modules@[i].symbols.unwrap().lines@.len()
        == scan_prefix(
        stream_of(src, ms[i].stream).unwrap().subrange(0, ms[i].symbols_size as int),
        module_records_start(ms[i].symbols_size as int),
    ).len() by {
        assert(module_dump_spec(d.modules@[i], src, ms[i], opts));
    }
}

/// Where a dump walks the type stream or the global symbol stream to its end, the records it
/// shows tile that stream after its header: one line per record, and the records' lengths,
/// prefixes included, add up to the bytes after the header, with no gap and no overlap.
pub proof fn lemma_dump_tiles_streams(d: Dump, src: Seq<u8>, opts: DumpOptions)
    requires
        dump_spec(d, src, opts),
    ensures
        d.types is Some && d.types.unwrap().error is None ==> {
            let t = stream_of(src, TPI_STREAM).unwrap();
            let h = crate::types::records_start(t);
            &&& consumed(scan_prefix(t, h)) == t.len() - h
            &&& d.types.unwrap().lines@.len() == scan_prefix(t, h).len()
        },
        d.globals is Some && d.globals.unwrap().error is None ==> {
            let g = stream_of(src, u16_at(stream_of(src, DBI_STREAM).unwrap(), 20) as u16).unwrap();
            &&& consumed(scan_prefix(g, 0)) == g.len()
            &&& d.globals.unwrap().lines@.len() == scan_prefix(g, 0).len()
        },
{
    if d.types is Some && d.types.unwrap().error is None {
        let t = stream_of(src, TPI_STREAM).unwrap();
        let h = crate::types::records_start(t);
        lemma_prefix_of_success(t, h);
        lemma_scan_consumes_all(t, h);
    }
    if d.globals is Some && d.globals.unwrap().error is None {
        let g = stream_of(src, u16_at(stream_of(src, DBI_STREAM).unwrap(), 20) as u16).unwrap();
        lemma_prefix_of_success(g, 0);
        lemma_scan_consumes_all(g, 0);
    }
}

/// Two dumps of the same bytes with the same options agree: the same categories, the same
/// errors, and line for line the same index, kind, fields and name, since every stream they
/// read gives the same bytes on every read.
pub proof fn lemma_dump_deterministic(d1: Dump, d2: Dump, src: Seq<u8>, opts: DumpOptions)
    requires
        dump_spec(d1, src, opts),
        dump_spec(d2, src, opts),
    ensures
        d1.types is Some == d2.types is Some,
        d1.types is Some ==> {
            &&& d1.types.unwrap().error == d2.types.unwrap().error
            &&& d1.types.unwrap().lines@.len() == d2.types.unwrap().lines@.len()
            &&& forall|i: int|
                0 <= i < d1.types.unwrap().lines@.len() ==> {
                    let a = #[trigger] d1.types.unwrap().lines@[i];
                    let b = d2.types.unwrap().lines@[i];
                    &&& a.index == b.index && a.kind == b.kind && a.offset == b.offset
                    &&& a.len == b.len && a.data == b.data
                    &&& a.name is Some == b.name is Some
                    &&& a.name is Some ==> a.name.unwrap()@ == b.name.unwrap()@
                }
        },
        d1.globals is Some == d2.globals is Some,
        d1.globals is Some ==> {
            &&& d1.globals.unwrap().error == d2.globals.unwrap().error
            &&& d1.globals.unwrap().lines@.len() == d2.globals.unwrap().lines@.len()
            &&& forall|i: int|
                0 <= i < d1.globals.unwrap().lines@.len() ==> {
                    let a = #[trigger] d1.globals.unwrap().lines@[i];
                    let b = d2.globals.unwrap().lines@[i];
                    a.index == b.index && a.kind == b.kind
                }
        },
        d1.modules@.len() == d2.modules@.len(),
        forall|i: int| 0 <= i < d1.modules@.len() ==> (#[trigger] d1.modules@[i]).name@ == d2.modules@[i].name@,
{
    let ms = module_table(stream_of(src, DBI_STREAM).unwrap()).unwrap();
    if d1.types is Some {
        let t = stream_of(src, TPI_STREAM).unwrap();
        assert forall|i: int| 0 <= i < d1.types.unwrap().lines@.len() implies {
            let a = #[trigger] d1.types.unwrap().lines@[i];
            let b = d2.types.unwrap().lines@[i];
            &&& a.index == b.index && a.kind == b.kind && a.offset == b.offset
            &&& a.len == b.len && a.data == b.data
            &&& a.name is Some == b.name is Some
            &&& a.name is Some ==> a.name.unwrap()@ == b.name.unwrap()@
        } by {
            assert(crate::types::type_line_spec(d1.types.unwrap().lines@[i], t, i));
            assert(crate::types::type_line_spec(d2.types.unwrap().lines@[i], t, i));
        }
    }
    if d1.globals is Some {
        let g = stream_of(src, u16_at(stream_of(src, DBI_STREAM).unwrap(), 20) as u16).unwrap();
        let sp = scan_prefix(g, 0);
        assert forall|i: int| 0 <= i < d1.globals.unwrap().lines@.len() implies {
            let a = #[trigger] d1.globals.unwrap().lines@[i];
            let b = d2.globals.unwrap().lines@[i];
            a.index == b.index && a.kind == b.kind
        } by {
            assert(crate::dump::line_spec(d1.globals.unwrap().lines@[i], g, sp[i].0, sp[i].1, opts, sections_or_empty(src)));
            assert(crate::dump::line_spec(d2.globals.unwrap().lines@[i], g, sp[i].0, sp[i].1, opts, sections_or_empty(src)));
        }
    }
    assert forall|i: int| 0 <= i < d1.modules@.len() implies (#[trigger] d1.modules@[i]).name@ == d2.modules@[i].name@ by {
        assert(module_dump_spec(d1.modules@[i], src, ms[i], opts));
        assert(module_dump_spec(d2.modules@[i], src, ms[i], opts));
    }
}

} // verus!
