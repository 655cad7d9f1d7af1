use pdbdump::address::SectionHeader;
use pdbdump::container::Container;
use pdbdump::dbi::NO_STREAM;
use pdbdump::driver::{dump_pdb, DumpError, ModuleSymbolsError, dump_module_symbols};
use pdbdump::dump::{DumpOptions, RowKind, SymbolDump, SymbolEntry};
use pdbdump::records::ScanError;
use pdbdump::types::TypeError;
use pdbdump::dbi::DbiError;
use pdbdump::symbols::{S_GDATA32, S_PUB32};

const PAGE: usize = 4096;
const MAGIC: &[u8] = b"Microsoft C/C++ MSF 7.00\r\n\x1a\x44\x53\x00\x00\x00";

fn put32(v: &mut Vec<u8>, x: u32) {
    v.extend_from_slice(&x.to_le_bytes());
}

/// A multi-stream file with one page per present stream.
fn msf(streams: &[Option<Vec<u8>>]) -> Vec<u8> {
    let first_data_page = 5u32;
    let mut dir = Vec::new();
    put32(&mut dir, streams.len() as u32);
    for s in streams {
        put32(&mut dir, match s { Some(b) => b.len() as u32, None => u32::MAX });
    }
    let mut page = first_data_page;
    let mut pages = Vec::new();
    for s in streams {
        if let Some(b) = s {
            if !b.is_empty() {
                put32(&mut dir, page);
                pages.push(b.clone());
                page += 1;
            }
        }
    }
    let mut file = vec![0u8; PAGE * page as usize];
    let mut header = MAGIC.to_vec();
    put32(&mut header, PAGE as u32);
    put32(&mut header, 1);
    put32(&mut header, page);
    put32(&mut header, dir.len() as u32);
    put32(&mut header, 0);
    put32(&mut header, 3);
    file[..header.len()].copy_from_slice(&header);
    file[3 * PAGE..3 * PAGE + 4].copy_from_slice(&4u32.to_le_bytes());
    file[4 * PAGE..4 * PAGE + dir.len()].copy_from_slice(&dir);
    for (i, b) in pages.iter().enumerate() {
        let at = (first_data_page as usize + i) * PAGE;
        file[at..at + b.len()].copy_from_slice(b);
    }
    file
}

fn rec(kind: u16, payload: &[u8]) -> Vec<u8> {
    let mut v = Vec::new();
    v.extend_from_slice(&((payload.len() + 2) as u16).to_le_bytes());
    v.extend_from_slice(&kind.to_le_bytes());
    v.extend_from_slice(payload);
    v
}

fn data_sym(kind: u16, section: u16, offset: u32, name: &str) -> Vec<u8> {
    let mut p = Vec::new();
    put32(&mut p, 0);
    put32(&mut p, offset);
    p.extend_from_slice(&section.to_le_bytes());
    p.extend_from_slice(name.as_bytes());
    p.push(0);
    rec(kind, &p)
}

fn tpi(records: &[Vec<u8>]) -> Vec<u8> {
    let body: Vec<u8> = records.concat();
    let mut v = vec![0u8; 56];
    v[4..8].copy_from_slice(&56u32.to_le_bytes());
    v[8..12].copy_from_slice(&0x1000u32.to_le_bytes());
    v[12..16].copy_from_slice(&(0x1000 + records.len() as u32).to_le_bytes());
    v[16..20].copy_from_slice(&(body.len() as u32).to_le_bytes());
    v.extend_from_slice(&body);
    v
}

fn module(stream: u16, symbols_size: u32, obj: &str) -> Vec<u8> {
    let mut v = vec![0u8; 64];
    v[34..36].copy_from_slice(&stream.to_le_bytes());
    v[36..40].copy_from_slice(&symbols_size.to_le_bytes());
    v.extend_from_slice(obj.as_bytes());
    v.push(0);
    v.extend_from_slice(obj.as_bytes());
    v.push(0);
    while v.len() % 4 != 0 {
        v.push(0);
    }
    v
}

/// Debug information naming the global symbol stream and the section header stream.
fn dbi(symbols: u16, section_headers: u16, modules: &[Vec<u8>]) -> Vec<u8> {
    let table: Vec<u8> = modules.concat();
    let mut v = vec![0u8; 64];
    v[0..4].copy_from_slice(&u32::MAX.to_le_bytes());
    v[4..8].copy_from_slice(&19990903u32.to_le_bytes());
    v[12..14].copy_from_slice(&NO_STREAM.to_le_bytes());
    v[16..18].copy_from_slice(&NO_STREAM.to_le_bytes());
    v[20..22].copy_from_slice(&symbols.to_le_bytes());
    v[24..28].copy_from_slice(&(table.len() as u32).to_le_bytes());
    v[48..52].copy_from_slice(&12u32.to_le_bytes());
    v.extend_from_slice(&table);
    for _ in 0..5 {
        v.extend_from_slice(&NO_STREAM.to_le_bytes());
    }
    v.extend_from_slice(&section_headers.to_le_bytes());
    v
}

fn section_stream(headers: &[(u32, u32)]) -> Vec<u8> {
    let mut v = Vec::new();
    for (va, size) in headers {
        let mut h = vec![0u8; 40];
        h[8..12].copy_from_slice(&size.to_le_bytes());
        h[12..16].copy_from_slice(&va.to_le_bytes());
        v.extend_from_slice(&h);
    }
    v
}

fn module_symbols(records: &[Vec<u8>]) -> Vec<u8> {
    let mut v = 4u32.to_le_bytes().to_vec();
    v.extend_from_slice(&records.concat());
    v
}

fn all() -> DumpOptions {
    DumpOptions { types: true, variables: true, modules: true, functions: true }
}

/// Streams: 0 old directory, 1 info, 2 types, 3 debug info, 4 globals, 5 sections, 6 module.
fn sample() -> Vec<u8> {
    let types = tpi(&[rec(0x1505, &[0; 20]), rec(0x1001, &[0; 6]), rec(0x1234, &[])]);
    let globals = [data_sym(S_GDATA32, 1, 0x100, "g_counter"), rec(0x1139, &[0; 2]), data_sym(S_PUB32, 1, 0x10, "main")].concat();
    let modules = [module(6, 0, "a.obj"), module(NO_STREAM, 0, "empty.obj")];
    let mut mods = modules.to_vec();
    let msyms = module_symbols(&[data_sym(S_GDATA32, 2, 4, "local"), rec(0x1111, &[1, 2])]);
    mods[0] = module(6, msyms.len() as u32, "a.obj");
    msf(&[
        Some(vec![]),
        Some(vec![1, 2, 3, 4]),
        Some(types),
        Some(dbi(4, 5, &mods)),
        Some(globals),
        Some(section_stream(&[(0x1000, 0x200), (0x3000, 0x10)])),
        Some(msyms),
        Some(vec![7; 100]),
        Some(b"stream bytes".to_vec()),
    ])
}

#[test]
fn rejects_bytes_without_signature() {
    assert!(Container::open(vec![0u8; 8192]).is_none());
    assert!(Container::open(vec![]).is_none());
}

#[test]
fn reads_streams_and_repeats_reads() {
    let mut c = Container::open(sample()).unwrap();
    let first = c.read_stream(8).unwrap();
    assert_eq!(first, b"stream bytes".to_vec());
    assert_eq!(c.read_stream(8).unwrap(), first);
    let types = c.read_stream(2).unwrap();
    assert_eq!(c.read_stream(2).unwrap(), types);
    assert!(c.read_stream(40).is_none());
    assert!(c.read_stream(NO_STREAM).is_none());
}

#[test]
fn reads_section_headers() {
    let mut c = Container::open(sample()).unwrap();
    assert_eq!(
        c.sections().unwrap(),
        vec![SectionHeader { virtual_address: 0x1000, size: 0x200 }, SectionHeader { virtual_address: 0x3000, size: 0x10 }]
    );
}

#[test]
fn dump_has_one_row_per_record() {
    let mut c = Container::open(sample()).unwrap();
    let d = dump_pdb(&mut c, all()).unwrap();
    assert_eq!(d.types.as_ref().unwrap().lines.len(), 3);
    assert_eq!(d.types.unwrap().error, None);
    let g = d.globals.unwrap().lines;
    assert_eq!(g.len(), 3);
    assert_eq!(
        g[0].entry,
        SymbolEntry::Row { section: 1, offset: 0x100, kind: RowKind::Data, name: b"g_counter".to_vec(), rva: Some(0x1100) }
    );
    assert!(matches!(g[1].entry, SymbolEntry::Raw { .. }));
    assert!(matches!(&g[2].entry, SymbolEntry::Row { kind: RowKind::Function, rva: Some(0x1010), .. }));
    assert_eq!(d.modules.len(), 2);
    assert_eq!(d.modules[0].name, b"a.obj".to_vec());
    assert_eq!(d.modules[0].symbols.as_ref().unwrap().lines.len(), 2);
    assert_eq!(d.modules[1].name, b"empty.obj".to_vec());
    assert!(d.modules[1].symbols.is_none());
}

#[test]
fn dump_leaves_out_what_is_not_asked() {
    let mut c = Container::open(sample()).unwrap();
    let d = dump_pdb(&mut c, DumpOptions { types: false, variables: false, modules: true, functions: false }).unwrap();
    assert!(d.types.is_none());
    assert!(d.globals.is_none());
    assert_eq!(d.modules.len(), 2);
    assert!(d.modules[0].symbols.as_ref().unwrap().lines.iter().all(|l| !matches!(l.entry, SymbolEntry::Row { .. })));
}

#[test]
fn dump_needs_debug_information() {
    let file = msf(&[Some(vec![]), Some(vec![1]), Some(tpi(&[]))]);
    let mut c = Container::open(file).unwrap();
    assert_eq!(dump_pdb(&mut c, all()), Err(DumpError::MissingStream(3)));
}

#[test]
fn module_symbol_size_must_fit() {
    let s = module_symbols(&[rec(0x1111, &[])]);
    let sections = vec![];
    let opts = all();
    assert_eq!(dump_module_symbols(&s, 9, opts, &sections), Err(ModuleSymbolsError::BadSize));
    assert_eq!(dump_module_symbols(&s, 2, opts, &sections), Err(ModuleSymbolsError::BadSize));
    assert_eq!(dump_module_symbols(&s, 0, opts, &sections), Ok(SymbolDump { lines: vec![], error: None }));
    assert_eq!(dump_module_symbols(&s, 8, opts, &sections).unwrap().lines.len(), 1);
    assert_eq!(
        dump_module_symbols(&s, 6, opts, &sections).unwrap().error,
        Some(ScanError::TruncatedRecord { at: 4 })
    );
}

#[test]
fn oversized_substreams_leave_addresses_unresolved() {
    let globals = data_sym(S_GDATA32, 1, 0x100, "g_counter");
    let mut info = dbi(2, 4, &[]);
    info[28..32].copy_from_slice(&u32::MAX.to_le_bytes());
    info[32..36].copy_from_slice(&2u32.to_le_bytes());
    let file = msf(&[Some(vec![]), Some(vec![1]), Some(globals), Some(info), Some(section_stream(&[(0x1000, 0x200)]))]);
    let mut c = Container::open(file).unwrap();
    let opts = DumpOptions { types: false, variables: true, modules: false, functions: false };
    let d = dump_pdb(&mut c, opts).unwrap();
    let g = d.globals.unwrap().lines;
    assert_eq!(
        g[0].entry,
        SymbolEntry::Row { section: 1, offset: 0x100, kind: RowKind::Data, name: b"g_counter".to_vec(), rva: None }
    );
    assert!(d.modules.is_empty());
}

#[test]
fn truncated_global_stream_keeps_earlier_rows() {
    let mut globals = [data_sym(S_GDATA32, 1, 0x100, "first"), data_sym(S_PUB32, 1, 0x10, "second")].concat();
    globals.extend_from_slice(&[40, 0, 0x0e, 0x11]);
    let at = globals.len() - 4;
    let file = msf(&[Some(vec![]), Some(vec![1]), Some(tpi(&[])), Some(dbi(4, 5, &[])), Some(globals), Some(section_stream(&[(0x1000, 0x200)]))]);
    let mut c = Container::open(file).unwrap();
    let d = dump_pdb(&mut c, all()).unwrap();
    let g = d.globals.unwrap();
    assert_eq!(g.lines.len(), 2);
    assert_eq!(g.error, Some(ScanError::TruncatedRecord { at }));
    assert!(matches!(&g.lines[1].entry, SymbolEntry::Row { name, rva: Some(0x1010), .. } if name == b"second"));
}

#[test]
fn dump_names_length_prefixed_structure() {
    let mut p = vec![0u8; 16];
    p.extend_from_slice(&8u16.to_le_bytes());
    p.push(5);
    p.extend_from_slice(b"Point");
    let types = tpi(&[rec(0x1505, &p)]);
    let file = msf(&[Some(vec![]), Some(vec![1]), Some(types), Some(dbi(4, 5, &[])), Some(vec![])]);
    let mut c = Container::open(file).unwrap();
    let d = dump_pdb(&mut c, DumpOptions { types: true, variables: false, modules: false, functions: false }).unwrap();
    let t = d.types.unwrap();
    assert_eq!(t.lines.len(), 1);
    assert_eq!(t.lines[0].index, 0x1000);
    assert_eq!(t.lines[0].name, Some(b"Point".to_vec()));
}

#[test]
fn dump_reports_first_missing_stream() {
    let file = msf(&[Some(vec![]), Some(vec![1])]);
    let mut c = Container::open(file).unwrap();
    assert_eq!(dump_pdb(&mut c, all()), Err(DumpError::MissingStream(2)));
    let file = msf(&[Some(vec![]), Some(vec![1]), Some(vec![0; 10]), Some(vec![0; 10])]);
    let mut c = Container::open(file).unwrap();
    assert_eq!(dump_pdb(&mut c, all()), Err(DumpError::Types(TypeError::TruncatedHeader)));
    assert_eq!(
        dump_pdb(&mut c, DumpOptions { types: false, variables: true, modules: false, functions: false }),
        Err(DumpError::Dbi(DbiError::TruncatedHeader))
    );
}
