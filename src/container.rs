use vstd::prelude::*;
use crate::address::SectionHeader;
use crate::records::u32_at;

verus! {

#[verifier::external_type_specification]
#[verifier::external_body]
#[verifier::reject_recursive_types(S)]
pub struct ExPdb<'s, S>(pdb::PDB<'s, S>);

#[verifier::external_type_specification]
#[verifier::external_body]
#[verifier::reject_recursive_types(T)]
pub struct ExCursor<T>(std::io::Cursor<T>);

/// Where an opened container reads its bytes from.
pub type ByteSource = std::io::Cursor<Vec<u8>>;

/// Whether the multi-stream container layer accepts `bytes` as a program database.
pub uninterp spec fn opens(bytes: Seq<u8>) -> bool;

/// The signature that starts a multi-stream container.
pub open spec fn msf_signature() -> Seq<u8> {
    seq![
        0x4du8, 0x69, 0x63, 0x72, 0x6f, 0x73, 0x6f, 0x66, 0x74, 0x20, 0x43, 0x2f, 0x43, 0x2b, 0x2b,
        0x20, 0x4d, 0x53, 0x46, 0x20, 0x37, 0x2e, 0x30, 0x30, 0x0d, 0x0a, 0x1a, 0x44, 0x53, 0x00,
        0x00, 0x00,
    ]
}

/// Stream `index` of the container held in `bytes`, as the container layer rebuilds it from
/// its pages; `None` when there is no such stream or its pages cannot be read.
pub uninterp spec fn stream_of(bytes: Seq<u8>, index: u16) -> Option<Seq<u8>>;

/// Section headers of the executable described by `bytes`; `None` when they cannot be read.
pub uninterp spec fn sections_of(bytes: Seq<u8>) -> Option<Seq<SectionHeader>>;

/// Stream of the debug information, whose header locates the section headers.
pub const DEBUG_INFO_STREAM: u16 = 3;

/// The section headers of `bytes` can be looked up without overflow: the substream sizes
/// that the debug information header gives, which the lookup adds up in 32 bits, fit in 32 bits.
pub open spec fn section_lookup_safe(bytes: Seq<u8>) -> bool {
    match stream_of(bytes, DEBUG_INFO_STREAM) {
        Some(d) => d.len() >= crate::dbi::DBI_HEADER_SIZE ==> u32_at(d, 24) + u32_at(d, 28) + u32_at(d, 32) + u32_at(d, 36)
            + u32_at(d, 40) + u32_at(d, 52) <= u32::MAX,
        None => true,
    }
}

/// An opened program database: a multi-stream container over the bytes it was opened from.
pub struct Container {
    pdb: pdb::PDB<'static, ByteSource>,
    bytes: Ghost<Seq<u8>>,
}

/// Relies on pdb::PDB::open over an in-memory cursor: it checks the signature and reads the
/// stream directory, from the bytes alone.
#[verifier::external_body]
fn open_pdb(bytes: Vec<u8>) -> (r: Option<pdb::PDB<'static, ByteSource>>)
    ensures
        r is Some == opens(bytes@),
        r is Some ==> bytes@.len() >= 4096 && bytes@.subrange(0, 32) == msf_signature(),
{
    pdb::PDB::open(std::io::Cursor::new(bytes)).ok()
}

/// Relies on pdb::PDB::raw_stream and pdb::Stream::as_slice: the bytes of one stream, which
/// the container rebuilds from its pages on each call.
#[verifier::external_body]
fn raw_stream(c: &mut Container, index: u16) -> (r: Option<Vec<u8>>)
    ensures
        final(c).source() == old(c).source(),
        r matches Some(v) ==> stream_of(old(c).source(), index) == Some(v@),
        r is None ==> stream_of(old(c).source(), index) is None,
{
    match c.pdb.raw_stream(pdb::StreamIndex(index)) {
        Ok(Some(s)) => Some(s.as_slice().to_vec()),
        _ => None,
    }
}

/// Relies on pdb::PDB::sections: the section header stream named by the debug information.
#[verifier::external_body]
fn section_headers(c: &mut Container) -> (r: Option<Vec<SectionHeader>>)
    requires
        section_lookup_safe(old(c).source()),
    ensures
        final(c).source() == old(c).source(),
        r matches Some(v) ==> sections_of(old(c).source()) == Some(v@),
        r is None ==> sections_of(old(c).source()) is None,
{
    match c.pdb.sections() {
        Ok(Some(v)) => Some(
            v.iter().map(|h| SectionHeader { virtual_address: h.virtual_address, size: h.virtual_size }).collect(),
        ),
        _ => None,
    }
}

impl Container {
    /// The bytes the container was opened from.
    pub closed spec fn source(self) -> Seq<u8> {
        self.bytes@
    }

    /// Opens the container held in `bytes`; `None` when they are not a program database.
    pub fn open(bytes: Vec<u8>) -> (r: Option<Container>)
        ensures
            r is Some == opens(bytes@),
            r is Some ==> bytes@.len() >= 4096 && bytes@.subrange(0, 32) == msf_signature(),
            r matches Some(c) ==> c.source() == bytes@,
    {
        let ghost b = bytes@;
        match open_pdb(bytes) {
            Some(p) => Some(Container { pdb: p, bytes: Ghost(b) }),
            None => None,
        }
    }

    /// The bytes of stream `index`. Reading a stream does not change the container, and the
    /// bytes depend on the file and the index alone, so every read of a stream gives the same bytes.
    pub fn read_stream(&mut self, index: u16) -> (r: Option<Vec<u8>>)
        ensures
            final(self).source() == old(self).source(),
            r matches Some(v) ==> stream_of(old(self).source(), index) == Some(v@),
            r is None <==> stream_of(old(self).source(), index) is None,
    {
        raw_stream(self, index)
    }

    /// The section headers of the executable, in section order (section `k` is entry `k - 1`).
    pub fn sections(&mut self) -> (r: Option<Vec<SectionHeader>>)
        requires
            section_lookup_safe(old(self).source()),
        ensures
            final(self).source() == old(self).source(),
            r matches Some(v) ==> sections_of(old(self).source()) == Some(v@),
            r is None <==> sections_of(old(self).source()) is None,
    {
        section_headers(self)
    }
}

/// Reading the same stream of one container twice gives byte-identical results.
pub proof fn lemma_read_stream_idempotent(a: Container, b: Container, index: u16)
    requires
        a.source() == b.source(),
    ensures
        stream_of(a.source(), index) == stream_of(b.source(), index),
{
}

} // verus!
