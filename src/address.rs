use vstd::prelude::*;

verus! {

/// One section of the executable image.
#[derive(Clone, Copy, Debug, PartialEq, Eq)]
pub struct SectionHeader {
    pub virtual_address: u32,
    pub size: u32,
}

/// The relative virtual address of `offset` in section `section` (numbered from 1), when the
/// section exists and the offset lies inside it.
pub open spec fn rva_spec(sections: Seq<SectionHeader>, section: u16, offset: u32) -> Option<int> {
    if 1 <= section <= sections.len() && offset < sections[section - 1].size {
        Some(sections[section - 1].virtual_address + offset)
    } else {
        None
    }
}

/// Resolves a section-relative address to a relative virtual address.
pub fn resolve_rva(sections: &Vec<SectionHeader>, section: u16, offset: u32) -> (r: Option<u64>)
    ensures
        r matches Some(v) ==> rva_spec(sections@, section, offset) == Some(v as int),
        r is None <==> rva_spec(sections@, section, offset) is None,
{
    if section == 0 || section as usize > sections.len() {
        return None;
    }
    let h = sections[section as usize - 1];
    if offset < h.size {
        Some(h.virtual_address as u64 + offset as u64)
    } else {
        None
    }
}

} // verus!
