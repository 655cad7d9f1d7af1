use vstd::prelude::*;

verus! {

/// Little-endian 16-bit value at `i`.
pub open spec fn u16_at(s: Seq<u8>, i: int) -> int {
    s[i] as int + 256 * s[i + 1] as int
}

/// Little-endian 32-bit value at `i`.
pub open spec fn u32_at(s: Seq<u8>, i: int) -> int {
    s[i] as int + 256 * s[i + 1] as int + 65536 * s[i + 2] as int + 16777216 * s[i + 3] as int
}

/// The records of `s` from `pos` on, each as (position of its length prefix, length).
/// A record is a 16-bit length `len >= 2` followed by `len` bytes, the first two of which
/// are its kind. `None` when a record is shorter than its kind or runs past the end.
pub open spec fn scan_spec(s: Seq<u8>, pos: int) -> Option<Seq<(int, int)>>
    decreases s.len() - pos,
{
    if pos < 0 || pos > s.len() {
        None
    } else if pos == s.len() {
        Some(Seq::empty())
    } else if pos + 2 > s.len() {
        None
    } else {
        let len = u16_at(s, pos);
        if len < 2 || pos + 2 + len > s.len() {
            None
        } else {
            match scan_spec(s, pos + 2 + len) {
                Some(rest) => Some(seq![(pos, len)] + rest),
                None => None,
            }
        }
    }
}

/// The records of `s` from `pos` on that come before the first one that cannot be read:
/// all of them when the walk succeeds.
pub open spec fn scan_prefix(s: Seq<u8>, pos: int) -> Seq<(int, int)>
    decreases s.len() - pos,
{
    if pos < 0 || pos >= s.len() || pos + 2 > s.len() {
        Seq::empty()
    } else {
        let len = u16_at(s, pos);
        if len < 2 || pos + 2 + len > s.len() {
            Seq::empty()
        } else {
            seq![(pos, len)] + scan_prefix(s, pos + 2 + len)
        }
    }
}

/// A walk that succeeds gives the records of its prefix.
pub proof fn lemma_prefix_of_success(s: Seq<u8>, pos: int)
    requires
        scan_spec(s, pos) is Some,
    ensures
        scan_spec(s, pos).unwrap() == scan_prefix(s, pos),
    decreases s.len() - pos,
{
    if pos < s.len() {
        lemma_prefix_of_success(s, pos + 2 + u16_at(s, pos));
    }
}

/// Records of a prefix follow each other, each inside the stream and long enough for its kind.
pub proof fn lemma_prefix_contiguous(s: Seq<u8>, pos: int, i: int)
    requires
        0 <= pos,
        0 <= i < scan_prefix(s, pos).len(),
    ensures
        pos + 4 * i <= scan_prefix(s, pos)[i].0,
        scan_prefix(s, pos)[i].1 >= 2,
        scan_prefix(s, pos)[i].0 + 2 + scan_prefix(s, pos)[i].1 <= s.len(),
    decreases s.len() - pos,
{
    if i > 0 {
        lemma_prefix_contiguous(s, pos + 2 + u16_at(s, pos), i - 1);
    }
}

/// Bytes that a list of records takes, length prefixes included.
pub open spec fn consumed(rs: Seq<(int, int)>) -> int
    decreases rs.len(),
{
    if rs.len() == 0 {
        0
    } else {
        2 + rs[0].1 + consumed(rs.drop_first())
    }
}

/// One record of a stream: where its length prefix stands and the length it gives.
#[derive(Clone, Copy, Debug, PartialEq, Eq)]
pub struct RecordSpan {
    pub start: usize,
    pub len: usize,
}

impl RecordSpan {
    pub open spec fn view(self) -> (int, int) {
        (self.start as int, self.len as int)
    }
}

pub open spec fn spans_view(v: Seq<RecordSpan>) -> Seq<(int, int)> {
    v.map_values(|r: RecordSpan| r.view())
}

/// Why a record stream could not be walked.
#[derive(Clone, Copy, Debug, PartialEq, Eq)]
pub enum ScanError {
    /// A length prefix, or the record it announces, runs past the end of the stream.
    TruncatedRecord { at: usize },
    /// A record too short to hold its kind.
    RecordTooShort { at: usize },
}

/// The error a walk from `pos` ends in, when it fails: the first record, at or after `pos`,
/// whose length prefix runs past the end gives a truncated record there; one whose length
/// cannot hold its kind gives a short record there; one that runs past the end, a truncated
/// record there.
pub open spec fn scan_error(s: Seq<u8>, pos: int) -> ScanError
    decreases s.len() - pos,
{
    if pos < 0 || pos >= s.len() || pos + 2 > s.len() {
        ScanError::TruncatedRecord { at: pos as usize }
    } else {
        let len = u16_at(s, pos);
        if len < 2 {
            ScanError::RecordTooShort { at: pos as usize }
        } else if pos + 2 + len > s.len() {
            ScanError::TruncatedRecord { at: pos as usize }
        } else {
            scan_error(s, pos + 2 + len)
        }
    }
}

pub fn read_u16(s: &Vec<u8>, i: usize) -> (r: u16)
    requires
        i + 2 <= s.len(),
    ensures
        r as int == u16_at(s@, i as int),
{
    s[i] as u16 + 256 * (s[i + 1] as u16)
}

pub fn read_u32(s: &Vec<u8>, i: usize) -> (r: u32)
    requires
        i + 4 <= s.len(),
    ensures
        r as int == u32_at(s@, i as int),
{
    s[i] as u32 + 256 * (s[i + 1] as u32) + 65536 * (s[i + 2] as u32) + 16777216 * (s[i + 3] as u32)
}

/// Walks the length-prefixed records of `s` from `start` on, up to the end or to the first
/// record that cannot be read. Gives the records before that one, and the error it gives.
pub fn scan_records_prefix(s: &Vec<u8>, start: usize) -> (r: (Vec<RecordSpan>, Option<ScanError>))
    requires
        start <= s@.len(),
    ensures
        spans_view(r.0@) == scan_prefix(s@, start as int),
        r.1 is None <==> scan_spec(s@, start as int) is Some,
        r.1 matches Some(e) ==> e == scan_error(s@, start as int),
{
    let mut out: Vec<RecordSpan> = Vec::new();
    let mut pos: usize = start;
    while pos < s.len()
        invariant
            start <= pos <= s@.len(),
            scan_error(s@, start as int) == scan_error(s@, pos as int),
            scan_prefix(s@, start as int) == spans_view(out@) + scan_prefix(s@, pos as int),
            (scan_spec(s@, start as int) is Some) == (scan_spec(s@, pos as int) is Some),
        decreases s@.len() - pos,
    {
        if s.len() - pos < 2 {
            proof {
                assert(spans_view(out@) + Seq::<(int, int)>::empty() =~= spans_view(out@));
            }
            return (out, Some(ScanError::TruncatedRecord { at: pos }));
        }
        let len = read_u16(s, pos) as usize;
        if len < 2 || s.len() - pos - 2 < len {
            proof {
                assert(spans_view(out@) + Seq::<(int, int)>::empty() =~= spans_view(out@));
            }
            if len < 2 {
                return (out, Some(ScanError::RecordTooShort { at: pos }));
            }
            return (out, Some(ScanError::TruncatedRecord { at: pos }));
        }
        let ghost old_out = out@;
        out.push(RecordSpan { start: pos, len });
        proof {
            assert(spans_view(out@) =~= spans_view(old_out).push((pos as int, len as int)));
            assert(spans_view(old_out) + (seq![(pos as int, len as int)] + scan_prefix(s@, pos + 2 + len))
                =~= spans_view(out@) + scan_prefix(s@, pos + 2 + len));
        }
        pos = pos + 2 + len;
    }
    proof {
        assert(spans_view(out@) + Seq::<(int, int)>::empty() =~= spans_view(out@));
    }
    (out, None)
}

/// Walks the length-prefixed records of `s` from `start` to the end.
pub fn scan_records(s: &Vec<u8>, start: usize) -> (r: Result<Vec<RecordSpan>, ScanError>)
    requires
        start <= s@.len(),
    ensures
        r matches Ok(v) ==> scan_spec(s@, start as int) == Some(spans_view(v@)),
        r is Err <==> scan_spec(s@, start as int) is None,
        r matches Err(e) ==> e == scan_error(s@, start as int),
{
    let (spans, error) = scan_records_prefix(s, start);
    match error {
        Some(e) => Err(e),
        None => {
            proof {
                lemma_prefix_of_success(s@, start as int);
            }
            Ok(spans)
        },
    }
}

/// A walk that succeeds takes up exactly the bytes from its start to the stream's end:
/// no gaps, no overlaps, nothing read past the end.
pub proof fn lemma_scan_consumes_all(s: Seq<u8>, pos: int)
    requires
        scan_spec(s, pos) is Some,
    ensures
        consumed(scan_spec(s, pos).unwrap()) == s.len() - pos,
    decreases s.len() - pos,
{
    if pos < s.len() {
        let len = u16_at(s, pos);
        lemma_scan_consumes_all(s, pos + 2 + len);
        let rs = scan_spec(s, pos).unwrap();
        assert(rs.drop_first() =~= scan_spec(s, pos + 2 + len).unwrap());
    }
}

/// Records follow each other: each starts where the one before it ends.
pub proof fn lemma_scan_contiguous(s: Seq<u8>, pos: int, i: int)
    requires
        scan_spec(s, pos) is Some,
        0 <= i < scan_spec(s, pos).unwrap().len(),
    ensures
        i == 0 ==> scan_spec(s, pos).unwrap()[i].0 == pos,
        i > 0 ==> scan_spec(s, pos).unwrap()[i].0 == scan_spec(s, pos).unwrap()[i - 1].0 + 2
            + scan_spec(s, pos).unwrap()[i - 1].1,
        pos + 4 * i <= scan_spec(s, pos).unwrap()[i].0,
        scan_spec(s, pos).unwrap()[i].1 >= 2,
        scan_spec(s, pos).unwrap()[i].0 + 2 + scan_spec(s, pos).unwrap()[i].1 <= s.len(),
        scan_spec(s, pos).unwrap()[i].1 == u16_at(s, scan_spec(s, pos).unwrap()[i].0),
    decreases s.len() - pos,
{
    let len = u16_at(s, pos);
    if i > 0 {
        lemma_scan_contiguous(s, pos + 2 + len, i - 1);
        if i > 1 {
            lemma_scan_contiguous(s, pos + 2 + len, i - 2);
        }
    }
}

} // verus!
