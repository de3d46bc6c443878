//! Cache geometry: turns raw cache-parameter records from the
//! processor-identification source into sized, labelled cache descriptors.
//!
//! Each record carries the four multiplicative size parameters plus a level
//! and a raw type tag; the descriptor's size is exactly the product
//! `associativity * partitions * line_size * sets`, and its display label is
//! `"L{level} {kind} Cache"`.

use vstd::prelude::*;
use vstd::string::StringExecFns;

verus! {

/// The raw cache-type tag as the identification source reports it.
#[derive(Clone, Copy, Debug, PartialEq, Eq, Structural)]
pub enum RawCacheTag {
    Data,
    Instruction,
    Unified,
    Null,
    Reserved,
}

/// The kind a descriptor exposes: every tag other than the three known ones
/// maps to `Unknown`.
#[derive(Clone, Copy, Debug, PartialEq, Eq, Structural)]
pub enum CacheKind {
    Data,
    Instruction,
    Unified,
    Unknown,
}

/// One raw cache-parameter record.
#[derive(Clone, Copy, Debug, PartialEq, Eq, Structural)]
pub struct CacheRecord {
    pub level: u8,
    pub tag: RawCacheTag,
    pub associativity: u64,
    pub partitions: u64,
    pub line_size: u64,
    pub sets: u64,
}

impl CacheRecord {
    /// The bounds the identification source's register encoding admits:
    /// associativity and partitions are 10-bit fields plus one, the line size
    /// a 12-bit field plus one, and the set count a 32-bit register plus one.
    pub open spec fn wf(self) -> bool {
        &&& self.associativity <= 0x400
        &&& self.partitions <= 0x400
        &&& self.line_size <= 0x1000
        &&& self.sets <= 0x1_0000_0000
    }
}

/// A named, sized cache descriptor.
#[derive(Clone, Debug)]
pub struct CacheDescriptor {
    pub level: u8,
    pub kind: CacheKind,
    pub size_bytes: u128,
    pub label: String,
}

pub open spec fn kind_of_tag(t: RawCacheTag) -> CacheKind {
    match t {
        RawCacheTag::Data => CacheKind::Data,
        RawCacheTag::Instruction => CacheKind::Instruction,
        RawCacheTag::Unified => CacheKind::Unified,
        _ => CacheKind::Unknown,
    }
}

pub open spec fn size_of_record(r: CacheRecord) -> int {
    r.associativity * r.partitions * r.line_size * r.sets
}

pub open spec fn digit_char(d: nat) -> char {
    if d == 0 {
        '0'
    } else if d == 1 {
        '1'
    } else if d == 2 {
        '2'
    } else if d == 3 {
        '3'
    } else if d == 4 {
        '4'
    } else if d == 5 {
        '5'
    } else if d == 6 {
        '6'
    } else if d == 7 {
        '7'
    } else if d == 8 {
        '8'
    } else {
        '9'
    }
}

/// The decimal digits of `n`, most significant first.
pub open spec fn dec_digits(n: nat) -> Seq<char>
    decreases n,
{
    if n < 10 {
        seq![digit_char(n)]
    } else {
        dec_digits(n / 10) + seq![digit_char(n % 10)]
    }
}

pub open spec fn kind_label(k: CacheKind) -> Seq<char> {
    match k {
        CacheKind::Data => "Data"@,
        CacheKind::Instruction => "Instruction"@,
        CacheKind::Unified => "Unified"@,
        CacheKind::Unknown => "Unknown"@,
    }
}

/// The display label of a descriptor: `"L{level} {kind} Cache"`.
pub open spec fn label_of(level: u8, kind: CacheKind) -> Seq<char> {
    "L"@ + dec_digits(level as nat) + " "@ + kind_label(kind) + " Cache"@
}

fn digit_str(d: u8) -> (r: &'static str)
    requires
        d < 10,
    ensures
        r@ == seq![digit_char(d as nat)],
{
    proof {
        reveal_strlit("0");
        reveal_strlit("1");
        reveal_strlit("2");
        reveal_strlit("3");
        reveal_strlit("4");
        reveal_strlit("5");
        reveal_strlit("6");
        reveal_strlit("7");
        reveal_strlit("8");
        reveal_strlit("9");
    }
    let r: &'static str = match d {
        0 => "0",
        1 => "1",
        2 => "2",
        3 => "3",
        4 => "4",
        5 => "5",
        6 => "6",
        7 => "7",
        8 => "8",
        _ => "9",
    };
    proof {
        assert(r@ =~= seq![digit_char(d as nat)]);
    }
    r
}

/// The decimal rendering of `n`.
pub fn dec_string(n: u8) -> (r: String)
    ensures
        r@ == dec_digits(n as nat),
    decreases n,
{
    if n < 10 {
        digit_str(n).to_owned()
    } else {
        let mut s = dec_string(n / 10);
        s.append(digit_str(n % 10));
        s
    }
}

fn kind_str(k: CacheKind) -> (r: &'static str)
    ensures
        r@ == kind_label(k),
{
    match k {
        CacheKind::Data => "Data",
        CacheKind::Instruction => "Instruction",
        CacheKind::Unified => "Unified",
        CacheKind::Unknown => "Unknown",
    }
}

/// Builds the display label `"L{level} {kind} Cache"`.
pub fn make_label(level: u8, kind: CacheKind) -> (r: String)
    ensures
        r@ == label_of(level, kind),
{
    let mut s = String::from_str("L");
    s.append(dec_string(level).as_str());
    s.append(" ");
    s.append(kind_str(kind));
    s.append(" Cache");
    s
}

/// What the calculator promises of a descriptor built from a record: the size
/// is exactly the product of the four size parameters, and the label matches
/// the level and kind.
pub open spec fn descriptor_matches(d: CacheDescriptor, r: CacheRecord) -> bool {
    &&& d.level == r.level
    &&& d.kind == kind_of_tag(r.tag)
    &&& d.size_bytes == size_of_record(r)
    &&& d.label@ == label_of(r.level, kind_of_tag(r.tag))
}

/// One descriptor from one raw record.
pub fn descriptor_for(r: &CacheRecord) -> (d: CacheDescriptor)
    requires
        r.wf(),
    ensures
        descriptor_matches(d, *r),
{
    proof {
        assert(r.associativity * r.partitions <= 0x400 * 0x400) by (nonlinear_arith)
            requires
                r.associativity <= 0x400,
                r.partitions <= 0x400,
        ;
        assert((r.associativity * r.partitions) * r.line_size <= 0x100000 * 0x1000)
            by (nonlinear_arith)
            requires
                r.associativity * r.partitions <= 0x100000,
                r.line_size <= 0x1000,
        ;
        assert(((r.associativity * r.partitions) * r.line_size) * r.sets <= 0x100000000 * 0x1_0000_0000)
            by (nonlinear_arith)
            requires
                (r.associativity * r.partitions) * r.line_size <= 0x100000000,
                r.sets <= 0x1_0000_0000,
        ;
    }
    let size: u128 = (r.associativity as u128) * (r.partitions as u128) * (r.line_size as u128)
        * (r.sets as u128);
    let kind = match r.tag {
        RawCacheTag::Data => CacheKind::Data,
        RawCacheTag::Instruction => CacheKind::Instruction,
        RawCacheTag::Unified => CacheKind::Unified,
        _ => CacheKind::Unknown,
    };
    let label = make_label(r.level, kind);
    CacheDescriptor { level: r.level, kind, size_bytes: size, label }
}

/// One descriptor per record, in discovery order.
pub fn descriptors_of(records: &Vec<CacheRecord>) -> (ds: Vec<CacheDescriptor>)
    requires
        forall|i: int| 0 <= i < records@.len() ==> records@[i].wf(),
    ensures
        ds@.len() == records@.len(),
        forall|i: int|
            0 <= i < records@.len() ==> #[trigger] descriptor_matches(ds@[i], records@[i]),
{
    let mut ds: Vec<CacheDescriptor> = Vec::new();
    let mut k: usize = 0;
    while k < records.len()
        invariant
            k <= records@.len(),
            ds@.len() == k,
            forall|i: int| 0 <= i < records@.len() ==> records@[i].wf(),
            forall|i: int| 0 <= i < k ==> #[trigger] descriptor_matches(ds@[i], records@[i]),
        decreases records@.len() - k,
    {
        let d = descriptor_for(&records[k]);
        ds.push(d);
        k = k + 1;
    }
    ds
}

/// What the calculator yields for a whole probe: when the identification
/// source reports no cache-parameter leaf the result is empty, and otherwise
/// one matching descriptor per record, in discovery order.
pub open spec fn descriptors_match_probe(
    records: Option<Vec<CacheRecord>>,
    ds: Seq<CacheDescriptor>,
) -> bool {
    match records {
        None => ds.len() == 0,
        Some(rs) => ds.len() == rs@.len() && forall|i: int|
            0 <= i < rs@.len() ==> #[trigger] descriptor_matches(ds[i], rs@[i]),
    }
}

/// Geometry computation never fails: when the identification source reports
/// no cache-parameter leaf, the calculator yields the empty sequence.
pub fn descriptors_from_probe(records: &Option<Vec<CacheRecord>>) -> (ds: Vec<CacheDescriptor>)
    requires
        records is Some ==> forall|i: int|
            0 <= i < records.unwrap()@.len() ==> records.unwrap()@[i].wf(),
    ensures
        descriptors_match_probe(*records, ds@),
{
    match records {
        None => Vec::new(),
        Some(rs) => descriptors_of(rs),
    }
}

} // verus!
