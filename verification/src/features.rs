//! Feature decoder: maps the raw capability bitfields of the two
//! processor-identification leaves into a flat sequence of named feature
//! flags, one per bit that tests true, in the decoder's fixed scan order.
//!
//! Each leaf exposes two 32-bit registers, and each register has its own
//! fixed scan table of (mask, flag) pairs; the leaf's flags are the
//! low-register flags followed by the high-register ones. Decoding is a pure
//! function of the bitfields: it never fails, and an absent leaf simply
//! contributes no flags.

use vstd::prelude::*;

verus! {

/// One named processor capability, drawn from the decoder's fixed catalog.
#[derive(Clone, Copy, Debug, PartialEq, Eq, Structural)]
pub enum Feature {
    Sse3,
    Pclmulqdq,
    DsArea,
    MonitorMwait,
    Cpl,
    Vmx,
    Smx,
    Eist,
    Tm2,
    Ssse3,
    Cnxtid,
    Fma,
    Cmpxchg16b,
    Pdcm,
    Pcid,
    Dca,
    Sse41,
    Sse42,
    X2apic,
    Movbe,
    Popcnt,
    TscDeadline,
    Aesni,
    Xsave,
    Oxsave,
    Avx,
    F16c,
    Rdrand,
    Fpu,
    Vme,
    De,
    Pse,
    Tsc,
    Msr,
    Pae,
    Mce,
    Cmpxchg8b,
    Apic,
    SysenterSysexit,
    Mtrr,
    Pge,
    Mca,
    Cmov,
    Pat,
    Pse36,
    Psn,
    Clflush,
    Ds,
    Acpi,
    Mmx,
    FxsaveFxstor,
    Sse,
    Sse2,
    Ss,
    Htt,
    Tm,
    Pbe,
    Bmi1,
    Hle,
    Avx2,
    Fdp,
    Smep,
    Bmi2,
    RepMovsbStosb,
    Invpcid,
    Rtm,
    Rdtm,
    FpuCsDsDeprecated,
    Mpx,
    Rdta,
    Rdseed,
    Adx,
    Smap,
    Clflushopt,
    ProcessorTrace,
    Sha,
    Sgx,
    Avx512f,
    Avx512dq,
    Avx512Ifma,
    Avx512pf,
    Avx512er,
    Avx512cd,
    Avx512bw,
    Avx512vl,
    Clwb,
    Prefetchwt1,
    Umip,
    Pku,
    Ospke,
    Rdpid,
    SgxLc,
}

impl Feature {
    /// The catalog identifier of this flag.
    pub open spec fn ident(self) -> Seq<char> {
        match self {
            Feature::Sse3 => "sse3"@,
            Feature::Pclmulqdq => "pclmulqdq"@,
            Feature::DsArea => "ds_area"@,
            Feature::MonitorMwait => "monitor_mwait"@,
            Feature::Cpl => "cpl"@,
            Feature::Vmx => "vmx"@,
            Feature::Smx => "smx"@,
            Feature::Eist => "eist"@,
            Feature::Tm2 => "tm2"@,
            Feature::Ssse3 => "ssse3"@,
            Feature::Cnxtid => "cnxtid"@,
            Feature::Fma => "fma"@,
            Feature::Cmpxchg16b => "cmpxchg16b"@,
            Feature::Pdcm => "pdcm"@,
            Feature::Pcid => "pcid"@,
            Feature::Dca => "dca"@,
            Feature::Sse41 => "sse41"@,
            Feature::Sse42 => "sse42"@,
            Feature::X2apic => "x2apic"@,
            Feature::Movbe => "movbe"@,
            Feature::Popcnt => "popcnt"@,
            Feature::TscDeadline => "tsc_deadline"@,
            Feature::Aesni => "aesni"@,
            Feature::Xsave => "xsave"@,
            Feature::Oxsave => "oxsave"@,
            Feature::Avx => "avx"@,
            Feature::F16c => "f16c"@,
            Feature::Rdrand => "rdrand"@,
            Feature::Fpu => "fpu"@,
            Feature::Vme => "vme"@,
            Feature::De => "de"@,
            Feature::Pse => "pse"@,
            Feature::Tsc => "tsc"@,
            Feature::Msr => "msr"@,
            Feature::Pae => "pae"@,
            Feature::Mce => "mce"@,
            Feature::Cmpxchg8b => "cmpxchg8b"@,
            Feature::Apic => "apic"@,
            Feature::SysenterSysexit => "sysenter_sysexit"@,
            Feature::Mtrr => "mtrr"@,
            Feature::Pge => "pge"@,
            Feature::Mca => "mca"@,
            Feature::Cmov => "cmov"@,
            Feature::Pat => "pat"@,
            Feature::Pse36 => "pse36"@,
            Feature::Psn => "psn"@,
            Feature::Clflush => "clflush"@,
            Feature::Ds => "ds"@,
            Feature::Acpi => "acpi"@,
            Feature::Mmx => "mmx"@,
            Feature::FxsaveFxstor => "fxsave_fxstor"@,
            Feature::Sse => "sse"@,
            Feature::Sse2 => "sse2"@,
            Feature::Ss => "ss"@,
            Feature::Htt => "htt"@,
            Feature::Tm => "tm"@,
            Feature::Pbe => "pbe"@,
            Feature::Bmi1 => "bmi1"@,
            Feature::Hle => "hle"@,
            Feature::Avx2 => "avx2"@,
            Feature::Fdp => "fdp"@,
            Feature::Smep => "smep"@,
            Feature::Bmi2 => "bmi2"@,
            Feature::RepMovsbStosb => "rep_movsb_stosb"@,
            Feature::Invpcid => "invpcid"@,
            Feature::Rtm => "rtm"@,
            Feature::Rdtm => "rdtm"@,
            Feature::FpuCsDsDeprecated => "fpu_cs_ds_deprecated"@,
            Feature::Mpx => "mpx"@,
            Feature::Rdta => "rdta"@,
            Feature::Rdseed => "rdseed"@,
            Feature::Adx => "adx"@,
            Feature::Smap => "smap"@,
            Feature::Clflushopt => "clflushopt"@,
            Feature::ProcessorTrace => "processor_trace"@,
            Feature::Sha => "sha"@,
            Feature::Sgx => "sgx"@,
            Feature::Avx512f => "avx512f"@,
            Feature::Avx512dq => "avx512dq"@,
            Feature::Avx512Ifma => "avx512_ifma"@,
            Feature::Avx512pf => "avx512pf"@,
            Feature::Avx512er => "avx512er"@,
            Feature::Avx512cd => "avx512cd"@,
            Feature::Avx512bw => "avx512bw"@,
            Feature::Avx512vl => "avx512vl"@,
            Feature::Clwb => "clwb"@,
            Feature::Prefetchwt1 => "prefetchwt1"@,
            Feature::Umip => "umip"@,
            Feature::Pku => "pku"@,
            Feature::Ospke => "ospke"@,
            Feature::Rdpid => "rdpid"@,
            Feature::SgxLc => "sgx_lc"@,
        }
    }

    /// The catalog identifier of this flag, as displayed.
    pub fn ident_str(&self) -> (r: &'static str)
        ensures
            r@ == self.ident(),
    {
        match self {
            Feature::Sse3 => "sse3",
            Feature::Pclmulqdq => "pclmulqdq",
            Feature::DsArea => "ds_area",
            Feature::MonitorMwait => "monitor_mwait",
            Feature::Cpl => "cpl",
            Feature::Vmx => "vmx",
            Feature::Smx => "smx",
            Feature::Eist => "eist",
            Feature::Tm2 => "tm2",
            Feature::Ssse3 => "ssse3",
            Feature::Cnxtid => "cnxtid",
            Feature::Fma => "fma",
            Feature::Cmpxchg16b => "cmpxchg16b",
            Feature::Pdcm => "pdcm",
            Feature::Pcid => "pcid",
            Feature::Dca => "dca",
            Feature::Sse41 => "sse41",
            Feature::Sse42 => "sse42",
            Feature::X2apic => "x2apic",
            Feature::Movbe => "movbe",
            Feature::Popcnt => "popcnt",
            Feature::TscDeadline => "tsc_deadline",
            Feature::Aesni => "aesni",
            Feature::Xsave => "xsave",
            Feature::Oxsave => "oxsave",
            Feature::Avx => "avx",
            Feature::F16c => "f16c",
            Feature::Rdrand => "rdrand",
            Feature::Fpu => "fpu",
            Feature::Vme => "vme",
            Feature::De => "de",
            Feature::Pse => "pse",
            Feature::Tsc => "tsc",
            Feature::Msr => "msr",
            Feature::Pae => "pae",
            Feature::Mce => "mce",
            Feature::Cmpxchg8b => "cmpxchg8b",
            Feature::Apic => "apic",
            Feature::SysenterSysexit => "sysenter_sysexit",
            Feature::Mtrr => "mtrr",
            Feature::Pge => "pge",
            Feature::Mca => "mca",
            Feature::Cmov => "cmov",
            Feature::Pat => "pat",
            Feature::Pse36 => "pse36",
            Feature::Psn => "psn",
            Feature::Clflush => "clflush",
            Feature::Ds => "ds",
            Feature::Acpi => "acpi",
            Feature::Mmx => "mmx",
            Feature::FxsaveFxstor => "fxsave_fxstor",
            Feature::Sse => "sse",
            Feature::Sse2 => "sse2",
            Feature::Ss => "ss",
            Feature::Htt => "htt",
            Feature::Tm => "tm",
            Feature::Pbe => "pbe",
            Feature::Bmi1 => "bmi1",
            Feature::Hle => "hle",
            Feature::Avx2 => "avx2",
            Feature::Fdp => "fdp",
            Feature::Smep => "smep",
            Feature::Bmi2 => "bmi2",
            Feature::RepMovsbStosb => "rep_movsb_stosb",
            Feature::Invpcid => "invpcid",
            Feature::Rtm => "rtm",
            Feature::Rdtm => "rdtm",
            Feature::FpuCsDsDeprecated => "fpu_cs_ds_deprecated",
            Feature::Mpx => "mpx",
            Feature::Rdta => "rdta",
            Feature::Rdseed => "rdseed",
            Feature::Adx => "adx",
            Feature::Smap => "smap",
            Feature::Clflushopt => "clflushopt",
            Feature::ProcessorTrace => "processor_trace",
            Feature::Sha => "sha",
            Feature::Sgx => "sgx",
            Feature::Avx512f => "avx512f",
            Feature::Avx512dq => "avx512dq",
            Feature::Avx512Ifma => "avx512_ifma",
            Feature::Avx512pf => "avx512pf",
            Feature::Avx512er => "avx512er",
            Feature::Avx512cd => "avx512cd",
            Feature::Avx512bw => "avx512bw",
            Feature::Avx512vl => "avx512vl",
            Feature::Clwb => "clwb",
            Feature::Prefetchwt1 => "prefetchwt1",
            Feature::Umip => "umip",
            Feature::Pku => "pku",
            Feature::Ospke => "ospke",
            Feature::Rdpid => "rdpid",
            Feature::SgxLc => "sgx_lc",
        }
    }
}

/// The flags of one register's scan table whose mask tests true in `reg`,
/// in table order.
pub open spec fn scan_flags(reg: u32, t: Seq<(u32, Feature)>) -> Seq<Feature>
    decreases t.len(),
{
    if t.len() == 0 {
        Seq::<Feature>::empty()
    } else {
        let rest = scan_flags(reg, t.drop_last());
        if reg & t.last().0 != 0 {
            rest.push(t.last().1)
        } else {
            rest
        }
    }
}

/// Scans one register against one table.
fn scan_register(reg: u32, t: &Vec<(u32, Feature)>) -> (v: Vec<Feature>)
    ensures
        v@ == scan_flags(reg, t@),
{
    let mut v: Vec<Feature> = Vec::new();
    let mut k: usize = 0;
    while k < t.len()
        invariant
            k <= t@.len(),
            v@ == scan_flags(reg, t@.take(k as int)),
        decreases t@.len() - k,
    {
        let e = t[k];
        if reg & e.0 != 0 {
            v.push(e.1);
        }
        proof {
            assert(t@.take(k + 1).drop_last() =~= t@.take(k as int));
            assert(t@.take(k + 1).last() == t@[k as int]);
        }
        k = k + 1;
    }
    proof {
        assert(t@.take(t@.len() as int) =~= t@);
    }
    v
}

/// The scan table of the standard leaf's low register.
pub open spec fn std_low_tbl() -> Seq<(u32, Feature)> {
    seq![
        (1u32 << 0, Feature::Sse3),
        (1u32 << 1, Feature::Pclmulqdq),
        (1u32 << 2, Feature::DsArea),
        (1u32 << 3, Feature::MonitorMwait),
        (1u32 << 4, Feature::Cpl),
        (1u32 << 5, Feature::Vmx),
        (1u32 << 6, Feature::Smx),
        (1u32 << 7, Feature::Eist),
        (1u32 << 8, Feature::Tm2),
        (1u32 << 9, Feature::Ssse3),
        (1u32 << 10, Feature::Cnxtid),
        (1u32 << 12, Feature::Fma),
        (1u32 << 13, Feature::Cmpxchg16b),
        (1u32 << 15, Feature::Pdcm),
        (1u32 << 17, Feature::Pcid),
        (1u32 << 18, Feature::Dca),
        (1u32 << 19, Feature::Sse41),
        (1u32 << 20, Feature::Sse42),
        (1u32 << 21, Feature::X2apic),
        (1u32 << 22, Feature::Movbe),
        (1u32 << 23, Feature::Popcnt),
        (1u32 << 24, Feature::TscDeadline),
        (1u32 << 25, Feature::Aesni),
        (1u32 << 26, Feature::Xsave),
        (1u32 << 27, Feature::Oxsave),
        (1u32 << 28, Feature::Avx),
        (1u32 << 29, Feature::F16c),
        (1u32 << 30, Feature::Rdrand),
    ]
}

fn std_low_table() -> (t: Vec<(u32, Feature)>)
    ensures
        t@ == std_low_tbl(),
{
    let mut t: Vec<(u32, Feature)> = Vec::new();
    t.push((1u32 << 0, Feature::Sse3));
    t.push((1u32 << 1, Feature::Pclmulqdq));
    t.push((1u32 << 2, Feature::DsArea));
    t.push((1u32 << 3, Feature::MonitorMwait));
    t.push((1u32 << 4, Feature::Cpl));
    t.push((1u32 << 5, Feature::Vmx));
    t.push((1u32 << 6, Feature::Smx));
    t.push((1u32 << 7, Feature::Eist));
    t.push((1u32 << 8, Feature::Tm2));
    t.push((1u32 << 9, Feature::Ssse3));
    t.push((1u32 << 10, Feature::Cnxtid));
    t.push((1u32 << 12, Feature::Fma));
    t.push((1u32 << 13, Feature::Cmpxchg16b));
    t.push((1u32 << 15, Feature::Pdcm));
    t.push((1u32 << 17, Feature::Pcid));
    t.push((1u32 << 18, Feature::Dca));
    t.push((1u32 << 19, Feature::Sse41));
    t.push((1u32 << 20, Feature::Sse42));
    t.push((1u32 << 21, Feature::X2apic));
    t.push((1u32 << 22, Feature::Movbe));
    t.push((1u32 << 23, Feature::Popcnt));
    t.push((1u32 << 24, Feature::TscDeadline));
    t.push((1u32 << 25, Feature::Aesni));
    t.push((1u32 << 26, Feature::Xsave));
    t.push((1u32 << 27, Feature::Oxsave));
    t.push((1u32 << 28, Feature::Avx));
    t.push((1u32 << 29, Feature::F16c));
    t.push((1u32 << 30, Feature::Rdrand));
    proof { assert(t@ =~= std_low_tbl()); }
    t
}

/// The scan table of the standard leaf's high register.
pub open spec fn std_high_tbl() -> Seq<(u32, Feature)> {
    seq![
        (1u32 << 0, Feature::Fpu),
        (1u32 << 1, Feature::Vme),
        (1u32 << 2, Feature::De),
        (1u32 << 3, Feature::Pse),
        (1u32 << 4, Feature::Tsc),
        (1u32 << 5, Feature::Msr),
        (1u32 << 6, Feature::Pae),
        (1u32 << 7, Feature::Mce),
        (1u32 << 8, Feature::Cmpxchg8b),
        (1u32 << 9, Feature::Apic),
        (1u32 << 11, Feature::SysenterSysexit),
        (1u32 << 12, Feature::Mtrr),
        (1u32 << 13, Feature::Pge),
        (1u32 << 14, Feature::Mca),
        (1u32 << 15, Feature::Cmov),
        (1u32 << 16, Feature::Pat),
        (1u32 << 17, Feature::Pse36),
        (1u32 << 18, Feature::Psn),
        (1u32 << 19, Feature::Clflush),
        (1u32 << 21, Feature::Ds),
        (1u32 << 22, Feature::Acpi),
        (1u32 << 23, Feature::Mmx),
        (1u32 << 24, Feature::FxsaveFxstor),
        (1u32 << 25, Feature::Sse),
        (1u32 << 26, Feature::Sse2),
        (1u32 << 27, Feature::Ss),
        (1u32 << 28, Feature::Htt),
        (1u32 << 29, Feature::Tm),
        (1u32 << 31, Feature::Pbe),
    ]
}

fn std_high_table() -> (t: Vec<(u32, Feature)>)
    ensures
        t@ == std_high_tbl(),
{
    let mut t: Vec<(u32, Feature)> = Vec::new();
    t.push((1u32 << 0, Feature::Fpu));
    t.push((1u32 << 1, Feature::Vme));
    t.push((1u32 << 2, Feature::De));
    t.push((1u32 << 3, Feature::Pse));
    t.push((1u32 << 4, Feature::Tsc));
    t.push((1u32 << 5, Feature::Msr));
    t.push((1u32 << 6, Feature::Pae));
    t.push((1u32 << 7, Feature::Mce));
    t.push((1u32 << 8, Feature::Cmpxchg8b));
    t.push((1u32 << 9, Feature::Apic));
    t.push((1u32 << 11, Feature::SysenterSysexit));
    t.push((1u32 << 12, Feature::Mtrr));
    t.push((1u32 << 13, Feature::Pge));
    t.push((1u32 << 14, Feature::Mca));
    t.push((1u32 << 15, Feature::Cmov));
    t.push((1u32 << 16, Feature::Pat));
    t.push((1u32 << 17, Feature::Pse36));
    t.push((1u32 << 18, Feature::Psn));
    t.push((1u32 << 19, Feature::Clflush));
    t.push((1u32 << 21, Feature::Ds));
    t.push((1u32 << 22, Feature::Acpi));
    t.push((1u32 << 23, Feature::Mmx));
    t.push((1u32 << 24, Feature::FxsaveFxstor));
    t.push((1u32 << 25, Feature::Sse));
    t.push((1u32 << 26, Feature::Sse2));
    t.push((1u32 << 27, Feature::Ss));
    t.push((1u32 << 28, Feature::Htt));
    t.push((1u32 << 29, Feature::Tm));
    t.push((1u32 << 31, Feature::Pbe));
    proof { assert(t@ =~= std_high_tbl()); }
    t
}

/// The scan table of the extended leaf's low register.
pub open spec fn ext_low_tbl() -> Seq<(u32, Feature)> {
    seq![
        (1u32 << 3, Feature::Bmi1),
        (1u32 << 4, Feature::Hle),
        (1u32 << 5, Feature::Avx2),
        (1u32 << 6, Feature::Fdp),
        (1u32 << 7, Feature::Smep),
        (1u32 << 8, Feature::Bmi2),
        (1u32 << 9, Feature::RepMovsbStosb),
        (1u32 << 10, Feature::Invpcid),
        (1u32 << 11, Feature::Rtm),
        (1u32 << 12, Feature::Rdtm),
        (1u32 << 13, Feature::FpuCsDsDeprecated),
        (1u32 << 14, Feature::Mpx),
        (1u32 << 15, Feature::Rdta),
        (1u32 << 18, Feature::Rdseed),
        (1u32 << 19, Feature::Adx),
        (1u32 << 20, Feature::Smap),
        (1u32 << 23, Feature::Clflushopt),
        (1u32 << 25, Feature::ProcessorTrace),
        (1u32 << 29, Feature::Sha),
        (1u32 << 2, Feature::Sgx),
        (1u32 << 16, Feature::Avx512f),
        (1u32 << 17, Feature::Avx512dq),
        (1u32 << 21, Feature::Avx512Ifma),
        (1u32 << 26, Feature::Avx512pf),
        (1u32 << 27, Feature::Avx512er),
        (1u32 << 28, Feature::Avx512cd),
        (1u32 << 30, Feature::Avx512bw),
        (1u32 << 31, Feature::Avx512vl),
        (1u32 << 24, Feature::Clwb),
    ]
}

fn ext_low_table() -> (t: Vec<(u32, Feature)>)
    ensures
        t@ == ext_low_tbl(),
{
    let mut t: Vec<(u32, Feature)> = Vec::new();
    t.push((1u32 << 3, Feature::Bmi1));
    t.push((1u32 << 4, Feature::Hle));
    t.push((1u32 << 5, Feature::Avx2));
    t.push((1u32 << 6, Feature::Fdp));
    t.push((1u32 << 7, Feature::Smep));
    t.push((1u32 << 8, Feature::Bmi2));
    t.push((1u32 << 9, Feature::RepMovsbStosb));
    t.push((1u32 << 10, Feature::Invpcid));
    t.push((1u32 << 11, Feature::Rtm));
    t.push((1u32 << 12, Feature::Rdtm));
    t.push((1u32 << 13, Feature::FpuCsDsDeprecated));
    t.push((1u32 << 14, Feature::Mpx));
    t.push((1u32 << 15, Feature::Rdta));
    t.push((1u32 << 18, Feature::Rdseed));
    t.push((1u32 << 19, Feature::Adx));
    t.push((1u32 << 20, Feature::Smap));
    t.push((1u32 << 23, Feature::Clflushopt));
    t.push((1u32 << 25, Feature::ProcessorTrace));
    t.push((1u32 << 29, Feature::Sha));
    t.push((1u32 << 2, Feature::Sgx));
    t.push((1u32 << 16, Feature::Avx512f));
    t.push((1u32 << 17, Feature::Avx512dq));
    t.push((1u32 << 21, Feature::Avx512Ifma));
    t.push((1u32 << 26, Feature::Avx512pf));
    t.push((1u32 << 27, Feature::Avx512er));
    t.push((1u32 << 28, Feature::Avx512cd));
    t.push((1u32 << 30, Feature::Avx512bw));
    t.push((1u32 << 31, Feature::Avx512vl));
    t.push((1u32 << 24, Feature::Clwb));
    proof { assert(t@ =~= ext_low_tbl()); }
    t
}

/// The scan table of the extended leaf's high register.
pub open spec fn ext_high_tbl() -> Seq<(u32, Feature)> {
    seq![
        (1u32 << 0, Feature::Prefetchwt1),
        (1u32 << 2, Feature::Umip),
        (1u32 << 3, Feature::Pku),
        (1u32 << 4, Feature::Ospke),
        (1u32 << 22, Feature::Rdpid),
        (1u32 << 30, Feature::SgxLc),
    ]
}

fn ext_high_table() -> (t: Vec<(u32, Feature)>)
    ensures
        t@ == ext_high_tbl(),
{
    let mut t: Vec<(u32, Feature)> = Vec::new();
    t.push((1u32 << 0, Feature::Prefetchwt1));
    t.push((1u32 << 2, Feature::Umip));
    t.push((1u32 << 3, Feature::Pku));
    t.push((1u32 << 4, Feature::Ospke));
    t.push((1u32 << 22, Feature::Rdpid));
    t.push((1u32 << 30, Feature::SgxLc));
    proof { assert(t@ =~= ext_high_tbl()); }
    t
}

/// The flags of the standard feature leaf, in scan order.
pub open spec fn standard_features(ecx: u32, edx: u32) -> Seq<Feature> {
    scan_flags(ecx, std_low_tbl()) + scan_flags(edx, std_high_tbl())
}

/// The flags of the extended feature leaf, in scan order.
pub open spec fn extended_features(ebx: u32, ecx: u32) -> Seq<Feature> {
    scan_flags(ebx, ext_low_tbl()) + scan_flags(ecx, ext_high_tbl())
}

/// Decodes the standard feature leaf.
pub fn decode_standard(ecx: u32, edx: u32) -> (v: Vec<Feature>)
    ensures
        v@ == standard_features(ecx, edx),
{
    let mut v = scan_register(ecx, &std_low_table());
    let mut hi = scan_register(edx, &std_high_table());
    v.append(&mut hi);
    v
}

/// Decodes the extended feature leaf.
pub fn decode_extended(ebx: u32, ecx: u32) -> (v: Vec<Feature>)
    ensures
        v@ == extended_features(ebx, ecx),
{
    let mut v = scan_register(ebx, &ext_low_table());
    let mut hi = scan_register(ecx, &ext_high_table());
    v.append(&mut hi);
    v
}

/// The full decoded flag sequence of a probe: each leaf is optional, and an
/// absent leaf contributes no flags.
pub open spec fn features_of(std_leaf: Option<(u32, u32)>, ext_leaf: Option<(u32, u32)>) -> Seq<
    Feature,
> {
    (match std_leaf {
        Some(l) => standard_features(l.0, l.1),
        None => Seq::<Feature>::empty(),
    }) + (match ext_leaf {
        Some(l) => extended_features(l.0, l.1),
        None => Seq::<Feature>::empty(),
    })
}

/// Decodes both leaves of a probe. Never fails: an unsupported leaf is
/// reported as `None` and contributes nothing.
pub fn decode_features(std_leaf: Option<(u32, u32)>, ext_leaf: Option<(u32, u32)>) -> (v: Vec<
    Feature,
>)
    ensures
        v@ == features_of(std_leaf, ext_leaf),
{
    let mut v: Vec<Feature> = match std_leaf {
        Some(l) => decode_standard(l.0, l.1),
        None => Vec::new(),
    };
    let mut e: Vec<Feature> = match ext_leaf {
        Some(l) => decode_extended(l.0, l.1),
        None => Vec::new(),
    };
    v.append(&mut e);
    assert(v@ =~= features_of(std_leaf, ext_leaf));
    v
}

/// Decoding is deterministic and idempotent: two decodings of the same raw
/// bitfields yield identical flag sequences.
pub proof fn lemma_decode_deterministic(
    a: Seq<Feature>,
    b: Seq<Feature>,
    std_leaf: Option<(u32, u32)>,
    ext_leaf: Option<(u32, u32)>,
)
    requires
        a == features_of(std_leaf, ext_leaf),
        b == features_of(std_leaf, ext_leaf),
    ensures
        a == b,
{
}

/// When both identification leaves are absent, the decoder yields the empty
/// sequence rather than failing.
pub proof fn lemma_absent_leaves_empty()
    ensures
        features_of(None, None) == Seq::<Feature>::empty(),
{
    assert(features_of(None, None) =~= Seq::<Feature>::empty());
}

} // verus!
