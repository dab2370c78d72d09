//! The fixed catalogue of checksum algorithms: six of 64 bits and twelve of
//! 32 bits, each in a stable order.

use vstd::prelude::*;
use vstd::string::StringExecFns;
use crate::errors::Error;

verus! {

/// A 64-bit checksum algorithm of the catalogue.
#[derive(Clone, Copy, Debug, PartialEq, Eq, Structural)]
pub enum Crc64Algorithm {
    Ecma182,
    GoIso,
    Ms,
    Redis,
    We,
    Xz,
}

/// A 32-bit checksum algorithm of the catalogue.
#[derive(Clone, Copy, Debug, PartialEq, Eq, Structural)]
pub enum Crc32Algorithm {
    Aixm,
    Autosar,
    Base91D,
    Bzip2,
    CdRomEdc,
    Cksum,
    Iscsi,
    IsoHdlc,
    Jamcrc,
    Mef,
    Mpeg2,
    Xfer,
}

/// The 64-bit algorithms, in catalogue order.
pub open spec fn wide_catalogue() -> Seq<Crc64Algorithm> {
    seq![
        Crc64Algorithm::Ecma182,
        Crc64Algorithm::GoIso,
        Crc64Algorithm::Ms,
        Crc64Algorithm::Redis,
        Crc64Algorithm::We,
        Crc64Algorithm::Xz,
    ]
}

/// The 32-bit algorithms, in catalogue order.
pub open spec fn narrow_catalogue() -> Seq<Crc32Algorithm> {
    seq![
        Crc32Algorithm::Aixm,
        Crc32Algorithm::Autosar,
        Crc32Algorithm::Base91D,
        Crc32Algorithm::Bzip2,
        Crc32Algorithm::CdRomEdc,
        Crc32Algorithm::Cksum,
        Crc32Algorithm::Iscsi,
        Crc32Algorithm::IsoHdlc,
        Crc32Algorithm::Jamcrc,
        Crc32Algorithm::Mef,
        Crc32Algorithm::Mpeg2,
        Crc32Algorithm::Xfer,
    ]
}

impl Crc64Algorithm {
    /// The name under which the catalogue lists the algorithm.
    pub open spec fn spec_name(self) -> Seq<char> {
        match self {
            Crc64Algorithm::Ecma182 => "ECMA_182"@,
            Crc64Algorithm::GoIso => "GO_ISO"@,
            Crc64Algorithm::Ms => "MS"@,
            Crc64Algorithm::Redis => "REDIS"@,
            Crc64Algorithm::We => "WE"@,
            Crc64Algorithm::Xz => "XZ"@,
        }
    }

    /// The name under which the catalogue lists the algorithm.
    pub fn name(&self) -> (text: &'static str)
        ensures
            text@ == self.spec_name(),
    {
        match self {
            Crc64Algorithm::Ecma182 => "ECMA_182",
            Crc64Algorithm::GoIso => "GO_ISO",
            Crc64Algorithm::Ms => "MS",
            Crc64Algorithm::Redis => "REDIS",
            Crc64Algorithm::We => "WE",
            Crc64Algorithm::Xz => "XZ",
        }
    }

    /// The checksum that the algorithm gives for `data`.
    pub fn checksum(&self, data: &[u8]) -> (digest: u64)
        ensures
            digest == crc_64_value(*self, data@),
    {
        checksum_64(*self, data)
    }
}

impl Crc32Algorithm {
    /// The name under which the catalogue lists the algorithm.
    pub open spec fn spec_name(self) -> Seq<char> {
        match self {
            Crc32Algorithm::Aixm => "AIXM"@,
            Crc32Algorithm::Autosar => "AUTOSAR"@,
            Crc32Algorithm::Base91D => "BASE91_D"@,
            Crc32Algorithm::Bzip2 => "BZIP2"@,
            Crc32Algorithm::CdRomEdc => "CD_ROM_EDC"@,
            Crc32Algorithm::Cksum => "CKSUM"@,
            Crc32Algorithm::Iscsi => "ISCSI"@,
            Crc32Algorithm::IsoHdlc => "ISO_HDLC"@,
            Crc32Algorithm::Jamcrc => "JAMCRC"@,
            Crc32Algorithm::Mef => "MEF"@,
            Crc32Algorithm::Mpeg2 => "MPEG_2"@,
            Crc32Algorithm::Xfer => "XFER"@,
        }
    }

    /// The name under which the catalogue lists the algorithm.
    pub fn name(&self) -> (text: &'static str)
        ensures
            text@ == self.spec_name(),
    {
        match self {
            Crc32Algorithm::Aixm => "AIXM",
            Crc32Algorithm::Autosar => "AUTOSAR",
            Crc32Algorithm::Base91D => "BASE91_D",
            Crc32Algorithm::Bzip2 => "BZIP2",
            Crc32Algorithm::CdRomEdc => "CD_ROM_EDC",
            Crc32Algorithm::Cksum => "CKSUM",
            Crc32Algorithm::Iscsi => "ISCSI",
            Crc32Algorithm::IsoHdlc => "ISO_HDLC",
            Crc32Algorithm::Jamcrc => "JAMCRC",
            Crc32Algorithm::Mef => "MEF",
            Crc32Algorithm::Mpeg2 => "MPEG_2",
            Crc32Algorithm::Xfer => "XFER",
        }
    }

    /// The checksum that the algorithm gives for `data`.
    pub fn checksum(&self, data: &[u8]) -> (digest: u32)
        ensures
            digest == crc_32_value(*self, data@),
    {
        checksum_32(*self, data)
    }
}

/// The names of the 64-bit algorithms, in catalogue order.
pub fn crc_64_algorithms() -> (names: Vec<String>)
    ensures
        names@.len() == wide_catalogue().len(),
        forall|i: int|
            0 <= i < names@.len() ==> (#[trigger] names@[i])@ == wide_catalogue()[i].spec_name(),
{
    vec![
        Crc64Algorithm::Ecma182.name().to_string(),
        Crc64Algorithm::GoIso.name().to_string(),
        Crc64Algorithm::Ms.name().to_string(),
        Crc64Algorithm::Redis.name().to_string(),
        Crc64Algorithm::We.name().to_string(),
        Crc64Algorithm::Xz.name().to_string(),
    ]
}

/// The names of the 32-bit algorithms, in catalogue order.
pub fn crc_32_algorithms() -> (names: Vec<String>)
    ensures
        names@.len() == narrow_catalogue().len(),
        forall|i: int|
            0 <= i < names@.len() ==> (#[trigger] names@[i])@ == narrow_catalogue()[i].spec_name(),
{
    vec![
        Crc32Algorithm::Aixm.name().to_string(),
        Crc32Algorithm::Autosar.name().to_string(),
        Crc32Algorithm::Base91D.name().to_string(),
        Crc32Algorithm::Bzip2.name().to_string(),
        Crc32Algorithm::CdRomEdc.name().to_string(),
        Crc32Algorithm::Cksum.name().to_string(),
        Crc32Algorithm::Iscsi.name().to_string(),
        Crc32Algorithm::IsoHdlc.name().to_string(),
        Crc32Algorithm::Jamcrc.name().to_string(),
        Crc32Algorithm::Mef.name().to_string(),
        Crc32Algorithm::Mpeg2.name().to_string(),
        Crc32Algorithm::Xfer.name().to_string(),
    ]
}

/// The checksum that a 64-bit algorithm of the catalogue gives for `data`.
pub uninterp spec fn crc_64_value(algorithm: Crc64Algorithm, data: Seq<u8>) -> u64;

/// The checksum that a 32-bit algorithm of the catalogue gives for `data`.
pub uninterp spec fn crc_32_value(algorithm: Crc32Algorithm, data: Seq<u8>) -> u32;

/// Runs `crc::Crc::<u64>::new(..).checksum(..)` on `data`, with the constant
/// of the `crc` crate that bears the algorithm's name (`CRC_64_ECMA_182` for
/// `Ecma182`, and so on). The result depends on the algorithm and the bytes
/// alone; it is what `crc_64_value` stands for.
#[verifier::external_body]
fn checksum_64(algorithm: Crc64Algorithm, data: &[u8]) -> (digest: u64)
    ensures
        digest == crc_64_value(algorithm, data@),
{
    crc::Crc::<u64>::new(match algorithm {
        Crc64Algorithm::Ecma182 => &crc::CRC_64_ECMA_182,
        Crc64Algorithm::GoIso => &crc::CRC_64_GO_ISO,
        Crc64Algorithm::Ms => &crc::CRC_64_MS,
        Crc64Algorithm::Redis => &crc::CRC_64_REDIS,
        Crc64Algorithm::We => &crc::CRC_64_WE,
        Crc64Algorithm::Xz => &crc::CRC_64_XZ,
    }).checksum(data)
}

/// Runs `crc::Crc::<u32>::new(..).checksum(..)` on `data`, with the constant
/// of the `crc` crate that bears the algorithm's name (`CRC_32_AIXM` for
/// `Aixm`, and so on). The result depends on the algorithm and the bytes
/// alone; it is what `crc_32_value` stands for.
#[verifier::external_body]
fn checksum_32(algorithm: Crc32Algorithm, data: &[u8]) -> (digest: u32)
    ensures
        digest == crc_32_value(algorithm, data@),
{
    crc::Crc::<u32>::new(match algorithm {
        Crc32Algorithm::Aixm => &crc::CRC_32_AIXM,
        Crc32Algorithm::Autosar => &crc::CRC_32_AUTOSAR,
        Crc32Algorithm::Base91D => &crc::CRC_32_BASE91_D,
        Crc32Algorithm::Bzip2 => &crc::CRC_32_BZIP2,
        Crc32Algorithm::CdRomEdc => &crc::CRC_32_CD_ROM_EDC,
        Crc32Algorithm::Cksum => &crc::CRC_32_CKSUM,
        Crc32Algorithm::Iscsi => &crc::CRC_32_ISCSI,
        Crc32Algorithm::IsoHdlc => &crc::CRC_32_ISO_HDLC,
        Crc32Algorithm::Jamcrc => &crc::CRC_32_JAMCRC,
        Crc32Algorithm::Mef => &crc::CRC_32_MEF,
        Crc32Algorithm::Mpeg2 => &crc::CRC_32_MPEG_2,
        Crc32Algorithm::Xfer => &crc::CRC_32_XFER,
    }).checksum(data)
}

/// No two 64-bit algorithms share a name.
pub proof fn lemma_wide_names_distinct(a: Crc64Algorithm, b: Crc64Algorithm)
    requires
        a.spec_name() == b.spec_name(),
    ensures
        a == b,
{
    reveal_strlit("ECMA_182");
    reveal_strlit("GO_ISO");
    reveal_strlit("MS");
    reveal_strlit("REDIS");
    reveal_strlit("WE");
    reveal_strlit("XZ");
    let first = a.spec_name()[0];
    let length = a.spec_name().len();
    assert(b.spec_name()[0] == first && b.spec_name().len() == length);
}

/// No two 32-bit algorithms share a name.
pub proof fn lemma_narrow_names_distinct(a: Crc32Algorithm, b: Crc32Algorithm)
    requires
        a.spec_name() == b.spec_name(),
    ensures
        a == b,
{
    reveal_strlit("AIXM");
    reveal_strlit("AUTOSAR");
    reveal_strlit("BASE91_D");
    reveal_strlit("BZIP2");
    reveal_strlit("CD_ROM_EDC");
    reveal_strlit("CKSUM");
    reveal_strlit("ISCSI");
    reveal_strlit("ISO_HDLC");
    reveal_strlit("JAMCRC");
    reveal_strlit("MEF");
    reveal_strlit("MPEG_2");
    reveal_strlit("XFER");
    let first = a.spec_name()[0];
    let second = a.spec_name()[1];
    let third = a.spec_name()[2];
    assert(b.spec_name()[0] == first && b.spec_name()[1] == second && b.spec_name()[2] == third);
}

/// The text that reports an unknown algorithm name: `prefix` followed by the
/// name that was asked for.
fn unknown_algorithm(prefix: &str, name: &str) -> (error: Error)
    ensures
        error matches Error::UnknownAlgorithm(cause) && cause@ == prefix@ + name@,
{
    let mut cause = prefix.to_string();
    cause.append(name);
    Error::UnknownAlgorithm(cause)
}

/// Looks `name` up among the 64-bit algorithms of the catalogue; the
/// comparison is exact, letter for letter.
///
/// Where an algorithm has the name it is returned, and no other has that
/// name. The look-up fails with `UnknownAlgorithm` exactly when no 64-bit
/// algorithm has the name; the error then reads `unknown CRC64 algorithm `
/// and the name. This is the way to test a name before `crc_64_algorithm`
/// is called with it.
pub fn find_crc_64_algorithm(name: &str) -> (found: Result<Crc64Algorithm, Error>)
    ensures
        match found {
            Ok(algorithm) => {
                &&& algorithm.spec_name() == name@
                &&& forall|other: Crc64Algorithm| other.spec_name() == name@ ==> other == algorithm
            },
            Err(error) => {
                &&& forall|algorithm: Crc64Algorithm| algorithm.spec_name() != name@
                &&& error matches Error::UnknownAlgorithm(cause)
                &&& cause@ == "unknown CRC64 algorithm "@ + name@
            },
        },
{
    let found = if name.eq("ECMA_182") {
        Ok(Crc64Algorithm::Ecma182)
    } else if name.eq("GO_ISO") {
        Ok(Crc64Algorithm::GoIso)
    } else if name.eq("MS") {
        Ok(Crc64Algorithm::Ms)
    } else if name.eq("REDIS") {
        Ok(Crc64Algorithm::Redis)
    } else if name.eq("WE") {
        Ok(Crc64Algorithm::We)
    } else if name.eq("XZ") {
        Ok(Crc64Algorithm::Xz)
    } else {
        Err(unknown_algorithm("unknown CRC64 algorithm ", name))
    };
    proof {
        if let Ok(algorithm) = found {
            assert forall|other: Crc64Algorithm| other.spec_name() == name@ implies other
                == algorithm by {
                lemma_wide_names_distinct(other, algorithm);
            }
        }
    }
    found
}

/// Looks `name` up among the 32-bit algorithms of the catalogue; the
/// comparison is exact, letter for letter.
///
/// Where an algorithm has the name it is returned, and no other has that
/// name. The look-up fails with `UnknownAlgorithm` exactly when no 32-bit
/// algorithm has the name; the error then reads `unknown CRC32 algorithm `
/// and the name. This is the way to test a name before `crc_32_algorithm`
/// is called with it.
pub fn find_crc_32_algorithm(name: &str) -> (found: Result<Crc32Algorithm, Error>)
    ensures
        match found {
            Ok(algorithm) => {
                &&& algorithm.spec_name() == name@
                &&& forall|other: Crc32Algorithm| other.spec_name() == name@ ==> other == algorithm
            },
            Err(error) => {
                &&& forall|algorithm: Crc32Algorithm| algorithm.spec_name() != name@
                &&& error matches Error::UnknownAlgorithm(cause)
                &&& cause@ == "unknown CRC32 algorithm "@ + name@
            },
        },
{
    let found = if name.eq("AIXM") {
        Ok(Crc32Algorithm::Aixm)
    } else if name.eq("AUTOSAR") {
        Ok(Crc32Algorithm::Autosar)
    } else if name.eq("BASE91_D") {
        Ok(Crc32Algorithm::Base91D)
    } else if name.eq("BZIP2") {
        Ok(Crc32Algorithm::Bzip2)
    } else if name.eq("CD_ROM_EDC") {
        Ok(Crc32Algorithm::CdRomEdc)
    } else if name.eq("CKSUM") {
        Ok(Crc32Algorithm::Cksum)
    } else if name.eq("ISCSI") {
        Ok(Crc32Algorithm::Iscsi)
    } else if name.eq("ISO_HDLC") {
        Ok(Crc32Algorithm::IsoHdlc)
    } else if name.eq("JAMCRC") {
        Ok(Crc32Algorithm::Jamcrc)
    } else if name.eq("MEF") {
        Ok(Crc32Algorithm::Mef)
    } else if name.eq("MPEG_2") {
        Ok(Crc32Algorithm::Mpeg2)
    } else if name.eq("XFER") {
        Ok(Crc32Algorithm::Xfer)
    } else {
        Err(unknown_algorithm("unknown CRC32 algorithm ", name))
    };
    proof {
        if let Ok(algorithm) = found {
            assert forall|other: Crc32Algorithm| other.spec_name() == name@ implies other
                == algorithm by {
                lemma_narrow_names_distinct(other, algorithm);
            }
        }
    }
    found
}

/// The 64-bit algorithm that the catalogue lists under `name`.
///
/// The name has to be one of the catalogue's 64-bit names: to ask for any
/// other is a fault of the caller, not an outcome.
pub fn crc_64_algorithm(name: &str) -> (found: Crc64Algorithm)
    requires
        exists|algorithm: Crc64Algorithm| algorithm.spec_name() == name@,
    ensures
        found.spec_name() == name@,
        forall|other: Crc64Algorithm| other.spec_name() == name@ ==> other == found,
{
    match find_crc_64_algorithm(name) {
        Ok(algorithm) => algorithm,
        Err(_) => unreached(),
    }
}

/// The 32-bit algorithm that the catalogue lists under `name`.
///
/// The name has to be one of the catalogue's 32-bit names: to ask for any
/// other is a fault of the caller, not an outcome.
pub fn crc_32_algorithm(name: &str) -> (found: Crc32Algorithm)
    requires
        exists|algorithm: Crc32Algorithm| algorithm.spec_name() == name@,
    ensures
        found.spec_name() == name@,
        forall|other: Crc32Algorithm| other.spec_name() == name@ ==> other == found,
{
    match find_crc_32_algorithm(name) {
        Ok(algorithm) => algorithm,
        Err(_) => unreached(),
    }
}

/// The checksum of `data` under every 64-bit algorithm, in catalogue order,
/// each with the algorithm's name.
pub fn crc_64(data: &[u8]) -> (digests: Vec<(u64, String)>)
    ensures
        digests@.len() == wide_catalogue().len(),
        forall|i: int|
            0 <= i < digests@.len() ==> {
                &&& (#[trigger] digests@[i]).0 == crc_64_value(wide_catalogue()[i], data@)
                &&& digests@[i].1@ == wide_catalogue()[i].spec_name()
            },
{
    let names = crc_64_algorithms();
    let mut digests: Vec<(u64, String)> = Vec::new();
    let mut i: usize = 0;
    while i < names.len()
        invariant
            i <= names@.len(),
            names@.len() == wide_catalogue().len(),
            forall|j: int|
                0 <= j < names@.len() ==> (#[trigger] names@[j])@ == wide_catalogue()[j].spec_name(),
            digests@.len() == i,
            forall|j: int|
                0 <= j < i ==> {
                    &&& (#[trigger] digests@[j]).0 == crc_64_value(wide_catalogue()[j], data@)
                    &&& digests@[j].1@ == wide_catalogue()[j].spec_name()
                },
        decreases names@.len() - i,
    {
        let name = names[i].as_str();
        assert(wide_catalogue()[i as int].spec_name() == name@);
        let algorithm = crc_64_algorithm(name);
        digests.push((algorithm.checksum(data), name.to_string()));
        i += 1;
    }
    digests
}

/// The checksum of `data` under every 32-bit algorithm, in catalogue order,
/// each with the algorithm's name.
pub fn crc_32(data: &[u8]) -> (digests: Vec<(u32, String)>)
    ensures
        digests@.len() == narrow_catalogue().len(),
        forall|i: int|
            0 <= i < digests@.len() ==> {
                &&& (#[trigger] digests@[i]).0 == crc_32_value(narrow_catalogue()[i], data@)
                &&& digests@[i].1@ == narrow_catalogue()[i].spec_name()
            },
{
    let names = crc_32_algorithms();
    let mut digests: Vec<(u32, String)> = Vec::new();
    let mut i: usize = 0;
    while i < names.len()
        invariant
            i <= names@.len(),
            names@.len() == narrow_catalogue().len(),
            forall|j: int|
                0 <= j < names@.len() ==> (#[trigger] names@[j])@ == narrow_catalogue()[j].spec_name(),
            digests@.len() == i,
            forall|j: int|
                0 <= j < i ==> {
                    &&& (#[trigger] digests@[j]).0 == crc_32_value(narrow_catalogue()[j], data@)
                    &&& digests@[j].1@ == narrow_catalogue()[j].spec_name()
                },
        decreases names@.len() - i,
    {
        let name = names[i].as_str();
        assert(narrow_catalogue()[i as int].spec_name() == name@);
        let algorithm = crc_32_algorithm(name);
        digests.push((algorithm.checksum(data), name.to_string()));
        i += 1;
    }
    digests
}

} // verus!
