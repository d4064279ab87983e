//! What the catalog says of a table as a whole.

use vstd::prelude::*;
use vstd::string::*;
use crate::error::{CatalogField, SchemaError};
use crate::text::str_eq;

verus! {

/// The storage engine of a table.
#[derive(Clone, Copy, Debug, PartialEq, Eq, Structural)]
pub enum StorageEngine {
    Archive,
    Blackhole,
    MrgMyIsam,
    Federated,
    MyIsam,
    PerformanceSchema,
    InnoDb,
    Memory,
    Csv,
}

/// The name of a storage engine, as the catalog spells it.
pub open spec fn storage_engine_name(e: StorageEngine) -> Seq<char> {
    match e {
        StorageEngine::Archive => "ARCHIVE"@,
        StorageEngine::Blackhole => "BLACKHOLE"@,
        StorageEngine::MrgMyIsam => "MRG_MYISAM"@,
        StorageEngine::Federated => "FEDERATED"@,
        StorageEngine::MyIsam => "MyISAM"@,
        StorageEngine::PerformanceSchema => "PERFORMANCE_SCHEMA"@,
        StorageEngine::InnoDb => "InnoDB"@,
        StorageEngine::Memory => "MEMORY"@,
        StorageEngine::Csv => "CSV"@,
    }
}

/// The storage engine that a name stands for.
pub open spec fn storage_engine_of(name: Seq<char>) -> Option<StorageEngine> {
    if name == "ARCHIVE"@ {
        Some(StorageEngine::Archive)
    } else if name == "BLACKHOLE"@ {
        Some(StorageEngine::Blackhole)
    } else if name == "MRG_MYISAM"@ {
        Some(StorageEngine::MrgMyIsam)
    } else if name == "FEDERATED"@ {
        Some(StorageEngine::Federated)
    } else if name == "MyISAM"@ {
        Some(StorageEngine::MyIsam)
    } else if name == "PERFORMANCE_SCHEMA"@ {
        Some(StorageEngine::PerformanceSchema)
    } else if name == "InnoDB"@ {
        Some(StorageEngine::InnoDb)
    } else if name == "MEMORY"@ {
        Some(StorageEngine::Memory)
    } else if name == "CSV"@ {
        Some(StorageEngine::Csv)
    } else {
        None
    }
}

impl StorageEngine {
    /// The name of this engine, as the catalog spells it.
    pub fn name(&self) -> (r: &'static str)
        ensures
            r@ == storage_engine_name(*self),
    {
        match self {
            StorageEngine::Archive => "ARCHIVE",
            StorageEngine::Blackhole => "BLACKHOLE",
            StorageEngine::MrgMyIsam => "MRG_MYISAM",
            StorageEngine::Federated => "FEDERATED",
            StorageEngine::MyIsam => "MyISAM",
            StorageEngine::PerformanceSchema => "PERFORMANCE_SCHEMA",
            StorageEngine::InnoDb => "InnoDB",
            StorageEngine::Memory => "MEMORY",
            StorageEngine::Csv => "CSV",
        }
    }

    /// The engine of a name; a name that is not known is a malformed
    /// sentinel.
    pub fn parse(name: &str) -> (r: Result<StorageEngine, SchemaError>)
        ensures
            r == (match storage_engine_of(name@) {
                Some(e) => Ok::<StorageEngine, SchemaError>(e),
                None => Err(SchemaError::MalformedSentinel(CatalogField::StorageEngine)),
            }),
    {
        if str_eq(name, "ARCHIVE") {
            Ok(StorageEngine::Archive)
        } else if str_eq(name, "BLACKHOLE") {
            Ok(StorageEngine::Blackhole)
        } else if str_eq(name, "MRG_MYISAM") {
            Ok(StorageEngine::MrgMyIsam)
        } else if str_eq(name, "FEDERATED") {
            Ok(StorageEngine::Federated)
        } else if str_eq(name, "MyISAM") {
            Ok(StorageEngine::MyIsam)
        } else if str_eq(name, "PERFORMANCE_SCHEMA") {
            Ok(StorageEngine::PerformanceSchema)
        } else if str_eq(name, "InnoDB") {
            Ok(StorageEngine::InnoDb)
        } else if str_eq(name, "MEMORY") {
            Ok(StorageEngine::Memory)
        } else if str_eq(name, "CSV") {
            Ok(StorageEngine::Csv)
        } else {
            Err(SchemaError::MalformedSentinel(CatalogField::StorageEngine))
        }
    }
}

/// A character set.
#[derive(Clone, Copy, Debug, PartialEq, Eq, Structural)]
pub enum CharSet {
    Ascii,
    Big5,
    Binary,
    Gbk,
    Latin1,
    Latin2,
    Ucs2,
    Utf8,
    Utf8Mb3,
    Utf8Mb4,
    Utf16,
    Utf32,
}

/// The name of a character set.
pub open spec fn char_set_name(c: CharSet) -> Seq<char> {
    match c {
        CharSet::Ascii => "ascii"@,
        CharSet::Big5 => "big5"@,
        CharSet::Binary => "binary"@,
        CharSet::Gbk => "gbk"@,
        CharSet::Latin1 => "latin1"@,
        CharSet::Latin2 => "latin2"@,
        CharSet::Ucs2 => "ucs2"@,
        CharSet::Utf8 => "utf8"@,
        CharSet::Utf8Mb3 => "utf8mb3"@,
        CharSet::Utf8Mb4 => "utf8mb4"@,
        CharSet::Utf16 => "utf16"@,
        CharSet::Utf32 => "utf32"@,
    }
}

/// The character set that a name stands for.
pub open spec fn char_set_of(name: Seq<char>) -> Option<CharSet> {
    if name == "ascii"@ {
        Some(CharSet::Ascii)
    } else if name == "big5"@ {
        Some(CharSet::Big5)
    } else if name == "binary"@ {
        Some(CharSet::Binary)
    } else if name == "gbk"@ {
        Some(CharSet::Gbk)
    } else if name == "latin1"@ {
        Some(CharSet::Latin1)
    } else if name == "latin2"@ {
        Some(CharSet::Latin2)
    } else if name == "ucs2"@ {
        Some(CharSet::Ucs2)
    } else if name == "utf8"@ {
        Some(CharSet::Utf8)
    } else if name == "utf8mb3"@ {
        Some(CharSet::Utf8Mb3)
    } else if name == "utf8mb4"@ {
        Some(CharSet::Utf8Mb4)
    } else if name == "utf16"@ {
        Some(CharSet::Utf16)
    } else if name == "utf32"@ {
        Some(CharSet::Utf32)
    } else {
        None
    }
}

impl CharSet {
    /// The name of this character set.
    pub fn name(&self) -> (r: &'static str)
        ensures
            r@ == char_set_name(*self),
    {
        match self {
            CharSet::Ascii => "ascii",
            CharSet::Big5 => "big5",
            CharSet::Binary => "binary",
            CharSet::Gbk => "gbk",
            CharSet::Latin1 => "latin1",
            CharSet::Latin2 => "latin2",
            CharSet::Ucs2 => "ucs2",
            CharSet::Utf8 => "utf8",
            CharSet::Utf8Mb3 => "utf8mb3",
            CharSet::Utf8Mb4 => "utf8mb4",
            CharSet::Utf16 => "utf16",
            CharSet::Utf32 => "utf32",
        }
    }

    /// The character set of a name; a name that is not known is a
    /// malformed sentinel.
    pub fn parse(name: &str) -> (r: Result<CharSet, SchemaError>)
        ensures
            r == (match char_set_of(name@) {
                Some(c) => Ok::<CharSet, SchemaError>(c),
                None => Err(SchemaError::MalformedSentinel(CatalogField::CharacterSet)),
            }),
    {
        if str_eq(name, "ascii") {
            Ok(CharSet::Ascii)
        } else if str_eq(name, "big5") {
            Ok(CharSet::Big5)
        } else if str_eq(name, "binary") {
            Ok(CharSet::Binary)
        } else if str_eq(name, "gbk") {
            Ok(CharSet::Gbk)
        } else if str_eq(name, "latin1") {
            Ok(CharSet::Latin1)
        } else if str_eq(name, "latin2") {
            Ok(CharSet::Latin2)
        } else if str_eq(name, "ucs2") {
            Ok(CharSet::Ucs2)
        } else if str_eq(name, "utf8") {
            Ok(CharSet::Utf8)
        } else if str_eq(name, "utf8mb3") {
            Ok(CharSet::Utf8Mb3)
        } else if str_eq(name, "utf8mb4") {
            Ok(CharSet::Utf8Mb4)
        } else if str_eq(name, "utf16") {
            Ok(CharSet::Utf16)
        } else if str_eq(name, "utf32") {
            Ok(CharSet::Utf32)
        } else {
            Err(SchemaError::MalformedSentinel(CatalogField::CharacterSet))
        }
    }
}

/// A collation.
#[derive(Clone, Copy, Debug, PartialEq, Eq, Structural)]
pub enum Collation {
    AsciiGeneralCi,
    Binary,
    Latin1SwedishCi,
    Latin1Bin,
    Utf8GeneralCi,
    Utf8Bin,
    Utf8Mb4GeneralCi,
    Utf8Mb4UnicodeCi,
    Utf8Mb4Bin,
    Utf8Mb40900AiCi,
}

/// The name of a collation.
pub open spec fn collation_name(c: Collation) -> Seq<char> {
    match c {
        Collation::AsciiGeneralCi => "ascii_general_ci"@,
        Collation::Binary => "binary"@,
        Collation::Latin1SwedishCi => "latin1_swedish_ci"@,
        Collation::Latin1Bin => "latin1_bin"@,
        Collation::Utf8GeneralCi => "utf8_general_ci"@,
        Collation::Utf8Bin => "utf8_bin"@,
        Collation::Utf8Mb4GeneralCi => "utf8mb4_general_ci"@,
        Collation::Utf8Mb4UnicodeCi => "utf8mb4_unicode_ci"@,
        Collation::Utf8Mb4Bin => "utf8mb4_bin"@,
        Collation::Utf8Mb40900AiCi => "utf8mb4_0900_ai_ci"@,
    }
}

/// The collation that a name stands for.
pub open spec fn collation_of(name: Seq<char>) -> Option<Collation> {
    if name == "ascii_general_ci"@ {
        Some(Collation::AsciiGeneralCi)
    } else if name == "binary"@ {
        Some(Collation::Binary)
    } else if name == "latin1_swedish_ci"@ {
        Some(Collation::Latin1SwedishCi)
    } else if name == "latin1_bin"@ {
        Some(Collation::Latin1Bin)
    } else if name == "utf8_general_ci"@ {
        Some(Collation::Utf8GeneralCi)
    } else if name == "utf8_bin"@ {
        Some(Collation::Utf8Bin)
    } else if name == "utf8mb4_general_ci"@ {
        Some(Collation::Utf8Mb4GeneralCi)
    } else if name == "utf8mb4_unicode_ci"@ {
        Some(Collation::Utf8Mb4UnicodeCi)
    } else if name == "utf8mb4_bin"@ {
        Some(Collation::Utf8Mb4Bin)
    } else if name == "utf8mb4_0900_ai_ci"@ {
        Some(Collation::Utf8Mb40900AiCi)
    } else {
        None
    }
}

impl Collation {
    /// The name of this collation.
    pub fn name(&self) -> (r: &'static str)
        ensures
            r@ == collation_name(*self),
    {
        match self {
            Collation::AsciiGeneralCi => "ascii_general_ci",
            Collation::Binary => "binary",
            Collation::Latin1SwedishCi => "latin1_swedish_ci",
            Collation::Latin1Bin => "latin1_bin",
            Collation::Utf8GeneralCi => "utf8_general_ci",
            Collation::Utf8Bin => "utf8_bin",
            Collation::Utf8Mb4GeneralCi => "utf8mb4_general_ci",
            Collation::Utf8Mb4UnicodeCi => "utf8mb4_unicode_ci",
            Collation::Utf8Mb4Bin => "utf8mb4_bin",
            Collation::Utf8Mb40900AiCi => "utf8mb4_0900_ai_ci",
        }
    }

    /// The collation of a name; a name that is not known is a malformed
    /// sentinel.
    pub fn parse(name: &str) -> (r: Result<Collation, SchemaError>)
        ensures
            r == (match collation_of(name@) {
                Some(c) => Ok::<Collation, SchemaError>(c),
                None => Err(SchemaError::MalformedSentinel(CatalogField::CollationName)),
            }),
    {
        if str_eq(name, "ascii_general_ci") {
            Ok(Collation::AsciiGeneralCi)
        } else if str_eq(name, "binary") {
            Ok(Collation::Binary)
        } else if str_eq(name, "latin1_swedish_ci") {
            Ok(Collation::Latin1SwedishCi)
        } else if str_eq(name, "latin1_bin") {
            Ok(Collation::Latin1Bin)
        } else if str_eq(name, "utf8_general_ci") {
            Ok(Collation::Utf8GeneralCi)
        } else if str_eq(name, "utf8_bin") {
            Ok(Collation::Utf8Bin)
        } else if str_eq(name, "utf8mb4_general_ci") {
            Ok(Collation::Utf8Mb4GeneralCi)
        } else if str_eq(name, "utf8mb4_unicode_ci") {
            Ok(Collation::Utf8Mb4UnicodeCi)
        } else if str_eq(name, "utf8mb4_bin") {
            Ok(Collation::Utf8Mb4Bin)
        } else if str_eq(name, "utf8mb4_0900_ai_ci") {
            Ok(Collation::Utf8Mb40900AiCi)
        } else {
            Err(SchemaError::MalformedSentinel(CatalogField::CollationName))
        }
    }
}

/// The name of a storage engine is read as that engine.
pub proof fn lemma_storage_engine_name_is_read(e: StorageEngine)
    ensures
        storage_engine_of(storage_engine_name(e)) == Some(e),
{
    reveal_strlit("ARCHIVE");
    reveal_strlit("BLACKHOLE");
    reveal_strlit("MRG_MYISAM");
    reveal_strlit("FEDERATED");
    reveal_strlit("MyISAM");
    reveal_strlit("PERFORMANCE_SCHEMA");
    reveal_strlit("InnoDB");
    reveal_strlit("MEMORY");
    reveal_strlit("CSV");
    assert("ARCHIVE"@.len() == 7 && "BLACKHOLE"@.len() == 9 && "MRG_MYISAM"@.len() == 10
        && "FEDERATED"@.len() == 9 && "MyISAM"@.len() == 6 && "PERFORMANCE_SCHEMA"@.len() == 18
        && "InnoDB"@.len() == 6 && "MEMORY"@.len() == 6 && "CSV"@.len() == 3);
    assert("BLACKHOLE"@[0] == 'B' && "FEDERATED"@[0] == 'F' && "MyISAM"@[1] == 'y'
        && "InnoDB"@[1] == 'n' && "MEMORY"@[1] == 'E');
}

/// The name of a character set is read as that character set.
pub proof fn lemma_char_set_name_is_read(c: CharSet)
    ensures
        char_set_of(char_set_name(c)) == Some(c),
{
    reveal_strlit("ascii");
    reveal_strlit("big5");
    reveal_strlit("binary");
    reveal_strlit("gbk");
    reveal_strlit("latin1");
    reveal_strlit("latin2");
    reveal_strlit("ucs2");
    reveal_strlit("utf8");
    reveal_strlit("utf8mb3");
    reveal_strlit("utf8mb4");
    reveal_strlit("utf16");
    reveal_strlit("utf32");
    assert("ascii"@.len() == 5 && "big5"@.len() == 4 && "binary"@.len() == 6 && "gbk"@.len() == 3
        && "latin1"@.len() == 6 && "latin2"@.len() == 6 && "ucs2"@.len() == 4 && "utf8"@.len()
        == 4 && "utf8mb3"@.len() == 7 && "utf8mb4"@.len() == 7 && "utf16"@.len() == 5
        && "utf32"@.len() == 5);
    assert("ascii"@[0] == 'a' && "utf16"@[3] == '1' && "utf32"@[3] == '3' && "ascii"@[3] == 'i');
    assert("big5"@[0] == 'b' && "ucs2"@[1] == 'c' && "utf8"@[1] == 't' && "big5"@[1] == 'i');
    assert("binary"@[0] == 'b' && "latin1"@[5] == '1' && "latin2"@[5] == '2' && "binary"@[5]
        == 'y');
    assert("utf8mb3"@[6] == '3' && "utf8mb4"@[6] == '4');
}

/// The name of a collation is read as that collation.
pub proof fn lemma_collation_name_is_read(c: Collation)
    ensures
        collation_of(collation_name(c)) == Some(c),
{
    reveal_strlit("ascii_general_ci");
    reveal_strlit("binary");
    reveal_strlit("latin1_swedish_ci");
    reveal_strlit("latin1_bin");
    reveal_strlit("utf8_general_ci");
    reveal_strlit("utf8_bin");
    reveal_strlit("utf8mb4_general_ci");
    reveal_strlit("utf8mb4_unicode_ci");
    reveal_strlit("utf8mb4_bin");
    reveal_strlit("utf8mb4_0900_ai_ci");
    assert("ascii_general_ci"@.len() == 16 && "binary"@.len() == 6 && "latin1_swedish_ci"@.len()
        == 17 && "latin1_bin"@.len() == 10 && "utf8_general_ci"@.len() == 15 && "utf8_bin"@.len()
        == 8 && "utf8mb4_general_ci"@.len() == 18 && "utf8mb4_unicode_ci"@.len() == 18
        && "utf8mb4_bin"@.len() == 11 && "utf8mb4_0900_ai_ci"@.len() == 18);
    assert("utf8mb4_general_ci"@[8] == 'g' && "utf8mb4_unicode_ci"@[8] == 'u'
        && "utf8mb4_0900_ai_ci"@[8] == '0');
}

/// What the catalog says of a table as a whole.
#[derive(Clone, Debug, PartialEq)]
pub struct TableInfo {
    /// The name of the table
    pub name: String,
    /// The storage engine
    pub engine: StorageEngine,
    /// The next value of the auto-increment column, if there is one
    pub auto_increment: Option<u64>,
    /// The default character set
    pub char_set: CharSet,
    /// The default collation
    pub collation: Collation,
    /// User comments
    pub comment: String,
}

/// What is known of the database server.
#[derive(Clone, Debug, PartialEq)]
pub struct SystemInfo {
    /// The version number, such as 80019 for 8.0.19
    pub version: u32,
    /// The name of the system, such as `MySQL Community Server - GPL`
    pub system: String,
    /// What stands behind the version number in the version string
    pub suffix: Vec<String>,
}

} // verus!
