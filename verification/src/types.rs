//! Identifiers of DuckDB's logical column types.

use vstd::prelude::*;

verus! {

/// A DuckDB logical type, as used to declare the type of a setting or column.
#[derive(Debug, Clone, Copy, PartialEq, Eq, Structural, Hash)]
pub enum TypeId {
    Boolean,
    TinyInt,
    SmallInt,
    Integer,
    BigInt,
    UTinyInt,
    USmallInt,
    UInteger,
    UBigInt,
    HugeInt,
    UHugeInt,
    Float,
    Double,
    Timestamp,
    TimestampTz,
    Date,
    Time,
    Interval,
    Varchar,
    Blob,
    Uuid,
}

} // verus!
