//! The two fixed-identity type realizers: Timestamp and Duration. Both are
//! self-contained, carry no nested types, and have fixed surface names.
//! Neither renders literals: the interface-definition format never attaches
//! a literal directly to them, so any literal arriving here is an upstream
//! contract violation and is answered with the fatal error.

use vstd::prelude::*;

use crate::realize::literal_kind_label;
use crate::types::Literal;
use crate::types::RealizeError;
use crate::types::lit_kind_spec;

verus! {

/// Realizes the timestamp type: surface name `DateTime`, canonical name
/// `Timestamp`, and a value-type zero-construction default.
#[derive(Debug)]
pub struct TimestampCodeType;

impl TimestampCodeType {
    pub fn type_label(&self) -> (res: String)
        ensures
            res@ == "DateTime"@,
    {
        String::from_str("DateTime")
    }

    pub fn canonical_name(&self) -> (res: String)
        ensures
            res@ == "Timestamp"@,
    {
        String::from_str("Timestamp")
    }

    /// Every literal, of every kind, is answered with the fatal error: a
    /// default for a timestamp-typed position must flow through an
    /// enclosing optional, which asks for `default_value` at this leaf,
    /// never for a literal.
    pub fn literal(&self, literal: &Literal) -> (res: Result<String, RealizeError>)
        ensures
            res is Err,
            res matches Err(e) ==> e.type_label@ == "DateTime"@ && e.literal_kind@
                == lit_kind_spec(*literal),
    {
        Err(
            RealizeError {
                type_label: String::from_str("DateTime"),
                literal_kind: literal_kind_label(literal),
            },
        )
    }

    /// `default(DateTime)`: not the null sentinel, because the target
    /// representation is a non-nullable value type.
    pub fn default_value(&self) -> (res: String)
        ensures
            res@ == "default(DateTime)"@,
    {
        String::from_str("default(DateTime)")
    }
}

/// Realizes the duration type: surface name `TimeSpan`, canonical name
/// `Duration`, and a value-type zero-construction default.
#[derive(Debug)]
pub struct DurationCodeType;

impl DurationCodeType {
    pub fn type_label(&self) -> (res: String)
        ensures
            res@ == "TimeSpan"@,
    {
        String::from_str("TimeSpan")
    }

    pub fn canonical_name(&self) -> (res: String)
        ensures
            res@ == "Duration"@,
    {
        String::from_str("Duration")
    }

    /// Every literal, of every kind, is answered with the fatal error,
    /// exactly as for the timestamp type.
    pub fn literal(&self, literal: &Literal) -> (res: Result<String, RealizeError>)
        ensures
            res is Err,
            res matches Err(e) ==> e.type_label@ == "TimeSpan"@ && e.literal_kind@
                == lit_kind_spec(*literal),
    {
        Err(
            RealizeError {
                type_label: String::from_str("TimeSpan"),
                literal_kind: literal_kind_label(literal),
            },
        )
    }

    /// `default(TimeSpan)`: not the null sentinel, because the target
    /// representation is a non-nullable value type.
    pub fn default_value(&self) -> (res: String)
        ensures
            res@ == "default(TimeSpan)"@,
    {
        String::from_str("default(TimeSpan)")
    }
}

} // verus!
