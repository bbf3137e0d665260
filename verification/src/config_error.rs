//! The ways a configuration value or a request parameter can be rejected,
//! with the operator-facing message of each.

use vstd::prelude::*;
use vstd::string::*;
use crate::text::{append_signed, append_unsigned, decimal, signed_decimal};

verus! {

/// A rejected configuration value or request parameter. Field names are the
/// dotted names operators see (e.g. `storage_deletion.retry_seconds`).
#[derive(Debug, Clone)]
pub enum ConfigError {
    /// `<field> must be greater than 0`
    NotPositive { field: String },
    /// `<field> must be at most <max>`
    AboveMaximum { field: String, max: i64 },
    /// `<field> must be at least <min>`
    BelowMinimum { field: String, min: i64 },
    /// `file_size_bytes requires <required> parts, exceeding upload_max_part_count <limit>`
    TooManyParts { required: i64, limit: i32 },
    /// `upload part count exceeds i32 range`
    PartCountOverflow,
    /// `part_number must be between 1 and <total_parts>`
    PartNumberOutOfRange { total_parts: i32 },
    /// `<field> must not be empty when configured`
    EmptyWhenConfigured { field: String },
    /// `<field> must be between <lowest> and <highest>`
    OutsideRange { field: String, lowest: u64, highest: u64 },
    /// `<field> must be at least <min_bytes> bytes`
    TooShort { field: String, min_bytes: u64 },
}

pub enum ConfigErrorView {
    NotPositive { field: Seq<char> },
    AboveMaximum { field: Seq<char>, max: int },
    BelowMinimum { field: Seq<char>, min: int },
    TooManyParts { required: int, limit: int },
    PartCountOverflow,
    PartNumberOutOfRange { total_parts: int },
    EmptyWhenConfigured { field: Seq<char> },
    OutsideRange { field: Seq<char>, lowest: nat, highest: nat },
    TooShort { field: Seq<char>, min_bytes: nat },
}

impl View for ConfigError {
    type V = ConfigErrorView;

    open spec fn view(&self) -> ConfigErrorView {
        match self {
            ConfigError::NotPositive { field } => ConfigErrorView::NotPositive { field: field@ },
            ConfigError::AboveMaximum { field, max } => ConfigErrorView::AboveMaximum {
                field: field@,
                max: *max as int,
            },
            ConfigError::BelowMinimum { field, min } => ConfigErrorView::BelowMinimum {
                field: field@,
                min: *min as int,
            },
            ConfigError::TooManyParts { required, limit } => ConfigErrorView::TooManyParts {
                required: *required as int,
                limit: *limit as int,
            },
            ConfigError::PartCountOverflow => ConfigErrorView::PartCountOverflow,
            ConfigError::PartNumberOutOfRange { total_parts } =>
                ConfigErrorView::PartNumberOutOfRange { total_parts: *total_parts as int },
            ConfigError::EmptyWhenConfigured { field } => ConfigErrorView::EmptyWhenConfigured {
                field: field@,
            },
            ConfigError::OutsideRange { field, lowest, highest } => ConfigErrorView::OutsideRange {
                field: field@,
                lowest: *lowest as nat,
                highest: *highest as nat,
            },
            ConfigError::TooShort { field, min_bytes } => ConfigErrorView::TooShort {
                field: field@,
                min_bytes: *min_bytes as nat,
            },
        }
    }
}

impl ConfigErrorView {
    /// The operator-facing message.
    pub open spec fn message(self) -> Seq<char> {
        match self {
            ConfigErrorView::NotPositive { field } => field + " must be greater than 0"@,
            ConfigErrorView::AboveMaximum { field, max } => field + " must be at most "@
                + signed_decimal(max),
            ConfigErrorView::BelowMinimum { field, min } => field + " must be at least "@
                + signed_decimal(min),
            ConfigErrorView::TooManyParts { required, limit } => "file_size_bytes requires "@
                + signed_decimal(required) + " parts, exceeding upload_max_part_count "@
                + signed_decimal(limit),
            ConfigErrorView::PartCountOverflow => "upload part count exceeds i32 range"@,
            ConfigErrorView::PartNumberOutOfRange { total_parts } =>
                "part_number must be between 1 and "@ + signed_decimal(total_parts),
            ConfigErrorView::EmptyWhenConfigured { field } => field
                + " must not be empty when configured"@,
            ConfigErrorView::OutsideRange { field, lowest, highest } => field
                + " must be between "@ + decimal(lowest) + " and "@ + decimal(highest),
            ConfigErrorView::TooShort { field, min_bytes } => field + " must be at least "@
                + decimal(min_bytes) + " bytes"@,
        }
    }
}

impl ConfigError {
    /// The operator-facing message.
    pub fn message(&self) -> (m: String)
        ensures
            m@ == self@.message(),
    {
        match self {
            ConfigError::NotPositive { field } => {
                field.clone().concat(" must be greater than 0")
            },
            ConfigError::AboveMaximum { field, max } => {
                let mut m = field.clone().concat(" must be at most ");
                append_signed(&mut m, *max);
                m
            },
            ConfigError::BelowMinimum { field, min } => {
                let mut m = field.clone().concat(" must be at least ");
                append_signed(&mut m, *min);
                m
            },
            ConfigError::TooManyParts { required, limit } => {
                let mut m = String::from_str("file_size_bytes requires ");
                append_signed(&mut m, *required);
                let mut m = m.concat(" parts, exceeding upload_max_part_count ");
                append_signed(&mut m, *limit as i64);
                m
            },
            ConfigError::PartCountOverflow => String::from_str("upload part count exceeds i32 range"),
            ConfigError::PartNumberOutOfRange { total_parts } => {
                let mut m = String::from_str("part_number must be between 1 and ");
                append_signed(&mut m, *total_parts as i64);
                m
            },
            ConfigError::EmptyWhenConfigured { field } => {
                field.clone().concat(" must not be empty when configured")
            },
            ConfigError::OutsideRange { field, lowest, highest } => {
                let mut m = field.clone().concat(" must be between ");
                append_unsigned(&mut m, *lowest);
                let mut m = m.concat(" and ");
                append_unsigned(&mut m, *highest);
                m
            },
            ConfigError::TooShort { field, min_bytes } => {
                let mut m = field.clone().concat(" must be at least ");
                append_unsigned(&mut m, *min_bytes);
                m.concat(" bytes")
            },
        }
    }
}

/// `label.knob`, the dotted name of a knob inside a named group.
pub open spec fn dotted(label: Seq<char>, knob: Seq<char>) -> Seq<char> {
    label + "."@ + knob
}

pub fn dotted_name(label: &str, knob: &str) -> (name: String)
    ensures
        name@ == dotted(label@, knob@),
{
    String::from_str(label).concat(".").concat(knob)
}

} // verus!
