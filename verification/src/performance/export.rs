//! The naming and schema constants of exported performance snapshots.

use vstd::prelude::*;

use crate::text::{padded_decimal, push_padded_decimal, push_str, string_from_chars};

verus! {

/// The version of the exported JSON schema.
pub const PERFORMANCE_SCHEMA_VERSION: u32 = 1;
/// What the exported memory figure covers.
pub const MEMORY_SCOPE: &'static str = "managed_render_resources_estimate";

/// A signed number zero-padded to `width` characters, the sign counted in the width.
pub open spec fn signed_padded(value: int, width: nat) -> Seq<char> {
    if value < 0 {
        seq!['-'] + padded_decimal((-value) as nat, if width >= 1 {
            (width - 1) as nat
        } else {
            0
        })
    } else {
        padded_decimal(value as nat, width)
    }
}

/// The export file name for a local time and the sub-second nanoseconds that
/// keep two exports in one second apart:
/// `steady-ink-performance-YYYYMMDD-hhmmss-nnnnnnnnn.json`.
pub open spec fn export_file_name_of(
    year: i32,
    month: u8,
    day: u8,
    hour: u8,
    minute: u8,
    second: u8,
    unique_nanos: u32,
) -> Seq<char> {
    "steady-ink-performance-"@ + signed_padded(year as int, 4) + padded_decimal(month as nat, 2)
        + padded_decimal(day as nat, 2) + "-"@ + padded_decimal(hour as nat, 2) + padded_decimal(
        minute as nat,
        2,
    ) + padded_decimal(second as nat, 2) + "-"@ + padded_decimal(unique_nanos as nat, 9)
        + ".json"@
}

/// The name of an exported snapshot file.
pub fn export_file_name(
    year: i32,
    month: u8,
    day: u8,
    hour: u8,
    minute: u8,
    second: u8,
    unique_nanos: u32,
) -> (name: String)
    ensures
        name@ == export_file_name_of(year, month, day, hour, minute, second, unique_nanos),
{
    let mut chars: Vec<char> = Vec::new();
    push_str(&mut chars, "steady-ink-performance-");
    let ghost before_year = chars@;
    if year < 0 {
        chars.push('-');
        let magnitude: i64 = -(year as i64);
        push_padded_decimal(&mut chars, magnitude as u128, 3);
    } else {
        push_padded_decimal(&mut chars, year as u128, 4);
    }
    assert(chars@ =~= before_year + signed_padded(year as int, 4));
    push_padded_decimal(&mut chars, month as u128, 2);
    push_padded_decimal(&mut chars, day as u128, 2);
    push_str(&mut chars, "-");
    push_padded_decimal(&mut chars, hour as u128, 2);
    push_padded_decimal(&mut chars, minute as u128, 2);
    push_padded_decimal(&mut chars, second as u128, 2);
    push_str(&mut chars, "-");
    push_padded_decimal(&mut chars, unique_nanos as u128, 9);
    push_str(&mut chars, ".json");
    assert(chars@ =~= export_file_name_of(year, month, day, hour, minute, second, unique_nanos));
    string_from_chars(&chars)
}

} // verus!
