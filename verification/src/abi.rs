//! The shared vocabulary of the binary interface: status codes, the 16-byte
//! identifier, and the fixed-size descriptive records a factory reports.
//!
//! Layouts are part of the interface standard: the byte-array field sizes are
//! fixed and the records are decoded with first-NUL-or-end truncation.

use vstd::prelude::*;

verus! {

/// Success status of a dispatch call.
pub const K_RESULT_OK: i32 = 0;

/// "False": the call did nothing, but not an error.
pub const K_RESULT_FALSE: i32 = 1;

/// The object does not implement the requested operation.
pub const K_NOT_IMPLEMENTED: i32 = -1;

/// The object does not expose the requested capability.
pub const K_NO_INTERFACE: i32 = -2;

/// An argument was rejected by the callee.
pub const K_INVALID_ARG: i32 = -3;

/// The callee failed internally.
pub const K_INTERNAL_ERR: i32 = -4;

/// Byte size of a class record's name field.
pub const K_NAME_SIZE: usize = 64;

/// Byte size of a class record's category field.
pub const K_CATEGORY_SIZE: usize = 32;

/// Byte size of a class record's vendor field.
pub const K_VENDOR_SIZE: usize = 64;

/// Byte size of a class record's version fields.
pub const K_VERSION_SIZE: usize = 64;

/// Byte size of a class record's subcategory list field.
pub const K_SUBCATS_SIZE: usize = 128;

/// 16-byte identifier naming either a capability (interface) or a class.
/// Equality is byte-wise; the value is immutable once constructed.
#[derive(Copy, Clone, PartialEq, Eq, Debug)]
pub struct Tuid(pub [u8; 16]);

impl Tuid {
    /// Wraps 16 raw bytes as an identifier, unchanged.
    pub fn new(bytes: [u8; 16]) -> (r: Self)
        ensures
            r.0 == bytes,
    {
        Tuid(bytes)
    }
}

/// First-version class record as the factory writes it: class id,
/// cardinality, and NUL-terminated category and name byte fields.
#[derive(Copy, Clone)]
pub struct PClassInfo {
    pub cid: [i8; 16],
    pub cardinality: i32,
    pub category: [i8; K_CATEGORY_SIZE],
    pub name: [i8; K_NAME_SIZE],
}

/// Extended class record: the first-version fields plus flags, subcategory
/// list, vendor, and version strings.
#[derive(Copy, Clone)]
pub struct PClassInfo2 {
    pub cid: [i8; 16],
    pub cardinality: i32,
    pub category: [i8; K_CATEGORY_SIZE],
    pub name: [i8; K_NAME_SIZE],
    pub class_flags: u32,
    pub sub_categories: [i8; K_SUBCATS_SIZE],
    pub vendor: [i8; K_VENDOR_SIZE],
    pub version: [i8; K_VERSION_SIZE],
    pub sdk_version: [i8; K_VERSION_SIZE],
}

/// Media kind of a bus: audio samples.
pub const MEDIA_TYPE_AUDIO: i32 = 0;

/// Media kind of a bus: event stream.
pub const MEDIA_TYPE_EVENT: i32 = 1;

/// Bus direction: into the instance.
pub const BUS_DIRECTION_INPUT: i32 = 0;

/// Bus direction: out of the instance.
pub const BUS_DIRECTION_OUTPUT: i32 = 1;

/// Bus classification: a main bus.
pub const BUS_TYPE_MAIN: i32 = 0;

/// Bus classification: an auxiliary bus.
pub const BUS_TYPE_AUX: i32 = 1;

/// Bus flag: the bus should be active by default.
pub const BUS_FLAG_DEFAULT_ACTIVE: u32 = 1;

/// Bus flag: the bus carries control-voltage data.
pub const BUS_FLAG_IS_CONTROL_VOLTAGE: u32 = 2;

/// Class record in the flattened shim layout: category and name byte
/// fields with the 16-byte class id.
#[derive(Copy, Clone)]
#[allow(non_camel_case_types)]
pub struct v3_class_info {
    pub category: [u8; 64],
    pub name: [u8; 128],
    pub cid: [u8; 16],
}

/// Description of one logical bus: media kind, direction, channel count,
/// classification, flags, and a display-name byte field.
#[derive(Copy, Clone)]
#[allow(non_camel_case_types)]
pub struct v3_bus_info {
    pub media_type: i32,
    pub direction: i32,
    pub channel_count: i32,
    pub bus_type: i32,
    pub flags: u32,
    pub name: [u8; 128],
}

} // verus!
