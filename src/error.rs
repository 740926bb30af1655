use vstd::prelude::*;

verus! {

/// The header field whose raw value was not recognised.
#[derive(Clone, Copy, Debug, PartialEq, Eq, Structural)]
pub enum ValueKind {
    RamSize,
    RomSize,
    CartridgeType,
}

/// The header field that failed cartridge validation.
#[derive(Clone, Copy, Debug, PartialEq, Eq, Structural)]
pub enum CartridgeError {
    Title,
    ManufacturerCode,
    LicenseeCode,
    Type,
    RomSize,
    RamSize,
}

/// Errors reported by header parsing and size conversions.
#[derive(Clone, Copy, Debug, PartialEq, Eq, Structural)]
pub enum Error {
    /// An unrecognised raw value, with the field it was read for.
    InvalidValue(ValueKind, usize),
    /// A text field that is not valid UTF-8.
    Utf8,
    /// A cartridge that failed validation, naming the first bad field.
    Cartridge(CartridgeError),
}

} // verus!
