//! The registry of field types: a type code's name and the width in bytes of
//! one value of it.

use vstd::prelude::*;

verus! {

/// The field types that a directory entry can declare.
#[derive(PartialEq, Eq, Structural, Clone, Copy, Debug)]
pub enum IFDFieldType {
    /// 8-bit unsigned.
    BYTE,
    /// 8-bit ASCII character, NUL terminated.
    ASCII,
    /// 16-bit unsigned.
    SHORT,
    /// 32-bit unsigned.
    LONG,
    /// Two 32-bit unsigned: numerator and denominator.
    RATIONAL,
    /// 8-bit signed.
    SBYTE,
    /// 8-bit of no fixed meaning.
    UNDEFINED,
    /// 16-bit signed.
    SSHORT,
    /// 32-bit signed.
    SLONG,
    /// Two 32-bit signed: numerator and denominator.
    SRATIONAL,
    /// 32-bit IEEE float.
    FLOAT,
    /// 64-bit IEEE float.
    DOUBLE,
    /// A code that names none of the above.
    UNKNOWN,
}

/// The field type that a code names.
pub open spec fn field_type_of(code: u16) -> IFDFieldType {
    match code {
        1 => IFDFieldType::BYTE,
        2 => IFDFieldType::ASCII,
        3 => IFDFieldType::SHORT,
        4 => IFDFieldType::LONG,
        5 => IFDFieldType::RATIONAL,
        6 => IFDFieldType::SBYTE,
        7 => IFDFieldType::UNDEFINED,
        8 => IFDFieldType::SSHORT,
        9 => IFDFieldType::SLONG,
        10 => IFDFieldType::SRATIONAL,
        11 => IFDFieldType::FLOAT,
        12 => IFDFieldType::DOUBLE,
        _ => IFDFieldType::UNKNOWN,
    }
}

impl IFDFieldType {
    /// The name under which a field type is shown.
    pub open spec fn spec_name(self) -> Seq<char> {
        match self {
            IFDFieldType::BYTE => "BYTE"@,
            IFDFieldType::ASCII => "ASCII"@,
            IFDFieldType::SHORT => "SHORT"@,
            IFDFieldType::LONG => "LONG"@,
            IFDFieldType::RATIONAL => "RATIONAL"@,
            IFDFieldType::SBYTE => "SBYTE"@,
            IFDFieldType::UNDEFINED => "UNDEFINED"@,
            IFDFieldType::SSHORT => "SSHORT"@,
            IFDFieldType::SLONG => "SLONG"@,
            IFDFieldType::SRATIONAL => "SRATIONAL"@,
            IFDFieldType::FLOAT => "FLOAT"@,
            IFDFieldType::DOUBLE => "DOUBLE"@,
            IFDFieldType::UNKNOWN => "Unknown"@,
        }
    }

    /// The width in bytes of one value; an unknown type counts one byte.
    pub open spec fn spec_width(self) -> u8 {
        match self {
            IFDFieldType::SHORT | IFDFieldType::SSHORT => 2,
            IFDFieldType::LONG | IFDFieldType::SLONG | IFDFieldType::FLOAT => 4,
            IFDFieldType::RATIONAL | IFDFieldType::SRATIONAL | IFDFieldType::DOUBLE => 8,
            _ => 1,
        }
    }

    /// The field type that a code names, `UNKNOWN` for any other code.
    pub fn from_u16(int_val: u16) -> (r: IFDFieldType)
        ensures
            r == field_type_of(int_val),
    {
        match int_val {
            1 => IFDFieldType::BYTE,
            2 => IFDFieldType::ASCII,
            3 => IFDFieldType::SHORT,
            4 => IFDFieldType::LONG,
            5 => IFDFieldType::RATIONAL,
            6 => IFDFieldType::SBYTE,
            7 => IFDFieldType::UNDEFINED,
            8 => IFDFieldType::SSHORT,
            9 => IFDFieldType::SLONG,
            10 => IFDFieldType::SRATIONAL,
            11 => IFDFieldType::FLOAT,
            12 => IFDFieldType::DOUBLE,
            _ => IFDFieldType::UNKNOWN,
        }
    }

    pub fn name(&self) -> (r: &'static str)
        ensures
            r@ == self.spec_name(),
    {
        match self {
            IFDFieldType::BYTE => "BYTE",
            IFDFieldType::ASCII => "ASCII",
            IFDFieldType::SHORT => "SHORT",
            IFDFieldType::LONG => "LONG",
            IFDFieldType::RATIONAL => "RATIONAL",
            IFDFieldType::SBYTE => "SBYTE",
            IFDFieldType::UNDEFINED => "UNDEFINED",
            IFDFieldType::SSHORT => "SSHORT",
            IFDFieldType::SLONG => "SLONG",
            IFDFieldType::SRATIONAL => "SRATIONAL",
            IFDFieldType::FLOAT => "FLOAT",
            IFDFieldType::DOUBLE => "DOUBLE",
            IFDFieldType::UNKNOWN => "Unknown",
        }
    }

    pub fn width(&self) -> (r: u8)
        ensures
            r == self.spec_width(),
    {
        match self {
            IFDFieldType::SHORT | IFDFieldType::SSHORT => 2,
            IFDFieldType::LONG | IFDFieldType::SLONG | IFDFieldType::FLOAT => 4,
            IFDFieldType::RATIONAL | IFDFieldType::SRATIONAL | IFDFieldType::DOUBLE => 8,
            _ => 1,
        }
    }
}

/// A resolved field type: its name and the width of one value.
#[derive(Clone, Debug)]
pub struct FieldType {
    pub name: String,
    pub width: u8,
}

/// The abstract value of a `FieldType`.
pub ghost struct FieldTypeView {
    pub name: Seq<char>,
    pub width: u8,
}

impl View for FieldType {
    type V = FieldTypeView;

    open spec fn view(&self) -> FieldTypeView {
        FieldTypeView { name: self.name@, width: self.width }
    }
}

/// The registry entry of a type code.
pub open spec fn field_type_view(code: u16) -> FieldTypeView {
    FieldTypeView { name: field_type_of(code).spec_name(), width: field_type_of(code).spec_width() }
}

/// Looks a type code up; an unrecognised code gives the type "Unknown" of
/// width 1, never an error.
pub fn u16_to_field_type(val: u16) -> (r: FieldType)
    ensures
        r@ == field_type_view(val),
{
    let kind = IFDFieldType::from_u16(val);
    FieldType { name: String::from_str(kind.name()), width: kind.width() }
}

} // verus!
