//! Models of the relevant primitives of the foreign DML record system.

use vstd::prelude::*;

use crate::cxx::string::Str;
use crate::cxx::vector::Vector;
use crate::cxx::wstring::WStr;

verus! {

/// Total number of bytes one foreign field record spans in memory.
pub const FIELD_LAYOUT_SIZE: usize = 0x78;

/// Total number of bytes one foreign record container spans in memory.
pub const RECORD_LAYOUT_SIZE: usize = 0x38;

/// A unique ID that indicates the type of a DML [`Field`].
///
/// Discriminant values the foreign format does not document decode to
/// `Unknown`, carrying the raw value.
#[derive(Clone, Copy, Debug, PartialEq, Eq, Structural)]
pub enum TypeId {
    Gid,
    Int,
    UInt,
    Flt,
    Byt,
    UByt,
    UShrt,
    Dbl,
    Str,
    WStr,
    Unknown(u8),
}

impl TypeId {
    /// The type each raw discriminant byte of the foreign format stands for.
    pub open spec fn spec_from_raw(raw: u8) -> TypeId {
        if raw == 1 {
            TypeId::Gid
        } else if raw == 2 {
            TypeId::Int
        } else if raw == 3 {
            TypeId::UInt
        } else if raw == 4 {
            TypeId::Flt
        } else if raw == 5 {
            TypeId::Byt
        } else if raw == 6 {
            TypeId::UByt
        } else if raw == 7 {
            TypeId::UShrt
        } else if raw == 8 {
            TypeId::Dbl
        } else if raw == 9 {
            TypeId::Str
        } else if raw == 10 {
            TypeId::WStr
        } else {
            TypeId::Unknown(raw)
        }
    }

    /// Decodes a raw discriminant byte of the foreign format.
    pub fn from_raw(raw: u8) -> (r: TypeId)
        ensures
            r == TypeId::spec_from_raw(raw),
    {
        match raw {
            1 => TypeId::Gid,
            2 => TypeId::Int,
            3 => TypeId::UInt,
            4 => TypeId::Flt,
            5 => TypeId::Byt,
            6 => TypeId::UByt,
            7 => TypeId::UShrt,
            8 => TypeId::Dbl,
            9 => TypeId::Str,
            10 => TypeId::WStr,
            _ => TypeId::Unknown(raw),
        }
    }
}

/// A model of a DML field that is part of a [`Record`].
///
/// The foreign process owns and lays out the real record; this layer only
/// reads it, so the fields here record what such a read yields: every
/// primitive storage slot, the discriminant, and the field's name. Floating
/// point slots are recorded as their bit patterns.
pub struct Field {
    /// Bit pattern of the double-precision storage slot.
    pub double_storage: u64,
    /// Bit pattern of the single-precision storage slot.
    pub float_storage: u32,
    /// The integer storage slot, shared by the narrower integer types.
    pub int_storage: i32,
    /// What a read of the string the string slot points at yields.
    pub str_storage: Str,
    /// What a read of the wide string the wide-string slot points at yields.
    pub wstr_storage: WStr,
    /// The global-ID storage slot.
    pub gid_storage: u64,
    /// The decoded discriminant.
    pub type_id: TypeId,
    /// What a read of the field's name string yields.
    pub name: Str,
}

/// Representation of DML field values for introspection.
///
/// String-typed payloads are borrowed views, not copies; floating point
/// payloads carry the stored bit pattern.
pub enum FieldValue<'dml> {
    Byt(i8),
    UByt(u8),
    UShrt(u16),
    Int(i32),
    UInt(u32),
    Gid(u64),
    Flt(u32),
    Dbl(u64),
    Str(&'dml Str),
    WStr(&'dml WStr),
}

impl Field {
    /// Gets the name of the field.
    pub fn name(&self) -> (r: &Str)
        ensures
            r@ == self.name@,
    {
        &self.name
    }

    /// Gets the value of this field if its type can be determined.
    ///
    /// The dispatch goes strictly by the discriminant: each recognized type
    /// yields the payload of its own storage slot, and any unrecognized
    /// discriminant yields no value rather than a misread slot.
    pub fn value(&self) -> (r: Option<FieldValue<'_>>)
        ensures
            match self.type_id {
                TypeId::Gid => r matches Some(FieldValue::Gid(v)) && v == self.gid_storage,
                TypeId::Int => r matches Some(FieldValue::Int(v)) && v == self.int_storage,
                TypeId::UInt => r matches Some(FieldValue::UInt(v)) && v == self.int_storage
                    as u32,
                TypeId::Flt => r matches Some(FieldValue::Flt(v)) && v == self.float_storage,
                TypeId::Byt => r matches Some(FieldValue::Byt(v)) && v == self.int_storage as i8,
                TypeId::UByt => r matches Some(FieldValue::UByt(v)) && v == self.int_storage
                    as u8,
                TypeId::UShrt => r matches Some(FieldValue::UShrt(v)) && v == self.int_storage
                    as u16,
                TypeId::Dbl => r matches Some(FieldValue::Dbl(v)) && v == self.double_storage,
                TypeId::Str => r matches Some(FieldValue::Str(s)) && s@ == self.str_storage@,
                TypeId::WStr => r matches Some(FieldValue::WStr(s)) && s@ == self.wstr_storage@,
                TypeId::Unknown(_) => r is None,
            },
    {
        match self.type_id {
            TypeId::Gid => Some(FieldValue::Gid(self.gid_storage)),
            TypeId::Int => Some(FieldValue::Int(self.int_storage)),
            TypeId::UInt => Some(FieldValue::UInt(self.int_storage as u32)),
            TypeId::Flt => Some(FieldValue::Flt(self.float_storage)),
            TypeId::Byt => Some(FieldValue::Byt(self.int_storage as i8)),
            TypeId::UByt => Some(FieldValue::UByt(self.int_storage as u8)),
            TypeId::UShrt => Some(FieldValue::UShrt(self.int_storage as u16)),
            TypeId::Dbl => Some(FieldValue::Dbl(self.double_storage)),
            TypeId::Str => Some(FieldValue::Str(&self.str_storage)),
            TypeId::WStr => Some(FieldValue::WStr(&self.wstr_storage)),
            TypeId::Unknown(_) => None,
        }
    }
}

/// A model of a DML record that groups together several [`Field`]s.
///
/// The reference count belongs to the foreign process, which alone mutates
/// it; this layer borrows the record for the duration of one read.
pub struct Record {
    ref_count: u32,
    fields: Vector<Field>,
}

impl View for Record {
    type V = Seq<Field>;

    closed spec fn view(&self) -> Seq<Field> {
        self.fields@
    }
}

impl Record {
    /// A well-formed record: its field storage is a well-formed view.
    pub closed spec fn wf(self) -> bool {
        self.fields.wf()
    }

    /// The reference count the foreign process keeps for the record.
    pub closed spec fn spec_ref_count(self) -> u32 {
        self.ref_count
    }

    /// Records what a read of a foreign record yields.
    pub fn from_foreign(ref_count: u32, fields: Vector<Field>) -> (r: Record)
        requires
            fields.wf(),
        ensures
            r.wf(),
            r@ == fields@,
            r.spec_ref_count() == ref_count,
    {
        Record { ref_count, fields }
    }

    /// Gets a slice holding all the [`Field`]s in the record, without
    /// copying any of them.
    pub fn fields(&self) -> (r: &[Field])
        requires
            self.wf(),
        ensures
            r@ == self@,
    {
        self.fields.as_slice()
    }
}

} // verus!
