//! A typed variant container: a value tagged with a runtime type
//! identifier, holding the marshaled representation of an enum or flags
//! value of that type.

use vstd::prelude::*;

use crate::flags::FileAttributeInfoFlags;
use crate::gio::IOErrorEnum;
use crate::gtype::{GType, TypeKey};
use crate::runtime::Runtime;

verus! {

/// The stored representation inside a [`Value`].
#[derive(Clone, Copy, PartialEq, Eq, Structural, Debug)]
pub enum ValueData {
    /// A type these bindings store no representation for.
    Empty,
    /// The integer code of an enumeration value.
    Int(i32),
    /// The bit pattern of a flags value.
    UInt(u32),
}

/// A value tagged with its runtime type: created zero-initialized for a
/// registered type, filled and read through the marshaling layer.
#[derive(Clone, Copy, PartialEq, Eq, Structural, Debug)]
pub struct Value {
    pub gtype: GType,
    pub key: TypeKey,
    pub data: ValueData,
}

impl Value {
    /// The stored representation matches the tagged type.
    pub open spec fn well_formed(self) -> bool {
        match self.key {
            TypeKey::IoErrorEnum => self.data is Int,
            TypeKey::FileAttributeInfoFlags => self.data is UInt,
            _ => self.data is Empty,
        }
    }

    /// Creates a zero-initialized value of the registered type `gtype`.
    pub fn new(rt: &Runtime, gtype: GType) -> (v: Value)
        requires
            rt.wf(),
            gtype.id < rt.types@.len(),
        ensures
            v.well_formed(),
            v.gtype == gtype,
            v.key == rt.types@[gtype.id as int],
            v.key == TypeKey::IoErrorEnum ==> v.data == ValueData::Int(0),
            v.key == TypeKey::FileAttributeInfoFlags ==> v.data == ValueData::UInt(0),
    {
        let key = rt.types[gtype.id];
        let data = match key {
            TypeKey::IoErrorEnum => ValueData::Int(0),
            TypeKey::FileAttributeInfoFlags => ValueData::UInt(0),
            _ => ValueData::Empty,
        };
        Value { gtype, key, data }
    }

    /// Stores an enumeration value; the value must be tagged with the
    /// enumeration's type.
    pub fn set_enum(&mut self, e: IOErrorEnum)
        requires
            old(self).key == TypeKey::IoErrorEnum,
        ensures
            final(self).well_formed(),
            final(self).gtype == old(self).gtype,
            final(self).key == old(self).key,
            final(self).data == ValueData::Int(e.to_int_spec() as i32),
    {
        self.data = ValueData::Int(e.to_int());
    }

    /// Reads back an enumeration value: some variant exactly when the
    /// value is tagged with the enumeration's type and the stored code is
    /// a declared one.
    pub fn get_enum(&self) -> (r: Option<IOErrorEnum>)
        requires
            self.well_formed(),
        ensures
            r is Some <==> (self.key == TypeKey::IoErrorEnum && IOErrorEnum::from_int_spec(
                self.data->Int_0 as int,
            ) is Some),
            match r {
                Some(e) => IOErrorEnum::from_int_spec(self.data->Int_0 as int) == Some(e),
                None => true,
            },
    {
        match self.data {
            ValueData::Int(code) => {
                if self.key == TypeKey::IoErrorEnum {
                    match IOErrorEnum::from_int(code) {
                        Ok(e) => Some(e),
                        Err(_) => None,
                    }
                } else {
                    None
                }
            },
            _ => None,
        }
    }

    /// Stores a flags value; the value must be tagged with the flags
    /// class's type.
    pub fn set_flags(&mut self, f: FileAttributeInfoFlags)
        requires
            old(self).key == TypeKey::FileAttributeInfoFlags,
        ensures
            final(self).well_formed(),
            final(self).gtype == old(self).gtype,
            final(self).key == old(self).key,
            final(self).data == ValueData::UInt(f.bits),
    {
        self.data = ValueData::UInt(f.to_uint());
    }

    /// Reads back a flags value: some set exactly when the value is tagged
    /// with the flags class's type.
    pub fn get_flags(&self) -> (r: Option<FileAttributeInfoFlags>)
        requires
            self.well_formed(),
        ensures
            r is Some <==> self.key == TypeKey::FileAttributeInfoFlags,
            match r {
                Some(f) => f.bits == self.data->UInt_0,
                None => true,
            },
    {
        match self.data {
            ValueData::UInt(bits) => {
                if self.key == TypeKey::FileAttributeInfoFlags {
                    Some(FileAttributeInfoFlags { bits })
                } else {
                    None
                }
            },
            _ => None,
        }
    }
}

} // verus!
