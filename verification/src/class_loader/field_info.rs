//! Fields of a class and their access flags.

use crate::class_loader::attribute_info::AttributeInfo;
use crate::class_loader::attribute_info::SpecAttribute;
use crate::class_loader::constant_pool::ConstantPool;
use crate::class_loader::constant_pool::SpecConstant;
use crate::class_loader::member::read_member;
use crate::class_loader::member::spec_member;
use crate::class_loader::raw_data::RawClassData;
use crate::error::JvmError;
use vstd::prelude::*;

verus! {

/// A flag of a field.
#[derive(Debug, Clone, Copy, PartialEq, Eq, Structural)]
pub enum FieldAcceFlag {
    Public,
    Private,
    Protected,
    Static,
    Final,
    Volatile,
    Transient,
    Synthetic,
    Enum,
}

impl FieldAcceFlag {
    /// The bit of the flag in the 16-bit mask of a field.
    pub open spec fn spec_mask(self) -> u16 {
        match self {
            FieldAcceFlag::Public => 0x0001,
            FieldAcceFlag::Private => 0x0002,
            FieldAcceFlag::Protected => 0x0004,
            FieldAcceFlag::Static => 0x0008,
            FieldAcceFlag::Final => 0x0010,
            FieldAcceFlag::Volatile => 0x0040,
            FieldAcceFlag::Transient => 0x0080,
            FieldAcceFlag::Synthetic => 0x1000,
            FieldAcceFlag::Enum => 0x4000,
        }
    }

    /// All flags of a field, by rising bit.
    pub open spec fn spec_values() -> Seq<FieldAcceFlag> {
        seq![
            FieldAcceFlag::Public,
            FieldAcceFlag::Private,
            FieldAcceFlag::Protected,
            FieldAcceFlag::Static,
            FieldAcceFlag::Final,
            FieldAcceFlag::Volatile,
            FieldAcceFlag::Transient,
            FieldAcceFlag::Synthetic,
            FieldAcceFlag::Enum,
        ]
    }

    /// The flags whose bit is set in `mask`, by rising bit.
    pub open spec fn spec_from_mask(mask: u16) -> Seq<FieldAcceFlag> {
        Self::spec_values().filter(|flag: FieldAcceFlag| mask & flag.spec_mask() != 0)
    }

    /// The bit of the flag in the 16-bit mask of a field.
    pub fn mask(&self) -> (bit: u16)
        ensures
            bit == self.spec_mask(),
    {
        match self {
            FieldAcceFlag::Public => 0x0001,
            FieldAcceFlag::Private => 0x0002,
            FieldAcceFlag::Protected => 0x0004,
            FieldAcceFlag::Static => 0x0008,
            FieldAcceFlag::Final => 0x0010,
            FieldAcceFlag::Volatile => 0x0040,
            FieldAcceFlag::Transient => 0x0080,
            FieldAcceFlag::Synthetic => 0x1000,
            FieldAcceFlag::Enum => 0x4000,
        }
    }

    /// All flags of a field, by rising bit.
    pub fn values() -> (all: Vec<FieldAcceFlag>)
        ensures
            all@ == Self::spec_values(),
    {
        let all = vec![
            FieldAcceFlag::Public,
            FieldAcceFlag::Private,
            FieldAcceFlag::Protected,
            FieldAcceFlag::Static,
            FieldAcceFlag::Final,
            FieldAcceFlag::Volatile,
            FieldAcceFlag::Transient,
            FieldAcceFlag::Synthetic,
            FieldAcceFlag::Enum,
        ];
        assert(all@ =~= Self::spec_values());
        all
    }

    /// The flags whose bit is set in `flags_mask`, by rising bit.
    pub fn from_mask(flags_mask: u16) -> (access_flags: Vec<FieldAcceFlag>)
        ensures
            access_flags@ == Self::spec_from_mask(flags_mask),
    {
        let ghost set = |flag: FieldAcceFlag| flags_mask & flag.spec_mask() != 0;
        let all = Self::values();
        let mut access_flags: Vec<FieldAcceFlag> = Vec::new();
        let mut i: usize = 0;
        proof {
            reveal(Seq::filter);
            assert(all@.take(0).filter(set) =~= Seq::empty());
        }
        while i < all.len()
            invariant
                i <= all.len(),
                all@ == Self::spec_values(),
                set == |flag: FieldAcceFlag| flags_mask & flag.spec_mask() != 0,
                access_flags@ == all@.take(i as int).filter(set),
            decreases all.len() - i,
        {
            let single_flag = all[i];
            proof {
                reveal(Seq::filter);
                assert(all@.take(i + 1).drop_last() =~= all@.take(i as int));
            }
            if flags_mask & single_flag.mask() != 0 {
                access_flags.push(single_flag);
            }
            i += 1;
        }
        assert(all@.take(all.len() as int) =~= all@);
        access_flags
    }
}

/// A field of a class.
#[derive(Debug, PartialEq, Eq)]
pub struct FieldInfo {
    access_flags: Vec<FieldAcceFlag>,
    name: String,
    descriptor_name: String,
    attributes: Vec<AttributeInfo>,
}

/// The model of a field.
pub ghost struct SpecField {
    pub access_flags: Seq<FieldAcceFlag>,
    pub name: Seq<char>,
    pub descriptor_name: Seq<char>,
    pub attributes: Seq<SpecAttribute>,
}

impl DeepView for FieldInfo {
    type V = SpecField;

    closed spec fn deep_view(&self) -> SpecField {
        SpecField {
            access_flags: self.access_flags@,
            name: self.name@,
            descriptor_name: self.descriptor_name@,
            attributes: self.attributes.deep_view(),
        }
    }
}

impl View for FieldInfo {
    type V = SpecField;

    open spec fn view(&self) -> SpecField {
        self.deep_view()
    }
}

/// The field at `pos`: its flags by their mask, its name and descriptor by
/// their indices, and its attributes behind their count.
pub open spec fn spec_field(bytes: Seq<u8>, pos: int, pool: Seq<SpecConstant>) -> Result<
    (SpecField, int),
    JvmError,
> {
    match spec_member(bytes, pos, pool) {
        Err(e) => Err(e),
        Ok((member, next)) => Ok(
            (
                SpecField {
                    access_flags: FieldAcceFlag::spec_from_mask(member.0),
                    name: member.1,
                    descriptor_name: member.2,
                    attributes: member.3,
                },
                next,
            ),
        ),
    }
}

impl FieldInfo {
    /// Decodes the field at the cursor.
    pub fn from(data: &mut RawClassData, constant_pool: &ConstantPool) -> (res: Result<
        FieldInfo,
        JvmError,
    >)
        ensures
            final(data).delivers(
                *old(data),
                res,
                spec_field(old(data).data@, old(data).cursor as int, constant_pool@),
            ),
    {
        let member = read_member(data, constant_pool)?;
        Ok(
            FieldInfo {
                access_flags: FieldAcceFlag::from_mask(member.0),
                name: member.1,
                descriptor_name: member.2,
                attributes: member.3,
            },
        )
    }

    /// The name of the field.
    pub fn get_name(&self) -> (name: &str)
        ensures
            name@ == self@.name,
    {
        self.name.as_str()
    }

    /// The descriptor of the field: its type in the notation of the format.
    pub fn get_descriptor(&self) -> (descriptor: &str)
        ensures
            descriptor@ == self@.descriptor_name,
    {
        self.descriptor_name.as_str()
    }

    /// The flags of the field, by rising bit.
    pub fn get_access_flags(&self) -> (flags: &Vec<FieldAcceFlag>)
        ensures
            flags@ == self@.access_flags,
    {
        &self.access_flags
    }

    /// The attributes of the field, in the order of the file.
    pub fn get_attributes(&self) -> (attributes: &Vec<AttributeInfo>)
        ensures
            attributes.deep_view() == self@.attributes,
    {
        &self.attributes
    }
}

} // verus!
