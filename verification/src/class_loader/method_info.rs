//! Methods of a class, their access flags and their code.

use crate::class_loader::attribute_info::AttributeInfo;
use crate::class_loader::attribute_info::SpecAttribute;
use crate::class_loader::constant_pool::ConstantPool;
use crate::class_loader::constant_pool::SpecConstant;
use crate::class_loader::member::read_member;
use crate::class_loader::member::spec_member;
use crate::class_loader::raw_data::RawClassData;
use crate::error::JvmError;
use vstd::prelude::*;

verus! {

/// A flag of a method.
#[derive(Debug, Clone, Copy, PartialEq, Eq, Structural)]
pub enum MethodAccessFlag {
    Public,
    Private,
    Protected,
    Static,
    Final,
    Synchronized,
    Bridge,
    Varargs,
    Native,
    Abstract,
    Strict,
    Synthetic,
}

impl MethodAccessFlag {
    /// The bit of the flag in the 16-bit mask of a method.
    pub open spec fn spec_mask(self) -> u16 {
        match self {
            MethodAccessFlag::Public => 0x0001,
            MethodAccessFlag::Private => 0x0002,
            MethodAccessFlag::Protected => 0x0004,
            MethodAccessFlag::Static => 0x0008,
            MethodAccessFlag::Final => 0x0010,
            MethodAccessFlag::Synchronized => 0x0020,
            MethodAccessFlag::Bridge => 0x0040,
            MethodAccessFlag::Varargs => 0x0080,
            MethodAccessFlag::Native => 0x0100,
            MethodAccessFlag::Abstract => 0x0400,
            MethodAccessFlag::Strict => 0x0800,
            MethodAccessFlag::Synthetic => 0x1000,
        }
    }

    /// All flags of a method, by rising bit.
    pub open spec fn spec_values() -> Seq<MethodAccessFlag> {
        seq![
            MethodAccessFlag::Public,
            MethodAccessFlag::Private,
            MethodAccessFlag::Protected,
            MethodAccessFlag::Static,
            MethodAccessFlag::Final,
            MethodAccessFlag::Synchronized,
            MethodAccessFlag::Bridge,
            MethodAccessFlag::Varargs,
            MethodAccessFlag::Native,
            MethodAccessFlag::Abstract,
            MethodAccessFlag::Strict,
            MethodAccessFlag::Synthetic,
        ]
    }

    /// The flags whose bit is set in `mask`, by rising bit.
    pub open spec fn spec_from_mask(mask: u16) -> Seq<MethodAccessFlag> {
        Self::spec_values().filter(|flag: MethodAccessFlag| mask & flag.spec_mask() != 0)
    }

    /// The bit of the flag in the 16-bit mask of a method.
    pub fn mask(&self) -> (bit: u16)
        ensures
            bit == self.spec_mask(),
    {
        match self {
            MethodAccessFlag::Public => 0x0001,
            MethodAccessFlag::Private => 0x0002,
            MethodAccessFlag::Protected => 0x0004,
            MethodAccessFlag::Static => 0x0008,
            MethodAccessFlag::Final => 0x0010,
            MethodAccessFlag::Synchronized => 0x0020,
            MethodAccessFlag::Bridge => 0x0040,
            MethodAccessFlag::Varargs => 0x0080,
            MethodAccessFlag::Native => 0x0100,
            MethodAccessFlag::Abstract => 0x0400,
            MethodAccessFlag::Strict => 0x0800,
            MethodAccessFlag::Synthetic => 0x1000,
        }
    }

    /// All flags of a method, by rising bit.
    pub fn values() -> (all: Vec<MethodAccessFlag>)
        ensures
            all@ == Self::spec_values(),
    {
        let all = vec![
            MethodAccessFlag::Public,
            MethodAccessFlag::Private,
            MethodAccessFlag::Protected,
            MethodAccessFlag::Static,
            MethodAccessFlag::Final,
            MethodAccessFlag::Synchronized,
            MethodAccessFlag::Bridge,
            MethodAccessFlag::Varargs,
            MethodAccessFlag::Native,
            MethodAccessFlag::Abstract,
            MethodAccessFlag::Strict,
            MethodAccessFlag::Synthetic,
        ];
        assert(all@ =~= Self::spec_values());
        all
    }

    /// The flags whose bit is set in `flags_mask`, by rising bit.
    pub fn from_mask(flags_mask: u16) -> (access_flags: Vec<MethodAccessFlag>)
        ensures
            access_flags@ == Self::spec_from_mask(flags_mask),
    {
        let ghost set = |flag: MethodAccessFlag| flags_mask & flag.spec_mask() != 0;
        let all = Self::values();
        let mut access_flags: Vec<MethodAccessFlag> = Vec::new();
        let mut i: usize = 0;
        proof {
            reveal(Seq::filter);
            assert(all@.take(0).filter(set) =~= Seq::empty());
        }
        while i < all.len()
            invariant
                i <= all.len(),
                all@ == Self::spec_values(),
                set == |flag: MethodAccessFlag| flags_mask & flag.spec_mask() != 0,
                access_flags@ == all@.take(i as int).filter(set),
            decreases all.len() - i,
        {
            let single_flag = all[i];
            proof {
                reveal(Seq::filter);
                assert(all@.take(i + 1).drop_last() =~= all@.take(i as int));
            }
            if flags_mask & single_flag.mask() != 0 {
                access_flags.push(single_flag);
            }
            i += 1;
        }
        assert(all@.take(all.len() as int) =~= all@);
        access_flags
    }
}

/// A method of a class.
#[derive(Debug, PartialEq, Eq)]
pub struct MethodInfo {
    access_flags: Vec<MethodAccessFlag>,
    name: String,
    descriptor: String,
    attributes: Vec<AttributeInfo>,
}

/// The model of a method.
pub ghost struct SpecMethod {
    pub access_flags: Seq<MethodAccessFlag>,
    pub name: Seq<char>,
    pub descriptor: Seq<char>,
    pub attributes: Seq<SpecAttribute>,
}

impl DeepView for MethodInfo {
    type V = SpecMethod;

    closed spec fn deep_view(&self) -> SpecMethod {
        SpecMethod {
            access_flags: self.access_flags@,
            name: self.name@,
            descriptor: self.descriptor@,
            attributes: self.attributes.deep_view(),
        }
    }
}

impl View for MethodInfo {
    type V = SpecMethod;

    open spec fn view(&self) -> SpecMethod {
        self.deep_view()
    }
}

/// The method at `pos`: its flags by their mask, its name and descriptor by
/// their indices, and its attributes behind their count.
pub open spec fn spec_method(bytes: Seq<u8>, pos: int, pool: Seq<SpecConstant>) -> Result<
    (SpecMethod, int),
    JvmError,
> {
    match spec_member(bytes, pos, pool) {
        Err(e) => Err(e),
        Ok((member, next)) => Ok(
            (
                SpecMethod {
                    access_flags: MethodAccessFlag::spec_from_mask(member.0),
                    name: member.1,
                    descriptor: member.2,
                    attributes: member.3,
                },
                next,
            ),
        ),
    }
}

/// The first `Code` attribute at or behind position `from` of a list.
pub open spec fn first_code(attributes: Seq<SpecAttribute>, from: int) -> Option<SpecAttribute>
    decreases attributes.len() - from,
{
    if from < 0 || from >= attributes.len() {
        None
    } else if attributes[from] is Code {
        Some(attributes[from])
    } else {
        first_code(attributes, from + 1)
    }
}

/// The first `Code` attribute of a list is one of the list and has no `Code`
/// attribute before it; a list without one has no `Code` attribute at all.
pub proof fn lemma_first_code(attributes: Seq<SpecAttribute>, from: int)
    requires
        0 <= from,
    ensures
        match first_code(attributes, from) {
            Some(code) => exists|i: int|
                {
                    &&& from <= i < attributes.len()
                    &&& #[trigger] attributes[i] == code
                    &&& code is Code
                    &&& forall|j: int| from <= j < i ==> !(#[trigger] attributes[j] is Code)
                },
            None => forall|j: int| from <= j < attributes.len() ==> !(#[trigger] attributes[j] is Code),
        },
    decreases attributes.len() - from,
{
    if from < attributes.len() {
        if attributes[from] is Code {
            assert(attributes[from] == first_code(attributes, from)->0);
        } else {
            lemma_first_code(attributes, from + 1);
            if let Some(code) = first_code(attributes, from + 1) {
                let i = choose|i: int|
                    {
                        &&& from + 1 <= i < attributes.len()
                        &&& #[trigger] attributes[i] == code
                        &&& code is Code
                        &&& forall|j: int| from + 1 <= j < i ==> !(#[trigger] attributes[j] is Code)
                    };
                assert(attributes[i] == code);
            }
        }
    }
}

impl SpecMethod {
    /// Whether the method is named `main`.
    pub open spec fn is_main(self) -> bool {
        self.name == "main"@
    }

    /// The first `Code` attribute of the method.
    pub open spec fn code_attribute(self) -> Option<SpecAttribute> {
        first_code(self.attributes, 0)
    }
}

impl MethodInfo {
    /// A method with the given parts.
    pub fn new(
        access_flags: Vec<MethodAccessFlag>,
        name: String,
        descriptor: String,
        attributes: Vec<AttributeInfo>,
    ) -> (method: MethodInfo)
        ensures
            method@ == (SpecMethod {
                access_flags: access_flags@,
                name: name@,
                descriptor: descriptor@,
                attributes: attributes.deep_view(),
            }),
    {
        MethodInfo { access_flags, name, descriptor, attributes }
    }

    /// Decodes the method at the cursor.
    pub fn from(data: &mut RawClassData, constant_pool: &ConstantPool) -> (res: Result<
        MethodInfo,
        JvmError,
    >)
        ensures
            final(data).delivers(
                *old(data),
                res,
                spec_method(old(data).data@, old(data).cursor as int, constant_pool@),
            ),
    {
        let member = read_member(data, constant_pool)?;
        Ok(
            MethodInfo {
                access_flags: MethodAccessFlag::from_mask(member.0),
                name: member.1,
                descriptor: member.2,
                attributes: member.3,
            },
        )
    }

    /// The name of the method.
    pub fn get_name(&self) -> (name: &str)
        ensures
            name@ == self@.name,
    {
        self.name.as_str()
    }

    /// The descriptor of the method: its parameter and result types in the
    /// notation of the format.
    pub fn get_descriptor(&self) -> (descriptor: &str)
        ensures
            descriptor@ == self@.descriptor,
    {
        self.descriptor.as_str()
    }

    /// The flags of the method, by rising bit.
    pub fn get_access_flags(&self) -> (flags: &Vec<MethodAccessFlag>)
        ensures
            flags@ == self@.access_flags,
    {
        &self.access_flags
    }

    /// The attributes of the method, in the order of the file.
    pub fn get_attributes(&self) -> (attributes: &Vec<AttributeInfo>)
        ensures
            attributes.deep_view() == self@.attributes,
    {
        &self.attributes
    }

    /// Whether the method is named `main`.
    pub fn is_main(&self) -> (main: bool)
        ensures
            main == self@.is_main(),
    {
        let main_name = String::from_str("main");
        self.name == main_name
    }

    /// The first `Code` attribute of the method, if it has one. Native and
    /// abstract methods have none.
    pub fn get_code_attribute(&self) -> (code: Option<&AttributeInfo>)
        ensures
            code is Some <==> self@.code_attribute() is Some,
            code matches Some(attribute) ==> self@.code_attribute() == Some(attribute@),
    {
        let mut i: usize = 0;
        while i < self.attributes.len()
            invariant
                i <= self.attributes.len(),
                first_code(self.attributes.deep_view(), i as int) == first_code(
                    self.attributes.deep_view(),
                    0,
                ),
            decreases self.attributes.len() - i,
        {
            let single_attribute = &self.attributes[i];
            if let AttributeInfo::Code { .. } = single_attribute {
                return Some(single_attribute);
            }
            i += 1;
        }
        None
    }
}

} // verus!
