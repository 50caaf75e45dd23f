//! The class file as a whole: magic number, version, constant pool, flags,
//! names, interfaces, fields and methods, in that order.

use crate::class_loader::constant_pool::is_class_at;
use crate::class_loader::constant_pool::lemma_class_index_discipline_at;
use crate::class_loader::constant_pool::lemma_decoded_pool_well_formed;
use crate::class_loader::constant_pool::name_at;
use crate::class_loader::constant_pool::read_class_name;
use crate::class_loader::constant_pool::spec_class_name;
use crate::class_loader::constant_pool::spec_pool;
use crate::class_loader::constant_pool::well_formed;
use crate::class_loader::constant_pool::ConstantPool;
use crate::class_loader::constant_pool::ConstantType;
use crate::class_loader::constant_pool::SpecConstant;
use crate::class_loader::field_info::spec_field;
use crate::class_loader::field_info::FieldInfo;
use crate::class_loader::field_info::SpecField;
use crate::class_loader::member::lemma_member_index_discipline;
use crate::class_loader::member::member_named_by_text;
use crate::class_loader::method_info::spec_method;
use crate::class_loader::method_info::MethodInfo;
use crate::class_loader::method_info::SpecMethod;
use crate::class_loader::raw_data::be_u16;
use crate::class_loader::raw_data::be_u32;
use crate::class_loader::raw_data::can_read;
use crate::class_loader::raw_data::spec_read_u16;
use crate::class_loader::raw_data::spec_read_u32;
use crate::class_loader::raw_data::RawClassData;
use crate::error::JvmError;
use vstd::prelude::*;

verus! {

/// The number that every class file starts with.
pub const JAVA_MAGIC_NUMBER: u32 = 0xCAFE_BABE;

/// The release of the language that a class file was compiled for.
#[derive(Debug, Clone, Copy, PartialEq, Eq, Structural)]
pub enum JavaVersion {
    Java18,
    Java17,
    Java16,
    Java15,
    Java14,
    Java13,
    Java12,
    Java11,
    Java10,
    Java9,
    Java8,
    /// Any version number that is not in the table.
    Undefined,
}

/// The release that a pair of version numbers stands for: major versions 52
/// to 62 with minor version 0 are Java 8 to Java 18; every other pair is
/// `Undefined`.
pub open spec fn spec_java_version(major: u16, minor: u16) -> JavaVersion {
    if minor != 0 {
        JavaVersion::Undefined
    } else if major == 0x3E {
        JavaVersion::Java18
    } else if major == 0x3D {
        JavaVersion::Java17
    } else if major == 0x3C {
        JavaVersion::Java16
    } else if major == 0x3B {
        JavaVersion::Java15
    } else if major == 0x3A {
        JavaVersion::Java14
    } else if major == 0x39 {
        JavaVersion::Java13
    } else if major == 0x38 {
        JavaVersion::Java12
    } else if major == 0x37 {
        JavaVersion::Java11
    } else if major == 0x36 {
        JavaVersion::Java10
    } else if major == 0x35 {
        JavaVersion::Java9
    } else if major == 0x34 {
        JavaVersion::Java8
    } else {
        JavaVersion::Undefined
    }
}

impl JavaVersion {
    /// The release that a pair of version numbers stands for.
    pub fn from(major: u16, minor: u16) -> (version: JavaVersion)
        ensures
            version == spec_java_version(major, minor),
    {
        match (major, minor) {
            (0x3E, 0) => JavaVersion::Java18,
            (0x3D, 0) => JavaVersion::Java17,
            (0x3C, 0) => JavaVersion::Java16,
            (0x3B, 0) => JavaVersion::Java15,
            (0x3A, 0) => JavaVersion::Java14,
            (0x39, 0) => JavaVersion::Java13,
            (0x38, 0) => JavaVersion::Java12,
            (0x37, 0) => JavaVersion::Java11,
            (0x36, 0) => JavaVersion::Java10,
            (0x35, 0) => JavaVersion::Java9,
            (0x34, 0) => JavaVersion::Java8,
            _ => JavaVersion::Undefined,
        }
    }
}

/// A flag of a class.
#[derive(Debug, Clone, Copy, PartialEq, Eq, Structural)]
pub enum ClassAccessFlag {
    Public,
    Final,
    Super,
    Interface,
    Abstract,
    Synthetic,
    Annotation,
    Enum,
}

impl ClassAccessFlag {
    /// The bit of the flag in the 16-bit mask of a class.
    pub open spec fn spec_mask(self) -> u16 {
        match self {
            ClassAccessFlag::Public => 0x0001,
            ClassAccessFlag::Final => 0x0010,
            ClassAccessFlag::Super => 0x0020,
            ClassAccessFlag::Interface => 0x0200,
            ClassAccessFlag::Abstract => 0x0400,
            ClassAccessFlag::Synthetic => 0x1000,
            ClassAccessFlag::Annotation => 0x2000,
            ClassAccessFlag::Enum => 0x4000,
        }
    }

    /// All flags of a class, by rising bit.
    pub open spec fn spec_values() -> Seq<ClassAccessFlag> {
        seq![
            ClassAccessFlag::Public,
            ClassAccessFlag::Final,
            ClassAccessFlag::Super,
            ClassAccessFlag::Interface,
            ClassAccessFlag::Abstract,
            ClassAccessFlag::Synthetic,
            ClassAccessFlag::Annotation,
            ClassAccessFlag::Enum,
        ]
    }

    /// The flags whose bit is set in `mask`, by rising bit.
    pub open spec fn spec_from_mask(mask: u16) -> Seq<ClassAccessFlag> {
        Self::spec_values().filter(|flag: ClassAccessFlag| mask & flag.spec_mask() != 0)
    }

    /// The bit of the flag in the 16-bit mask of a class.
    pub fn mask(&self) -> (bit: u16)
        ensures
            bit == self.spec_mask(),
    {
        match self {
            ClassAccessFlag::Public => 0x0001,
            ClassAccessFlag::Final => 0x0010,
            ClassAccessFlag::Super => 0x0020,
            ClassAccessFlag::Interface => 0x0200,
            ClassAccessFlag::Abstract => 0x0400,
            ClassAccessFlag::Synthetic => 0x1000,
            ClassAccessFlag::Annotation => 0x2000,
            ClassAccessFlag::Enum => 0x4000,
        }
    }

    /// All flags of a class, by rising bit.
    pub fn values() -> (all: Vec<ClassAccessFlag>)
        ensures
            all@ == Self::spec_values(),
    {
        let all = vec![
            ClassAccessFlag::Public,
            ClassAccessFlag::Final,
            ClassAccessFlag::Super,
            ClassAccessFlag::Interface,
            ClassAccessFlag::Abstract,
            ClassAccessFlag::Synthetic,
            ClassAccessFlag::Annotation,
            ClassAccessFlag::Enum,
        ];
        assert(all@ =~= Self::spec_values());
        all
    }

    /// The flags whose bit is set in `flags_mask`, by rising bit.
    pub fn from_mask(flags_mask: u16) -> (access_flags: Vec<ClassAccessFlag>)
        ensures
            access_flags@ == Self::spec_from_mask(flags_mask),
    {
        let ghost set = |flag: ClassAccessFlag| flags_mask & flag.spec_mask() != 0;
        let all = Self::values();
        let mut access_flags: Vec<ClassAccessFlag> = Vec::new();
        let mut i: usize = 0;
        proof {
            reveal(Seq::filter);
            assert(all@.take(0).filter(set) =~= Seq::empty());
        }
        while i < all.len()
            invariant
                i <= all.len(),
                all@ == Self::spec_values(),
                set == |flag: ClassAccessFlag| flags_mask & flag.spec_mask() != 0,
                access_flags@ == all@.take(i as int).filter(set),
            decreases all.len() - i,
        {
            let single_flag = all[i];
            proof {
                reveal(Seq::filter);
                assert(all@.take(i + 1).drop_last() =~= all@.take(i as int));
            }
            if flags_mask & single_flag.mask() != 0 {
                access_flags.push(single_flag);
            }
            i += 1;
        }
        assert(all@.take(all.len() as int) =~= all@);
        access_flags
    }
}

/// A decoded class.
#[derive(Debug)]
pub struct ClassFile {
    java_version: JavaVersion,
    constant_pool: ConstantPool,
    access_flags: Vec<ClassAccessFlag>,
    this_class: String,
    super_class: String,
    interfaces: Vec<u16>,
    fields: Vec<FieldInfo>,
    methods: Vec<MethodInfo>,
}

/// The model of a class.
pub ghost struct SpecClassFile {
    pub java_version: JavaVersion,
    pub constant_pool: Seq<SpecConstant>,
    pub access_flags: Seq<ClassAccessFlag>,
    pub this_class: Seq<char>,
    pub super_class: Seq<char>,
    pub interfaces: Seq<u16>,
    pub fields: Seq<SpecField>,
    pub methods: Seq<SpecMethod>,
}

impl DeepView for ClassFile {
    type V = SpecClassFile;

    closed spec fn deep_view(&self) -> SpecClassFile {
        SpecClassFile {
            java_version: self.java_version,
            constant_pool: self.constant_pool@,
            access_flags: self.access_flags@,
            this_class: self.this_class@,
            super_class: self.super_class@,
            interfaces: self.interfaces@,
            fields: self.fields.deep_view(),
            methods: self.methods.deep_view(),
        }
    }
}

impl View for ClassFile {
    type V = SpecClassFile;

    open spec fn view(&self) -> SpecClassFile {
        self.deep_view()
    }
}

/// The interface indices that are still missing from `list` until it has
/// `count` of them. Each is a 16-bit number that names a class of the pool.
pub open spec fn spec_interfaces(
    bytes: Seq<u8>,
    pos: int,
    pool: Seq<SpecConstant>,
    count: int,
    list: Seq<u16>,
) -> Result<(Seq<u16>, int), JvmError>
    decreases count - list.len(),
{
    if list.len() >= count {
        Ok((list, pos))
    } else {
        match spec_read_u16(bytes, pos) {
            Err(e) => Err(e),
            Ok((index, next)) => if is_class_at(pool, index) {
                spec_interfaces(bytes, next, pool, count, list.push(index))
            } else {
                Err(JvmError::UnresolvableIndex { index: index as usize })
            },
        }
    }
}

/// The fields that are still missing from `list` until it has `count` of
/// them.
pub open spec fn spec_fields(
    bytes: Seq<u8>,
    pos: int,
    pool: Seq<SpecConstant>,
    count: int,
    list: Seq<SpecField>,
) -> Result<(Seq<SpecField>, int), JvmError>
    decreases count - list.len(),
{
    if list.len() >= count {
        Ok((list, pos))
    } else {
        match spec_field(bytes, pos, pool) {
            Err(e) => Err(e),
            Ok((field, next)) => spec_fields(bytes, next, pool, count, list.push(field)),
        }
    }
}

/// The methods that are still missing from `list` until it has `count` of
/// them.
pub open spec fn spec_methods(
    bytes: Seq<u8>,
    pos: int,
    pool: Seq<SpecConstant>,
    count: int,
    list: Seq<SpecMethod>,
) -> Result<(Seq<SpecMethod>, int), JvmError>
    decreases count - list.len(),
{
    if list.len() >= count {
        Ok((list, pos))
    } else {
        match spec_method(bytes, pos, pool) {
            Err(e) => Err(e),
            Ok((method, next)) => spec_methods(bytes, next, pool, count, list.push(method)),
        }
    }
}

/// A count in two bytes at `pos` and the interface indices behind it.
pub open spec fn spec_interface_table(bytes: Seq<u8>, pos: int, pool: Seq<SpecConstant>) -> Result<
    (Seq<u16>, int),
    JvmError,
> {
    match spec_read_u16(bytes, pos) {
        Err(e) => Err(e),
        Ok((count, at)) => spec_interfaces(bytes, at, pool, count as int, Seq::empty()),
    }
}

/// A count in two bytes at `pos` and the fields behind it.
pub open spec fn spec_field_table(bytes: Seq<u8>, pos: int, pool: Seq<SpecConstant>) -> Result<
    (Seq<SpecField>, int),
    JvmError,
> {
    match spec_read_u16(bytes, pos) {
        Err(e) => Err(e),
        Ok((count, at)) => spec_fields(bytes, at, pool, count as int, Seq::empty()),
    }
}

/// A count in two bytes at `pos` and the methods behind it.
pub open spec fn spec_method_table(bytes: Seq<u8>, pos: int, pool: Seq<SpecConstant>) -> Result<
    (Seq<SpecMethod>, int),
    JvmError,
> {
    match spec_read_u16(bytes, pos) {
        Err(e) => Err(e),
        Ok((count, at)) => spec_methods(bytes, at, pool, count as int, Seq::empty()),
    }
}

/// What follows the constant pool, which ends at `pos`: the mask of the
/// class flags in two bytes, the index of the class, the index of the
/// superclass, and the tables of interfaces, fields and methods. Both
/// indices must name `Class` entries of the pool, so that a class without a
/// superclass is refused.
pub open spec fn spec_class_members(
    bytes: Seq<u8>,
    pos: int,
    pool: Seq<SpecConstant>,
    java_version: JavaVersion,
) -> Result<(SpecClassFile, int), JvmError> {
    match spec_read_u16(bytes, pos) {
        Err(e) => Err(e),
        Ok((mask, this_at)) => match spec_class_name(bytes, this_at, pool) {
            Err(e) => Err(e),
            Ok((this_class, super_at)) => match spec_class_name(bytes, super_at, pool) {
                Err(e) => Err(e),
                Ok((super_class, interfaces_at)) => match spec_interface_table(
                    bytes,
                    interfaces_at,
                    pool,
                ) {
                    Err(e) => Err(e),
                    Ok((interfaces, fields_at)) => match spec_field_table(bytes, fields_at, pool) {
                        Err(e) => Err(e),
                        Ok((fields, methods_at)) => match spec_method_table(
                            bytes,
                            methods_at,
                            pool,
                        ) {
                            Err(e) => Err(e),
                            Ok((methods, next)) => Ok(
                                (
                                    SpecClassFile {
                                        java_version,
                                        constant_pool: pool,
                                        access_flags: ClassAccessFlag::spec_from_mask(mask),
                                        this_class,
                                        super_class,
                                        interfaces,
                                        fields,
                                        methods,
                                    },
                                    next,
                                ),
                            ),
                        },
                    },
                },
            },
        },
    }
}

/// What follows the version, which ends at `pos`: the constant pool and the
/// rest of the class.
#[verifier::opaque]
pub open spec fn spec_class_body(bytes: Seq<u8>, pos: int, java_version: JavaVersion) -> Result<
    (SpecClassFile, int),
    JvmError,
> {
    match spec_pool(bytes, pos) {
        Err(e) => Err(e),
        Ok((pool, next)) => spec_class_members(bytes, next, pool, java_version),
    }
}

/// The class file at `pos`: the magic number in four bytes, the minor and
/// the major version in two bytes each, and the body. A wrong magic number
/// is refused. The version is recorded and never refused.
pub open spec fn spec_class_file(bytes: Seq<u8>, pos: int) -> Result<(SpecClassFile, int), JvmError> {
    if !can_read(bytes, pos, 4) {
        Err(JvmError::BoundedRead)
    } else if be_u32(bytes, pos) != JAVA_MAGIC_NUMBER {
        Err(JvmError::InvalidMagic)
    } else if !can_read(bytes, pos + 4, 4) {
        Err(JvmError::BoundedRead)
    } else {
        spec_class_body(
            bytes,
            pos + 8,
            spec_java_version(be_u16(bytes, pos + 6) as u16, be_u16(bytes, pos + 4) as u16),
        )
    }
}

/// The magic gate: input that does not start with the magic number is
/// refused with the format error for it, whatever follows.
pub proof fn lemma_magic_gate(bytes: Seq<u8>)
    requires
        bytes.len() >= 4,
        !(bytes[0] == 0xCA && bytes[1] == 0xFE && bytes[2] == 0xBA && bytes[3] == 0xBE),
    ensures
        spec_class_file(bytes, 0) == Err::<(SpecClassFile, int), JvmError>(JvmError::InvalidMagic),
{
}

/// The version gate: the version numbers decide nothing but the version
/// that is recorded. Whether a class decodes, and everything else about it,
/// depends on the magic number and on the body alone; a major version other
/// than 61 is recorded as another release or as `Undefined`.
pub proof fn lemma_version_is_recorded(bytes: Seq<u8>, pos: int, other: JavaVersion)
    requires
        can_read(bytes, pos, 8),
        be_u32(bytes, pos) == JAVA_MAGIC_NUMBER,
    ensures
        spec_class_file(bytes, pos) is Ok <==> spec_class_body(bytes, pos + 8, other) is Ok,
        spec_class_file(bytes, pos) matches Ok((class, next)) ==> {
            &&& class.java_version == spec_java_version(
                be_u16(bytes, pos + 6) as u16,
                be_u16(bytes, pos + 4) as u16,
            )
            &&& spec_class_body(bytes, pos + 8, other) == Ok::<(SpecClassFile, int), JvmError>(
                (SpecClassFile { java_version: other, ..class }, next),
            )
            &&& be_u16(bytes, pos + 6) != 0x3D ==> class.java_version != JavaVersion::Java17
        },
        spec_class_file(bytes, pos) matches Err(e) ==> spec_class_body(bytes, pos + 8, other) == Err::<
            (SpecClassFile, int),
            JvmError,
        >(e),
{
    reveal(spec_class_body);
}

/// Decoded interface indices name classes of the pool.
pub proof fn lemma_interfaces_name_classes(
    bytes: Seq<u8>,
    pos: int,
    pool: Seq<SpecConstant>,
    count: int,
    list: Seq<u16>,
)
    requires
        forall|i: int| 0 <= i < list.len() ==> is_class_at(pool, #[trigger] list[i]),
    ensures
        spec_interfaces(bytes, pos, pool, count, list) matches Ok((all, _)) ==> forall|i: int|
            0 <= i < all.len() ==> is_class_at(pool, #[trigger] all[i]),
    decreases count - list.len(),
{
    if list.len() < count {
        if let Ok((index, next)) = spec_read_u16(bytes, pos) {
            if is_class_at(pool, index) {
                lemma_interfaces_name_classes(bytes, next, pool, count, list.push(index));
            }
        }
    }
}

/// Whether the name and the descriptor of `field`, and the names of its
/// attributes, are each the text of a `Utf8` entry of `pool`.
pub open spec fn field_named_by_text(pool: Seq<SpecConstant>, field: SpecField) -> bool {
    member_named_by_text(pool, field.name, field.descriptor_name, field.attributes)
}

/// Whether the name and the descriptor of `method`, and the names of its
/// attributes, are each the text of a `Utf8` entry of `pool`.
pub open spec fn method_named_by_text(pool: Seq<SpecConstant>, method: SpecMethod) -> bool {
    member_named_by_text(pool, method.name, method.descriptor, method.attributes)
}

/// Every field of a decoded list is named by text.
pub proof fn lemma_fields_named_by_text(
    bytes: Seq<u8>,
    pos: int,
    pool: Seq<SpecConstant>,
    count: int,
    list: Seq<SpecField>,
)
    requires
        forall|i: int| 0 <= i < list.len() ==> field_named_by_text(pool, #[trigger] list[i]),
    ensures
        spec_fields(bytes, pos, pool, count, list) matches Ok((all, _)) ==> forall|i: int|
            0 <= i < all.len() ==> field_named_by_text(pool, #[trigger] all[i]),
    decreases count - list.len(),
{
    if list.len() < count {
        if let Ok((field, next)) = spec_field(bytes, pos, pool) {
            lemma_member_index_discipline(bytes, pos, pool);
            lemma_fields_named_by_text(bytes, next, pool, count, list.push(field));
        }
    }
}

/// Every method of a decoded list is named by text.
pub proof fn lemma_methods_named_by_text(
    bytes: Seq<u8>,
    pos: int,
    pool: Seq<SpecConstant>,
    count: int,
    list: Seq<SpecMethod>,
)
    requires
        forall|i: int| 0 <= i < list.len() ==> method_named_by_text(pool, #[trigger] list[i]),
    ensures
        spec_methods(bytes, pos, pool, count, list) matches Ok((all, _)) ==> forall|i: int|
            0 <= i < all.len() ==> method_named_by_text(pool, #[trigger] all[i]),
    decreases count - list.len(),
{
    if list.len() < count {
        if let Ok((method, next)) = spec_method(bytes, pos, pool) {
            lemma_member_index_discipline(bytes, pos, pool);
            lemma_methods_named_by_text(bytes, next, pool, count, list.push(method));
        }
    }
}

/// Index discipline of the part of a class behind its constant pool: the
/// two indices behind the class flags, at `pos + 2` and `pos + 4`, name
/// `Class` entries, and in a well-formed pool the names of the class and of
/// its superclass are the names of these classes; every interface index
/// names a `Class` entry; and the name and the descriptor of every field and
/// method, and the name of every attribute, are the text of a `Utf8` entry.
pub proof fn lemma_members_index_discipline(
    bytes: Seq<u8>,
    pos: int,
    pool: Seq<SpecConstant>,
    java_version: JavaVersion,
)
    ensures
        spec_class_members(bytes, pos, pool, java_version) matches Ok((class, _)) ==> {
            &&& class.constant_pool == pool
            &&& is_class_at(pool, be_u16(bytes, pos + 2) as u16)
            &&& is_class_at(pool, be_u16(bytes, pos + 4) as u16)
            &&& well_formed(pool) ==> {
                &&& class.this_class == name_at(pool, be_u16(bytes, pos + 2) as u16)
                &&& class.super_class == name_at(pool, be_u16(bytes, pos + 4) as u16)
            }
            &&& forall|i: int|
                0 <= i < class.interfaces.len() ==> is_class_at(
                    pool,
                    #[trigger] class.interfaces[i],
                )
            &&& forall|i: int|
                0 <= i < class.fields.len() ==> field_named_by_text(pool, #[trigger] class.fields[i])
            &&& forall|i: int|
                0 <= i < class.methods.len() ==> method_named_by_text(
                    pool,
                    #[trigger] class.methods[i],
                )
        },
{
    if let Ok((class, _)) = spec_class_members(bytes, pos, pool, java_version) {
        let (mask, this_at) = spec_read_u16(bytes, pos)->Ok_0;
        lemma_class_index_discipline_at(bytes, this_at, pool);
        let (this_class, super_at) = spec_class_name(bytes, this_at, pool)->Ok_0;
        lemma_class_index_discipline_at(bytes, super_at, pool);
        let (super_class, interfaces_at) = spec_class_name(bytes, super_at, pool)->Ok_0;
        let (count, at) = spec_read_u16(bytes, interfaces_at)->Ok_0;
        lemma_interfaces_name_classes(bytes, at, pool, count as int, Seq::empty());
        let (interfaces, fields_at) = spec_interfaces(bytes, at, pool, count as int, Seq::empty())->Ok_0;
        let (fields_count, first_field) = spec_read_u16(bytes, fields_at)->Ok_0;
        lemma_fields_named_by_text(bytes, first_field, pool, fields_count as int, Seq::empty());
        let (fields, methods_at) = spec_fields(
            bytes,
            first_field,
            pool,
            fields_count as int,
            Seq::empty(),
        )->Ok_0;
        let (methods_count, first_method) = spec_read_u16(bytes, methods_at)->Ok_0;
        lemma_methods_named_by_text(bytes, first_method, pool, methods_count as int, Seq::empty());
    }
}

/// Index discipline of a decoded class. Its constant pool is well formed:
/// every index held by an entry names an entry of the kind that its place
/// requires, and the sentinel stands in slot 0 and behind every `Long` and
/// `Double`, so that no index can name either in place of text, a class or
/// a name-and-type. With `at` the position behind the pool, the indices of
/// the class and of its superclass at `at + 2` and `at + 4` name `Class`
/// entries, whose names are the names of the class and of its superclass;
/// every interface index names a `Class` entry; and the name and the
/// descriptor of every field and method, and the name of every attribute,
/// are the text of a `Utf8` entry.
pub proof fn lemma_class_index_discipline(bytes: Seq<u8>, pos: int)
    ensures
        spec_class_file(bytes, pos) matches Ok((class, _)) ==> {
            &&& spec_pool(bytes, pos + 8) matches Ok((pool, at))
            &&& class.constant_pool == pool
            &&& well_formed(pool)
            &&& is_class_at(pool, be_u16(bytes, at + 2) as u16)
            &&& class.this_class == name_at(pool, be_u16(bytes, at + 2) as u16)
            &&& is_class_at(pool, be_u16(bytes, at + 4) as u16)
            &&& class.super_class == name_at(pool, be_u16(bytes, at + 4) as u16)
            &&& forall|i: int|
                0 <= i < class.interfaces.len() ==> is_class_at(
                    pool,
                    #[trigger] class.interfaces[i],
                )
            &&& forall|i: int|
                0 <= i < class.fields.len() ==> field_named_by_text(pool, #[trigger] class.fields[i])
            &&& forall|i: int|
                0 <= i < class.methods.len() ==> method_named_by_text(
                    pool,
                    #[trigger] class.methods[i],
                )
        },
{
    reveal(spec_class_body);
    if let Ok((class, _)) = spec_class_file(bytes, pos) {
        lemma_decoded_pool_well_formed(bytes, pos + 8);
        let (pool, at) = spec_pool(bytes, pos + 8)->Ok_0;
        lemma_members_index_discipline(bytes, at, pool, class.java_version);
    }
}

/// The position of the first method named `main` at or behind `from`.
pub open spec fn first_main(methods: Seq<SpecMethod>, from: int) -> Option<int>
    decreases methods.len() - from,
{
    if from < 0 || from >= methods.len() {
        None
    } else if methods[from].is_main() {
        Some(from)
    } else {
        first_main(methods, from + 1)
    }
}

/// The first method named `main` is a method named `main` with none before
/// it; where there is none, no method is named `main`.
pub proof fn lemma_first_main(methods: Seq<SpecMethod>, from: int)
    requires
        0 <= from,
    ensures
        match first_main(methods, from) {
            Some(i) => {
                &&& from <= i < methods.len()
                &&& methods[i].is_main()
                &&& forall|j: int| from <= j < i ==> !(#[trigger] methods[j]).is_main()
            },
            None => forall|j: int| from <= j < methods.len() ==> !(#[trigger] methods[j]).is_main(),
        },
    decreases methods.len() - from,
{
    if from < methods.len() && !methods[from].is_main() {
        lemma_first_main(methods, from + 1);
    }
}

impl ClassFile {
    /// Decodes the class file at the cursor.
    pub fn new(data: &mut RawClassData) -> (res: Result<ClassFile, JvmError>)
        ensures
            final(data).delivers(
                *old(data),
                res,
                spec_class_file(old(data).data@, old(data).cursor as int),
            ),
            res matches Ok(class) ==> well_formed(class@.constant_pool),
    {
        let magic_number = data.read_4_bytes()?;
        if magic_number != JAVA_MAGIC_NUMBER {
            return Err(JvmError::InvalidMagic);
        }
        if let Some(error) = data.check_boundary(4) {
            return Err(error);
        }
        let java_version = Self::read_java_version(data)?;
        Self::read_body(data, java_version)
    }

    /// Decodes the constant pool at the cursor and the rest of the class
    /// behind it.
    fn read_body(data: &mut RawClassData, java_version: JavaVersion) -> (res: Result<
        ClassFile,
        JvmError,
    >)
        ensures
            final(data).delivers(
                *old(data),
                res,
                spec_class_body(old(data).data@, old(data).cursor as int, java_version),
            ),
            res matches Ok(class) ==> well_formed(class@.constant_pool),
    {
        proof {
            reveal(spec_class_body);
        }
        let constant_pool = ConstantPool::new(data)?;
        Self::read_members(data, constant_pool, java_version)
    }

    /// Decodes what follows the constant pool.
    fn read_members(
        data: &mut RawClassData,
        constant_pool: ConstantPool,
        java_version: JavaVersion,
    ) -> (res: Result<ClassFile, JvmError>)
        ensures
            final(data).delivers(
                *old(data),
                res,
                spec_class_members(
                    old(data).data@,
                    old(data).cursor as int,
                    constant_pool@,
                    java_version,
                ),
            ),
            res matches Ok(class) ==> class@.constant_pool == constant_pool@,
    {
        let access_flags = ClassAccessFlag::from_mask(data.read_2_bytes()?);
        let this_class = read_class_name(data, &constant_pool)?;
        let super_class = read_class_name(data, &constant_pool)?;
        let interfaces = Self::read_interfaces(data, &constant_pool)?;
        let fields = Self::read_fields(data, &constant_pool)?;
        let methods = Self::read_methods(data, &constant_pool)?;
        assert(interfaces.deep_view() =~= interfaces@);
        Ok(
            ClassFile {
                java_version,
                constant_pool,
                access_flags,
                this_class,
                super_class,
                interfaces,
                fields,
                methods,
            },
        )
    }

    /// Reads the minor and the major version and maps them to a release.
    fn read_java_version(data: &mut RawClassData) -> (res: Result<JavaVersion, JvmError>)
        ensures
            final(data).data@ == old(data).data@,
            can_read(old(data).data@, old(data).cursor as int, 4) ==> {
                &&& res == Ok::<JavaVersion, JvmError>(
                    spec_java_version(
                        be_u16(old(data).data@, old(data).cursor + 2) as u16,
                        be_u16(old(data).data@, old(data).cursor as int) as u16,
                    ),
                )
                &&& final(data).cursor == old(data).cursor + 4
            },
            !can_read(old(data).data@, old(data).cursor as int, 4) ==> {
                &&& res == Err::<JavaVersion, JvmError>(JvmError::BoundedRead)
                &&& old(data).cursor <= final(data).cursor
            },
    {
        let minor_version = data.read_2_bytes()?;
        let major_version = data.read_2_bytes()?;
        Ok(JavaVersion::from(major_version, minor_version))
    }

    /// Reads the table of interfaces.
    #[verifier::loop_isolation(false)]
    fn read_interfaces(data: &mut RawClassData, constant_pool: &ConstantPool) -> (res: Result<
        Vec<u16>,
        JvmError,
    >)
        ensures
            final(data).delivers(
                *old(data),
                res,
                spec_interface_table(old(data).data@, old(data).cursor as int, constant_pool@),
            ),
    {
        let ghost bytes = data.data@;
        let ghost inside = data.cursor <= data.data.len();
        let ghost pool = constant_pool@;
        let interfaces_count = data.read_2_bytes()?;
        let ghost at = data.cursor as int;
        let mut interfaces: Vec<u16> = Vec::with_capacity(interfaces_count as usize);
        while interfaces.len() < interfaces_count as usize
            invariant
                data.data@ == bytes,
                inside ==> data.cursor <= bytes.len(),
                at <= data.cursor,
                spec_interfaces(bytes, data.cursor as int, pool, interfaces_count as int, interfaces@)
                    == spec_interfaces(bytes, at, pool, interfaces_count as int, Seq::empty()),
            decreases interfaces_count - interfaces.len(),
        {
            let single_interface = data.read_2_bytes()?;
            match constant_pool.get(single_interface as usize) {
                Some(ConstantType::Class { .. }) => {},
                _ => {
                    return Err(JvmError::UnresolvableIndex { index: single_interface as usize });
                },
            }
            interfaces.push(single_interface);
        }
        assert(interfaces.deep_view() =~= interfaces@);
        Ok(interfaces)
    }

    /// Reads the table of fields.
    #[verifier::loop_isolation(false)]
    fn read_fields(data: &mut RawClassData, constant_pool: &ConstantPool) -> (res: Result<
        Vec<FieldInfo>,
        JvmError,
    >)
        ensures
            final(data).delivers(
                *old(data),
                res,
                spec_field_table(old(data).data@, old(data).cursor as int, constant_pool@),
            ),
    {
        let ghost bytes = data.data@;
        let ghost inside = data.cursor <= data.data.len();
        let ghost pool = constant_pool@;
        let fields_count = data.read_2_bytes()?;
        let ghost at = data.cursor as int;
        let mut fields: Vec<FieldInfo> = Vec::with_capacity(fields_count as usize);
        assert(fields.deep_view() =~= Seq::empty());
        while fields.len() < fields_count as usize
            invariant
                data.data@ == bytes,
                inside ==> data.cursor <= bytes.len(),
                at <= data.cursor,
                spec_fields(bytes, data.cursor as int, pool, fields_count as int, fields.deep_view())
                    == spec_fields(bytes, at, pool, fields_count as int, Seq::empty()),
            decreases fields_count - fields.len(),
        {
            let ghost before = fields.deep_view();
            let field_info = FieldInfo::from(data, constant_pool)?;
            let ghost field = field_info@;
            fields.push(field_info);
            assert(fields.deep_view() =~= before.push(field));
        }
        Ok(fields)
    }

    /// Reads the table of methods.
    #[verifier::loop_isolation(false)]
    fn read_methods(data: &mut RawClassData, constant_pool: &ConstantPool) -> (res: Result<
        Vec<MethodInfo>,
        JvmError,
    >)
        ensures
            final(data).delivers(
                *old(data),
                res,
                spec_method_table(old(data).data@, old(data).cursor as int, constant_pool@),
            ),
    {
        let ghost bytes = data.data@;
        let ghost inside = data.cursor <= data.data.len();
        let ghost pool = constant_pool@;
        let methods_count = data.read_2_bytes()?;
        let ghost at = data.cursor as int;
        let mut methods: Vec<MethodInfo> = Vec::with_capacity(methods_count as usize);
        assert(methods.deep_view() =~= Seq::empty());
        while methods.len() < methods_count as usize
            invariant
                data.data@ == bytes,
                inside ==> data.cursor <= bytes.len(),
                at <= data.cursor,
                spec_methods(
                    bytes,
                    data.cursor as int,
                    pool,
                    methods_count as int,
                    methods.deep_view(),
                ) == spec_methods(bytes, at, pool, methods_count as int, Seq::empty()),
            decreases methods_count - methods.len(),
        {
            let ghost before = methods.deep_view();
            let single_method = MethodInfo::from(data, constant_pool)?;
            let ghost method = single_method@;
            methods.push(single_method);
            assert(methods.deep_view() =~= before.push(method));
        }
        Ok(methods)
    }

    /// The release that the class was compiled for.
    pub fn java_version(&self) -> (version: JavaVersion)
        ensures
            version == self@.java_version,
    {
        self.java_version
    }

    /// The constant pool of the class.
    pub fn constant_pool(&self) -> (pool: &ConstantPool)
        ensures
            pool@ == self@.constant_pool,
            well_formed(pool@),
    {
        let pool = &self.constant_pool;
        let _ = pool.len();
        pool
    }

    /// The flags of the class, by rising bit.
    pub fn access_flags(&self) -> (flags: &Vec<ClassAccessFlag>)
        ensures
            flags@ == self@.access_flags,
    {
        &self.access_flags
    }

    /// The name of the class.
    pub fn this_class(&self) -> (name: &str)
        ensures
            name@ == self@.this_class,
    {
        self.this_class.as_str()
    }

    /// The name of the superclass.
    pub fn super_class(&self) -> (name: &str)
        ensures
            name@ == self@.super_class,
    {
        self.super_class.as_str()
    }

    /// The pool indices of the interfaces of the class.
    pub fn interfaces(&self) -> (indices: &Vec<u16>)
        ensures
            indices@ == self@.interfaces,
    {
        &self.interfaces
    }

    /// The fields of the class, in the order of the file.
    pub fn fields(&self) -> (fields: &Vec<FieldInfo>)
        ensures
            fields.deep_view() == self@.fields,
    {
        &self.fields
    }

    /// The methods of the class, in the order of the file.
    pub fn methods(&self) -> (methods: &Vec<MethodInfo>)
        ensures
            methods.deep_view() == self@.methods,
    {
        &self.methods
    }

    /// The first method named `main`, or the error that says that the class
    /// has none.
    pub fn main_method(&self) -> (res: Result<&MethodInfo, JvmError>)
        ensures
            match first_main(self@.methods, 0) {
                Some(i) => res is Ok && res->Ok_0@ == self@.methods[i],
                None => res == Err::<&MethodInfo, JvmError>(JvmError::NoMainMethod),
            },
    {
        let mut i: usize = 0;
        while i < self.methods.len()
            invariant
                i <= self.methods.len(),
                first_main(self.methods.deep_view(), i as int) == first_main(
                    self.methods.deep_view(),
                    0,
                ),
            decreases self.methods.len() - i,
        {
            if self.methods[i].is_main() {
                return Ok(&self.methods[i]);
            }
            i += 1;
        }
        Err(JvmError::NoMainMethod)
    }
}

} // verus!
