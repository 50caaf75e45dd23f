//! The constant pool: decoding of its entries, the discipline of the
//! indices they hold, and the resolution of an index to a name.

use crate::class_loader::raw_data::be_u16;
use crate::class_loader::raw_data::be_u32;
use crate::class_loader::raw_data::be_u64;
use crate::class_loader::raw_data::can_read;
use crate::class_loader::raw_data::spec_read_string;
use crate::class_loader::raw_data::spec_read_u16;
use crate::class_loader::raw_data::RawClassData;
use crate::error::JvmError;
use vstd::prelude::*;

verus! {

/// One entry of the constant pool.
#[derive(Debug, PartialEq, Eq)]
#[allow(inconsistent_fields)]
pub enum ConstantType {
    /// Tag 7: a class, by the index of its name.
    Class { name_index: u16 },
    /// Tag 9: a field of a class.
    Fieldref { class_index: u16, name_and_type_index: u16 },
    /// Tag 10: a method of a class.
    Methodref { class_index: u16, name_and_type_index: u16 },
    /// Tag 11: a method of an interface.
    InterfaceMethodref { class_index: u16, name_and_type_index: u16 },
    /// Tag 8: a string constant, by the index of its text.
    String { idx: u16 },
    /// Tag 3: the bits of a 32-bit integer.
    Integer { val: u32 },
    /// Tag 4: the bits of a 32-bit float.
    Float { val: u32 },
    /// Tag 5: the bits of a 64-bit integer. Takes two slots.
    Long { val: u64 },
    /// Tag 6: the bits of a 64-bit float. Takes two slots.
    Double { val: u64 },
    /// Tag 12: a name with its descriptor.
    NameAndType { name_index: u16, descriptor_index: u16 },
    /// Tag 1: text.
    Utf8 { value: String },
    /// Tag 15. Its three bytes are passed over.
    MethodHandle,
    /// Tag 16. Its two bytes are passed over.
    MethodType,
    /// Tag 18. Its four bytes are passed over.
    InvokeDynamic,
    /// The sentinel in slot 0 and in the second slot of a `Long` or `Double`.
    Reserved,
}

/// The model of a constant-pool entry: as `ConstantType`, with the text as a
/// sequence of characters.
#[allow(inconsistent_fields)]
pub ghost enum SpecConstant {
    Class { name_index: u16 },
    Fieldref { class_index: u16, name_and_type_index: u16 },
    Methodref { class_index: u16, name_and_type_index: u16 },
    InterfaceMethodref { class_index: u16, name_and_type_index: u16 },
    String { idx: u16 },
    Integer { val: u32 },
    Float { val: u32 },
    Long { val: u64 },
    Double { val: u64 },
    NameAndType { name_index: u16, descriptor_index: u16 },
    Utf8 { value: Seq<char> },
    MethodHandle,
    MethodType,
    InvokeDynamic,
    Reserved,
}

impl DeepView for ConstantType {
    type V = SpecConstant;

    open spec fn deep_view(&self) -> SpecConstant {
        match *self {
            ConstantType::Class { name_index } => SpecConstant::Class { name_index },
            ConstantType::Fieldref { class_index, name_and_type_index } => SpecConstant::Fieldref {
                class_index,
                name_and_type_index,
            },
            ConstantType::Methodref {
                class_index,
                name_and_type_index,
            } => SpecConstant::Methodref { class_index, name_and_type_index },
            ConstantType::InterfaceMethodref {
                class_index,
                name_and_type_index,
            } => SpecConstant::InterfaceMethodref { class_index, name_and_type_index },
            ConstantType::String { idx } => SpecConstant::String { idx },
            ConstantType::Integer { val } => SpecConstant::Integer { val },
            ConstantType::Float { val } => SpecConstant::Float { val },
            ConstantType::Long { val } => SpecConstant::Long { val },
            ConstantType::Double { val } => SpecConstant::Double { val },
            ConstantType::NameAndType {
                name_index,
                descriptor_index,
            } => SpecConstant::NameAndType { name_index, descriptor_index },
            ConstantType::Utf8 { value } => SpecConstant::Utf8 { value: value@ },
            ConstantType::MethodHandle => SpecConstant::MethodHandle,
            ConstantType::MethodType => SpecConstant::MethodType,
            ConstantType::InvokeDynamic => SpecConstant::InvokeDynamic,
            ConstantType::Reserved => SpecConstant::Reserved,
        }
    }
}

impl View for ConstantType {
    type V = SpecConstant;

    open spec fn view(&self) -> SpecConstant {
        self.deep_view()
    }
}

impl SpecConstant {
    /// Whether the entry takes two slots of the pool.
    pub open spec fn is_wide(self) -> bool {
        self is Long || self is Double
    }
}

/// An entry whose payload of `len` bytes starts at `at`.
pub open spec fn spec_fixed(bytes: Seq<u8>, at: int, len: int, entry: SpecConstant) -> Result<
    (SpecConstant, int),
    JvmError,
> {
    if can_read(bytes, at, len) {
        Ok((entry, at + len))
    } else {
        Err(JvmError::BoundedRead)
    }
}

/// The entry that starts with its tag byte at `pos`.
pub open spec fn spec_constant(bytes: Seq<u8>, pos: int) -> Result<(SpecConstant, int), JvmError> {
    let at = pos + 1;
    if !can_read(bytes, pos, 1) {
        Err(JvmError::BoundedRead)
    } else if bytes[pos] == 7 {
        spec_fixed(bytes, at, 2, SpecConstant::Class { name_index: be_u16(bytes, at) as u16 })
    } else if bytes[pos] == 9 {
        spec_fixed(
            bytes,
            at,
            4,
            SpecConstant::Fieldref {
                class_index: be_u16(bytes, at) as u16,
                name_and_type_index: be_u16(bytes, at + 2) as u16,
            },
        )
    } else if bytes[pos] == 10 {
        spec_fixed(
            bytes,
            at,
            4,
            SpecConstant::Methodref {
                class_index: be_u16(bytes, at) as u16,
                name_and_type_index: be_u16(bytes, at + 2) as u16,
            },
        )
    } else if bytes[pos] == 11 {
        spec_fixed(
            bytes,
            at,
            4,
            SpecConstant::InterfaceMethodref {
                class_index: be_u16(bytes, at) as u16,
                name_and_type_index: be_u16(bytes, at + 2) as u16,
            },
        )
    } else if bytes[pos] == 8 {
        spec_fixed(bytes, at, 2, SpecConstant::String { idx: be_u16(bytes, at) as u16 })
    } else if bytes[pos] == 3 {
        spec_fixed(bytes, at, 4, SpecConstant::Integer { val: be_u32(bytes, at) as u32 })
    } else if bytes[pos] == 4 {
        spec_fixed(bytes, at, 4, SpecConstant::Float { val: be_u32(bytes, at) as u32 })
    } else if bytes[pos] == 5 {
        spec_fixed(bytes, at, 8, SpecConstant::Long { val: be_u64(bytes, at) as u64 })
    } else if bytes[pos] == 6 {
        spec_fixed(bytes, at, 8, SpecConstant::Double { val: be_u64(bytes, at) as u64 })
    } else if bytes[pos] == 12 {
        spec_fixed(
            bytes,
            at,
            4,
            SpecConstant::NameAndType {
                name_index: be_u16(bytes, at) as u16,
                descriptor_index: be_u16(bytes, at + 2) as u16,
            },
        )
    } else if bytes[pos] == 1 {
        match spec_read_u16(bytes, at) {
            Err(e) => Err(e),
            Ok((len, text)) => match spec_read_string(bytes, text, len as int) {
                Err(e) => Err(e),
                Ok((value, next)) => Ok((SpecConstant::Utf8 { value }, next)),
            },
        }
    } else if bytes[pos] == 15 {
        spec_fixed(bytes, at, 3, SpecConstant::MethodHandle)
    } else if bytes[pos] == 16 {
        spec_fixed(bytes, at, 2, SpecConstant::MethodType)
    } else if bytes[pos] == 18 {
        spec_fixed(bytes, at, 4, SpecConstant::InvokeDynamic)
    } else {
        Err(JvmError::UnknownConstantTag { tag: bytes[pos] })
    }
}

impl ConstantType {
    /// Decodes the entry at the cursor: one tag byte, then the payload that
    /// the tag calls for.
    pub fn from(data: &mut RawClassData) -> (res: Result<ConstantType, JvmError>)
        ensures
            final(data).delivers(
                *old(data),
                res,
                spec_constant(old(data).data@, old(data).cursor as int),
            ),
    {
        let constant_tag = data.read_1_byte()?;
        match constant_tag {
            7 => Ok(ConstantType::Class { name_index: data.read_2_bytes()? }),
            9 => {
                let class_index = data.read_2_bytes()?;
                let name_and_type_index = data.read_2_bytes()?;
                Ok(ConstantType::Fieldref { class_index, name_and_type_index })
            },
            10 => {
                let class_index = data.read_2_bytes()?;
                let name_and_type_index = data.read_2_bytes()?;
                Ok(ConstantType::Methodref { class_index, name_and_type_index })
            },
            11 => {
                let class_index = data.read_2_bytes()?;
                let name_and_type_index = data.read_2_bytes()?;
                Ok(ConstantType::InterfaceMethodref { class_index, name_and_type_index })
            },
            8 => Ok(ConstantType::String { idx: data.read_2_bytes()? }),
            3 => Ok(ConstantType::Integer { val: data.read_4_bytes()? }),
            4 => Ok(ConstantType::Float { val: data.read_4_bytes()? }),
            5 => Ok(ConstantType::Long { val: data.read_8_bytes()? }),
            6 => Ok(ConstantType::Double { val: data.read_8_bytes()? }),
            12 => {
                let name_index = data.read_2_bytes()?;
                let descriptor_index = data.read_2_bytes()?;
                Ok(ConstantType::NameAndType { name_index, descriptor_index })
            },
            1 => {
                let str_length = data.read_2_bytes()? as usize;
                Ok(ConstantType::Utf8 { value: data.read_string(str_length)? })
            },
            15 => {
                data.skip(3)?;
                Ok(ConstantType::MethodHandle)
            },
            16 => {
                data.skip(2)?;
                Ok(ConstantType::MethodType)
            },
            18 => {
                data.skip(4)?;
                Ok(ConstantType::InvokeDynamic)
            },
            _ => Err(JvmError::UnknownConstantTag { tag: constant_tag }),
        }
    }

    /// Whether the entry takes two slots of the pool.
    pub fn is_wide(&self) -> (wide: bool)
        ensures
            wide == self@.is_wide(),
    {
        match self {
            ConstantType::Long { .. } | ConstantType::Double { .. } => true,
            _ => false,
        }
    }
}

/// Decoding of the entries that are still missing from `pool`, which holds
/// the slots below `pool.len()`, until it has `count` slots. An entry that
/// takes two slots is followed by the sentinel, and fails if the second slot
/// would lie outside the pool.
pub open spec fn spec_pool_from(bytes: Seq<u8>, pos: int, count: int, pool: Seq<SpecConstant>) -> Result<
    (Seq<SpecConstant>, int),
    JvmError,
>
    decreases count - pool.len(),
{
    if pool.len() >= count {
        Ok((pool, pos))
    } else {
        match spec_constant(bytes, pos) {
            Err(e) => Err(e),
            Ok((entry, next)) => if !entry.is_wide() {
                spec_pool_from(bytes, next, count, pool.push(entry))
            } else if pool.len() + 1 >= count {
                Err(JvmError::MissingSecondSlot)
            } else {
                spec_pool_from(bytes, next, count, pool.push(entry).push(SpecConstant::Reserved))
            },
        }
    }
}

/// Whether `index` names a `Utf8` entry of `pool`.
pub open spec fn is_utf8_at(pool: Seq<SpecConstant>, index: u16) -> bool {
    index < pool.len() && pool[index as int] is Utf8
}

/// Whether `index` names a `Class` entry of `pool`.
pub open spec fn is_class_at(pool: Seq<SpecConstant>, index: u16) -> bool {
    index < pool.len() && pool[index as int] is Class
}

/// Whether `index` names a `NameAndType` entry of `pool`.
pub open spec fn is_name_and_type_at(pool: Seq<SpecConstant>, index: u16) -> bool {
    index < pool.len() && pool[index as int] is NameAndType
}

/// The first index held by `entry` that does not name an entry of the kind
/// that its place requires: text for the name of a class, for a string and for
/// both parts of a name-and-type; a class and a name-and-type for a field or
/// method reference.
pub open spec fn bad_ref(pool: Seq<SpecConstant>, entry: SpecConstant) -> Option<u16> {
    match entry {
        SpecConstant::Class { name_index } => if is_utf8_at(pool, name_index) {
            None
        } else {
            Some(name_index)
        },
        SpecConstant::String { idx } => if is_utf8_at(pool, idx) {
            None
        } else {
            Some(idx)
        },
        SpecConstant::NameAndType { name_index, descriptor_index } => if !is_utf8_at(
            pool,
            name_index,
        ) {
            Some(name_index)
        } else if !is_utf8_at(pool, descriptor_index) {
            Some(descriptor_index)
        } else {
            None
        },
        SpecConstant::Fieldref { class_index, name_and_type_index }
        | SpecConstant::Methodref { class_index, name_and_type_index }
        | SpecConstant::InterfaceMethodref { class_index, name_and_type_index } => if !is_class_at(
            pool,
            class_index,
        ) {
            Some(class_index)
        } else if !is_name_and_type_at(pool, name_and_type_index) {
            Some(name_and_type_index)
        } else {
            None
        },
        _ => None,
    }
}

/// The first bad reference held by an entry at or behind slot `from`.
pub open spec fn first_bad_ref(pool: Seq<SpecConstant>, from: int) -> Option<u16>
    decreases pool.len() - from,
{
    if from < 0 || from >= pool.len() {
        None
    } else if bad_ref(pool, pool[from]) is Some {
        bad_ref(pool, pool[from])
    } else {
        first_bad_ref(pool, from + 1)
    }
}

/// The slots of the pool are laid out as the format asks: the sentinel in
/// slot 0, and behind every entry that takes two slots.
pub open spec fn slots_ok(pool: Seq<SpecConstant>) -> bool {
    &&& 1 <= pool.len()
    &&& pool[0] is Reserved
    &&& forall|i: int|
        0 <= i < pool.len() && (#[trigger] pool[i]).is_wide() ==> i + 1 < pool.len() && pool[i
            + 1] is Reserved
}

/// The invariant of a decoded pool: its slots are laid out as the format
/// asks, it has at most 65535 of them, and every index that an entry holds
/// names an entry of the kind that its place requires.
pub open spec fn well_formed(pool: Seq<SpecConstant>) -> bool {
    &&& slots_ok(pool)
    &&& pool.len() <= 0xFFFF
    &&& forall|i: int| 0 <= i < pool.len() ==> bad_ref(pool, #[trigger] pool[i]) is None
}

/// The pool whose 16-bit count stands at `pos`: slot 0 and `count - 1` slots
/// decoded from the bytes, accepted only if no entry holds a bad reference.
pub open spec fn spec_pool(bytes: Seq<u8>, pos: int) -> Result<(Seq<SpecConstant>, int), JvmError> {
    match spec_read_u16(bytes, pos) {
        Err(e) => Err(e),
        Ok((count, at)) => match spec_pool_from(
            bytes,
            at,
            count as int,
            seq![SpecConstant::Reserved],
        ) {
            Err(e) => Err(e),
            Ok((pool, next)) => match first_bad_ref(pool, 0) {
                Some(index) => Err(JvmError::UnresolvableIndex { index: index as usize }),
                None => Ok((pool, next)),
            },
        },
    }
}

/// An entry is decoded from at least one byte.
pub proof fn lemma_constant_advances(bytes: Seq<u8>, pos: int)
    ensures
        spec_constant(bytes, pos) matches Ok((_, next)) ==> pos < next <= bytes.len(),
{
}

/// Decoding the missing slots keeps the slots that are there, fills the pool
/// up to `count`, and lays the new slots out as the format asks.
pub proof fn lemma_pool_from_slots(bytes: Seq<u8>, pos: int, count: int, pool: Seq<SpecConstant>)
    requires
        slots_ok(pool),
    ensures
        spec_pool_from(bytes, pos, count, pool) matches Ok((full, next)) ==> {
            &&& slots_ok(full)
            &&& full.len() == if count > pool.len() {
                count
            } else {
                pool.len() as int
            }
            &&& pos <= next
        },
    decreases count - pool.len(),
{
    if pool.len() < count {
        if let Ok((entry, next)) = spec_constant(bytes, pos) {
            lemma_constant_advances(bytes, pos);
            if !entry.is_wide() {
                lemma_pool_from_slots(bytes, next, count, pool.push(entry));
            } else if pool.len() + 1 < count {
                lemma_pool_from_slots(
                    bytes,
                    next,
                    count,
                    pool.push(entry).push(SpecConstant::Reserved),
                );
            }
        }
    }
}

/// Where no entry at or behind `from` holds a bad reference, none of them
/// does.
pub proof fn lemma_no_bad_ref(pool: Seq<SpecConstant>, from: int, i: int)
    requires
        0 <= from <= i < pool.len(),
        first_bad_ref(pool, from) is None,
    ensures
        bad_ref(pool, pool[i]) is None,
    decreases i - from,
{
    if from < i {
        lemma_no_bad_ref(pool, from + 1, i);
    }
}

/// Index discipline and the two-slot rule: a pool that was decoded without
/// error is well formed. The sentinel stands in slot 0 and behind every
/// `Long` and `Double`, and every index held by an entry names an entry of
/// the kind that its place requires.
pub proof fn lemma_decoded_pool_well_formed(bytes: Seq<u8>, pos: int)
    ensures
        spec_pool(bytes, pos) matches Ok((pool, next)) ==> well_formed(pool) && pos + 2 <= next,
{
    if let Ok((count, at)) = spec_read_u16(bytes, pos) {
        let start = seq![SpecConstant::Reserved];
        lemma_pool_from_slots(bytes, at, count as int, start);
        if let Ok((pool, next)) = spec_pool_from(bytes, at, count as int, start) {
            if first_bad_ref(pool, 0) is None {
                assert forall|i: int| 0 <= i < pool.len() implies bad_ref(
                    pool,
                    #[trigger] pool[i],
                ) is None by {
                    lemma_no_bad_ref(pool, 0, i);
                }
            }
        }
    }
}

/// Where an entry at or behind `from` holds a bad reference, the first bad
/// reference is found.
pub proof fn lemma_bad_ref_is_found(pool: Seq<SpecConstant>, from: int, i: int)
    requires
        0 <= from <= i < pool.len(),
        bad_ref(pool, pool[i]) is Some,
    ensures
        first_bad_ref(pool, from) is Some,
    decreases i - from,
{
    if from < i && bad_ref(pool, pool[from]) is None {
        lemma_bad_ref_is_found(pool, from + 1, i);
    }
}

/// A pool in which any entry holds a bad reference is refused with a
/// resolution error: a class whose name is not text, for one, or a method
/// reference whose class is not a class.
pub proof fn lemma_bad_reference_is_refused(bytes: Seq<u8>, pos: int, i: int)
    requires
        spec_read_u16(bytes, pos) matches Ok((count, at)) && spec_pool_from(
            bytes,
            at,
            count as int,
            seq![SpecConstant::Reserved],
        ) matches Ok((pool, _)) && 0 <= i < pool.len() && bad_ref(pool, pool[i]) is Some,
    ensures
        spec_pool(bytes, pos) matches Err(e) && e is UnresolvableIndex,
{
    let (count, at) = spec_read_u16(bytes, pos)->Ok_0;
    let (pool, _) = spec_pool_from(bytes, at, count as int, seq![SpecConstant::Reserved])->Ok_0;
    lemma_bad_ref_is_found(pool, 0, i);
}

/// A `Long` or `Double` in the last slot of the pool is refused: the slot
/// behind it would lie outside the pool.
pub proof fn lemma_wide_entry_needs_second_slot(
    bytes: Seq<u8>,
    pos: int,
    count: int,
    pool: Seq<SpecConstant>,
)
    requires
        pool.len() + 1 == count,
        spec_constant(bytes, pos) matches Ok((entry, _)) && entry.is_wide(),
    ensures
        spec_pool_from(bytes, pos, count, pool) == Err::<(Seq<SpecConstant>, int), JvmError>(
            JvmError::MissingSecondSlot,
        ),
{
}

/// How many entries a resolution may pass through. In a well-formed pool
/// the longest chain leads from a field or method reference through a class
/// or a name-and-type to text.
pub const MAX_RESOLVE_DEPTH: u8 = 3;

/// The name of a member of a class: the two names with a dot between them.
pub open spec fn qualified(class_name: Seq<char>, member_name: Seq<char>) -> Seq<char> {
    class_name + seq!['.'] + member_name
}

/// A name with its descriptor: the two with a comma and a space between them.
pub open spec fn described(name: Seq<char>, descriptor: Seq<char>) -> Seq<char> {
    name + seq![',', ' '] + descriptor
}

/// The text that `index` resolves to, passing through at most `depth`
/// entries: the text itself; for a class and a string the text that their
/// index resolves to; for a field or method reference the class and the
/// name-and-type with a dot between them; for a name-and-type the name and
/// the descriptor with a comma and a space between them. Every other kind of
/// entry, an index outside the pool, and a chain longer than `depth` fail.
pub open spec fn spec_resolve(pool: Seq<SpecConstant>, index: int, depth: nat) -> Result<
    Seq<char>,
    JvmError,
>
    decreases depth,
{
    if depth == 0 || index < 0 || index >= pool.len() {
        Err(JvmError::UnresolvableIndex { index: index as usize })
    } else {
        let rest = (depth - 1) as nat;
        match pool[index] {
            SpecConstant::Utf8 { value } => Ok(value),
            SpecConstant::Class { name_index } => spec_resolve(pool, name_index as int, rest),
            SpecConstant::String { idx } => spec_resolve(pool, idx as int, rest),
            SpecConstant::Fieldref { class_index, name_and_type_index }
            | SpecConstant::Methodref { class_index, name_and_type_index }
            | SpecConstant::InterfaceMethodref { class_index, name_and_type_index } => match (
                spec_resolve(pool, class_index as int, rest),
                spec_resolve(pool, name_and_type_index as int, rest),
            ) {
                (Err(e), _) => Err(e),
                (Ok(_), Err(e)) => Err(e),
                (Ok(class_name), Ok(member_name)) => Ok(qualified(class_name, member_name)),
            },
            SpecConstant::NameAndType { name_index, descriptor_index } => match (
                spec_resolve(pool, name_index as int, rest),
                spec_resolve(pool, descriptor_index as int, rest),
            ) {
                (Err(e), _) => Err(e),
                (Ok(_), Err(e)) => Err(e),
                (Ok(name), Ok(descriptor)) => Ok(described(name, descriptor)),
            },
            _ => Err(JvmError::UnresolvableIndex { index: index as usize }),
        }
    }
}

/// Whether `index` names an entry of a kind that has a name.
pub open spec fn resolvable(pool: Seq<SpecConstant>, index: int) -> bool {
    0 <= index < pool.len() && match pool[index] {
        SpecConstant::Utf8 { .. }
        | SpecConstant::Class { .. }
        | SpecConstant::String { .. }
        | SpecConstant::Fieldref { .. }
        | SpecConstant::Methodref { .. }
        | SpecConstant::InterfaceMethodref { .. }
        | SpecConstant::NameAndType { .. } => true,
        _ => false,
    }
}

/// The text in slot `index`.
pub open spec fn text_at(pool: Seq<SpecConstant>, index: u16) -> Seq<char> {
    match pool[index as int] {
        SpecConstant::Utf8 { value } => value,
        _ => Seq::empty(),
    }
}

/// The name of the class, or the name and descriptor of the name-and-type,
/// in slot `index`.
pub open spec fn name_at(pool: Seq<SpecConstant>, index: u16) -> Seq<char> {
    match pool[index as int] {
        SpecConstant::Class { name_index } => text_at(pool, name_index),
        SpecConstant::NameAndType { name_index, descriptor_index } => described(
            text_at(pool, name_index),
            text_at(pool, descriptor_index),
        ),
        _ => Seq::empty(),
    }
}

/// What an index of a well-formed pool resolves to, said without recursion.
pub open spec fn resolved_name(pool: Seq<SpecConstant>, index: int) -> Result<Seq<char>, JvmError> {
    if !resolvable(pool, index) {
        Err(JvmError::UnresolvableIndex { index: index as usize })
    } else {
        match pool[index] {
            SpecConstant::Utf8 { value } => Ok(value),
            SpecConstant::Class { name_index } => Ok(text_at(pool, name_index)),
            SpecConstant::String { idx } => Ok(text_at(pool, idx)),
            SpecConstant::Fieldref { class_index, name_and_type_index }
            | SpecConstant::Methodref { class_index, name_and_type_index }
            | SpecConstant::InterfaceMethodref { class_index, name_and_type_index } => Ok(
                qualified(name_at(pool, class_index), name_at(pool, name_and_type_index)),
            ),
            _ => Ok(name_at(pool, index as u16)),
        }
    }
}

/// An index that names text resolves to that text.
pub proof fn lemma_resolve_text(pool: Seq<SpecConstant>, index: u16, depth: nat)
    requires
        is_utf8_at(pool, index),
        depth >= 1,
    ensures
        spec_resolve(pool, index as int, depth) == Ok::<Seq<char>, JvmError>(text_at(pool, index)),
{
}

/// In a well-formed pool an index that names a class or a name-and-type
/// resolves to its name.
pub proof fn lemma_resolve_name(pool: Seq<SpecConstant>, index: u16, depth: nat)
    requires
        well_formed(pool),
        is_class_at(pool, index) || is_name_and_type_at(pool, index),
        depth >= 2,
    ensures
        spec_resolve(pool, index as int, depth) == Ok::<Seq<char>, JvmError>(name_at(pool, index)),
{
    assert(bad_ref(pool, pool[index as int]) is None);
    match pool[index as int] {
        SpecConstant::Class { name_index } => {
            lemma_resolve_text(pool, name_index, (depth - 1) as nat);
        },
        SpecConstant::NameAndType { name_index, descriptor_index } => {
            lemma_resolve_text(pool, name_index, (depth - 1) as nat);
            lemma_resolve_text(pool, descriptor_index, (depth - 1) as nat);
        },
        _ => {},
    }
}

/// In a well-formed pool resolution never runs out of depth and never fails
/// on the way: an index resolves exactly if it names an entry of a kind that
/// has a name, and then to the text that the entries it leads to hold.
pub proof fn lemma_resolution_in_well_formed_pool(pool: Seq<SpecConstant>, index: int, depth: nat)
    requires
        well_formed(pool),
        depth >= MAX_RESOLVE_DEPTH,
    ensures
        spec_resolve(pool, index, depth) == resolved_name(pool, index),
        spec_resolve(pool, index, depth) is Ok <==> resolvable(pool, index),
{
    if resolvable(pool, index) {
        assert(bad_ref(pool, pool[index]) is None);
        let rest = (depth - 1) as nat;
        match pool[index] {
            SpecConstant::Utf8 { .. } => {},
            SpecConstant::Class { name_index } => {
                lemma_resolve_text(pool, name_index, rest);
            },
            SpecConstant::String { idx } => {
                lemma_resolve_text(pool, idx, rest);
            },
            SpecConstant::Fieldref { class_index, name_and_type_index }
            | SpecConstant::Methodref { class_index, name_and_type_index }
            | SpecConstant::InterfaceMethodref { class_index, name_and_type_index } => {
                lemma_resolve_name(pool, class_index, rest);
                lemma_resolve_name(pool, name_and_type_index, rest);
            },
            _ => {
                lemma_resolve_name(pool, index as u16, depth);
            },
        }
    }
}

/// Whether `res` holds the text or the error that `expected` gives.
pub open spec fn same_text(res: Result<String, JvmError>, expected: Result<Seq<char>, JvmError>) -> bool {
    match expected {
        Ok(text) => res is Ok && res->Ok_0@ == text,
        Err(e) => res is Err && res->Err_0 == e,
    }
}

/// The constant pool of a class: a sequence of entries in which slot 0 and
/// the slot behind every `Long` and `Double` hold the sentinel, so that the
/// indices written in the file are positions in the sequence.
#[derive(Debug)]
pub struct ConstantPool {
    values: Vec<ConstantType>,
}

impl DeepView for ConstantPool {
    type V = Seq<SpecConstant>;

    closed spec fn deep_view(&self) -> Seq<SpecConstant> {
        self.values.deep_view()
    }
}

impl View for ConstantPool {
    type V = Seq<SpecConstant>;

    open spec fn view(&self) -> Seq<SpecConstant> {
        self.deep_view()
    }
}

/// The kind of entry that a reference must name.
#[derive(Clone, Copy, PartialEq, Eq, Structural)]
enum Kind {
    Utf8,
    Class,
    NameAndType,
}

/// Whether `index` names an entry of kind `kind`.
fn names(values: &Vec<ConstantType>, index: u16, kind: Kind) -> (yes: bool)
    ensures
        yes == match kind {
            Kind::Utf8 => is_utf8_at(values.deep_view(), index),
            Kind::Class => is_class_at(values.deep_view(), index),
            Kind::NameAndType => is_name_and_type_at(values.deep_view(), index),
        },
{
    if index as usize >= values.len() {
        return false;
    }
    match (&values[index as usize], kind) {
        (ConstantType::Utf8 { .. }, Kind::Utf8) => true,
        (ConstantType::Class { .. }, Kind::Class) => true,
        (ConstantType::NameAndType { .. }, Kind::NameAndType) => true,
        _ => false,
    }
}

/// The first bad reference of the entry in slot `i`.
fn check_refs(values: &Vec<ConstantType>, i: usize) -> (bad: Option<u16>)
    requires
        i < values.len(),
    ensures
        bad == bad_ref(values.deep_view(), values.deep_view()[i as int]),
{
    match &values[i] {
        ConstantType::Class { name_index } => if names(values, *name_index, Kind::Utf8) {
            None
        } else {
            Some(*name_index)
        },
        ConstantType::String { idx } => if names(values, *idx, Kind::Utf8) {
            None
        } else {
            Some(*idx)
        },
        ConstantType::NameAndType { name_index, descriptor_index } => if !names(
            values,
            *name_index,
            Kind::Utf8,
        ) {
            Some(*name_index)
        } else if !names(values, *descriptor_index, Kind::Utf8) {
            Some(*descriptor_index)
        } else {
            None
        },
        ConstantType::Fieldref { class_index, name_and_type_index }
        | ConstantType::Methodref { class_index, name_and_type_index }
        | ConstantType::InterfaceMethodref { class_index, name_and_type_index } => if !names(
            values,
            *class_index,
            Kind::Class,
        ) {
            Some(*class_index)
        } else if !names(values, *name_and_type_index, Kind::NameAndType) {
            Some(*name_and_type_index)
        } else {
            None
        },
        _ => None,
    }
}

impl ConstantPool {
    #[verifier::type_invariant]
    closed spec fn wf(&self) -> bool {
        well_formed(self.values.deep_view())
    }

    /// Decodes the pool at the cursor and checks the references that its
    /// entries hold.
    #[verifier::loop_isolation(false)]
    pub fn new(data: &mut RawClassData) -> (res: Result<ConstantPool, JvmError>)
        ensures
            final(data).delivers(*old(data), res, spec_pool(old(data).data@, old(data).cursor as int)),
            res matches Ok(pool) ==> well_formed(pool@),
    {
        let ghost bytes = data.data@;
        let ghost inside = data.cursor <= data.data.len();
        let ghost pos = data.cursor as int;
        let constant_pool_count = data.read_2_bytes()? as usize;
        let ghost at = data.cursor as int;
        let ghost count = constant_pool_count as int;
        let ghost start = seq![SpecConstant::Reserved];

        let mut values: Vec<ConstantType> = Vec::with_capacity(constant_pool_count);
        values.push(ConstantType::Reserved);
        assert(values.deep_view() =~= start);

        while values.len() < constant_pool_count
            invariant
                data.data@ == bytes,
                inside ==> data.cursor <= bytes.len(),
                at <= data.cursor,
                count == constant_pool_count,
                spec_pool_from(bytes, data.cursor as int, count, values.deep_view())
                    == spec_pool_from(bytes, at, count, start),
            decreases constant_pool_count - values.len(),
        {
            let ghost before = values.deep_view();
            let single_value = ConstantType::from(data)?;
            let wide = single_value.is_wide();
            let ghost entry = single_value@;
            values.push(single_value);
            assert(values.deep_view() =~= before.push(entry));
            if wide {
                if values.len() >= constant_pool_count {
                    return Err(JvmError::MissingSecondSlot);
                }
                values.push(ConstantType::Reserved);
                assert(values.deep_view() =~= before.push(entry).push(SpecConstant::Reserved));
            }
        }

        let mut i: usize = 0;
        while i < values.len()
            invariant
                i <= values.len(),
                first_bad_ref(values.deep_view(), i as int) == first_bad_ref(values.deep_view(), 0),
            decreases values.len() - i,
        {
            if let Some(index) = check_refs(&values, i) {
                return Err(JvmError::UnresolvableIndex { index: index as usize });
            }
            i += 1;
        }
        proof {
            lemma_decoded_pool_well_formed(bytes, pos);
        }
        Ok(ConstantPool { values })
    }

    /// The number of slots, the sentinel in slot 0 included.
    pub fn len(&self) -> (n: usize)
        ensures
            n == self@.len(),
            well_formed(self@),
    {
        proof {
            use_type_invariant(self);
        }
        self.values.len()
    }

    /// The entry in slot `index`, if the pool has that slot.
    pub fn get(&self, index: usize) -> (entry: Option<&ConstantType>)
        ensures
            well_formed(self@),
            entry matches Some(e) ==> index < self@.len() && e@ == self@[index as int],
            entry is None ==> index >= self@.len(),
    {
        proof {
            use_type_invariant(self);
        }
        if index < self.values.len() {
            Some(&self.values[index])
        } else {
            None
        }
    }

    /// The name that `index` resolves to.
    pub fn resolve_constant_pool_utf(&self, index: usize) -> (res: Result<String, JvmError>)
        ensures
            well_formed(self@),
            same_text(res, spec_resolve(self@, index as int, MAX_RESOLVE_DEPTH as nat)),
            same_text(res, resolved_name(self@, index as int)),
            res is Ok <==> resolvable(self@, index as int),
    {
        proof {
            use_type_invariant(self);
            lemma_resolution_in_well_formed_pool(self@, index as int, MAX_RESOLVE_DEPTH as nat);
        }
        self.resolve_at(index, MAX_RESOLVE_DEPTH)
    }

    /// The name that `index` resolves to through at most `depth` entries.
    fn resolve_at(&self, index: usize, depth: u8) -> (res: Result<String, JvmError>)
        ensures
            same_text(res, spec_resolve(self@, index as int, depth as nat)),
        decreases depth,
    {
        if depth == 0 || index >= self.values.len() {
            return Err(JvmError::UnresolvableIndex { index });
        }
        match &self.values[index] {
            ConstantType::Utf8 { value } => Ok(value.clone()),
            ConstantType::Class { name_index } => self.resolve_at(*name_index as usize, depth - 1),
            ConstantType::String { idx } => self.resolve_at(*idx as usize, depth - 1),
            ConstantType::Fieldref { class_index, name_and_type_index }
            | ConstantType::Methodref { class_index, name_and_type_index }
            | ConstantType::InterfaceMethodref { class_index, name_and_type_index } => {
                let class_name = self.resolve_at(*class_index as usize, depth - 1)?;
                let member_name = self.resolve_at(*name_and_type_index as usize, depth - 1)?;
                proof {
                    reveal_strlit(".");
                    assert("."@ =~= seq!['.']);
                }
                Ok(class_name.concat(".").concat(member_name.as_str()))
            },
            ConstantType::NameAndType { name_index, descriptor_index } => {
                let name = self.resolve_at(*name_index as usize, depth - 1)?;
                let descriptor = self.resolve_at(*descriptor_index as usize, depth - 1)?;
                proof {
                    reveal_strlit(", ");
                    assert(", "@ =~= seq![',', ' ']);
                }
                Ok(name.concat(", ").concat(descriptor.as_str()))
            },
            _ => Err(JvmError::UnresolvableIndex { index }),
        }
    }
}

/// The text that the pool index at `pos` names. The index must name a `Utf8`
/// entry: this is how the format refers to the name and the descriptor of a
/// field or method and to the name of an attribute.
pub open spec fn spec_text(bytes: Seq<u8>, pos: int, pool: Seq<SpecConstant>) -> Result<
    (Seq<char>, int),
    JvmError,
> {
    match spec_read_u16(bytes, pos) {
        Err(e) => Err(e),
        Ok((index, next)) => if is_utf8_at(pool, index) {
            Ok((text_at(pool, index), next))
        } else {
            Err(JvmError::UnresolvableIndex { index: index as usize })
        },
    }
}

/// The name of the class that the pool index at `pos` names. The index must
/// name a `Class` entry: this is how the format refers to a class and to its
/// superclass.
pub open spec fn spec_class_name(bytes: Seq<u8>, pos: int, pool: Seq<SpecConstant>) -> Result<
    (Seq<char>, int),
    JvmError,
> {
    match spec_read_u16(bytes, pos) {
        Err(e) => Err(e),
        Ok((index, next)) => if is_class_at(pool, index) {
            match spec_resolve(pool, index as int, MAX_RESOLVE_DEPTH as nat) {
                Err(e) => Err(e),
                Ok(name) => Ok((name, next)),
            }
        } else {
            Err(JvmError::UnresolvableIndex { index: index as usize })
        },
    }
}

/// Whether `text` is the text of a `Utf8` entry of `pool`.
pub open spec fn is_text_of(pool: Seq<SpecConstant>, text: Seq<char>) -> bool {
    exists|index: u16| #[trigger] is_utf8_at(pool, index) && text_at(pool, index) == text
}

/// Where text is read through an index, the index in the bytes names a
/// `Utf8` entry, and what is read is the text of that entry.
pub proof fn lemma_text_index_discipline(bytes: Seq<u8>, pos: int, pool: Seq<SpecConstant>)
    ensures
        spec_text(bytes, pos, pool) matches Ok((text, next)) ==> {
            &&& is_utf8_at(pool, be_u16(bytes, pos) as u16)
            &&& text == text_at(pool, be_u16(bytes, pos) as u16)
            &&& is_text_of(pool, text)
            &&& next == pos + 2
        },
{
}

/// Where the name of a class is read through an index, the index in the
/// bytes names a `Class` entry, and in a well-formed pool what is read is the
/// text that this entry names.
pub proof fn lemma_class_index_discipline_at(bytes: Seq<u8>, pos: int, pool: Seq<SpecConstant>)
    ensures
        spec_class_name(bytes, pos, pool) matches Ok((name, next)) ==> {
            &&& is_class_at(pool, be_u16(bytes, pos) as u16)
            &&& well_formed(pool) ==> name == name_at(pool, be_u16(bytes, pos) as u16)
            &&& next == pos + 2
        },
{
    if let Ok((name, next)) = spec_class_name(bytes, pos, pool) {
        if well_formed(pool) {
            lemma_resolve_name(pool, be_u16(bytes, pos) as u16, MAX_RESOLVE_DEPTH as nat);
        }
    }
}

/// An index that names an entry of the wrong kind is refused, also where it
/// names an entry that has a name: text is not read through a class or a
/// string constant, and the name of a class is not read through text.
pub proof fn lemma_wrong_kind_is_refused(bytes: Seq<u8>, pos: int, pool: Seq<SpecConstant>)
    requires
        can_read(bytes, pos, 2),
    ensures
        !is_utf8_at(pool, be_u16(bytes, pos) as u16) ==> spec_text(bytes, pos, pool) == Err::<
            (Seq<char>, int),
            JvmError,
        >(JvmError::UnresolvableIndex { index: be_u16(bytes, pos) as usize }),
        !is_class_at(pool, be_u16(bytes, pos) as u16) ==> spec_class_name(bytes, pos, pool) == Err::<
            (Seq<char>, int),
            JvmError,
        >(JvmError::UnresolvableIndex { index: be_u16(bytes, pos) as usize }),
{
}

/// Reads a pool index at the cursor, which must name a `Utf8` entry, and
/// returns the text of that entry.
pub fn read_text(data: &mut RawClassData, constant_pool: &ConstantPool) -> (res: Result<
    String,
    JvmError,
>)
    ensures
        final(data).delivers(
            *old(data),
            res,
            spec_text(old(data).data@, old(data).cursor as int, constant_pool@),
        ),
{
    let index = data.read_2_bytes()?;
    match constant_pool.get(index as usize) {
        Some(ConstantType::Utf8 { value }) => Ok(value.clone()),
        _ => Err(JvmError::UnresolvableIndex { index: index as usize }),
    }
}

/// Reads a pool index at the cursor, which must name a `Class` entry, and
/// returns the name of that class.
pub fn read_class_name(data: &mut RawClassData, constant_pool: &ConstantPool) -> (res: Result<
    String,
    JvmError,
>)
    ensures
        final(data).delivers(
            *old(data),
            res,
            spec_class_name(old(data).data@, old(data).cursor as int, constant_pool@),
        ),
{
    let index = data.read_2_bytes()?;
    match constant_pool.get(index as usize) {
        Some(ConstantType::Class { .. }) => constant_pool.resolve_constant_pool_utf(index as usize),
        _ => Err(JvmError::UnresolvableIndex { index: index as usize }),
    }
}

} // verus!
