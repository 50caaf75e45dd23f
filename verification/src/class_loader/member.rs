//! The layout that fields and methods share: a flag mask, a name, a
//! descriptor and a list of attributes.

use crate::class_loader::attribute_info::attribute_named_by_text;
use crate::class_loader::attribute_info::lemma_attributes_named_by_text;
use crate::class_loader::attribute_info::spec_attributes;
use crate::class_loader::attribute_info::AttributeInfo;
use crate::class_loader::attribute_info::SpecAttribute;
use crate::class_loader::constant_pool::is_text_of;
use crate::class_loader::constant_pool::is_utf8_at;
use crate::class_loader::constant_pool::lemma_text_index_discipline;
use crate::class_loader::constant_pool::read_text;
use crate::class_loader::constant_pool::spec_text;
use crate::class_loader::constant_pool::text_at;
use crate::class_loader::constant_pool::ConstantPool;
use crate::class_loader::constant_pool::SpecConstant;
use crate::class_loader::raw_data::be_u16;
use crate::class_loader::raw_data::spec_read_u16;
use crate::class_loader::raw_data::RawClassData;
use crate::error::JvmError;
use vstd::prelude::*;

verus! {

/// The field or method at `pos`: the mask of its flags in two bytes, the
/// index of its name, the index of its descriptor, the number of its
/// attributes in two bytes, and the attributes. Both indices must name
/// `Utf8` entries of the pool.
pub open spec fn spec_member(bytes: Seq<u8>, pos: int, pool: Seq<SpecConstant>) -> Result<
    ((u16, Seq<char>, Seq<char>, Seq<SpecAttribute>), int),
    JvmError,
> {
    match spec_read_u16(bytes, pos) {
        Err(e) => Err(e),
        Ok((mask, name_at)) => match spec_text(bytes, name_at, pool) {
            Err(e) => Err(e),
            Ok((name, descriptor_at)) => match spec_text(bytes, descriptor_at, pool) {
                Err(e) => Err(e),
                Ok((descriptor, count_at)) => match spec_read_u16(bytes, count_at) {
                    Err(e) => Err(e),
                    Ok((count, attributes_at)) => match spec_attributes(
                        bytes,
                        attributes_at,
                        pool,
                        count as int,
                        Seq::empty(),
                    ) {
                        Err(e) => Err(e),
                        Ok((attributes, next)) => Ok(((mask, name, descriptor, attributes), next)),
                    },
                },
            },
        },
    }
}

/// Whether the name and the descriptor of a field or method, and the names
/// of its attributes, are each the text of a `Utf8` entry of `pool`.
pub open spec fn member_named_by_text(
    pool: Seq<SpecConstant>,
    name: Seq<char>,
    descriptor: Seq<char>,
    attributes: Seq<SpecAttribute>,
) -> bool {
    &&& is_text_of(pool, name)
    &&& is_text_of(pool, descriptor)
    &&& forall|i: int|
        0 <= i < attributes.len() ==> attribute_named_by_text(pool, #[trigger] attributes[i])
}

/// Index discipline of a field or method: where one is decoded, the two
/// indices behind its flags name `Utf8` entries, its name and its descriptor
/// are the texts of these entries, and each of its attributes is named by
/// the text of a `Utf8` entry.
pub proof fn lemma_member_index_discipline(bytes: Seq<u8>, pos: int, pool: Seq<SpecConstant>)
    ensures
        spec_member(bytes, pos, pool) matches Ok((member, _)) ==> {
            &&& is_utf8_at(pool, be_u16(bytes, pos + 2) as u16)
            &&& member.1 == text_at(pool, be_u16(bytes, pos + 2) as u16)
            &&& is_utf8_at(pool, be_u16(bytes, pos + 4) as u16)
            &&& member.2 == text_at(pool, be_u16(bytes, pos + 4) as u16)
            &&& member_named_by_text(pool, member.1, member.2, member.3)
        },
{
    if let Ok((member, _)) = spec_member(bytes, pos, pool) {
        lemma_text_index_discipline(bytes, pos + 2, pool);
        lemma_text_index_discipline(bytes, pos + 4, pool);
        let (count, attributes_at) = spec_read_u16(bytes, pos + 6)->Ok_0;
        lemma_attributes_named_by_text(bytes, attributes_at, pool, count as int, Seq::empty());
    }
}

/// Decodes the field or method at the cursor.
pub fn read_member(data: &mut RawClassData, constant_pool: &ConstantPool) -> (res: Result<
    (u16, String, String, Vec<AttributeInfo>),
    JvmError,
>)
    ensures
        final(data).delivers(
            *old(data),
            res,
            spec_member(old(data).data@, old(data).cursor as int, constant_pool@),
        ),
{
    let mask = data.read_2_bytes()?;
    let name = read_text(data, constant_pool)?;
    let descriptor = read_text(data, constant_pool)?;
    let attributes_count = data.read_2_bytes()?;
    let attributes = AttributeInfo::read_list(data, constant_pool, attributes_count)?;
    Ok((mask, name, descriptor, attributes))
}

} // verus!
