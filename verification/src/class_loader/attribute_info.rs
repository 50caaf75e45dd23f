//! Attributes of fields, methods and code. Only the `Code` attribute is
//! decoded; every other attribute is passed over.

use crate::class_loader::constant_pool::is_class_at;
use crate::class_loader::constant_pool::is_text_of;
use crate::class_loader::constant_pool::is_utf8_at;
use crate::class_loader::constant_pool::lemma_text_index_discipline;
use crate::class_loader::constant_pool::text_at;
use crate::class_loader::constant_pool::read_text;
use crate::class_loader::constant_pool::spec_text;
use crate::class_loader::constant_pool::ConstantPool;
use crate::class_loader::constant_pool::ConstantType;
use crate::class_loader::constant_pool::SpecConstant;
use crate::class_loader::raw_data::be_u16;
use crate::class_loader::raw_data::be_u32;
use crate::class_loader::raw_data::can_read;
use crate::class_loader::raw_data::spec_read_bytes;
use crate::class_loader::raw_data::spec_read_u16;
use crate::class_loader::raw_data::spec_read_u32;
use crate::class_loader::raw_data::spec_skip;
use crate::class_loader::raw_data::RawClassData;
use crate::error::JvmError;
use vstd::prelude::*;

verus! {

/// One row of the exception table of a `Code` attribute. The table is
/// decoded and kept; the interpreter does not consult it.
#[derive(Debug, Clone, Copy, PartialEq, Eq, Structural)]
pub struct ExceptionTableInfo {
    /// The first code position that the handler covers.
    pub start_pc: u16,
    /// The code position behind the last that the handler covers.
    pub end_pc: u16,
    /// The code position of the handler.
    pub handler_pc: u16,
    /// The class of the exceptions caught, as a pool index, or 0 for all.
    pub catch_type: u16,
}

impl DeepView for ExceptionTableInfo {
    type V = ExceptionTableInfo;

    open spec fn deep_view(&self) -> ExceptionTableInfo {
        *self
    }
}

/// An attribute of a field, of a method or of a `Code` attribute.
#[derive(Debug, PartialEq, Eq)]
pub enum AttributeInfo {
    /// The body of a method.
    Code {
        /// The name of the attribute: always `Code`.
        name: String,
        /// The instructions, as they stand in the file.
        bytecode: Vec<u8>,
        /// The greatest depth of the operand stack.
        max_stack: u16,
        /// The number of local-variable slots.
        max_locals: u16,
        /// The exception handlers.
        exception_table: Vec<ExceptionTableInfo>,
    },
    /// An attribute that was passed over.
    NotParsedYet,
}

/// The model of an attribute.
pub ghost enum SpecAttribute {
    Code {
        name: Seq<char>,
        bytecode: Seq<u8>,
        max_stack: u16,
        max_locals: u16,
        exception_table: Seq<ExceptionTableInfo>,
    },
    NotParsedYet,
}

impl DeepView for AttributeInfo {
    type V = SpecAttribute;

    open spec fn deep_view(&self) -> SpecAttribute {
        match *self {
            AttributeInfo::Code {
                name,
                bytecode,
                max_stack,
                max_locals,
                exception_table,
            } => SpecAttribute::Code {
                name: name@,
                bytecode: bytecode@,
                max_stack,
                max_locals,
                exception_table: exception_table@,
            },
            AttributeInfo::NotParsedYet => SpecAttribute::NotParsedYet,
        }
    }
}

impl View for AttributeInfo {
    type V = SpecAttribute;

    open spec fn view(&self) -> SpecAttribute {
        self.deep_view()
    }
}

/// The row of an exception table at `pos`: four 16-bit numbers. The last is
/// either 0 or the index of a class.
pub open spec fn spec_exception_entry(bytes: Seq<u8>, pos: int, pool: Seq<SpecConstant>) -> Result<
    (ExceptionTableInfo, int),
    JvmError,
> {
    let catch_type = be_u16(bytes, pos + 6) as u16;
    if !can_read(bytes, pos, 8) {
        Err(JvmError::BoundedRead)
    } else if catch_type != 0 && !is_class_at(pool, catch_type) {
        Err(JvmError::UnresolvableIndex { index: catch_type as usize })
    } else {
        Ok(
            (
                ExceptionTableInfo {
                    start_pc: be_u16(bytes, pos) as u16,
                    end_pc: be_u16(bytes, pos + 2) as u16,
                    handler_pc: be_u16(bytes, pos + 4) as u16,
                    catch_type,
                },
                pos + 8,
            ),
        )
    }
}

/// The rows that are still missing from `table` until it has `count` rows.
pub open spec fn spec_exception_table(
    bytes: Seq<u8>,
    pos: int,
    pool: Seq<SpecConstant>,
    count: int,
    table: Seq<ExceptionTableInfo>,
) -> Result<(Seq<ExceptionTableInfo>, int), JvmError>
    decreases count - table.len(),
{
    if table.len() >= count {
        Ok((table, pos))
    } else {
        match spec_exception_entry(bytes, pos, pool) {
            Err(e) => Err(e),
            Ok((row, next)) => spec_exception_table(bytes, next, pool, count, table.push(row)),
        }
    }
}

/// The attribute at `pos`: the index of its name, which must name a `Utf8`
/// entry of the pool, its length in four bytes, and then, for the name
/// `Code`, the layout of `spec_code`; for any other name, as many bytes as
/// the length says, which are passed over.
pub open spec fn spec_attribute(bytes: Seq<u8>, pos: int, pool: Seq<SpecConstant>) -> Result<
    (SpecAttribute, int),
    JvmError,
>
    decreases bytes.len() - pos, 0nat,
{
    match spec_text(bytes, pos, pool) {
        Err(e) => Err(e),
        Ok((name, length_at)) => match spec_read_u32(bytes, length_at) {
            Err(e) => Err(e),
            Ok((length, body)) => if name == "Code"@ {
                spec_code(bytes, body, pool, name)
            } else {
                match spec_skip(bytes, body, length as int) {
                    Err(e) => Err(e),
                    Ok((_, next)) => Ok((SpecAttribute::NotParsedYet, next)),
                }
            },
        },
    }
}

/// The body of a `Code` attribute at `pos`: `max_stack` and `max_locals` in
/// two bytes each, the length of the code in four, the code, the number of
/// rows of the exception table in two bytes, the rows, the number of nested
/// attributes in two bytes, and the nested attributes, which are decoded and
/// dropped.
pub open spec fn spec_code(bytes: Seq<u8>, pos: int, pool: Seq<SpecConstant>, name: Seq<char>) -> Result<
    (SpecAttribute, int),
    JvmError,
>
    decreases bytes.len() - pos, 0nat,
{
    if !can_read(bytes, pos, 8) {
        Err(JvmError::BoundedRead)
    } else {
        match spec_read_bytes(bytes, pos + 8, be_u32(bytes, pos + 4)) {
            Err(e) => Err(e),
            Ok((bytecode, table_at)) => match spec_read_u16(bytes, table_at) {
                Err(e) => Err(e),
                Ok((rows, rows_at)) => match spec_exception_table(
                    bytes,
                    rows_at,
                    pool,
                    rows as int,
                    Seq::empty(),
                ) {
                    Err(e) => Err(e),
                    Ok((exception_table, _)) => match spec_read_u16(bytes, rows_at + 8 * rows) {
                        Err(e) => Err(e),
                        Ok((count, nested_at)) => match spec_attributes(
                            bytes,
                            nested_at,
                            pool,
                            count as int,
                            Seq::empty(),
                        ) {
                            Err(e) => Err(e),
                            Ok((_, next)) => Ok(
                                (
                                    SpecAttribute::Code {
                                        name,
                                        bytecode,
                                        max_stack: be_u16(bytes, pos) as u16,
                                        max_locals: be_u16(bytes, pos + 2) as u16,
                                        exception_table,
                                    },
                                    next,
                                ),
                            ),
                        },
                    },
                },
            },
        }
    }
}

/// The attributes that are still missing from `list` until it has `count` of
/// them, each decoded where the one before it ends.
pub open spec fn spec_attributes(
    bytes: Seq<u8>,
    pos: int,
    pool: Seq<SpecConstant>,
    count: int,
    list: Seq<SpecAttribute>,
) -> Result<(Seq<SpecAttribute>, int), JvmError>
    decreases bytes.len() - pos, 1 + count - list.len(),
{
    if list.len() >= count {
        Ok((list, pos))
    } else {
        match spec_attribute(bytes, pos, pool) {
            Err(e) => Err(e),
            Ok((attribute, next)) => if pos < next <= bytes.len() {
                spec_attributes(bytes, next, pool, count, list.push(attribute))
            } else {
                // Never taken, as `lemma_attribute_advances` shows: an attribute
                // takes at least six bytes. The test lets the definition end.
                Err(JvmError::BoundedRead)
            },
        }
    }
}

/// Whether the name that `attribute` keeps is the text of a `Utf8` entry of
/// `pool`. Only the `Code` attribute keeps its name, which is `Code`.
pub open spec fn attribute_named_by_text(pool: Seq<SpecConstant>, attribute: SpecAttribute) -> bool {
    match attribute {
        SpecAttribute::Code { name, .. } => name == "Code"@ && is_text_of(pool, name),
        SpecAttribute::NotParsedYet => true,
    }
}

/// Index discipline of an attribute: where an attribute is decoded, the
/// index at its start names a `Utf8` entry, the attribute is a `Code`
/// attribute exactly if the text of that entry is `Code`, and the name that
/// a `Code` attribute keeps is that text.
pub proof fn lemma_attribute_index_discipline(bytes: Seq<u8>, pos: int, pool: Seq<SpecConstant>)
    ensures
        spec_attribute(bytes, pos, pool) matches Ok((attribute, _)) ==> {
            &&& is_utf8_at(pool, be_u16(bytes, pos) as u16)
            &&& attribute is Code <==> text_at(pool, be_u16(bytes, pos) as u16) == "Code"@
            &&& attribute_named_by_text(pool, attribute)
        },
{
    lemma_text_index_discipline(bytes, pos, pool);
}

/// Index discipline of a list of attributes: every attribute of a decoded
/// list is named by the text of a `Utf8` entry.
pub proof fn lemma_attributes_named_by_text(
    bytes: Seq<u8>,
    pos: int,
    pool: Seq<SpecConstant>,
    count: int,
    list: Seq<SpecAttribute>,
)
    requires
        forall|i: int| 0 <= i < list.len() ==> attribute_named_by_text(pool, #[trigger] list[i]),
    ensures
        spec_attributes(bytes, pos, pool, count, list) matches Ok((all, _)) ==> forall|i: int|
            0 <= i < all.len() ==> attribute_named_by_text(pool, #[trigger] all[i]),
    decreases bytes.len() - pos, 1 + count - list.len(),
{
    if list.len() < count {
        if let Ok((attribute, next)) = spec_attribute(bytes, pos, pool) {
            lemma_attribute_index_discipline(bytes, pos, pool);
            if pos < next <= bytes.len() {
                lemma_attributes_named_by_text(bytes, next, pool, count, list.push(attribute));
            }
        }
    }
}

/// A decoded exception table has its rows in eight bytes each.
pub proof fn lemma_exception_table_size(
    bytes: Seq<u8>,
    pos: int,
    pool: Seq<SpecConstant>,
    count: int,
    table: Seq<ExceptionTableInfo>,
)
    ensures
        spec_exception_table(bytes, pos, pool, count, table) matches Ok((rows, next)) ==> {
            &&& next == pos + 8 * (rows.len() - table.len())
            &&& rows.len() == if count > table.len() {
                count
            } else {
                table.len() as int
            }
        },
    decreases count - table.len(),
{
    if table.len() < count {
        if let Ok((row, next)) = spec_exception_entry(bytes, pos, pool) {
            lemma_exception_table_size(bytes, next, pool, count, table.push(row));
        }
    }
}

/// An attribute takes at least six bytes and ends inside the input.
pub proof fn lemma_attribute_advances(bytes: Seq<u8>, pos: int, pool: Seq<SpecConstant>)
    ensures
        spec_attribute(bytes, pos, pool) matches Ok((_, next)) ==> pos + 6 <= next <= bytes.len(),
    decreases bytes.len() - pos, 0nat,
{
    if let Ok((name, length_at)) = spec_text(bytes, pos, pool) {
        if let Ok((length, body)) = spec_read_u32(bytes, length_at) {
            if name == "Code"@ {
                lemma_code_advances(bytes, body, pool, name);
            }
        }
    }
}

/// The body of a `Code` attribute takes at least twelve bytes and ends
/// inside the input.
pub proof fn lemma_code_advances(bytes: Seq<u8>, pos: int, pool: Seq<SpecConstant>, name: Seq<char>)
    ensures
        spec_code(bytes, pos, pool, name) matches Ok((_, next)) ==> pos + 12 <= next <= bytes.len(),
    decreases bytes.len() - pos, 0nat,
{
    if can_read(bytes, pos, 8) {
        if let Ok((bytecode, table_at)) = spec_read_bytes(bytes, pos + 8, be_u32(bytes, pos + 4)) {
            if let Ok((rows, rows_at)) = spec_read_u16(bytes, table_at) {
                if let Ok((count, nested_at)) = spec_read_u16(bytes, rows_at + 8 * rows) {
                    lemma_attributes_advance(bytes, nested_at, pool, count as int, Seq::empty());
                }
            }
        }
    }
}

/// A list of attributes ends inside the input, behind where it starts, and
/// has as many attributes as were asked for.
pub proof fn lemma_attributes_advance(
    bytes: Seq<u8>,
    pos: int,
    pool: Seq<SpecConstant>,
    count: int,
    list: Seq<SpecAttribute>,
)
    requires
        0 <= pos <= bytes.len(),
    ensures
        spec_attributes(bytes, pos, pool, count, list) matches Ok((all, next)) ==> {
            &&& pos <= next <= bytes.len()
            &&& all.len() == if count > list.len() {
                count
            } else {
                list.len() as int
            }
        },
    decreases bytes.len() - pos, 1 + count - list.len(),
{
    if list.len() < count {
        if let Ok((attribute, next)) = spec_attribute(bytes, pos, pool) {
            lemma_attribute_advances(bytes, pos, pool);
            lemma_attributes_advance(bytes, next, pool, count, list.push(attribute));
        }
    }
}

impl ExceptionTableInfo {
    /// Decodes one row of an exception table and checks that its catch type
    /// is 0 or names a class.
    pub fn from(data: &mut RawClassData, constant_pool: &ConstantPool) -> (res: Result<
        ExceptionTableInfo,
        JvmError,
    >)
        ensures
            final(data).delivers(
                *old(data),
                res,
                spec_exception_entry(old(data).data@, old(data).cursor as int, constant_pool@),
            ),
    {
        if let Some(error) = data.check_boundary(8) {
            return Err(error);
        }
        let start_pc = data.read_2_bytes()?;
        let end_pc = data.read_2_bytes()?;
        let handler_pc = data.read_2_bytes()?;
        let catch_type = data.read_2_bytes()?;
        if catch_type != 0 {
            match constant_pool.get(catch_type as usize) {
                Some(ConstantType::Class { .. }) => {},
                _ => {
                    return Err(JvmError::UnresolvableIndex { index: catch_type as usize });
                },
            }
        }
        Ok(ExceptionTableInfo { start_pc, end_pc, handler_pc, catch_type })
    }
}

impl AttributeInfo {
    /// Decodes the attribute at the cursor.
    pub fn from(data: &mut RawClassData, constant_pool: &ConstantPool) -> (res: Result<
        AttributeInfo,
        JvmError,
    >)
        ensures
            final(data).delivers(
                *old(data),
                res,
                spec_attribute(old(data).data@, old(data).cursor as int, constant_pool@),
            ),
        decreases old(data).spec_remaining(), 0nat,
    {
        let attr_name = read_text(data, constant_pool)?;
        let attr_length = data.read_4_bytes()?;
        let code_name = String::from_str("Code");
        if attr_name == code_name {
            Self::code(data, constant_pool, attr_name)
        } else {
            data.skip(attr_length as usize)?;
            Ok(AttributeInfo::NotParsedYet)
        }
    }

    /// Decodes the body of a `Code` attribute at the cursor.
    #[verifier::loop_isolation(false)]
    fn code(data: &mut RawClassData, constant_pool: &ConstantPool, name: String) -> (res: Result<
        AttributeInfo,
        JvmError,
    >)
        ensures
            final(data).delivers(
                *old(data),
                res,
                spec_code(old(data).data@, old(data).cursor as int, constant_pool@, name@),
            ),
        decreases old(data).spec_remaining(), 0nat,
    {
        let ghost bytes = data.data@;
        let ghost inside = data.cursor <= data.data.len();
        let ghost pool = constant_pool@;
        if let Some(error) = data.check_boundary(8) {
            return Err(error);
        }
        let max_stack = data.read_2_bytes()?;
        let max_locals = data.read_2_bytes()?;
        let bytecode_length = data.read_4_bytes()?;
        let bytecode = data.read_bytes(bytecode_length as usize)?;
        assert(bytecode.deep_view() =~= bytecode@);

        let exception_table_length = data.read_2_bytes()?;
        let ghost rows_at = data.cursor as int;
        let ghost rows = exception_table_length as int;
        let mut exception_table: Vec<ExceptionTableInfo> = Vec::with_capacity(
            exception_table_length as usize,
        );
        while exception_table.len() < exception_table_length as usize
            invariant
                data.data@ == bytes,
                inside ==> data.cursor <= bytes.len(),
                rows_at <= data.cursor,
                spec_exception_table(bytes, data.cursor as int, pool, rows, exception_table@)
                    == spec_exception_table(bytes, rows_at, pool, rows, Seq::empty()),
            decreases exception_table_length - exception_table.len(),
        {
            let row = ExceptionTableInfo::from(data, constant_pool)?;
            exception_table.push(row);
        }
        proof {
            lemma_exception_table_size(bytes, rows_at, pool, rows, Seq::empty());
        }

        let code_attributes_count = data.read_2_bytes()?;
        let _nested = Self::read_list(data, constant_pool, code_attributes_count)?;
        Ok(AttributeInfo::Code { name, bytecode, max_stack, max_locals, exception_table })
    }

    /// Decodes `count` attributes, one behind the other.
    #[verifier::loop_isolation(false)]
    pub fn read_list(data: &mut RawClassData, constant_pool: &ConstantPool, count: u16) -> (res:
        Result<Vec<AttributeInfo>, JvmError>)
        ensures
            final(data).delivers(
                *old(data),
                res,
                spec_attributes(
                    old(data).data@,
                    old(data).cursor as int,
                    constant_pool@,
                    count as int,
                    Seq::empty(),
                ),
            ),
        decreases old(data).spec_remaining(), 1 + count,
    {
        let ghost bytes = data.data@;
        let ghost inside = data.cursor <= data.data.len();
        let ghost pool = constant_pool@;
        let ghost start = data.cursor as int;
        let mut attributes: Vec<AttributeInfo> = Vec::with_capacity(count as usize);
        assert(attributes.deep_view() =~= Seq::empty());
        while attributes.len() < count as usize
            invariant
                data.data@ == bytes,
                inside ==> data.cursor <= bytes.len(),
                start <= data.cursor,
                data.cursor == start || data.cursor <= bytes.len(),
                spec_attributes(bytes, data.cursor as int, pool, count as int, attributes.deep_view())
                    == spec_attributes(bytes, start, pool, count as int, Seq::empty()),
            decreases count - attributes.len(),
        {
            let ghost before = attributes.deep_view();
            let ghost at = data.cursor as int;
            proof {
                lemma_attribute_advances(bytes, at, pool);
            }
            let single_attribute = Self::from(data, constant_pool)?;
            let ghost attribute = single_attribute@;
            attributes.push(single_attribute);
            assert(attributes.deep_view() =~= before.push(attribute));
        }
        Ok(attributes)
    }
}

} // verus!
