//! What the derive of `Queryable` for a Rust enum decides: the name that each
//! variant is read under, and the decoding and descriptor check that the
//! generated code performs.
use vstd::prelude::*;
use vstd::utf8::encode_utf8;

use crate::descriptors::{Descriptor, DescriptorContext, TypePos};
use crate::errors::{ArgError, DecodeError};

verus! {

/// A variant of the enum that the derive is applied to, as far as the derive reads it.
pub struct VariantInfo {
    /// The variant's identifier.
    pub name: String,
    /// The name given by a `rename` attribute, if any.
    pub rename: Option<String>,
    /// Whether the variant has no fields.
    pub is_unit: bool,
}

/// The name, as UTF-8 bytes, that the variant is read under: its `rename`
/// where it has one, else its identifier.
pub open spec fn wire_name(v: VariantInfo) -> Seq<u8> {
    match v.rename {
        Some(r) => encode_utf8(r@),
        None => encode_utf8(v.name@),
    }
}

/// Whether every variant before `n` has no fields.
pub open spec fn all_unit(variants: Seq<VariantInfo>, n: int) -> bool {
    forall|i: int| 0 <= i < n ==> (#[trigger] variants[i]).is_unit
}

/// The branches of the generated decoder: for each variant, in order, the
/// bytes that read as it. Fails with the index of the first variant that has
/// fields, which the derive refuses.
pub fn enum_branches(variants: &Vec<VariantInfo>) -> (r: Result<Vec<Vec<u8>>, usize>)
    ensures
        r matches Ok(b) ==> all_unit(variants@, variants@.len() as int) && b@.len()
            == variants@.len() && forall|i: int|
            0 <= i < b@.len() ==> (#[trigger] b@[i])@ == wire_name(variants@[i]),
        r matches Err(i) ==> i < variants@.len() && !variants@[i as int].is_unit && all_unit(
            variants@,
            i as int,
        ),
{
    let mut branches: Vec<Vec<u8>> = Vec::new();
    let mut i: usize = 0;
    while i < variants.len()
        invariant
            i <= variants@.len(),
            branches@.len() == i,
            all_unit(variants@, i as int),
            forall|j: int| 0 <= j < i ==> (#[trigger] branches@[j])@ == wire_name(variants@[j]),
        decreases variants@.len() - i,
    {
        let v = &variants[i];
        if !v.is_unit {
            return Err(i);
        }
        let name_bytes = match &v.rename {
            Some(rename) => vstd::slice::slice_to_vec(rename.as_str().as_bytes()),
            None => vstd::slice::slice_to_vec(v.name.as_str().as_bytes()),
        };
        branches.push(name_bytes);
        i += 1;
    }
    Ok(branches)
}

/// Whether the bytes `buf` equal the branch `b`.
fn bytes_equal(b: &Vec<u8>, buf: &[u8]) -> (r: bool)
    ensures
        r == (b@ == buf@),
{
    if b.len() != buf.len() {
        return false;
    }
    let mut i: usize = 0;
    while i < b.len()
        invariant
            i <= b@.len(),
            b@.len() == buf@.len(),
            forall|j: int| 0 <= j < i ==> b@[j] == buf@[j],
        decreases b@.len() - i,
    {
        if b[i] != buf[i] {
            return false;
        }
        i += 1;
    }
    assert(b@ =~= buf@);
    true
}

/// The variant that the generated decoder reads `buf` as: the first branch
/// equal to `buf`, else `ExtraEnumValue`.
pub fn decode_enum_variant(branches: &Vec<Vec<u8>>, buf: &[u8]) -> (r: Result<usize, DecodeError>)
    ensures
        r matches Ok(i) ==> i < branches@.len() && branches@[i as int]@ == buf@ && forall|j: int|
            0 <= j < i ==> (#[trigger] branches@[j])@ != buf@,
        r is Err ==> r == Err::<usize, DecodeError>(DecodeError::ExtraEnumValue) && forall|j: int|
            0 <= j < branches@.len() ==> (#[trigger] branches@[j])@ != buf@,
{
    let mut i: usize = 0;
    while i < branches.len()
        invariant
            i <= branches@.len(),
            forall|j: int| 0 <= j < i ==> (#[trigger] branches@[j])@ != buf@,
        decreases branches@.len() - i,
    {
        if bytes_equal(&branches[i], buf) {
            return Ok(i);
        }
        i += 1;
    }
    Err(DecodeError::ExtraEnumValue)
}

/// The outcome of the generated descriptor check: an enumeration fits, any
/// other descriptor is the wrong type for a `str`.
pub open spec fn enum_check_result(ctx: &DescriptorContext, pos: TypePos) -> Result<(), ArgError> {
    if (pos.0 as int) >= ctx.descriptors@.len() {
        Err(ArgError::InvalidTypePos { pos: pos.0 })
    } else if ctx.descriptors@[pos.0 as int] is Enumeration {
        Ok(())
    } else {
        Err(ArgError::WrongType { found: pos.0, expected: "str" })
    }
}

/// The descriptor check of the generated code: the members of the
/// enumeration are not compared, since the schema may gain variants that the
/// application does not know.
pub fn check_enum_descriptor(ctx: &DescriptorContext, pos: TypePos) -> (r: Result<(), ArgError>)
    ensures
        r == enum_check_result(ctx, pos),
        r is Ok <==> (pos.0 as int) < ctx.descriptors@.len() && ctx.descriptors@[pos.0 as int] is Enumeration,
{
    let desc = ctx.get(pos)?;
    match desc {
        Descriptor::Enumeration { .. } => Ok(()),
        _ => Err(ctx.wrong_type(pos, "str")),
    }
}

/// The generated descriptor check accepts exactly an enumeration: any other
/// descriptor, or a position past the end of the list, is refused; a
/// position past the end as an invalid position, anything else as the wrong
/// type for a `str`.
pub proof fn law_enum_check_accepts_only_enumerations(ctx: &DescriptorContext, pos: TypePos)
    ensures
        enum_check_result(ctx, pos) is Ok <==> ((pos.0 as int) < ctx.descriptors@.len()
            && ctx.descriptors@[pos.0 as int] is Enumeration),
        (pos.0 as int) >= ctx.descriptors@.len() ==> enum_check_result(ctx, pos) == Err::<
            (),
            ArgError,
        >(ArgError::InvalidTypePos { pos: pos.0 }),
        (pos.0 as int) < ctx.descriptors@.len() && !(ctx.descriptors@[pos.0 as int] is Enumeration)
            ==> enum_check_result(ctx, pos) == Err::<(), ArgError>(
            ArgError::WrongType { found: pos.0, expected: "str" },
        ),
{
}

} // verus!
