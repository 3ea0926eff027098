//! Samplers: how an image is addressed and filtered when a kernel reads
//! it.

use vstd::prelude::*;
use crate::context::Context;
use crate::device::{any_device_has, any_has, Device, Feature};
use crate::error::{CLResult, ClError};
use crate::properties::{parse, value_of, Properties};
use crate::util::{check_cl_bool, spec_cl_bool};

verus! {
// Addressing modes.
pub const CL_ADDRESS_NONE: u32 = 0x1130;
pub const CL_ADDRESS_CLAMP_TO_EDGE: u32 = 0x1131;
pub const CL_ADDRESS_CLAMP: u32 = 0x1132;
pub const CL_ADDRESS_REPEAT: u32 = 0x1133;
pub const CL_ADDRESS_MIRRORED_REPEAT: u32 = 0x1134;

// Filter modes.
pub const CL_FILTER_NEAREST: u32 = 0x1140;
pub const CL_FILTER_LINEAR: u32 = 0x1141;

// What a sampler can be asked, and what a property can set.
pub const CL_SAMPLER_REFERENCE_COUNT: u32 = 0x1150;
pub const CL_SAMPLER_CONTEXT: u32 = 0x1151;
pub const CL_SAMPLER_NORMALIZED_COORDS: u32 = 0x1152;
pub const CL_SAMPLER_ADDRESSING_MODE: u32 = 0x1153;
pub const CL_SAMPLER_FILTER_MODE: u32 = 0x1154;
pub const CL_SAMPLER_PROPERTIES: u32 = 0x1158;

/// The addressing mode is one of the five that there are.
pub open spec fn addressing_mode_valid(addressing_mode: u32) -> bool {
    addressing_mode == CL_ADDRESS_NONE || addressing_mode == CL_ADDRESS_CLAMP_TO_EDGE
        || addressing_mode == CL_ADDRESS_CLAMP || addressing_mode == CL_ADDRESS_REPEAT
        || addressing_mode == CL_ADDRESS_MIRRORED_REPEAT
}

/// Accepts an addressing mode that there is.
pub fn validate_addressing_mode(addressing_mode: u32) -> (r: CLResult<()>)
    ensures
        r is Ok <==> addressing_mode_valid(addressing_mode),
        r is Err ==> r == Err::<(), ClError>(ClError::InvalidValue),
{
    if addressing_mode == CL_ADDRESS_NONE || addressing_mode == CL_ADDRESS_CLAMP_TO_EDGE
        || addressing_mode == CL_ADDRESS_CLAMP || addressing_mode == CL_ADDRESS_REPEAT
        || addressing_mode == CL_ADDRESS_MIRRORED_REPEAT {
        Ok(())
    } else {
        Err(ClError::InvalidValue)
    }
}

/// The filter mode is nearest or linear.
pub open spec fn filter_mode_valid(filter_mode: u32) -> bool {
    filter_mode == CL_FILTER_NEAREST || filter_mode == CL_FILTER_LINEAR
}

/// Accepts a filter mode that there is.
pub fn validate_filter_mode(filter_mode: u32) -> (r: CLResult<()>)
    ensures
        r is Ok <==> filter_mode_valid(filter_mode),
        r is Err ==> r == Err::<(), ClError>(ClError::InvalidValue),
{
    if filter_mode == CL_FILTER_NEAREST || filter_mode == CL_FILTER_LINEAR {
        Ok(())
    } else {
        Err(ClError::InvalidValue)
    }
}

/// A sampler. It does not change once it is made.
#[derive(Debug, PartialEq, Eq)]
pub struct Sampler {
    /// The identity of the context that the sampler belongs to.
    pub context: usize,
    pub normalized_coords: bool,
    pub addressing_mode: u32,
    pub filter_mode: u32,
    pub props: Properties,
}

/// Why a sampler cannot be made; none where it can. In this order: some
/// device of the context supports images; the addressing mode and the
/// filter mode are ones that there are; and the flag for normalized
/// coordinates is a boolean.
pub open spec fn sampler_error(
    devs: Seq<Device>,
    normalized_coords: u32,
    addressing_mode: u32,
    filter_mode: u32,
) -> Option<ClError> {
    if !any_has(devs, Feature::Images) {
        Some(ClError::InvalidOperation)
    } else if !addressing_mode_valid(addressing_mode) || !filter_mode_valid(filter_mode)
        || spec_cl_bool(normalized_coords) is None {
        Some(ClError::InvalidValue)
    } else {
        None
    }
}

/// Makes a sampler that keeps the given property list.
pub fn create_sampler_impl(
    c: &Context,
    normalized_coords: u32,
    addressing_mode: u32,
    filter_mode: u32,
    props: Properties,
) -> (r: CLResult<Sampler>)
    ensures
        match r {
            Ok(s) => sampler_error(c@.devs, normalized_coords, addressing_mode, filter_mode)
                is None && s.context == c@.id && Some(s.normalized_coords) == spec_cl_bool(
                normalized_coords,
            ) && s.addressing_mode == addressing_mode && s.filter_mode == filter_mode && s.props
                == props,
            Err(e) => sampler_error(c@.devs, normalized_coords, addressing_mode, filter_mode)
                == Some(e),
        },
{
    if !any_device_has(c.devs(), Feature::Images) {
        return Err(ClError::InvalidOperation);
    }
    validate_addressing_mode(addressing_mode)?;
    validate_filter_mode(filter_mode)?;
    let normalized: bool = match check_cl_bool(normalized_coords) {
        Some(v) => v,
        None => {
            return Err(ClError::InvalidValue);
        },
    };
    Ok(
        Sampler {
            context: c.id(),
            normalized_coords: normalized,
            addressing_mode,
            filter_mode,
            props,
        },
    )
}

/// Makes a sampler without properties.
pub fn create_sampler(c: &Context, normalized_coords: u32, addressing_mode: u32, filter_mode: u32) -> (r:
    CLResult<Sampler>)
    ensures
        match r {
            Ok(s) => sampler_error(c@.devs, normalized_coords, addressing_mode, filter_mode)
                is None && s.context == c@.id && Some(s.normalized_coords) == spec_cl_bool(
                normalized_coords,
            ) && s.addressing_mode == addressing_mode && s.filter_mode == filter_mode && s.props@
                == Seq::<(u64, u64)>::empty() && !s.props.spec_is_given(),
            Err(e) => sampler_error(c@.devs, normalized_coords, addressing_mode, filter_mode)
                == Some(e),
        },
{
    create_sampler_impl(c, normalized_coords, addressing_mode, filter_mode, Properties::empty())
}

/// The key is one that a sampler property can have.
pub open spec fn sampler_key(key: u64) -> bool {
    key == CL_SAMPLER_ADDRESSING_MODE || key == CL_SAMPLER_FILTER_MODE || key
        == CL_SAMPLER_NORMALIZED_COORDS
}

/// Every property has a key that a sampler property can have and a value
/// of 32 bits.
pub open spec fn sampler_props_valid(pairs: Seq<(u64, u64)>) -> bool {
    forall|i: int|
        0 <= i < pairs.len() ==> sampler_key((#[trigger] pairs[i]).0) && pairs[i].1 <= u32::MAX
}

/// The value that the properties give a field of the sampler: that of the
/// property with the key, or the default where there is none.
pub open spec fn sampler_field(pairs: Seq<(u64, u64)>, key: u32, default: u32) -> u32 {
    match value_of(pairs, key as u64) {
        Some(v) => v as u32,
        None => default,
    }
}

/// Why a sampler cannot be made from a property list; none where it can.
/// In this order: the list is well formed; every property is a valid
/// sampler property; and a sampler can be made of the values that the
/// properties give, with normalized coordinates, clamping to the edge and
/// the nearest filter where they give none.
pub open spec fn sampler_props_error(devs: Seq<Device>, words: Option<Seq<u64>>) -> Option<
    ClError,
> {
    let pairs = sampler_pairs(words);
    if words is Some && parse(words->0) is None {
        Some(ClError::InvalidValue)
    } else if !sampler_props_valid(pairs) {
        Some(ClError::InvalidValue)
    } else {
        sampler_error(
            devs,
            sampler_field(pairs, CL_SAMPLER_NORMALIZED_COORDS, 1),
            sampler_field(pairs, CL_SAMPLER_ADDRESSING_MODE, CL_ADDRESS_CLAMP_TO_EDGE),
            sampler_field(pairs, CL_SAMPLER_FILTER_MODE, CL_FILTER_NEAREST),
        )
    }
}

/// The pairs of a property list that may have been left out.
pub open spec fn sampler_pairs(words: Option<Seq<u64>>) -> Seq<(u64, u64)> {
    match words {
        Some(w) => match parse(w) {
            Some(p) => p,
            None => Seq::empty(),
        },
        None => Seq::empty(),
    }
}

fn props_valid(props: &Properties) -> (r: bool)
    ensures
        r == sampler_props_valid(props@),
{
    let mut i: usize = 0;
    while i < props.len()
        invariant
            i <= props@.len(),
            forall|j: int|
                0 <= j < i ==> sampler_key((#[trigger] props@[j]).0) && props@[j].1 <= u32::MAX,
        decreases props@.len() - i,
    {
        let (key, val): (u64, u64) = props.pair(i);
        let known: bool = key == CL_SAMPLER_ADDRESSING_MODE as u64 || key
            == CL_SAMPLER_FILTER_MODE as u64 || key == CL_SAMPLER_NORMALIZED_COORDS as u64;
        if !known || val > u32::MAX as u64 {
            return false;
        }
        i = i + 1;
    }
    true
}

fn field(props: &Properties, key: u32, default: u32) -> (r: u32)
    requires
        sampler_props_valid(props@),
    ensures
        r == sampler_field(props@, key, default),
{
    match props.get(key as u64) {
        Some(v) => {
            v as u32
        },
        None => default,
    }
}

/// Makes a sampler from a property list. Each property sets one field of
/// the sampler; a field that no property sets has its default.
pub fn create_sampler_with_properties(c: &Context, sampler_properties: Option<&[u64]>) -> (r:
    CLResult<Sampler>)
    ensures
        match r {
            Ok(s) => {
                let pairs = sampler_pairs(crate::util::opt_seq(sampler_properties));
                &&& sampler_props_error(c@.devs, crate::util::opt_seq(sampler_properties)) is None
                &&& s.context == c@.id
                &&& Some(s.normalized_coords) == spec_cl_bool(
                    sampler_field(pairs, CL_SAMPLER_NORMALIZED_COORDS, 1),
                )
                &&& s.addressing_mode == sampler_field(
                    pairs,
                    CL_SAMPLER_ADDRESSING_MODE,
                    CL_ADDRESS_CLAMP_TO_EDGE,
                )
                &&& s.filter_mode == sampler_field(pairs, CL_SAMPLER_FILTER_MODE, CL_FILTER_NEAREST)
                &&& s.props@ == pairs
                &&& s.props.spec_is_given() == (sampler_properties is Some)
            },
            Err(e) => sampler_props_error(c@.devs, crate::util::opt_seq(sampler_properties))
                == Some(e),
        },
{
    let props: Properties = match Properties::new(sampler_properties) {
        Some(p) => p,
        None => {
            return Err(ClError::InvalidValue);
        },
    };
    if !props_valid(&props) {
        return Err(ClError::InvalidValue);
    }
    let normalized_coords: u32 = field(&props, CL_SAMPLER_NORMALIZED_COORDS, 1);
    let addressing_mode: u32 = field(&props, CL_SAMPLER_ADDRESSING_MODE, CL_ADDRESS_CLAMP_TO_EDGE);
    let filter_mode: u32 = field(&props, CL_SAMPLER_FILTER_MODE, CL_FILTER_NEAREST);
    create_sampler_impl(c, normalized_coords, addressing_mode, filter_mode, props)
}

} // verus!
