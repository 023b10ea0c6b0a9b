//! Registering a property: the registry hands out the next identifier and the
//! property's description is stored under it.

use crate::accounts::{Account, Context, CreateProperty};
use crate::address::{address_view, find_registry_address, names_account, registry_address, sits_at};
use crate::error::{verdict, ErrorCode, Rejection};
use crate::identity::Identity;
use crate::state::{
    Property, PropertyRegistry, MAX_IMAGE_URL_LEN, MAX_PROPERTY_NAME_LEN,
};
use vstd::prelude::*;
use vstd::utf8::encode_utf8;

verus! {

/// The number of bytes a text takes when stored.
pub open spec fn byte_len(text: Seq<char>) -> nat {
    encode_utf8(text).len()
}

/// Why a registration is turned down, if it is. The checks come in this order:
/// the registry sits at its derived address; the name is short enough; the image
/// address is short enough; the registry has an identifier left to hand out
/// after this one.
pub open spec fn create_refusal(
    ctx: Context<CreateProperty>,
    registry_at: Option<(Seq<u8>, u8)>,
    name: Seq<char>,
    image_url: Seq<char>,
) -> Option<Rejection> {
    if !names_account(registry_at, ctx.accounts.registry.key) {
        Some(Rejection::ConstraintSeeds)
    } else if byte_len(name) > MAX_PROPERTY_NAME_LEN {
        Some(Rejection::Program(ErrorCode::NameTooLong))
    } else if byte_len(image_url) > MAX_IMAGE_URL_LEN {
        Some(Rejection::Program(ErrorCode::ImageUrlTooLong))
    } else if ctx.accounts.registry.data.next_property_id == u32::MAX {
        Some(Rejection::Program(ErrorCode::IdOverflow))
    } else {
        None
    }
}

/// The accounts after a registration that was accepted: the property is stored
/// under the identifier that was next, and the registry has moved on by one.
pub open spec fn created(ctx: Context<CreateProperty>, name: String, image_url: String) -> Context<
    CreateProperty,
> {
    let registry = ctx.accounts.registry;
    let property = ctx.accounts.property;
    Context {
        program_id: ctx.program_id,
        accounts: CreateProperty {
            creator: ctx.accounts.creator,
            registry: Account {
                data: PropertyRegistry {
                    next_property_id: (registry.data.next_property_id + 1) as u32,
                    ..registry.data
                },
                ..registry
            },
            property: Account {
                data: Property { property_id: registry.data.next_property_id, name, image_url },
                ..property
            },
        },
    }
}

/// The accounts after a registration: as `created` says where it was accepted,
/// as they were where it was turned down.
pub open spec fn after_create(
    ctx: Context<CreateProperty>,
    registry_at: Option<(Seq<u8>, u8)>,
    name: String,
    image_url: String,
) -> Context<CreateProperty> {
    if create_refusal(ctx, registry_at, name@, image_url@) is None {
        created(ctx, name, image_url)
    } else {
        ctx
    }
}

/// Registers a property, given the address at which the registry must sit.
pub fn create_property_at(
    ctx: &mut Context<CreateProperty>,
    registry_at: Option<(Identity, u8)>,
    name: String,
    image_url: String,
) -> (outcome: Result<(), Rejection>)
    ensures
        outcome == verdict(create_refusal(*old(ctx), address_view(registry_at), name@, image_url@)),
        *final(ctx) == after_create(*old(ctx), address_view(registry_at), name, image_url),
{
    if !sits_at(&registry_at, &ctx.accounts.registry.key) {
        return Err(Rejection::ConstraintSeeds);
    }
    if name.as_str().as_bytes().len() > MAX_PROPERTY_NAME_LEN {
        return Err(Rejection::Program(ErrorCode::NameTooLong));
    }
    if image_url.as_str().as_bytes().len() > MAX_IMAGE_URL_LEN {
        return Err(Rejection::Program(ErrorCode::ImageUrlTooLong));
    }
    let property_id = ctx.accounts.registry.data.next_property_id;
    match property_id.checked_add(1) {
        None => Err(Rejection::Program(ErrorCode::IdOverflow)),
        Some(next) => {
            ctx.accounts.property.data = Property::create_property(property_id, name, image_url);
            ctx.accounts.registry.data.next_property_id = next;
            Ok(())
        },
    }
}

/// Registers a property under the registry's next identifier, or turns the
/// instruction down and changes nothing.
pub fn create_property(ctx: &mut Context<CreateProperty>, name: String, image_url: String) -> (outcome:
    Result<(), Rejection>)
    ensures
        outcome == verdict(
            create_refusal(*old(ctx), registry_address(old(ctx).program_id), name@, image_url@),
        ),
        *final(ctx) == after_create(
            *old(ctx),
            registry_address(old(ctx).program_id),
            name,
            image_url,
        ),
{
    let registry_at = find_registry_address(&ctx.program_id);
    create_property_at(ctx, registry_at, name, image_url)
}

} // verus!
