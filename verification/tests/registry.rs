use real_estate::accounts::{Account, Context, CreateProperty, Signer};
use real_estate::address::find_registry_address;
use real_estate::error::{ErrorCode, Rejection};
use real_estate::identity::Identity;
use real_estate::registry::{create_property, create_property_at};
use real_estate::state::{Property, PropertyRegistry};

fn program() -> Identity {
    Identity::parse("3U6NSTN5Pm9VaMeTCdYq9RFUddeStn4zn63uXm33dr4A").unwrap()
}

fn blank() -> Property {
    Property { property_id: 0, name: String::new(), image_url: String::new() }
}

fn registry(next_property_id: u32) -> Context<CreateProperty> {
    Context {
        program_id: program(),
        accounts: CreateProperty {
            creator: Signer { key: Identity::new([0xC3; 32]), lamports: 10 },
            registry: Account {
                key: find_registry_address(&program()).unwrap().0,
                lamports: 1,
                data: PropertyRegistry { next_property_id, bump: 0 },
            },
            property: Account { key: Identity::new([0xD4; 32]), lamports: 2, data: blank() },
        },
    }
}

#[test]
fn properties_get_consecutive_identifiers() {
    let mut ctx = registry(0);
    assert_eq!(create_property(&mut ctx, String::from("Villa"), String::from("a.png")), Ok(()));
    assert_eq!(
        ctx.accounts.property.data,
        Property { property_id: 0, name: String::from("Villa"), image_url: String::from("a.png") }
    );
    assert_eq!(ctx.accounts.registry.data.next_property_id, 1);
    assert_eq!(create_property(&mut ctx, String::from("Loft"), String::from("b.png")), Ok(()));
    assert_eq!(
        ctx.accounts.property.data,
        Property { property_id: 1, name: String::from("Loft"), image_url: String::from("b.png") }
    );
    assert_eq!(ctx.accounts.registry.data.next_property_id, 2);
    assert_eq!(ctx.accounts.creator.lamports, 10);
    assert_eq!(ctx.accounts.registry.lamports, 1);
    assert_eq!(ctx.accounts.property.lamports, 2);
}

#[test]
fn a_name_of_sixty_four_bytes_is_taken() {
    let mut ctx = registry(5);
    assert_eq!(create_property(&mut ctx, "n".repeat(64), String::new()), Ok(()));
    assert_eq!(ctx.accounts.property.data.property_id, 5);
}

#[test]
fn a_name_of_sixty_five_bytes_is_too_long() {
    let mut ctx = registry(5);
    let before = ctx.clone();
    assert_eq!(
        create_property(&mut ctx, "n".repeat(65), String::new()),
        Err(Rejection::Program(ErrorCode::NameTooLong))
    );
    assert_eq!(ctx, before);
}

#[test]
fn the_length_of_a_name_is_counted_in_bytes() {
    let mut ctx = registry(5);
    assert_eq!(
        create_property(&mut ctx, "é".repeat(33), String::new()),
        Err(Rejection::Program(ErrorCode::NameTooLong))
    );
    assert_eq!(create_property(&mut ctx, "é".repeat(32), String::new()), Ok(()));
}

#[test]
fn an_image_address_of_two_hundred_bytes_is_taken() {
    let mut ctx = registry(5);
    assert_eq!(create_property(&mut ctx, String::from("Villa"), "u".repeat(200)), Ok(()));
}

#[test]
fn an_image_address_of_two_hundred_and_one_bytes_is_too_long() {
    let mut ctx = registry(5);
    let before = ctx.clone();
    assert_eq!(
        create_property(&mut ctx, String::from("Villa"), "u".repeat(201)),
        Err(Rejection::Program(ErrorCode::ImageUrlTooLong))
    );
    assert_eq!(ctx, before);
}

#[test]
fn a_long_name_is_reported_before_a_long_image_address() {
    let mut ctx = registry(5);
    assert_eq!(
        create_property(&mut ctx, "n".repeat(65), "u".repeat(201)),
        Err(Rejection::Program(ErrorCode::NameTooLong))
    );
}

#[test]
fn the_last_identifier_cannot_be_handed_out() {
    let mut ctx = registry(u32::MAX);
    let before = ctx.clone();
    assert_eq!(
        create_property(&mut ctx, String::from("Villa"), String::from("a.png")),
        Err(Rejection::Program(ErrorCode::IdOverflow))
    );
    assert_eq!(ctx, before);
}

#[test]
fn the_identifier_before_the_last_is_handed_out() {
    let mut ctx = registry(u32::MAX - 1);
    assert_eq!(create_property(&mut ctx, String::from("Villa"), String::from("a.png")), Ok(()));
    assert_eq!(ctx.accounts.property.data.property_id, u32::MAX - 1);
    assert_eq!(ctx.accounts.registry.data.next_property_id, u32::MAX);
}

#[test]
fn a_registry_at_another_address_is_refused() {
    let mut ctx = registry(0);
    ctx.accounts.registry.key = Identity::new([1u8; 32]);
    let before = ctx.clone();
    assert_eq!(
        create_property(&mut ctx, String::from("Villa"), String::from("a.png")),
        Err(Rejection::ConstraintSeeds)
    );
    assert_eq!(ctx, before);
}

#[test]
fn registering_at_a_given_address() {
    let mut ctx = registry(0);
    let key = Identity::new([1u8; 32]);
    ctx.accounts.registry.key = key;
    assert_eq!(
        create_property_at(&mut ctx, None, String::from("Villa"), String::from("a.png")),
        Err(Rejection::ConstraintSeeds)
    );
    assert_eq!(
        create_property_at(&mut ctx, Some((key, 255)), String::from("Villa"), String::from("a.png")),
        Ok(())
    );
    assert_eq!(ctx.accounts.registry.data.next_property_id, 1);
}
