use linux_keyutils::{KeyPermissions, KeyPermissionsBuilder, Permission};

#[test]
fn test_posessor_perms() {
    let mut perm = KeyPermissions::default();

    // Initial
    perm.set_posessor_perms(Permission::all());
    assert_eq!(perm.bits(), 0x3f000000);

    // Update
    perm.set_posessor_perms(Permission::search());
    assert_eq!(perm.bits(), 0x08000000);

    // Combination
    perm.set_posessor_perms(Permission::search().union(Permission::view_attr()));
    assert_eq!(perm.bits(), 0x09000000);

    // Combination two
    perm.set_posessor_perms(
        Permission::setattr()
            .union(Permission::view_attr())
            .union(Permission::read())
            .union(Permission::write()),
    );
    assert_eq!(perm.bits(), 0x27000000);
}

#[test]
fn test_user_perms() {
    let mut perm = KeyPermissions::default();

    // Initial
    perm.set_user_perms(Permission::all());
    assert_eq!(perm.bits(), 0x003f0000);

    // Update
    perm.set_user_perms(Permission::search());
    assert_eq!(perm.bits(), 0x00080000);

    // Combination
    perm.set_user_perms(Permission::search().union(Permission::view_attr()));
    assert_eq!(perm.bits(), 0x00090000);

    // Combination2
    perm.set_user_perms(
        Permission::setattr()
            .union(Permission::view_attr())
            .union(Permission::read())
            .union(Permission::write()),
    );
    assert_eq!(perm.bits(), 0x00270000);
}

#[test]
fn test_group_perms() {
    let mut perm = KeyPermissions::default();

    // Initial
    perm.set_group_perms(Permission::all());
    assert_eq!(perm.bits(), 0x00003f00);

    // Update
    perm.set_group_perms(Permission::search());
    assert_eq!(perm.bits(), 0x00000800);

    // Combination
    perm.set_group_perms(Permission::search().union(Permission::view_attr()));
    assert_eq!(perm.bits(), 0x00000900);

    // Combination2
    perm.set_group_perms(
        Permission::setattr()
            .union(Permission::view_attr())
            .union(Permission::read())
            .union(Permission::write()),
    );
    assert_eq!(perm.bits(), 0x00002700);
}

#[test]
fn test_world_perms() {
    let mut perm = KeyPermissions::default();

    // Initial
    perm.set_world_perms(Permission::all());
    assert_eq!(perm.bits(), 0x0000003f);

    // Update
    perm.set_world_perms(Permission::search());
    assert_eq!(perm.bits(), 0x00000008);

    // Combination
    perm.set_world_perms(Permission::search().union(Permission::view_attr()));
    assert_eq!(perm.bits(), 0x00000009);

    // Combination2
    perm.set_world_perms(
        Permission::setattr()
            .union(Permission::view_attr())
            .union(Permission::read())
            .union(Permission::write()),
    );
    assert_eq!(perm.bits(), 0x00000027);
}

#[test]
fn test_combined_perms() {
    let mut perm = KeyPermissions::default();

    // Posessor
    perm.set_posessor_perms(Permission::all());
    assert_eq!(perm.bits(), 0x3f000000);

    // User
    perm.set_user_perms(
        Permission::view_attr().union(Permission::read()).union(Permission::write()),
    );
    assert_eq!(perm.bits(), 0x3f070000);

    // Group
    perm.set_group_perms(Permission::search().union(Permission::view_attr()));
    assert_eq!(perm.bits(), 0x3f070900);

    // World
    perm.set_world_perms(
        Permission::setattr()
            .union(Permission::view_attr())
            .union(Permission::read())
            .union(Permission::write()),
    );
    assert_eq!(perm.bits(), 0x3f070927);
}

#[test]
fn test_builder_chain() {
    let perms = KeyPermissionsBuilder::builder()
        .posessor(Permission::all())
        .user(Permission::all())
        .group(Permission::view_attr().union(Permission::read()))
        .world(Permission::empty())
        .build();
    assert_eq!(perms.bits(), 0x3f3f0300);
}

#[test]
fn test_permission_bits() {
    assert_eq!(Permission::view_attr().bits(), 0x01);
    assert_eq!(Permission::read().bits(), 0x02);
    assert_eq!(Permission::write().bits(), 0x04);
    assert_eq!(Permission::search().bits(), 0x08);
    assert_eq!(Permission::link().bits(), 0x10);
    assert_eq!(Permission::setattr().bits(), 0x20);
    assert_eq!(Permission::all().bits(), 0x3f);
    assert_eq!(Permission::empty().bits(), 0x00);
}

#[test]
fn test_from_u32_round_trip() {
    // Reserved bits outside the six defined capabilities round-trip
    // unchanged through the raw constructor.
    let perms = KeyPermissions::from_u32(0xc0ff_ee42);
    assert_eq!(perms.bits(), 0xc0ff_ee42);
}
