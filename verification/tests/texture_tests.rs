use hyperspeedcube::texture::{CompositedTexture, TextureBridge, TextureId};

#[test]
fn new_bridge_has_nothing_registered() {
    let bridge = TextureBridge::new();
    assert_eq!(bridge.composited(), None);
    assert_eq!(bridge.id(), None);
}

#[test]
fn register_records_the_assigned_identifier() {
    let mut bridge = TextureBridge::new();
    assert_eq!(bridge.register(TextureId::User(0), 11), TextureId::User(0));
    assert_eq!(
        bridge.composited(),
        Some(CompositedTexture { id: TextureId::User(0), view: 11 })
    );
}

#[test]
fn second_registration_keeps_the_first_identifier() {
    let mut bridge = TextureBridge::new();
    bridge.register(TextureId::User(3), 1);
    assert_eq!(bridge.register(TextureId::User(4), 2), TextureId::User(3));
    assert_eq!(
        bridge.composited(),
        Some(CompositedTexture { id: TextureId::User(3), view: 1 })
    );
}

#[test]
fn update_replaces_the_view_and_never_the_identifier() {
    let mut bridge = TextureBridge::new();
    let id = bridge.register(TextureId::User(7), 0);
    for view in 1..=1000u64 {
        let refreshed = bridge.update(view);
        assert_eq!(refreshed, Some(CompositedTexture { id, view }));
        assert_eq!(bridge.id(), Some(id));
    }
    assert_eq!(bridge.composited(), Some(CompositedTexture { id, view: 1000 }));
}

#[test]
fn update_without_registration_does_nothing() {
    let mut bridge = TextureBridge::new();
    assert_eq!(bridge.update(5), None);
    assert_eq!(bridge.composited(), None);
}

#[test]
fn release_unused_spares_the_composited_texture_and_keeps_the_order() {
    let mut bridge = TextureBridge::new();
    bridge.register(TextureId::User(1), 0);
    let freed = vec![
        TextureId::Managed(4),
        TextureId::User(1),
        TextureId::Managed(1),
        TextureId::User(2),
        TextureId::User(1),
        TextureId::Managed(4),
    ];
    assert_eq!(
        bridge.release_unused(&freed),
        vec![
            TextureId::Managed(4),
            TextureId::Managed(1),
            TextureId::User(2),
            TextureId::Managed(4),
        ]
    );
    assert_eq!(bridge.id(), Some(TextureId::User(1)));
}

#[test]
fn release_unused_without_registration_releases_everything() {
    let bridge = TextureBridge::new();
    let freed = vec![TextureId::User(1), TextureId::Managed(1)];
    assert_eq!(bridge.release_unused(&freed), freed);
    assert_eq!(bridge.release_unused(&Vec::new()), Vec::new());
}
