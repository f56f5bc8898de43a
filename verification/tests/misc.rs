use fennec::cache::Cache;
use fennec::error::ErrorKind;
use fennec::error::FennecError;
use fennec::iteratorext::IteratorOk;
use fennec::iteratorext::IteratorResults;
use fennec::vm::contentengine::ContentEngine;
use fennec::vm::contentengine::ContentType;
use fennec::vm::graphicsengine::device::Float;
use fennec::vm::graphicsengine::spritelayer::Sprite;
use fennec::vm::graphicsengine::spritelayer::SpriteLayer;
use fennec::vm::graphicsengine::spritelayer::MAX_SPRITES;
use fennec::vm::graphicsengine::tileregion::TileRegion;

#[test]
fn iter_mut_reaches_every_entry_once() {
    let mut cache: Cache<u32> = Cache::new();
    let a = cache.insert(1);
    let b = cache.insert(2);
    let c = cache.insert(3);
    cache.remove(b);
    let mut seen = Vec::new();
    for (handle, value) in cache.iter_mut() {
        seen.push(handle.index());
        *value += 10;
    }
    seen.sort();
    assert_eq!(seen, vec![a.index(), c.index()]);
    assert_eq!(cache.get(a), Some(&11));
    assert_eq!(cache.get(c), Some(&13));
    assert_eq!(cache.get(b), None);
    let mut handles: Vec<u64> = cache.handles().iter().map(|handle| handle.index()).collect();
    handles.sort();
    assert_eq!(handles, vec![a.index(), c.index()]);
}

#[test]
fn results_become_their_values_in_order() {
    let results: Vec<Result<u32, FennecError>> = vec![Ok(1), Ok(2), Ok(3)];
    let mut values = results.handle_results().expect("all succeeded");
    assert_eq!(values.next(), Some(1));
    assert_eq!(values.collect(), vec![2, 3]);
    let none: Vec<Result<u32, FennecError>> = Vec::new();
    assert_eq!(none.handle_results().expect("empty").next(), None);
}

#[test]
fn first_error_wins() {
    let results: Vec<Result<u32, FennecError>> = vec![
        Ok(1),
        Err(FennecError::with_kind(ErrorKind::NotFound, "first")),
        Ok(3),
        Err(FennecError::with_kind(ErrorKind::OutOfRange, "second")),
    ];
    let error = results.handle_results().err().expect("an error");
    assert_eq!(error.kind(), ErrorKind::NotFound);
    assert_eq!(error.description(), "first");
}

#[test]
fn iterator_hands_values_out_front_to_back() {
    let mut values = IteratorOk::new(vec!['a', 'b', 'c']);
    assert_eq!(values.next(), Some('a'));
    assert_eq!(values.next(), Some('b'));
    assert_eq!(values.next(), Some('c'));
    assert_eq!(values.next(), None);
    assert_eq!(values.next(), None);
}

#[test]
fn content_lives_below_data() {
    assert_eq!(ContentEngine::content_root(ContentType::ShaderModule), "data/shaders");
    assert_eq!(ContentEngine::content_root(ContentType::Image), "data/images");
    assert_eq!(ContentEngine::content_extension(ContentType::ShaderModule), "spv");
    assert_eq!(ContentEngine::content_extension(ContentType::Image), "png");
    assert_eq!(
        ContentEngine::content_path("sprite.vert", ContentType::ShaderModule),
        "data/shaders/sprite.vert.spv"
    );
    assert_eq!(ContentEngine::content_path("test", ContentType::Image), "data/images/test.png");
}

#[test]
fn tile_region_starts_at_zero() {
    let region = TileRegion::default();
    assert_eq!(
        region,
        TileRegion { top: 0, left: 0, width: 0, height: 0, center_x: 0, center_y: 0 }
    );
}

fn at(x: u32, y: u32) -> (Float, Float) {
    (Float { bits: x }, Float { bits: y })
}

#[test]
fn sprites_take_the_first_empty_place() {
    let mut layer = SpriteLayer::new();
    assert_eq!(layer.sprite_count(), 0);
    let region = TileRegion { top: 1, left: 2, width: 3, height: 4, center_x: 5, center_y: 6 };
    let a = layer.create(at(1, 1), region).expect("a");
    let b = layer.create(at(2, 2), region).expect("b");
    let c = layer.create(at(3, 3), region).expect("c");
    assert_eq!((a.array_index(), b.array_index(), c.array_index()), (0, 1, 2));
    assert_eq!(layer.get(&b), Some(Sprite { position: at(2, 2), tile_region: region }));
    layer.destroy(b).expect("b gone");
    assert_eq!(layer.get(&b), None);
    assert_eq!(layer.sprite_count(), 2);
    assert_eq!(layer.destroy(b).expect_err("gone").kind(), ErrorKind::NotFound);
    assert_eq!(layer.create(at(4, 4), region).expect("again").array_index(), 1);
    layer.destroy(c).expect("c gone");
    layer.destroy(b).expect("b gone");
    assert_eq!(layer.create(at(5, 5), region).expect("after a").array_index(), 1);
    layer.destroy(a).expect("a gone");
    assert_eq!(layer.create(at(6, 6), region).expect("first").array_index(), 0);
}

#[test]
fn full_layer_refuses_and_takes_sprites_again_after_the_last_is_gone() {
    let mut layer = SpriteLayer::new();
    let region = TileRegion::default();
    let mut last = None;
    for _ in 0..MAX_SPRITES {
        last = Some(layer.create(at(0, 0), region).expect("room"));
    }
    assert_eq!(layer.sprite_count(), MAX_SPRITES);
    let full = layer.create(at(0, 0), region).expect_err("full");
    assert_eq!(full.kind(), ErrorKind::OutOfRange);
    assert_eq!(full.description(), "The max number of sprites (65536) has been reached");
    let last = last.expect("last");
    assert_eq!(last.array_index(), MAX_SPRITES - 1);
    layer.destroy(last).expect("last gone");
    assert_eq!(layer.create(at(0, 0), region).expect("room again").array_index(), MAX_SPRITES - 1);
}

#[test]
fn missing_sprite_is_named_by_its_handle() {
    let mut layer = SpriteLayer::new();
    let handle = layer.create(at(0, 0), TileRegion::default()).expect("sprite");
    layer.destroy(handle).expect("gone");
    let missing = layer.destroy(handle).expect_err("no sprite");
    assert_eq!(missing.kind(), ErrorKind::NotFound);
    assert_eq!(missing.description(), "No sprite exists with handle: SpriteHandle { array_index: 0 }");
}
