use tileedit::ani_sprite::{AniSprite, FrameRect};
use tileedit::rect::Rect;
use tileedit::tile_layer_view::{DrawCommand, TileLayerView};
use tileedit::tile_map::{TileLayer, TileMap};

fn sheet_192x64() -> AniSprite {
    AniSprite::new(192, 64, 64, 64).unwrap()
}

#[test]
fn test_tile_layer_size() {
    let layer = TileLayer::new((4, 3), sheet_192x64());
    assert_eq!(layer.size(), (4, 3));
}

#[test]
fn test_tile_layer_empty_size() {
    let layer = TileLayer::new((5, 0), sheet_192x64());
    assert_eq!(layer.size(), (0, 0));
}

#[test]
fn test_tile_map_accessors() {
    let background = TileLayer::new((2, 2), sheet_192x64());
    let game_layer = TileLayer::new((2, 2), sheet_192x64());
    let foreground = TileLayer::new((2, 2), sheet_192x64());
    let collisions = vec![Rect::from_slice([0, 0, 10, 10])];
    let mut map = TileMap::new(background, game_layer, foreground, collisions);

    assert_eq!(map.background().size(), (2, 2));
    assert_eq!(map.game_layer().size(), (2, 2));
    assert_eq!(map.foreground().size(), (2, 2));
    assert_eq!(map.background_mut().size(), (2, 2));
    assert_eq!(map.game_layer_mut().size(), (2, 2));
    assert_eq!(map.foreground_mut().size(), (2, 2));
}

#[test]
fn test_set_tile_and_draw_plan() {
    let mut view = TileLayerView::new((2, 2), sheet_192x64());
    assert!(view.draw_plan().is_empty());

    view.set_tile((0, 1), Some(2));
    view.set_tile((1, 0), Some(0));

    let plan = view.draw_plan();
    assert_eq!(
        plan,
        vec![
            DrawCommand {
                frame: 2,
                src: FrameRect { x: 128, y: 0, w: 64, h: 64 },
                dx: 0,
                dy: 64,
            },
            DrawCommand {
                frame: 0,
                src: FrameRect { x: 0, y: 0, w: 64, h: 64 },
                dx: 64,
                dy: 0,
            },
        ]
    );
}

#[test]
fn test_set_tile_overwrites_and_clears() {
    let mut view = TileLayerView::new((1, 1), sheet_192x64());
    view.set_tile((0, 0), Some(1));
    assert_eq!(view.draw_plan().len(), 1);
    view.set_tile((0, 0), None);
    assert!(view.draw_plan().is_empty());
}

#[test]
fn test_clone_map() {
    let mut view = TileLayerView::new((5, 5), sheet_192x64());
    let map = vec![vec![Some(0), Some(1), Some(0), Some(1), Some(0)]; 5];
    view.clone_map(&map);
    assert_eq!(view.tilemap, map);

    let plan = view.draw_plan();
    assert_eq!(plan.len(), 25);
    // Row-major: the first command is cell (0, 0), the last cell (4, 4).
    assert_eq!(plan[0].frame, 0);
    assert_eq!(plan[0].dx, 0);
    assert_eq!(plan[0].dy, 0);
    assert_eq!(plan[1].frame, 1);
    assert_eq!(plan[1].src, FrameRect { x: 64, y: 0, w: 64, h: 64 });
    assert_eq!(plan[24].dx, 256);
    assert_eq!(plan[24].dy, 256);
}
