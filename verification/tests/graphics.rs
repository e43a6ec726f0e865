use nora::graphics::{transparent, Color, DrawCall, RenderLayer, RenderLayers};

#[test]
fn a_layer_hands_out_its_instructions_oldest_first() {
    let mut layer = RenderLayer::new();
    assert!(layer.calls.is_empty());
    layer.calls.push(DrawCall::Clear(transparent()));
    layer.calls.push(DrawCall::Rect(1, 2, 3, 4, Color { r: 5, g: 6, b: 7, a: 8 }));
    layer.calls.push(DrawCall::Tileset(1, 2, 3, 4));
    let calls = layer.draw();
    assert_eq!(
        calls,
        vec![
            DrawCall::Clear(Color { r: 0, g: 0, b: 0, a: 0 }),
            DrawCall::Rect(1, 2, 3, 4, Color { r: 5, g: 6, b: 7, a: 8 }),
            DrawCall::Tileset(1, 2, 3, 4),
        ]
    );
    assert!(layer.calls.is_empty());
    assert!(layer.draw().is_empty());
}

#[test]
fn the_layers_come_in_their_order() {
    let mut layers = RenderLayers::new();
    layers.world.calls.push(DrawCall::Tileset(0, 0, 0, 0));
    layers.entities.calls.push(DrawCall::Tileset(1, 1, 1, 1));
    layers.world_foreground.calls.push(DrawCall::Tileset(2, 2, 2, 2));
    layers.ui.calls.push(DrawCall::Tileset(3, 3, 3, 3));
    {
        let all = layers.get_all();
        assert_eq!(all[0].calls, vec![DrawCall::Tileset(0, 0, 0, 0)]);
        assert_eq!(all[1].calls, vec![DrawCall::Tileset(1, 1, 1, 1)]);
        assert_eq!(all[2].calls, vec![DrawCall::Tileset(2, 2, 2, 2)]);
        assert_eq!(all[3].calls, vec![DrawCall::Tileset(3, 3, 3, 3)]);
    }
    {
        let redrawn = layers.get_redrawn();
        assert_eq!(redrawn[0].calls, vec![DrawCall::Tileset(1, 1, 1, 1)]);
        assert_eq!(redrawn[1].calls, vec![DrawCall::Tileset(3, 3, 3, 3)]);
        redrawn[0].calls.clear();
        redrawn[1].calls.push(DrawCall::Clear(transparent()));
    }
    assert!(layers.entities.calls.is_empty());
    assert_eq!(layers.ui.calls.len(), 2);
    assert_eq!(layers.world.calls.len(), 1);
}
