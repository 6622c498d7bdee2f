use std::sync::Arc;

use mozart::game::assets::texture::Image;
use mozart::game::assets::{AssetError, AssetErrorKind};
use mozart::game::Game;
use mozart::gl::{BufferId, RenderCommand, ShaderId};
use mozart::math::color::Color;
use mozart::math::fixed::{Fx, FX_SCALE};
use mozart::math::point::{pt2, pt2i};
use mozart::math::transform::Transform;
use mozart::obj::sprite::Sprite;
use mozart::obj::{Make, MakeDefault, Node, Obj2d, Probe};

/// A 2-by-1 pixel 24-bit BMP: a red pixel then a green one.
fn tiny_bmp() -> Vec<u8> {
    let mut b: Vec<u8> = Vec::new();
    b.extend_from_slice(b"BM");
    b.extend_from_slice(&62u32.to_le_bytes()); // file size
    b.extend_from_slice(&[0, 0, 0, 0]); // reserved
    b.extend_from_slice(&54u32.to_le_bytes()); // pixel data offset
    b.extend_from_slice(&40u32.to_le_bytes()); // header size
    b.extend_from_slice(&2i32.to_le_bytes()); // width
    b.extend_from_slice(&1i32.to_le_bytes()); // height
    b.extend_from_slice(&1u16.to_le_bytes()); // planes
    b.extend_from_slice(&24u16.to_le_bytes()); // bits per pixel
    b.extend_from_slice(&0u32.to_le_bytes()); // compression
    b.extend_from_slice(&8u32.to_le_bytes()); // image size
    b.extend_from_slice(&2835i32.to_le_bytes()); // x pixels per meter
    b.extend_from_slice(&2835i32.to_le_bytes()); // y pixels per meter
    b.extend_from_slice(&0u32.to_le_bytes()); // colors used
    b.extend_from_slice(&0u32.to_le_bytes()); // important colors
    // Pixel row, blue-green-red order, padded to four bytes.
    b.extend_from_slice(&[0, 0, 255, 0, 255, 0, 0, 0]);
    b
}

fn fresh_game() -> Game {
    Game::new().window_size(pt2i(800, 600)).build()
}

#[test]
fn image_decodes_bmp_pixels() {
    let mut game = fresh_game();
    let img = game.load_asset("tiny.bmp", &tiny_bmp()).unwrap();
    assert_eq!(img.width, 2);
    assert_eq!(img.height, 1);
    assert_eq!(img.bytes, vec![255, 0, 0, 255, 0, 255, 0, 255]);
    assert_eq!(img.size(), pt2i(2, 1));
}

#[test]
fn image_from_color_repeats_channels() {
    let img = Image::from_color(2, 2, Color::new(9, 8, 7, 6));
    assert_eq!(img.bytes, vec![9, 8, 7, 6, 9, 8, 7, 6, 9, 8, 7, 6, 9, 8, 7, 6]);
    assert_eq!(img.size(), pt2i(2, 2));
}

#[test]
fn cache_returns_same_instance_and_decodes_once() {
    let mut game = fresh_game();
    let a = game.load_asset("a.bmp", &tiny_bmp()).unwrap();
    let b = game.load_asset("a.bmp", &tiny_bmp()).unwrap();
    assert!(Arc::ptr_eq(&a, &b));
    // Handing different (undecodable) bytes for a stored path changes
    // nothing: the stored instance comes back and nothing is re-decoded.
    let c = game.load_asset("a.bmp", &vec![1, 2, 3]).unwrap();
    assert!(Arc::ptr_eq(&a, &c));
}

#[test]
fn cache_reports_decode_failure_with_path_and_type() {
    let mut game = fresh_game();
    let e: AssetError = match game.load_asset("broken.png", &vec![0, 1, 2]) {
        Err(e) => e,
        Ok(_) => panic!("undecodable bytes were accepted"),
    };
    assert_eq!(e.kind, AssetErrorKind::Decode);
    assert_eq!(e.path, "broken.png");
    assert_eq!(e.asset_type, "Image");
    let e2 = match game.load_gl_asset("broken.png", &vec![0, 1, 2]) {
        Err(e) => e,
        Ok(_) => panic!("undecodable bytes were accepted"),
    };
    assert_eq!(e2.asset_type, "Texture");
    let io = AssetError::io("gone.png", "Image");
    assert_eq!(io.kind, AssetErrorKind::Io);
}

#[test]
fn cache_partitions_by_asset_type() {
    let mut game = fresh_game();
    let img = game.load_asset("same.bmp", &tiny_bmp()).unwrap();
    let tex = game.load_gl_asset("same.bmp", &tiny_bmp()).unwrap();
    // The same path lives in both tables independently.
    assert_eq!(img.width, 2);
    assert_eq!(tex.image.width, 2);
    let img2 = game.load_asset("same.bmp", &tiny_bmp()).unwrap();
    let tex2 = game.load_gl_asset("same.bmp", &tiny_bmp()).unwrap();
    assert!(Arc::ptr_eq(&img, &img2));
    assert!(Arc::ptr_eq(&tex, &tex2));
    // A texture upload happened exactly once.
    let uploads = game
        .gl
        .commands
        .iter()
        .filter(|c| matches!(c, RenderCommand::CreateTexture { .. }))
        .count();
    assert_eq!(uploads, 1);
}

#[test]
fn update_pass_visits_children_before_self() {
    let mut game = fresh_game();
    let mut root = Node {
        own: Probe { tag: 9 },
        children: vec![
            Node { own: Probe { tag: 1 }, children: vec![] },
            Node { own: Probe { tag: 2 }, children: vec![] },
        ],
    };
    game.update(&mut root, Fx::from_raw(1048));
    assert_eq!(game.trace, vec![1, 2, 9]);
}

#[test]
fn update_pass_depth_first_in_declaration_order() {
    let mut game = fresh_game();
    let mut root = Node {
        own: Probe { tag: 50 },
        children: vec![
            Node {
                own: Probe { tag: 10 },
                children: vec![Node { own: Probe { tag: 11 }, children: vec![] }],
            },
            Node { own: Probe { tag: 20 }, children: vec![] },
        ],
    };
    game.update(&mut root, Fx::from_raw(1048));
    // Each subtree finishes children first, then its own update.
    assert_eq!(game.trace, vec![11, 10, 20, 50]);
}

#[test]
fn node_without_update_capability_has_no_update_effect() {
    let mut game = fresh_game();
    let sprite = Sprite::make(
        &mut game,
        Sprite::cfg_from_texture("tiny.bmp", tiny_bmp()),
    );
    let commands_before = game.gl.commands.clone();
    let mut root = Node { own: Some(sprite), children: vec![] };
    game.update(&mut root, Fx::from_raw(1048));
    assert_eq!(game.trace, Vec::<u64>::new());
    assert_eq!(game.gl.commands, commands_before);
}

#[test]
fn draw_pass_draws_self_before_children() {
    let mut game = fresh_game();
    let a = Sprite::make(&mut game, Sprite::cfg_from_texture("a.bmp", tiny_bmp()));
    let b = Sprite::make(&mut game, Sprite::cfg_from_texture("a.bmp", tiny_bmp()));
    let c = Sprite::make(&mut game, Sprite::cfg_from_texture("a.bmp", tiny_bmp()));
    let vb_a = a.bindings.vertex_buffers[0];
    let vb_b = b.bindings.vertex_buffers[0];
    let vb_c = c.bindings.vertex_buffers[0];
    let root = Node {
        own: Some(a),
        children: vec![
            Node { own: Some(b), children: vec![] },
            Node { own: Some(c), children: vec![] },
        ],
    };
    game.gl.take_commands();
    game.draw(&root);
    let cmds = game.gl.take_commands();
    // Frame bracket around: own sprite first, then the two children in
    // declaration order; two operations per sprite.
    assert_eq!(cmds.len(), 8);
    assert!(matches!(cmds[0], RenderCommand::BeginFrame { .. }));
    for (slot, vb) in [(1, vb_a), (3, vb_b), (5, vb_c)] {
        match &cmds[slot] {
            RenderCommand::UpdateVertexBuffer { buffer, .. } => assert_eq!(*buffer, vb),
            other => panic!("unexpected command {other:?}"),
        }
        match &cmds[slot + 1] {
            RenderCommand::DrawIndexed { bindings, num_indices } => {
                assert_eq!(*num_indices, 6);
                assert_eq!(bindings.vertex_buffers[0], vb);
            },
            other => panic!("unexpected command {other:?}"),
        }
    }
    assert!(matches!(cmds[7], RenderCommand::EndFrame));
}

#[test]
fn viewport_transform_is_cached_until_resize() {
    let mut game = fresh_game();
    let v1 = game.gl.viewport_transform();
    let v2 = game.gl.viewport_transform();
    assert_eq!(v1, v2);
    // 2 / 800 and -2 / 600 on the fixed-point grid.
    assert_eq!(v1.mat.col0.x.raw, 163);
    assert_eq!(v1.mat.col1.y.raw, -219);
    assert_eq!(v1.offset, pt2(Fx::from_int(-1), Fx::from_int(1)));
    game.resize_event(400, 600);
    let v3 = game.gl.viewport_transform();
    assert_ne!(v1, v3);
    assert_eq!(v3.mat.col0.x.raw, 2 * FX_SCALE / 400);
    assert_eq!(v3.mat.col1.y.raw, -219);
}

#[test]
fn one_sprite_end_to_end_draw() {
    let mut game = fresh_game();
    let mut sprite = Sprite::make(
        &mut game,
        Sprite::cfg_from_texture("tiny.bmp", tiny_bmp()),
    );
    sprite.set_transform(
        Transform::identity().with_offset(pt2(Fx::from_int(100), Fx::from_int(100))),
    );
    let own_transform = *sprite.transform();
    let vb = sprite.bindings.vertex_buffers[0];
    let bindings = sprite.bindings.clone();
    let mut root = Node {
        own: None::<Sprite>,
        children: vec![Node { own: Some(sprite), children: vec![] }],
    };

    game.update(&mut root, Fx::from_raw(1048));
    assert_eq!(game.trace, Vec::<u64>::new());

    game.gl.take_commands();
    game.draw(&root);
    let cmds = game.gl.take_commands();
    assert_eq!(cmds.len(), 4);
    assert!(matches!(cmds[0], RenderCommand::BeginFrame { .. }));
    assert!(matches!(cmds[3], RenderCommand::EndFrame));
    match &cmds[2] {
        RenderCommand::DrawIndexed { bindings: b, num_indices } => {
            assert_eq!(*num_indices, 6);
            assert_eq!(*b, bindings);
        },
        other => panic!("unexpected command {other:?}"),
    }
    let vp = game.gl.viewport_transform();
    match &cmds[1] {
        RenderCommand::UpdateVertexBuffer { buffer, vertices } => {
            assert_eq!(*buffer, vb);
            assert_eq!(vertices.len(), 4);
            // The texture is 2 by 1: local corners, through the sprite's
            // own transform and then the viewport transform.
            let corners = [
                pt2(Fx::from_int(0), Fx::from_int(0)),
                pt2(Fx::from_int(2), Fx::from_int(0)),
                pt2(Fx::from_int(2), Fx::from_int(1)),
                pt2(Fx::from_int(0), Fx::from_int(1)),
            ];
            for (v, corner) in vertices.iter().zip(corners) {
                assert_eq!(v.pos, corner.apply(&own_transform).apply(&vp));
            }
            // One absolute value, computed by hand:
            // x: 100 * (2/800) - 1 -> 100 * 163 - 65536 = -49236
            // y: 100 * (-2/600) + 1 -> 100 * (-219) + 65536 = 43636
            assert_eq!(vertices[0].pos.x.raw, -49236);
            assert_eq!(vertices[0].pos.y.raw, 43636);
        },
        other => panic!("unexpected command {other:?}"),
    }
}

#[test]
fn graphics_context_records_setup_and_allocates_fresh_handles() {
    let mut game = fresh_game();
    assert_eq!(
        game.gl.commands[0],
        RenderCommand::CreateDefaultShader { shader: ShaderId(0) }
    );
    assert_eq!(
        game.gl.commands[1],
        RenderCommand::CreateQuadIndexBuffer { buffer: BufferId(0) }
    );
    assert_eq!(game.gl.indices_square(), BufferId(0));
    let b1 = game.gl.create_vertex_buffer(4);
    let b2 = game.gl.create_index_buffer(6);
    assert_ne!(b1, b2);
    assert_eq!(b1, BufferId(1));
    assert_eq!(b2, BufferId(2));
    let s = game.gl.create_shader(
        String::from("v"),
        String::from("f"),
        String::from("m"),
    );
    assert_eq!(s, ShaderId(1));
}

#[test]
fn input_tracks_keys_and_buttons() {
    let mut game = fresh_game();
    assert!(!game.input.is_key_down(32));
    game.key_down_event(32, false);
    assert!(game.input.is_key_down(32));
    game.key_down_event(64, true); // a repeat is ignored
    assert!(!game.input.is_key_down(64));
    game.key_up_event(32);
    assert!(!game.input.is_key_down(32));
    game.input.set_mb_down(1);
    assert!(game.input.is_mouse_down(1));
    game.input.set_mb_up(1);
    assert!(!game.input.is_mouse_down(1));
}

#[test]
fn builder_collects_options() {
    let b = Game::new();
    assert_eq!(b.window_size, pt2i(800, 600));
    assert_eq!(b.clear_color, Color::black());
    assert!(b.window_title.is_none());
    let b = b
        .clear_color(Color::white())
        .window_size(pt2i(320, 200))
        .window_title(String::from("demo"));
    assert_eq!(b.clear_color, Color::white());
    assert_eq!(b.window_size, pt2i(320, 200));
    assert_eq!(b.window_title.as_deref(), Some("demo"));
    let game = b.build();
    assert_eq!(game.clear_color, Color::white());
    assert_eq!(game.gl.window_size, pt2i(320, 200));
}

#[test]
fn draw_pass_brackets_scene_with_clear_color() {
    let mut game = Game::new()
        .clear_color(Color::new(1, 2, 3, 4))
        .window_size(pt2i(100, 100))
        .build();
    game.gl.take_commands();
    let root: Node<Probe> = Node { own: Probe { tag: 1 }, children: vec![] };
    game.draw(&root);
    let cmds = game.gl.take_commands();
    assert_eq!(
        cmds,
        vec![
            RenderCommand::BeginFrame { color: Color::new(1, 2, 3, 4) },
            RenderCommand::EndFrame,
        ]
    );
}

#[test]
fn nodes_are_constructible_from_configurations() {
    let mut game = fresh_game();
    let mut probe = Probe::make(&mut game, 7);
    assert_eq!(probe.tag, 7);
    let mut node: Node<Probe> = Node::make_default(&mut game);
    game.update(&mut probe, Fx::from_raw(1048));
    assert_eq!(game.trace, vec![7]);
    game.update(&mut node, Fx::from_raw(1048));
    // The trace holds one pass at a time.
    assert_eq!(game.trace, vec![0]);
}

#[test]
fn sprite_exposes_its_transform() {
    let mut game = fresh_game();
    let mut sprite = Sprite::make(
        &mut game,
        Sprite::cfg_from_texture("tiny.bmp", tiny_bmp()),
    );
    assert_eq!(*sprite.transform(), Transform::identity());
    let moved = Transform::identity().with_offset(pt2(Fx::from_int(3), Fx::from_int(4)));
    sprite.set_transform(moved);
    assert_eq!(*sprite.transform(), moved);
    assert_eq!(sprite.bindings.index_buffer, game.gl.indices_square());
}

#[test]
fn try_make_succeeds_on_decodable_bytes() {
    let mut game = fresh_game();
    let sprite = match Sprite::try_make(
        &mut game,
        Sprite::cfg_from_texture("tiny.bmp", tiny_bmp()),
    ) {
        Ok(s) => s,
        Err(_) => panic!("decodable bytes were rejected"),
    };
    assert_eq!(*sprite.transform(), Transform::identity());
    assert_eq!(sprite.texture.image.width, 2);
    assert_eq!(sprite.bindings.index_buffer, game.gl.indices_square());
}

#[test]
fn try_make_rejects_undecodable_bytes_and_changes_nothing() {
    let mut game = fresh_game();
    let commands_before = game.gl.commands.clone();
    let e = match Sprite::try_make(
        &mut game,
        Sprite::cfg_from_texture("junk.bin", vec![5, 4, 3]),
    ) {
        Ok(_) => panic!("undecodable bytes were accepted"),
        Err(e) => e,
    };
    assert_eq!(e.kind, AssetErrorKind::Decode);
    assert_eq!(e.path, "junk.bin");
    assert_eq!(game.gl.commands, commands_before);
    // A later sprite over the same undecoded path still fails: nothing
    // was stored for it.
    assert!(Sprite::try_make(
        &mut game,
        Sprite::cfg_from_texture("junk.bin", vec![5, 4, 3]),
    )
    .is_err());
}
