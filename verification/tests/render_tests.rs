use brickbonker::render::{RenderState, SpriteComponent, Transparency, SPRITE_SHADER_PROGRAM};
use brickbonker::sprite::SpriteRegion;

type Color = (f32, f32, f32, f32);
type Render = RenderState<f32, (f32, f32), (f32, f32), Color>;

const WHITE: Color = (1.0, 1.0, 1.0, 1.0);
const CLEAR: Color = (0.0, 0.0, 0.0, 0.0);

fn region() -> SpriteRegion {
    SpriteRegion { x: 96, y: 0, w: 20, h: 13 }
}

#[test]
fn sprite_is_drawn_with_what_is_bound() {
    let mut render: Render = RenderState::new(CLEAR);
    render.bind_texture(3);
    render.bind_layer(2);
    render.bind_color(WHITE);
    render.bind_transparency(Transparency::Transparent);
    render.sprite(10.0, 20.0, (0.5, 0.5), (1.0, 2.0), region());
    let commands = render.commands();
    assert_eq!(commands.len(), 1);
    let c = &commands[0];
    assert_eq!(c.transparency, Transparency::Transparent);
    assert_eq!(c.shader_program_id, SPRITE_SHADER_PROGRAM);
    assert_eq!(c.shader_program_id, 1);
    assert_eq!(c.tex_id, 3);
    assert_eq!(c.layer, 2);
    assert_eq!((c.x, c.y), (10.0, 20.0));
    assert_eq!(c.origin, (0.5, 0.5));
    assert_eq!(c.scale, (1.0, 2.0));
    assert_eq!(c.color, WHITE);
    assert_eq!(c.region, region());
}

#[test]
fn unbound_sprite_uses_the_defaults() {
    let mut render: Render = RenderState::new(CLEAR);
    render.sprite(1.0, 2.0, (0.0, 0.0), (1.0, 1.0), region());
    let commands = render.commands();
    assert_eq!(commands[0].transparency, Transparency::Opaque);
    assert_eq!(commands[0].tex_id, 0);
    assert_eq!(commands[0].layer, 0);
    assert_eq!(commands[0].color, CLEAR);
}

#[test]
fn entity_sprite_binds_texture_colour_and_layer() {
    let mut render: Render = RenderState::new(CLEAR);
    render.bind_transparency(Transparency::Transparent);
    let sprite = SpriteComponent::new(region(), 2, WHITE, 1);
    render.draw(&sprite, 5.0, 6.0, (0.0, 0.0), (1.0, 1.0));
    render.sprite(7.0, 8.0, (0.0, 0.0), (1.0, 1.0), SpriteRegion { x: 0, y: 0, w: 64, h: 32 });
    let commands = render.commands();
    assert_eq!(commands.len(), 2);
    assert_eq!((commands[0].tex_id, commands[0].layer, commands[0].color), (2, 1, WHITE));
    assert_eq!(commands[0].transparency, Transparency::Transparent);
    assert_eq!(commands[0].region, region());
    assert_eq!((commands[1].tex_id, commands[1].layer, commands[1].color), (2, 1, WHITE));
    assert_eq!((commands[1].x, commands[1].y), (7.0, 8.0));
}

#[test]
fn clearing_forgets_commands_and_bindings() {
    let mut render: Render = RenderState::new(CLEAR);
    render.bind_texture(3);
    render.bind_color(WHITE);
    render.bind_transparency(Transparency::Transparent);
    render.sprite(10.0, 20.0, (0.5, 0.5), (1.0, 2.0), region());
    render.clear_commands();
    assert!(render.commands().is_empty());
    render.sprite(1.0, 2.0, (0.0, 0.0), (1.0, 1.0), region());
    let commands = render.commands();
    assert_eq!(commands.len(), 1);
    assert_eq!(commands[0].tex_id, 0);
    assert_eq!(commands[0].color, CLEAR);
    assert_eq!(commands[0].transparency, Transparency::Opaque);
}
