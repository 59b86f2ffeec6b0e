//! The draw commands of a tick, as the render collaborator drains them.

use vstd::prelude::*;
use crate::sprite::SpriteRegion;

verus! {

/// The number of a texture.
pub type TextureId = u16;

/// The shader program that draws sprites.
pub const SPRITE_SHADER_PROGRAM: u16 = 1;

/// Whether a draw blends with what lies beneath it.
#[derive(Copy, Clone, PartialEq, Eq, Structural, Debug)]
pub enum Transparency {
    Opaque,
    Transparent,
}

/// What an entity looks like. `K` is the type of a colour.
#[derive(Copy, Clone, Debug)]
pub struct SpriteComponent<K> {
    pub color: K,
    pub region: SpriteRegion,
    pub spritesheet_tex_id: TextureId,
    pub layer: u8,
}

impl<K: Copy> SpriteComponent<K> {
    /// A sprite cut from the given region of a sprite sheet.
    pub fn new(region: SpriteRegion, spritesheet_tex_id: TextureId, color: K, layer: u8) -> (sprite:
        Self)
        ensures
            sprite.color == color,
            sprite.region == region,
            sprite.spritesheet_tex_id == spritesheet_tex_id,
            sprite.layer == layer,
    {
        SpriteComponent { color, region, spritesheet_tex_id, layer }
    }
}

/// One sprite to draw. `C` is the type of a screen coordinate, `O` that of
/// an origin, `S` that of a scale and `K` that of a colour.
#[derive(Copy, Clone, Debug)]
pub struct RenderCommand<C, O, S, K> {
    pub transparency: Transparency,
    pub shader_program_id: u16,
    pub tex_id: TextureId,
    pub layer: u8,
    pub x: C,
    pub y: C,
    pub origin: O,
    pub scale: S,
    pub color: K,
    pub region: SpriteRegion,
}

/// What a sprite is drawn with until something else is bound.
#[derive(Copy, Clone, Debug)]
pub struct Bindings<K> {
    pub transparency: Transparency,
    pub texture_id: TextureId,
    pub layer: u8,
    pub color: K,
}

/// The draw commands gathered in a tick and the current bindings.
#[derive(Debug)]
pub struct RenderState<C, O, S, K> {
    commands: Vec<RenderCommand<C, O, S, K>>,
    bound: Bindings<K>,
    unbound_color: K,
}

impl<C: Copy, O: Copy, S: Copy, K: Copy> RenderState<C, O, S, K> {
    /// The commands gathered so far, in the order they were given.
    pub closed spec fn view(&self) -> Seq<RenderCommand<C, O, S, K>> {
        self.commands@
    }

    /// The current bindings.
    pub closed spec fn bound(&self) -> Bindings<K> {
        self.bound
    }

    /// The colour that is bound when nothing else was.
    pub closed spec fn unbound_color(&self) -> K {
        self.unbound_color
    }

    /// The bindings at the start of a tick.
    pub open spec fn unbound(color: K) -> Bindings<K> {
        Bindings { transparency: Transparency::Opaque, texture_id: 0, layer: 0, color }
    }

    /// A state without commands.
    pub fn new(unbound_color: K) -> (state: Self)
        ensures
            state@ == Seq::<RenderCommand<C, O, S, K>>::empty(),
            state.bound() == Self::unbound(unbound_color),
            state.unbound_color() == unbound_color,
    {
        RenderState {
            commands: Vec::new(),
            bound: Bindings {
                transparency: Transparency::Opaque,
                texture_id: 0,
                layer: 0,
                color: unbound_color,
            },
            unbound_color,
        }
    }

    /// Binds the transparency of the sprites that follow.
    pub fn bind_transparency(&mut self, val: Transparency)
        ensures
            final(self)@ == old(self)@,
            final(self).unbound_color() == old(self).unbound_color(),
            final(self).bound() == (Bindings { transparency: val, ..old(self).bound() }),
    {
        self.bound.transparency = val;
    }

    /// Binds the texture of the sprites that follow.
    pub fn bind_texture(&mut self, val: TextureId)
        ensures
            final(self)@ == old(self)@,
            final(self).unbound_color() == old(self).unbound_color(),
            final(self).bound() == (Bindings { texture_id: val, ..old(self).bound() }),
    {
        self.bound.texture_id = val;
    }

    /// Binds the layer of the sprites that follow.
    pub fn bind_layer(&mut self, val: u8)
        ensures
            final(self)@ == old(self)@,
            final(self).unbound_color() == old(self).unbound_color(),
            final(self).bound() == (Bindings { layer: val, ..old(self).bound() }),
    {
        self.bound.layer = val;
    }

    /// Binds the colour of the sprites that follow.
    pub fn bind_color(&mut self, val: K)
        ensures
            final(self)@ == old(self)@,
            final(self).unbound_color() == old(self).unbound_color(),
            final(self).bound() == (Bindings { color: val, ..old(self).bound() }),
    {
        self.bound.color = val;
    }

    /// The command that draws a region at a place with the given bindings.
    pub open spec fn command(
        bound: Bindings<K>,
        x: C,
        y: C,
        origin: O,
        scale: S,
        region: SpriteRegion,
    ) -> RenderCommand<C, O, S, K> {
        RenderCommand {
            transparency: bound.transparency,
            shader_program_id: SPRITE_SHADER_PROGRAM,
            tex_id: bound.texture_id,
            layer: bound.layer,
            x,
            y,
            origin,
            scale,
            color: bound.color,
            region,
        }
    }

    /// Adds the command that draws `region` at `(x, y)` with what is bound.
    pub fn sprite(&mut self, x: C, y: C, origin: O, scale: S, region: SpriteRegion)
        ensures
            final(self)@ == old(self)@.push(
                Self::command(old(self).bound(), x, y, origin, scale, region),
            ),
            final(self).bound() == old(self).bound(),
            final(self).unbound_color() == old(self).unbound_color(),
    {
        self.commands.push(
            RenderCommand {
                transparency: self.bound.transparency,
                shader_program_id: SPRITE_SHADER_PROGRAM,
                tex_id: self.bound.texture_id,
                layer: self.bound.layer,
                x,
                y,
                origin,
                scale,
                color: self.bound.color,
                region,
            },
        );
    }

    /// Draws the sprite of an entity at `(x, y)`: binds its texture, its
    /// colour and its layer and adds the command. The transparency stays
    /// as it was bound.
    pub fn draw(&mut self, sprite: &SpriteComponent<K>, x: C, y: C, origin: O, scale: S)
        ensures
            final(self).bound() == (Bindings {
                transparency: old(self).bound().transparency,
                texture_id: sprite.spritesheet_tex_id,
                layer: sprite.layer,
                color: sprite.color,
            }),
            final(self)@ == old(self)@.push(
                Self::command(final(self).bound(), x, y, origin, scale, sprite.region),
            ),
            final(self).unbound_color() == old(self).unbound_color(),
    {
        self.bind_texture(sprite.spritesheet_tex_id);
        self.bind_color(sprite.color);
        self.bind_layer(sprite.layer);
        self.sprite(x, y, origin, scale, sprite.region);
    }

    /// Forgets the commands and the bindings of the tick before.
    pub fn clear_commands(&mut self)
        ensures
            final(self)@ == Seq::<RenderCommand<C, O, S, K>>::empty(),
            final(self).bound() == Self::unbound(old(self).unbound_color()),
            final(self).unbound_color() == old(self).unbound_color(),
    {
        self.bound = Bindings {
            transparency: Transparency::Opaque,
            texture_id: 0,
            layer: 0,
            color: self.unbound_color,
        };
        self.commands.clear();
    }

    /// A copy of the commands gathered so far.
    pub fn commands(&self) -> (commands: Vec<RenderCommand<C, O, S, K>>)
        ensures
            commands@ == self@,
    {
        let mut commands: Vec<RenderCommand<C, O, S, K>> = Vec::new();
        let mut i: usize = 0;
        while i < self.commands.len()
            invariant
                i <= self.commands.len(),
                commands@ == self.commands@.take(i as int),
            decreases self.commands.len() - i,
        {
            commands.push(self.commands[i]);
            proof {
                assert(self.commands@.take(i + 1) == self.commands@.take(i as int).push(
                    self.commands@[i as int],
                ));
            }
            i = i + 1;
        }
        commands
    }
}

} // verus!
