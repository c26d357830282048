//! The material that the shader is fed, and the settings it is built from.

use crate::mesh::{Scalar, ONE_BITS};
use vstd::prelude::*;

verus! {

/// Where the engine finds the shader that draws the material.
pub const SHADER_PATH: &'static str = "embedded://bush.wgsl";

/// A colour in linear RGB space, as the shader's uniform block takes it.
#[derive(Clone, Copy, Debug, PartialEq, Eq, Structural)]
pub struct LinearRgba {
    pub red: Scalar,
    pub green: Scalar,
    pub blue: Scalar,
    pub alpha: Scalar,
}

impl LinearRgba {
    /// White, fully opaque.
    pub open spec fn spec_white() -> LinearRgba {
        LinearRgba {
            red: Scalar::spec_one(),
            green: Scalar::spec_one(),
            blue: Scalar::spec_one(),
            alpha: Scalar::spec_one(),
        }
    }
}

impl Default for LinearRgba {
    /// White, fully opaque.
    fn default() -> (colour: LinearRgba)
        ensures
            colour == LinearRgba::spec_white(),
    {
        let one = Scalar::one();
        LinearRgba { red: one, green: one, blue: one, alpha: one }
    }
}

/// A colour in gamma-encoded sRGB space, as settings hold it.
#[derive(Clone, Copy, Debug, PartialEq, Eq, Structural)]
pub struct Srgba {
    pub red: Scalar,
    pub green: Scalar,
    pub blue: Scalar,
    pub alpha: Scalar,
}

/// The leaf textures that a bush can be drawn with.
#[derive(Clone, Copy, Debug, PartialEq, Eq, Structural)]
pub enum Texture {
    Blaadje1,
    Blaadje2,
    Blaadje3,
    Blaadje4,
    Blaadje5,
    Blaadje6,
    Blaadje7,
    Blaadje8,
}

/// The name of a texture's image: the name of the selector in lower case.
pub open spec fn spec_texture_name(texture: Texture) -> Seq<char> {
    match texture {
        Texture::Blaadje1 => "blaadje1"@,
        Texture::Blaadje2 => "blaadje2"@,
        Texture::Blaadje3 => "blaadje3"@,
        Texture::Blaadje4 => "blaadje4"@,
        Texture::Blaadje5 => "blaadje5"@,
        Texture::Blaadje6 => "blaadje6"@,
        Texture::Blaadje7 => "blaadje7"@,
        Texture::Blaadje8 => "blaadje8"@,
    }
}

/// The asset path of a texture's image: `textures/<name>.png`.
pub open spec fn spec_texture_path(texture: Texture) -> Seq<char> {
    "textures/"@ + spec_texture_name(texture) + ".png"@
}

/// The name of a texture's image.
pub fn texture_name(texture: Texture) -> (name: &'static str)
    ensures
        name@ == spec_texture_name(texture),
{
    match texture {
        Texture::Blaadje1 => "blaadje1",
        Texture::Blaadje2 => "blaadje2",
        Texture::Blaadje3 => "blaadje3",
        Texture::Blaadje4 => "blaadje4",
        Texture::Blaadje5 => "blaadje5",
        Texture::Blaadje6 => "blaadje6",
        Texture::Blaadje7 => "blaadje7",
        Texture::Blaadje8 => "blaadje8",
    }
}

/// The asset path of a texture's image. Whether an image lies there is for
/// the loader to find out.
pub fn texture_path(texture: Texture) -> (path: String)
    ensures
        path@ == spec_texture_path(texture),
{
    let mut path = String::from_str("textures/");
    path.append(texture_name(texture));
    path.append(".png");
    path
}

/// Two different textures never share an asset path.
pub proof fn lemma_texture_paths_differ(first: Texture, second: Texture)
    requires
        first != second,
    ensures
        spec_texture_path(first) != spec_texture_path(second),
{
    reveal_strlit("textures/");
    reveal_strlit("blaadje1");
    reveal_strlit("blaadje2");
    reveal_strlit("blaadje3");
    reveal_strlit("blaadje4");
    reveal_strlit("blaadje5");
    reveal_strlit("blaadje6");
    reveal_strlit("blaadje7");
    reveal_strlit("blaadje8");
    assert(spec_texture_path(first)[16] == spec_texture_name(first)[7]);
    assert(spec_texture_path(second)[16] == spec_texture_name(second)[7]);
}

/// What the shader is fed besides the mesh: three colours and two scalars in
/// one uniform block, and the texture that the sampler reads.
#[derive(Debug, PartialEq, Eq)]
pub struct BushMaterial {
    pub light: LinearRgba,
    pub mid: LinearRgba,
    pub dark: LinearRgba,
    pub offset_size: Scalar,
    pub rotation_factor: Scalar,
    /// The asset path of the texture.
    pub texture: String,
}

/// The three colours of a material, in linear space.
#[derive(Clone, Copy, Debug, PartialEq, Eq, Structural)]
pub struct Palette {
    pub light: LinearRgba,
    pub mid: LinearRgba,
    pub dark: LinearRgba,
}

/// Everything a bush is configured by. A value of this type is never changed
/// in place: a change of any field makes a new value, and the bush is rebuilt
/// from it.
#[derive(Clone, Copy, Debug, PartialEq, Eq, Structural)]
pub struct Settings {
    /// How far the sphere is pushed out along each axis.
    pub displace: Scalar,
    /// The size of the sphere.
    pub size: Scalar,
    /// Divisions around the sphere.
    pub u_steps: usize,
    /// Divisions from pole to pole.
    pub v_steps: usize,
    pub dark: Srgba,
    pub mid: Srgba,
    pub light: Srgba,
    pub offset_size: Scalar,
    pub rotation_factor: Scalar,
    pub texture: Texture,
}

impl Default for BushMaterial {
    /// White in all three colours, both scalars zero, no texture.
    fn default() -> (material: BushMaterial)
        ensures
            material.light == LinearRgba::spec_white(),
            material.mid == LinearRgba::spec_white(),
            material.dark == LinearRgba::spec_white(),
            material.offset_size == Scalar::spec_zero(),
            material.rotation_factor == Scalar::spec_zero(),
            material.texture@ == Seq::<char>::empty(),
    {
        BushMaterial {
            light: LinearRgba::default(),
            mid: LinearRgba::default(),
            dark: LinearRgba::default(),
            offset_size: Scalar::zero(),
            rotation_factor: Scalar::zero(),
            texture: String::new(),
        }
    }
}

impl Settings {
    /// The settings of a bush that has not been configured: a sphere of size
    /// 4 pushed out by 1, cut into 10 by 10 quads, in three greens from dark
    /// (9, 60, 33) over (71, 115, 50) to light (133, 170, 67) out of 255,
    /// leaves offset by 5 and turned by 1, drawn with the first texture.
    pub open spec fn spec_default() -> Settings {
        Settings {
            displace: Scalar { bits: ONE_BITS },
            size: Scalar { bits: 0x4080_0000 },
            u_steps: 10,
            v_steps: 10,
            dark: Srgba {
                red: Scalar { bits: 0x3D10_9091 },
                green: Scalar { bits: 0x3E70_F0F1 },
                blue: Scalar { bits: 0x3E04_8485 },
                alpha: Scalar { bits: ONE_BITS },
            },
            mid: Srgba {
                red: Scalar { bits: 0x3E8E_8E8F },
                green: Scalar { bits: 0x3EE6_E6E7 },
                blue: Scalar { bits: 0x3E48_C8C9 },
                alpha: Scalar { bits: ONE_BITS },
            },
            light: Srgba {
                red: Scalar { bits: 0x3F05_8586 },
                green: Scalar { bits: 0x3F2A_AAAB },
                blue: Scalar { bits: 0x3E86_8687 },
                alpha: Scalar { bits: ONE_BITS },
            },
            offset_size: Scalar { bits: 0x40A0_0000 },
            rotation_factor: Scalar { bits: ONE_BITS },
            texture: Texture::Blaadje1,
        }
    }
}

impl Default for Settings {
    fn default() -> (settings: Settings)
        ensures
            settings == Settings::spec_default(),
    {
        Settings {
            displace: Scalar { bits: ONE_BITS },
            size: Scalar { bits: 0x4080_0000 },
            u_steps: 10,
            v_steps: 10,
            dark: Srgba {
                red: Scalar { bits: 0x3D10_9091 },
                green: Scalar { bits: 0x3E70_F0F1 },
                blue: Scalar { bits: 0x3E04_8485 },
                alpha: Scalar { bits: ONE_BITS },
            },
            mid: Srgba {
                red: Scalar { bits: 0x3E8E_8E8F },
                green: Scalar { bits: 0x3EE6_E6E7 },
                blue: Scalar { bits: 0x3E48_C8C9 },
                alpha: Scalar { bits: ONE_BITS },
            },
            light: Srgba {
                red: Scalar { bits: 0x3F05_8586 },
                green: Scalar { bits: 0x3F2A_AAAB },
                blue: Scalar { bits: 0x3E86_8687 },
                alpha: Scalar { bits: ONE_BITS },
            },
            offset_size: Scalar { bits: 0x40A0_0000 },
            rotation_factor: Scalar { bits: ONE_BITS },
            texture: Texture::Blaadje1,
        }
    }
}

impl Clone for BushMaterial {
    fn clone(&self) -> (copy: BushMaterial)
        ensures
            copy == *self,
    {
        BushMaterial {
            light: self.light,
            mid: self.mid,
            dark: self.dark,
            offset_size: self.offset_size,
            rotation_factor: self.rotation_factor,
            texture: self.texture.clone(),
        }
    }
}

impl BushMaterial {
    /// The material that `settings` ask for, given their colours in linear
    /// space.
    pub open spec fn spec_from_settings(self, settings: Settings, palette: Palette) -> bool {
        &&& self.light == palette.light
        &&& self.mid == palette.mid
        &&& self.dark == palette.dark
        &&& self.offset_size == settings.offset_size
        &&& self.rotation_factor == settings.rotation_factor
        &&& self.texture@ == spec_texture_path(settings.texture)
    }

    /// Builds the material that `settings` ask for. The colours come in
    /// `palette`, already taken to linear space.
    pub fn from_settings(settings: &Settings, palette: Palette) -> (material: BushMaterial)
        ensures
            material.spec_from_settings(*settings, palette),
    {
        BushMaterial {
            light: palette.light,
            mid: palette.mid,
            dark: palette.dark,
            offset_size: settings.offset_size,
            rotation_factor: settings.rotation_factor,
            texture: texture_path(settings.texture),
        }
    }
}

} // verus!
