//! What the display is handed: the words of a colour table, the words of
//! the field as a texture, and the uniform flag that reverses the table.
//! The device work itself is the caller's.

use crate::lut_manager::{LutData, LutView, LUT_CHANNEL_LEN, LUT_FILE_LEN};
use vstd::prelude::*;

verus! {

/// The size in bytes of one texel of the field's texture: two
/// single-precision numbers.
pub const TEXEL_BYTES: u32 = 8;

/// The words of a colour table in the display's buffer: the 256 red values,
/// then the 256 green values, then the 256 blue values, each widened to a
/// word.
pub open spec fn lut_words(lut: LutView) -> Seq<u32> {
    Seq::new(
        LUT_FILE_LEN as nat,
        |i: int|
            if i < 256 {
                lut.red[i] as u32
            } else if i < 512 {
                lut.green[i - 256] as u32
            } else {
                lut.blue[i - 512] as u32
            },
    )
}

/// The words of the field as a texture: for each cell its `u` and then its
/// `v`.
pub open spec fn texture_words(uvs: Seq<(u32, u32)>) -> Seq<u32> {
    Seq::new(
        2 * uvs.len(),
        |i: int|
            if i % 2 == 0 {
                uvs[i / 2].0
            } else {
                uvs[i / 2].1
            },
    )
}

/// The layout of the field's texture in an upload.
#[derive(Clone, Copy, Debug, PartialEq, Eq, Structural)]
pub struct TextureLayout {
    pub bytes_per_row: u32,
    pub rows_per_image: u32,
    pub width: u32,
    pub height: u32,
}

/// What a `Renderer` stands for.
pub struct RendererState {
    /// The size of the surface that is drawn to.
    pub surface_width: u32,
    pub surface_height: u32,
    /// The size of the field's texture.
    pub simulation_texture_width: u32,
    pub simulation_texture_height: u32,
    /// The uniform flag: 1 where the colour table is read in reverse.
    pub is_lut_reversed: u32,
}

/// The display's host-side state.
pub struct Renderer {
    surface_width: u32,
    surface_height: u32,
    simulation_texture_width: u32,
    simulation_texture_height: u32,
    is_lut_reversed: u32,
}

impl View for Renderer {
    type V = RendererState;

    closed spec fn view(&self) -> RendererState {
        RendererState {
            surface_width: self.surface_width,
            surface_height: self.surface_height,
            simulation_texture_width: self.simulation_texture_width,
            simulation_texture_height: self.simulation_texture_height,
            is_lut_reversed: self.is_lut_reversed,
        }
    }
}

impl Renderer {
    /// The state of a display that draws a field of `width` by `height`
    /// cells to a surface of `surface_width` by `surface_height` pixels. The
    /// colour table is read forwards.
    pub fn new(surface_width: u32, surface_height: u32, width: u32, height: u32) -> (renderer: Self)
        ensures
            renderer@ == (RendererState {
                surface_width,
                surface_height,
                simulation_texture_width: width,
                simulation_texture_height: height,
                is_lut_reversed: 0,
            }),
    {
        Renderer {
            surface_width,
            surface_height,
            simulation_texture_width: width,
            simulation_texture_height: height,
            is_lut_reversed: 0,
        }
    }

    /// Takes a new size of the surface, unless one of its sides is zero.
    /// Returns whether the size was taken.
    pub fn resize(&mut self, new_width: u32, new_height: u32) -> (taken: bool)
        ensures
            taken == (new_width > 0 && new_height > 0),
            final(self)@ == if taken {
                RendererState { surface_width: new_width, surface_height: new_height, ..old(self)@ }
            } else {
                old(self)@
            },
    {
        if new_width > 0 && new_height > 0 {
            self.surface_width = new_width;
            self.surface_height = new_height;
            true
        } else {
            false
        }
    }

    /// The size of the surface.
    pub fn surface_size(&self) -> (size: (u32, u32))
        ensures
            size == (self@.surface_width, self@.surface_height),
    {
        (self.surface_width, self.surface_height)
    }

    /// The size of the field's texture.
    pub fn simulation_size(&self) -> (size: (u32, u32))
        ensures
            size == (self@.simulation_texture_width, self@.simulation_texture_height),
    {
        (self.simulation_texture_width, self.simulation_texture_height)
    }

    /// The field as the words of its texture, with the layout of the
    /// upload; `None` where a row of the texture is too long to be counted
    /// in bytes.
    pub fn update_texture(&self, uvs: &[(u32, u32)]) -> (upload: Option<(Vec<u32>, TextureLayout)>)
        requires
            2 * uvs@.len() <= usize::MAX,
        ensures
            upload is Some <==> self@.simulation_texture_width * TEXEL_BYTES <= u32::MAX,
            upload matches Some((data, layout)) ==> data@ == texture_words(uvs@) && layout == (
            TextureLayout {
                bytes_per_row: (self@.simulation_texture_width * TEXEL_BYTES) as u32,
                rows_per_image: self@.simulation_texture_height,
                width: self@.simulation_texture_width,
                height: self@.simulation_texture_height,
            }),
    {
        let bytes_per_row = match self.simulation_texture_width.checked_mul(TEXEL_BYTES) {
            Some(bytes) => bytes,
            None => {
                return None;
            },
        };
        let mut data: Vec<u32> = Vec::new();
        let mut i: usize = 0;
        while i < uvs.len()
            invariant
                i <= uvs@.len(),
                data@.len() == 2 * i,
                forall|k: int| 0 <= k < 2 * i ==> data@[k] == texture_words(uvs@)[k],
            decreases uvs@.len() - i,
        {
            let (u, v) = uvs[i];
            data.push(u);
            data.push(v);
            i = i + 1;
        }
        assert(data@ =~= texture_words(uvs@));
        Some(
            (
                data,
                TextureLayout {
                    bytes_per_row,
                    rows_per_image: self.simulation_texture_height,
                    width: self.simulation_texture_width,
                    height: self.simulation_texture_height,
                },
            ),
        )
    }

    /// The colour table as the words of the display's buffer.
    pub fn update_lut(&self, lut_data: &LutData) -> (words: Vec<u32>)
        requires
            lut_data@.is_complete(),
        ensures
            words@ == lut_words(lut_data@),
    {
        let mut lut_buffer_data: Vec<u32> = Vec::new();
        let mut i: usize = 0;
        while i < LUT_FILE_LEN
            invariant
                i <= LUT_FILE_LEN,
                lut_data@.is_complete(),
                lut_buffer_data@.len() == i,
                forall|k: int| 0 <= k < i ==> lut_buffer_data@[k] == lut_words(lut_data@)[k],
            decreases LUT_FILE_LEN - i,
        {
            let word = if i < LUT_CHANNEL_LEN {
                lut_data.red[i] as u32
            } else if i < 2 * LUT_CHANNEL_LEN {
                lut_data.green[i - LUT_CHANNEL_LEN] as u32
            } else {
                lut_data.blue[i - 2 * LUT_CHANNEL_LEN] as u32
            };
            lut_buffer_data.push(word);
            i = i + 1;
        }
        assert(lut_buffer_data@ =~= lut_words(lut_data@));
        lut_buffer_data
    }

    /// Sets whether the colour table is read in reverse, and returns the
    /// uniform flag to hand to the display.
    pub fn set_lut_reversed(&mut self, reversed: bool) -> (flag: u32)
        ensures
            flag == if reversed {
                1u32
            } else {
                0u32
            },
            final(self)@ == (RendererState { is_lut_reversed: flag, ..old(self)@ }),
    {
        self.is_lut_reversed = if reversed {
            1
        } else {
            0
        };
        self.is_lut_reversed
    }

    /// Whether the colour table is read in reverse.
    pub fn is_lut_reversed(&self) -> (reversed: bool)
        ensures
            reversed == (self@.is_lut_reversed == 1),
    {
        self.is_lut_reversed == 1
    }
}

} // verus!
