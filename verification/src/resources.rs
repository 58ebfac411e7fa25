//! The GPU resource initialization sequence for the single textured quad,
//! planned as an exact, ordered list of driver commands over plain values.
//!
//! Call order against the driver is load-bearing: every create/bind/upload
//! both reads and mutates the ambient binding state. The plan returned here
//! pins that order completely, together with the byte contents of every
//! upload, so the caller that replays it against the driver adds no decision
//! of its own.

use vstd::prelude::*;

verus! {

use crate::geometry::le_bytes_of_words;
use crate::geometry::words_to_le_bytes;
use crate::shader::ProgramObject;

/// Per-vertex stride of the densely packed vertex list: four components of
/// four bytes each.
pub const VERTEX_STRIDE_BYTES: u32 = 16;

/// Byte offset of the position components within one vertex.
pub const POSITION_OFFSET_BYTES: u32 = 0;

/// Byte offset of the texture-coordinate components within one vertex.
pub const TEXCOORD_OFFSET_BYTES: u32 = 8;

/// The output slot the program's designated color output is bound to.
pub const COLOR_OUTPUT_SLOT: u32 = 0;

/// A buffer binding target of the driver.
#[derive(Clone, Copy, PartialEq, Eq, Structural, Debug)]
pub enum BufferTarget {
    /// The vertex-data target.
    Array,
    /// The index-data target.
    ElementArray,
}

/// A named per-vertex input of the active program.
#[derive(Clone, Copy, PartialEq, Eq, Structural, Debug)]
pub enum AttrName {
    /// The two position components, at [`POSITION_OFFSET_BYTES`].
    Position,
    /// The two texture-coordinate components, at [`TEXCOORD_OFFSET_BYTES`].
    Texcoord,
}

/// One step of the initialization sequence. Steps that upload data name the
/// payload fields of the [`InitPlan`] that carries them; the others are
/// parameterless state changes.
#[derive(Clone, Copy, PartialEq, Eq, Structural, Debug)]
pub enum GlCmd {
    /// Generate the vertex-array-state container and bind it.
    CreateVertexArray,
    /// Generate a buffer object and bind it on the given target.
    CreateBuffer(BufferTarget),
    /// Upload the plan's vertex bytes to the bound vertex-data buffer.
    UploadVertexBuffer,
    /// Generate the 2-D texture object and bind it.
    CreateTexture,
    /// Upload the plan's pixel bytes as a 3-channel, 8-bits-per-channel
    /// image of the plan's width and height.
    UploadTexture,
    /// Set both wrap axes of the bound texture to clamp-to-border.
    SetTextureWrapClampToBorder,
    /// Generate mipmaps for the bound texture.
    GenerateMipmaps,
    /// Set minification and magnification filtering of the bound texture to
    /// linear filtering over the generated mipmaps.
    SetTextureFilterLinearMipmap,
    /// Activate the plan's linked program.
    UseProgram,
    /// Bind the program's designated color output to [`COLOR_OUTPUT_SLOT`].
    BindOutputColor,
    /// Resolve the named per-vertex input against the active program, enable
    /// it, and describe its layout: `components` single-precision components
    /// per vertex at `offset_bytes` within each [`VERTEX_STRIDE_BYTES`]-wide
    /// vertex.
    EnableAttribute { name: AttrName, components: u32, offset_bytes: u32 },
    /// Upload the plan's index bytes to the bound index-data buffer.
    UploadIndexBuffer,
}

/// The fixed order of the initialization sequence.
pub open spec fn init_commands_spec() -> Seq<GlCmd> {
    seq![
        GlCmd::CreateVertexArray,
        GlCmd::CreateBuffer(BufferTarget::Array),
        GlCmd::UploadVertexBuffer,
        GlCmd::CreateTexture,
        GlCmd::UploadTexture,
        GlCmd::SetTextureWrapClampToBorder,
        GlCmd::GenerateMipmaps,
        GlCmd::SetTextureFilterLinearMipmap,
        GlCmd::UseProgram,
        GlCmd::BindOutputColor,
        GlCmd::EnableAttribute {
            name: AttrName::Position,
            components: 2,
            offset_bytes: POSITION_OFFSET_BYTES,
        },
        GlCmd::EnableAttribute {
            name: AttrName::Texcoord,
            components: 2,
            offset_bytes: TEXCOORD_OFFSET_BYTES,
        },
        GlCmd::CreateBuffer(BufferTarget::ElementArray),
        GlCmd::UploadIndexBuffer,
    ]
}

/// A decoded source image as the external decoder reports it: width, height
/// and an interleaved row-major buffer of three 8-bit color channels per
/// pixel.
pub struct DecodedImage {
    width: u32,
    height: u32,
    pixels: Vec<u8>,
}

impl DecodedImage {
    /// Reported width in pixels.
    pub closed spec fn spec_width(&self) -> u32 {
        self.width
    }

    /// Reported height in pixels.
    pub closed spec fn spec_height(&self) -> u32 {
        self.height
    }

    /// The interleaved pixel bytes.
    pub closed spec fn spec_pixels(&self) -> Seq<u8> {
        self.pixels@
    }

    /// The pixel buffer holds exactly three bytes per pixel of the reported
    /// dimensions.
    pub open spec fn wf(&self) -> bool {
        self.spec_pixels().len() == 3 * self.spec_width() * self.spec_height()
    }

    /// Accept a decoder's report exactly when the buffer length matches the
    /// reported dimensions at three bytes per pixel.
    pub fn new(width: u32, height: u32, pixels: Vec<u8>) -> (r: Option<DecodedImage>)
        ensures
            r is Some <==> pixels@.len() == 3 * width * height,
            r matches Some(img) ==> img.wf() && img.spec_width() == width && img.spec_height()
                == height && img.spec_pixels() == pixels@,
    {
        let w: u128 = width as u128;
        let h: u128 = height as u128;
        proof {
            assert(3u128 * w * h <= 3u128 * 0xFFFF_FFFFu128 * 0xFFFF_FFFFu128)
                by (nonlinear_arith)
                requires
                    w <= 0xFFFF_FFFFu128,
                    h <= 0xFFFF_FFFFu128,
            ;
        }
        let expected: u128 = 3u128 * w * h;
        if (pixels.len() as u128) == expected {
            Some(DecodedImage { width, height, pixels })
        } else {
            None
        }
    }

    pub fn width(&self) -> (r: u32)
        ensures
            r == self.spec_width(),
    {
        self.width
    }

    pub fn height(&self) -> (r: u32)
        ensures
            r == self.spec_height(),
    {
        self.height
    }
}

/// Everything the driver-facing caller needs to replay the initialization
/// sequence: the command order and the payload each upload step names.
pub struct InitPlan {
    /// The linked program activated by [`GlCmd::UseProgram`].
    pub program_handle: u32,
    /// The steps, in the exact order they must reach the driver.
    pub commands: Vec<GlCmd>,
    /// Payload of [`GlCmd::UploadVertexBuffer`].
    pub vertex_bytes: Vec<u8>,
    /// Payload of [`GlCmd::UploadIndexBuffer`].
    pub index_bytes: Vec<u8>,
    /// Width handed to [`GlCmd::UploadTexture`].
    pub texture_width: u32,
    /// Height handed to [`GlCmd::UploadTexture`].
    pub texture_height: u32,
    /// Pixel payload of [`GlCmd::UploadTexture`].
    pub texture_pixels: Vec<u8>,
}

/// What it means for a plan to initialize the resources for the given
/// program, vertex and index words, and decoded image: the fixed command
/// order, the verbatim little-endian byte images of the words, and the
/// image's dimensions and bytes unchanged.
pub open spec fn is_init_plan_for(
    p: InitPlan,
    program: u32,
    verts: Seq<u32>,
    idx: Seq<u32>,
    img_width: u32,
    img_height: u32,
    img_pixels: Seq<u8>,
) -> bool {
    &&& p.program_handle == program
    &&& p.commands@ == init_commands_spec()
    &&& p.vertex_bytes@ == le_bytes_of_words(verts)
    &&& p.index_bytes@ == le_bytes_of_words(idx)
    &&& p.texture_width == img_width
    &&& p.texture_height == img_height
    &&& p.texture_pixels@ == img_pixels
}

/// Plan the whole resource initialization for the given linked program,
/// vertex and index words, and decoded image. Only a linked program can be
/// handed in, so the attribute-location steps of the plan always run
/// against a successfully linked object.
pub fn init_resources(
    program: &ProgramObject,
    vertex_words: &Vec<u32>,
    index_words: &Vec<u32>,
    image: DecodedImage,
) -> (r: InitPlan)
    ensures
        is_init_plan_for(
            r,
            program.spec_handle(),
            vertex_words@,
            index_words@,
            image.spec_width(),
            image.spec_height(),
            image.spec_pixels(),
        ),
{
    let commands: Vec<GlCmd> = vec![
        GlCmd::CreateVertexArray,
        GlCmd::CreateBuffer(BufferTarget::Array),
        GlCmd::UploadVertexBuffer,
        GlCmd::CreateTexture,
        GlCmd::UploadTexture,
        GlCmd::SetTextureWrapClampToBorder,
        GlCmd::GenerateMipmaps,
        GlCmd::SetTextureFilterLinearMipmap,
        GlCmd::UseProgram,
        GlCmd::BindOutputColor,
        GlCmd::EnableAttribute {
            name: AttrName::Position,
            components: 2,
            offset_bytes: POSITION_OFFSET_BYTES,
        },
        GlCmd::EnableAttribute {
            name: AttrName::Texcoord,
            components: 2,
            offset_bytes: TEXCOORD_OFFSET_BYTES,
        },
        GlCmd::CreateBuffer(BufferTarget::ElementArray),
        GlCmd::UploadIndexBuffer,
    ];
    assert(commands@ =~= init_commands_spec());
    let vertex_bytes = words_to_le_bytes(vertex_words);
    let index_bytes = words_to_le_bytes(index_words);
    let texture_width = image.width();
    let texture_height = image.height();
    let DecodedImage { width: _, height: _, pixels: texture_pixels } = image;
    InitPlan {
        program_handle: program.handle(),
        commands,
        vertex_bytes,
        index_bytes,
        texture_width,
        texture_height,
        texture_pixels,
    }
}

/// Resource initialization is idempotent at startup: two plans made for
/// identical inputs carry identical command order, identical vertex and
/// index byte contents, and identical reported texture dimensions and pixel
/// bytes.
pub proof fn lemma_init_idempotent(
    a: InitPlan,
    b: InitPlan,
    program: u32,
    verts: Seq<u32>,
    idx: Seq<u32>,
    img_width: u32,
    img_height: u32,
    img_pixels: Seq<u8>,
)
    requires
        is_init_plan_for(a, program, verts, idx, img_width, img_height, img_pixels),
        is_init_plan_for(b, program, verts, idx, img_width, img_height, img_pixels),
    ensures
        a.commands@ == b.commands@,
        a.vertex_bytes@ == b.vertex_bytes@,
        a.index_bytes@ == b.index_bytes@,
        a.texture_width == b.texture_width,
        a.texture_height == b.texture_height,
        a.texture_pixels@ == b.texture_pixels@,
        a.program_handle == b.program_handle,
{
}

} // verus!
