use vstd::prelude::*;

use crate::base::{current_in, scoped_calls, scoped_in, BindGuard, BindingPoint, Context, Resource};
use crate::calls::GlCall;
use crate::utils::{copy_bytes, Error};

verus! {

/// Dimensionality of a texture.
#[derive(Debug, Clone, Copy, PartialEq, Eq, Structural)]
pub enum Dimension {
    D1,
    D1Array,
    D2,
    D2Array,
    D3,
}

impl Dimension {
    pub open spec fn spec_num_dimension(self) -> u8 {
        match self {
            Dimension::D1 => 1,
            Dimension::D2 => 2,
            Dimension::D3 => 3,
            Dimension::D1Array => 11,
            Dimension::D2Array => 12,
        }
    }

    /// Number of dimensions; array kinds answer `10 +` the dimensions of one layer.
    pub fn num_dimension(&self) -> (r: u8)
        ensures
            r == self.spec_num_dimension(),
    {
        match self {
            Dimension::D1 => 1,
            Dimension::D2 => 2,
            Dimension::D3 => 3,
            Dimension::D1Array => 11,
            Dimension::D2Array => 12,
        }
    }
}

/// Driver binding point of a texture: its dimensionality and whether it is multisampled.
#[derive(Debug, Clone, Copy, PartialEq, Eq, Structural)]
pub enum TexTarget {
    Tex1D,
    Tex1DArray,
    Tex2D,
    Tex2DMultisample,
    Tex2DArray,
    Tex2DMultisampleArray,
    Tex3D,
}

impl TexTarget {
    /// Position of the target among all texture targets.
    pub open spec fn spec_index(self) -> nat {
        match self {
            TexTarget::Tex1D => 0,
            TexTarget::Tex1DArray => 1,
            TexTarget::Tex2D => 2,
            TexTarget::Tex2DMultisample => 3,
            TexTarget::Tex2DArray => 4,
            TexTarget::Tex2DMultisampleArray => 5,
            TexTarget::Tex3D => 6,
        }
    }

    pub fn index(&self) -> (r: usize)
        ensures
            r == self.spec_index(),
    {
        match self {
            TexTarget::Tex1D => 0,
            TexTarget::Tex1DArray => 1,
            TexTarget::Tex2D => 2,
            TexTarget::Tex2DMultisample => 3,
            TexTarget::Tex2DArray => 4,
            TexTarget::Tex2DMultisampleArray => 5,
            TexTarget::Tex3D => 6,
        }
    }
}

/// Kind and sample count of a texture. `samples` is at least 1.
#[derive(Debug, Clone, Copy, PartialEq, Eq, Structural)]
pub struct TextureTarget {
    pub dim: Dimension,
    pub samples: u32,
}

/// The binding point of a texture of dimensionality `dim`, multisampled or not.
pub open spec fn spec_gl_target(dim: Dimension, multisample: bool) -> TexTarget {
    match dim {
        Dimension::D1 => TexTarget::Tex1D,
        Dimension::D1Array => TexTarget::Tex1DArray,
        Dimension::D2 => if multisample {
            TexTarget::Tex2DMultisample
        } else {
            TexTarget::Tex2D
        },
        Dimension::D2Array => if multisample {
            TexTarget::Tex2DMultisampleArray
        } else {
            TexTarget::Tex2DArray
        },
        Dimension::D3 => TexTarget::Tex3D,
    }
}

impl TextureTarget {
    pub open spec fn spec_is_multisample(self) -> bool {
        self.samples > 1
    }

    pub fn is_multisample(&self) -> (r: bool)
        ensures
            r == self.spec_is_multisample(),
    {
        self.samples > 1
    }

    /// The binding point; only 2D kinds have multisampled targets.
    pub fn gl_target(&self) -> (r: TexTarget)
        ensures
            r == spec_gl_target(self.dim, self.spec_is_multisample()),
    {
        let ms = self.is_multisample();
        match self.dim {
            Dimension::D1 => TexTarget::Tex1D,
            Dimension::D1Array => TexTarget::Tex1DArray,
            Dimension::D2 => if ms {
                TexTarget::Tex2DMultisample
            } else {
                TexTarget::Tex2D
            },
            Dimension::D2Array => if ms {
                TexTarget::Tex2DMultisampleArray
            } else {
                TexTarget::Tex2DArray
            },
            Dimension::D3 => TexTarget::Tex3D,
        }
    }
}

/// Numeric type of one channel of a pixel.
#[derive(Debug, Clone, Copy, PartialEq, Eq, Structural)]
pub enum Subpixel {
    U8,
    I8,
    U16,
    I16,
    U32,
    I32,
    F32,
}

impl Subpixel {
    pub open spec fn spec_size(self) -> nat {
        match self {
            Subpixel::U8 | Subpixel::I8 => 1,
            Subpixel::U16 | Subpixel::I16 => 2,
            _ => 4,
        }
    }

    /// Size in bytes.
    pub fn size(&self) -> (r: usize)
        ensures
            r == self.spec_size(),
    {
        match self {
            Subpixel::U8 | Subpixel::I8 => 1,
            Subpixel::U16 | Subpixel::I16 => 2,
            _ => 4,
        }
    }
}

/// Channels of a color pixel.
#[derive(Debug, Clone, Copy, PartialEq, Eq, Structural)]
pub enum Channels {
    R,
    Rg,
    Rgb,
    Rgba,
}

impl Channels {
    pub open spec fn spec_count(self) -> nat {
        match self {
            Channels::R => 1,
            Channels::Rg => 2,
            Channels::Rgb => 3,
            Channels::Rgba => 4,
        }
    }

    pub fn count(&self) -> (r: usize)
        ensures
            r == self.spec_count(),
    {
        match self {
            Channels::R => 1,
            Channels::Rg => 2,
            Channels::Rgb => 3,
            Channels::Rgba => 4,
        }
    }
}

/// Pixel format of a texture, fixed when the texture is made.
#[derive(Debug, Clone, Copy, PartialEq, Eq, Structural)]
pub enum TextureFormat {
    /// Color channels of one numeric type; `normalized` integers read as `[0, 1]` in shaders.
    Color { channels: Channels, subpixel: Subpixel, normalized: bool },
    /// 32-bit float depth.
    Depth,
    /// 32-bit float depth with 8-bit stencil.
    DepthStencil,
}

impl TextureFormat {
    pub open spec fn spec_channel_count(self) -> nat {
        match self {
            TextureFormat::Color { channels, .. } => channels.spec_count(),
            _ => 1,
        }
    }

    pub open spec fn spec_pixel_size(self) -> nat {
        match self {
            TextureFormat::Color { channels, subpixel, .. } => channels.spec_count() * subpixel.spec_size(),
            _ => 4,
        }
    }

    pub open spec fn spec_is_depth(self) -> bool {
        !(self is Color)
    }

    /// Whether the format holds depth, with or without stencil.
    pub fn is_depth(&self) -> (r: bool)
        ensures
            r == self.spec_is_depth(),
    {
        match self {
            TextureFormat::Color { .. } => false,
            _ => true,
        }
    }

    /// Number of channels of one pixel.
    pub fn channel_count(&self) -> (r: usize)
        ensures
            r == self.spec_channel_count(),
    {
        match self {
            TextureFormat::Color { channels, .. } => channels.count(),
            _ => 1,
        }
    }

    /// Bytes of one pixel.
    pub fn pixel_size(&self) -> (r: usize)
        ensures
            r == self.spec_pixel_size(),
            1 <= r <= 16,
    {
        match self {
            TextureFormat::Color { channels, subpixel, .. } => channels.count() * subpixel.size(),
            _ => 4,
        }
    }
}

/// Wrap mode of texture coordinates outside `[0, 1]`.
#[derive(Debug, Clone, Copy, PartialEq, Eq, Structural)]
pub enum TextureWrap {
    Repeat,
    MirroredRepeat,
    ClampEdge,
    ClampBorder,
}

/// Sampling between texels or between mipmap levels.
#[derive(Debug, Clone, Copy, PartialEq, Eq, Structural)]
pub enum SampleMode {
    Nearest,
    Linear,
}

/// Minification filter of a texture.
#[derive(Debug, Clone, Copy, PartialEq, Eq, Structural)]
pub enum MinFilter {
    Nearest,
    Linear,
    NearestMipmapNearest,
    LinearMipmapLinear,
    NearestMipmapLinear,
    LinearMipmapNearest,
}

/// The minification filter that combines mipmap sampling `mipmap` with texel sampling `texture`.
pub open spec fn spec_min_mipmap_filter(mipmap: SampleMode, texture: SampleMode) -> MinFilter {
    match (mipmap, texture) {
        (SampleMode::Linear, SampleMode::Linear) => MinFilter::LinearMipmapLinear,
        (SampleMode::Nearest, SampleMode::Nearest) => MinFilter::NearestMipmapNearest,
        (SampleMode::Nearest, SampleMode::Linear) => MinFilter::NearestMipmapLinear,
        (SampleMode::Linear, SampleMode::Nearest) => MinFilter::LinearMipmapNearest,
    }
}

/// Combines mipmap sampling with texel sampling; the four combinations give four filters.
pub fn min_mipmap_filter(mipmap: SampleMode, texture: SampleMode) -> (r: MinFilter)
    ensures
        r == spec_min_mipmap_filter(mipmap, texture),
{
    match (mipmap, texture) {
        (SampleMode::Linear, SampleMode::Linear) => MinFilter::LinearMipmapLinear,
        (SampleMode::Nearest, SampleMode::Nearest) => MinFilter::NearestMipmapNearest,
        (SampleMode::Nearest, SampleMode::Linear) => MinFilter::NearestMipmapLinear,
        (SampleMode::Linear, SampleMode::Nearest) => MinFilter::LinearMipmapNearest,
    }
}

/// The four mipmap filters are distinct.
pub proof fn lemma_min_mipmap_filters_distinct(a: SampleMode, b: SampleMode, c: SampleMode, d: SampleMode)
    ensures
        spec_min_mipmap_filter(a, b) == spec_min_mipmap_filter(c, d) ==> a == c && b == d,
{
}

/// A texture parameter.
#[derive(Debug, Clone, Copy, PartialEq, Eq, Structural)]
pub enum TexParam {
    WrapS(TextureWrap),
    WrapT(TextureWrap),
    WrapR(TextureWrap),
    MinFilter(MinFilter),
    MagFilter(SampleMode),
}

/// Texture unit that a sampler uniform reads from.
#[derive(Debug, Clone, Copy, PartialEq, Eq, Structural)]
pub struct TextureUnit(pub u32);

/// `floor(log2(n))`, with `0` for `n <= 1`.
pub open spec fn log2_floor(n: nat) -> nat
    decreases n,
{
    if n <= 1 {
        0
    } else {
        1 + log2_floor(n / 2)
    }
}

/// `floor(log2(n))` is below `n`.
pub proof fn lemma_log2_floor_below(n: nat)
    requires
        n >= 1,
    ensures
        log2_floor(n) < n,
    decreases n,
{
    if n > 1 {
        lemma_log2_floor_below(n / 2);
    }
}

/// `n` halved `k` times, rounding down.
pub open spec fn halved(n: nat, k: nat) -> nat
    decreases k,
{
    if k == 0 {
        n
    } else {
        halved(n, (k - 1) as nat) / 2
    }
}

/// Extent of mipmap `level` of an axis `n` texels long: halved per level, never below 1.
pub open spec fn level_extent(n: nat, level: nat) -> nat {
    if halved(n, level) == 0 {
        1
    } else {
        halved(n, level)
    }
}

fn halve_times(n: u32, k: usize) -> (r: u32)
    ensures
        r == halved(n as nat, k as nat),
{
    let mut v: u32 = n;
    let mut i: usize = 0;
    while i < k
        invariant
            i <= k,
            v == halved(n as nat, i as nat),
        decreases k - i,
    {
        v = v / 2;
        i = i + 1;
    }
    v
}

pub open spec fn max3(a: nat, b: nat, c: nat) -> nat {
    let m = if a >= b {
        a
    } else {
        b
    };
    if m >= c {
        m
    } else {
        c
    }
}

/// Identifier of a texture object, with its target. Never `0`.
#[derive(Debug, Clone, Copy, PartialEq, Eq)]
pub struct TextureId {
    id: u32,
    target: TextureTarget,
}

impl View for TextureId {
    type V = u32;

    closed spec fn view(&self) -> u32 {
        self.id
    }
}

impl TextureId {
    #[verifier::type_invariant]
    spec fn inv(self) -> bool {
        self.id != 0
    }

    pub closed spec fn spec_target(self) -> TextureTarget {
        self.target
    }

    pub fn target(&self) -> (r: TextureTarget)
        ensures
            r == self.spec_target(),
    {
        self.target
    }

    /// The identifier for a driver handle; `None` for the reserved handle `0`.
    pub fn new(id: u32, target: TextureTarget) -> (r: Option<TextureId>)
        ensures
            r is Some <==> id != 0,
            r matches Some(t) ==> t@ == id && t.spec_target() == target,
    {
        if id == 0 {
            None
        } else {
            Some(TextureId { id, target })
        }
    }

    /// The raw driver handle.
    pub fn get(&self) -> (r: u32)
        ensures
            r == self@,
            r != 0,
    {
        proof {
            use_type_invariant(self);
        }
        self.id
    }
}

/// The `w` by `h` rectangle at `(x, y)` lies within level 0 of `tex`.
pub open spec fn sub_rect_fits(tex: Texture, x: i32, y: i32, w: i32, h: i32) -> bool {
    &&& x >= 0 && y >= 0 && w >= 0 && h >= 0
    &&& x + w <= tex.spec_width()
    &&& y + h <= tex.spec_height()
}

/// A texture object: an image of fixed extents and format, and whether its mipmaps were made.
#[derive(Debug)]
pub struct Texture {
    id: TextureId,
    width: u32,
    height: u32,
    depth: u32,
    format: TextureFormat,
    has_mipmaps: bool,
}

/// `upload` allocates the store of `tex` at level 0 and, for a single-sample texture, fills it
/// with `data`.
pub open spec fn is_image_upload(upload: GlCall, tex: Texture, data: Option<Seq<u8>>) -> bool {
    if tex.spec_target().spec_is_multisample() {
        upload == GlCall::TexImage2DMultisample {
            target: tex.spec_bind_target(),
            samples: tex.spec_target().samples,
            format: tex.spec_format(),
            width: tex.spec_width(),
            height: tex.spec_height(),
        }
    } else {
        upload matches GlCall::TexImage2D { target: t, format: f, width: w, height: h, data: d }
            && t == tex.spec_bind_target() && f == tex.spec_format() && w == tex.spec_width() && h
            == tex.spec_height() && match (d, data) {
            (Some(b), Some(expected)) => b@ == expected,
            (None, None) => true,
            _ => false,
        }
    }
}

/// `upload` replaces the rectangle at `(x, y)` of size `w` by `h` of mipmap `level` of `tex`
/// with `data`.
pub open spec fn is_sub_upload(
    upload: GlCall,
    tex: Texture,
    level: usize,
    x: i32,
    y: i32,
    w: i32,
    h: i32,
    data: Seq<u8>,
) -> bool {
    upload matches GlCall::TexSubImage2D {
        target: t,
        level: l,
        x_offset: xo,
        y_offset: yo,
        sub_width: sw,
        sub_height: sh,
        format: f,
        bytes: b,
    } && t == tex.spec_bind_target() && l == level && xo == x && yo == y && sw == w && sh == h && f
        == tex.spec_format() && b@ == data
}

impl Resource for Texture {
    closed spec fn spec_id(&self) -> u32 {
        self.id@
    }

    closed spec fn spec_point(&self) -> BindingPoint {
        BindingPoint::Texture(self.spec_bind_target())
    }

    fn id(&self) -> (r: u32) {
        self.id.get()
    }

    fn binding_point(&self) -> (r: BindingPoint) {
        BindingPoint::Texture(self.id.target().gl_target())
    }
}

impl Texture {
    #[verifier::type_invariant]
    spec fn inv(self) -> bool {
        &&& self.width > 0
        &&& self.height > 0
        &&& self.depth > 0
        &&& self.id.spec_target().samples > 0
    }

    pub closed spec fn spec_width(self) -> u32 {
        self.width
    }

    pub closed spec fn spec_height(self) -> u32 {
        self.height
    }

    pub closed spec fn spec_depth(self) -> u32 {
        self.depth
    }

    pub closed spec fn spec_format(self) -> TextureFormat {
        self.format
    }

    pub closed spec fn spec_has_mipmaps(self) -> bool {
        self.has_mipmaps
    }

    pub closed spec fn spec_target(self) -> TextureTarget {
        self.id.spec_target()
    }

    /// The binding point of the texture.
    pub open spec fn spec_bind_target(self) -> TexTarget {
        spec_gl_target(self.spec_target().dim, self.spec_target().spec_is_multisample())
    }

    /// Number of mipmap levels: 1 until mipmaps are made, then
    /// `1 + floor(log2(max(width, height, depth)))`.
    pub open spec fn spec_num_mipmaps(self) -> nat {
        if self.spec_has_mipmaps() {
            1 + log2_floor(max3(self.spec_width() as nat, self.spec_height() as nat, self.spec_depth() as nat))
        } else {
            1
        }
    }

    /// Bytes of image data that fill the whole texture.
    pub open spec fn spec_data_len(self) -> nat {
        self.spec_width() as nat * self.spec_height() as nat * self.spec_depth() as nat
            * self.spec_format().spec_pixel_size()
    }

    /// Everything but the mipmap flag stays as it was.
    pub open spec fn same_image(self, other: Texture) -> bool {
        &&& self.spec_id() == other.spec_id()
        &&& self.spec_target() == other.spec_target()
        &&& self.spec_width() == other.spec_width()
        &&& self.spec_height() == other.spec_height()
        &&& self.spec_depth() == other.spec_depth()
        &&& self.spec_format() == other.spec_format()
    }

    /// A texture of the given extents, sample count and format, on the object `handle` that
    /// the driver created. Extents and the sample count must not be zero.
    pub fn new_multisampled(
        handle: u32,
        width: u32,
        height: u32,
        depth: u32,
        dim: Dimension,
        samples: u32,
        format: TextureFormat,
    ) -> (r: Result<Texture, Error>)
        ensures
            r is Ok <==> handle != 0 && width > 0 && height > 0 && depth > 0 && samples > 0,
            handle == 0 ==> r matches Err(Error::NullHandle),
            handle != 0 && !(width > 0 && height > 0 && depth > 0 && samples > 0) ==> r matches Err(
                Error::ZeroExtent,
            ),
            r matches Ok(t) ==> t.spec_id() == handle && t.spec_width() == width && t.spec_height()
                == height && t.spec_depth() == depth && t.spec_target() == (TextureTarget {
                dim,
                samples,
            }) && t.spec_format() == format && !t.spec_has_mipmaps(),
    {
        let id = match TextureId::new(handle, TextureTarget { dim, samples }) {
            Some(id) => id,
            None => {
                return Err(Error::NullHandle);
            },
        };
        if width == 0 || height == 0 || depth == 0 || samples == 0 {
            return Err(Error::ZeroExtent);
        }
        Ok(Texture { id, width, height, depth, format, has_mipmaps: false })
    }

    /// A single-sample texture; see [`Texture::new_multisampled`].
    pub fn new(handle: u32, width: u32, height: u32, depth: u32, dim: Dimension, format: TextureFormat) -> (r: Result<Texture, Error>)
        ensures
            r is Ok <==> handle != 0 && width > 0 && height > 0 && depth > 0,
            handle == 0 ==> r matches Err(Error::NullHandle),
            r matches Ok(t) ==> t.spec_id() == handle && t.spec_width() == width && t.spec_height()
                == height && t.spec_depth() == depth && t.spec_target() == (TextureTarget {
                dim,
                samples: 1,
            }) && t.spec_format() == format && !t.spec_has_mipmaps(),
    {
        Texture::new_multisampled(handle, width, height, depth, dim, 1, format)
    }

    /// Width, height and depth.
    pub fn size(&self) -> (r: (u32, u32, u32))
        ensures
            r == (self.spec_width(), self.spec_height(), self.spec_depth()),
            r.0 > 0 && r.1 > 0 && r.2 > 0,
    {
        proof {
            use_type_invariant(self);
        }
        (self.width, self.height, self.depth)
    }

    pub fn dimension(&self) -> (r: Dimension)
        ensures
            r == self.spec_target().dim,
    {
        self.id.target().dim
    }

    pub fn samples(&self) -> (r: u32)
        ensures
            r == self.spec_target().samples,
    {
        self.id.target().samples
    }

    pub fn is_multisample(&self) -> (r: bool)
        ensures
            r == self.spec_target().spec_is_multisample(),
    {
        self.id.target().is_multisample()
    }

    pub fn format(&self) -> (r: TextureFormat)
        ensures
            r == self.spec_format(),
    {
        self.format
    }

    pub fn has_mipmaps(&self) -> (r: bool)
        ensures
            r == self.spec_has_mipmaps(),
    {
        self.has_mipmaps
    }

    pub fn texture_id(&self) -> (r: TextureId)
        ensures
            r@ == self.spec_id(),
            r.spec_target() == self.spec_target(),
    {
        self.id
    }

    /// Number of mipmap levels: 1 until mipmaps are made, then
    /// `1 + floor(log2(max(width, height, depth)))`.
    pub fn num_mipmaps(&self) -> (r: usize)
        ensures
            r == self.spec_num_mipmaps(),
    {
        if !self.has_mipmaps {
            return 1;
        }
        proof {
            use_type_invariant(self);
        }
        let mut m = if self.width >= self.height {
            self.width
        } else {
            self.height
        };
        if self.depth > m {
            m = self.depth;
        }
        let mut v: u32 = m;
        let mut n: usize = 0;
        proof {
            lemma_log2_floor_below(m as nat);
        }
        while v > 1
            invariant
                v >= 1,
                m >= 1,
                n + log2_floor(v as nat) == log2_floor(m as nat),
                log2_floor(m as nat) < m,
            decreases v,
        {
            v = v / 2;
            n = n + 1;
        }
        1 + n
    }

    /// Width and height of mipmap `level`, which must exist.
    pub fn level_size(&self, level: usize) -> (r: Result<(u32, u32), Error>)
        ensures
            r is Ok <==> level < self.spec_num_mipmaps(),
            r is Err ==> r matches Err(Error::MipmapLevel { .. }),
            r matches Ok((w, h)) ==> w == level_extent(self.spec_width() as nat, level as nat)
                && h == level_extent(self.spec_height() as nat, level as nat),
    {
        let levels = self.num_mipmaps();
        if level >= levels {
            return Err(Error::MipmapLevel { level, levels });
        }
        let w = halve_times(self.width, level);
        let h = halve_times(self.height, level);
        Ok((if w == 0 {
            1
        } else {
            w
        }, if h == 0 {
            1
        } else {
            h
        }))
    }

    /// Makes the mipmaps of the texture.
    pub fn generate_mipmaps(&mut self, ctx: &mut Context)
        requires
            old(ctx).wf(),
        ensures
            final(ctx).wf(),
            final(ctx).slots() == scoped_in(old(ctx).slots(), old(self).spec_point(), old(self).spec_id(), old(ctx).restores()),
            final(self).same_image(*old(self)),
            final(self).spec_has_mipmaps(),
            final(ctx).spec_alignment() == old(ctx).spec_alignment(),
            final(ctx).restores() == old(ctx).restores(),
            final(ctx).pending() == old(ctx).pending() + scoped_calls(
                old(self).spec_point(),
                old(self).spec_id(),
                old(ctx).spec_current(old(self).spec_point()),
                old(ctx).restores(),
                seq![GlCall::GenerateMipmap { target: old(self).spec_bind_target() }],
            ),
    {
        proof {
            use_type_invariant(&*self);
        }
        let target = self.id.target().gl_target();
        let p = self.binding_point();
        let id = self.id();
        ctx.run_bound(p, id, vec![GlCall::GenerateMipmap { target }]);
        self.has_mipmaps = true;
    }

    /// The call that allocates level 0, filled with `data` when given.
    fn image_upload(&self, data: Option<Vec<u8>>) -> (r: GlCall)
        ensures
            is_image_upload(
                r,
                *self,
                match data {
                    Some(v) => Some(v@),
                    None => None,
                },
            ),
    {
        let target = self.id.target();
        if target.is_multisample() {
            GlCall::TexImage2DMultisample {
                target: target.gl_target(),
                samples: target.samples,
                format: self.format,
                width: self.width,
                height: self.height,
            }
        } else {
            GlCall::TexImage2D {
                target: target.gl_target(),
                format: self.format,
                width: self.width,
                height: self.height,
                data,
            }
        }
    }

    /// Bytes of image data that fill the whole texture.
    pub fn data_len(&self) -> (r: u128)
        ensures
            r == self.spec_data_len(),
            r > 0,
    {
        proof {
            use_type_invariant(self);
        }
        let w = self.width as u128;
        let h = self.height as u128;
        let d = self.depth as u128;
        let px = self.format.pixel_size() as u128;
        proof {
            assert(w * h <= 0xffff_ffff_ffff_ffff_ffff_ffffu128) by (nonlinear_arith)
                requires w <= 0xffff_ffffu128, h <= 0xffff_ffffu128;
            assert(w * h * d <= 0xffff_ffff_ffff_ffff_ffff_ffff_ffff_ffffu128 / 16) by (nonlinear_arith)
                requires w <= 0xffff_ffffu128, h <= 0xffff_ffffu128, d <= 0xffff_ffffu128;
            assert(w * h * d * px <= 0xffff_ffff_ffff_ffff_ffff_ffff_ffff_ffffu128) by (nonlinear_arith)
                requires w * h * d <= 0xffff_ffff_ffff_ffff_ffff_ffff_ffff_ffffu128 / 16, px <= 16;
            assert(w * h * d * px > 0) by (nonlinear_arith)
                requires w > 0, h > 0, d > 0, px > 0;
        }
        w * h * d * px
    }

    /// Uploads `data`, the whole image, and makes the mipmaps. `data` must hold
    /// `width * height * depth` pixels exactly; only 2D textures take data.
    pub fn set_data(&mut self, ctx: &mut Context, data: &[u8]) -> (r: Result<(), Error>)
        requires
            old(ctx).wf(),
        ensures
            final(ctx).wf(),
            r is Ok ==> final(ctx).slots() == scoped_in(old(ctx).slots(), old(self).spec_point(), old(self).spec_id(), old(ctx).restores()),
            final(ctx).spec_alignment() == old(ctx).spec_alignment(),
            final(ctx).restores() == old(ctx).restores(),
            final(self).same_image(*old(self)),
            r is Ok <==> data@.len() == old(self).spec_data_len() && old(self).spec_target().dim
                == Dimension::D2,
            data@.len() == 0 ==> r matches Err(Error::EmptyData),
            data@.len() != 0 && data@.len() != old(self).spec_data_len() ==> r matches Err(
                Error::DataLength { .. },
            ),
            data@.len() == old(self).spec_data_len() && old(self).spec_target().dim != Dimension::D2
                ==> r matches Err(Error::UnsupportedDimension(_)),
            r is Err ==> *final(self) == *old(self) && *final(ctx) == *old(ctx),
            r is Ok ==> final(self).spec_has_mipmaps(),
            r is Ok ==> exists|upload: GlCall|
                #[trigger] is_image_upload(upload, *old(self), Some(data@)) && final(ctx).pending()
                    == old(ctx).pending() + scoped_calls(
                    old(self).spec_point(),
                    old(self).spec_id(),
                    old(ctx).spec_current(old(self).spec_point()),
                    old(ctx).restores(),
                    seq![upload, GlCall::GenerateMipmap { target: old(self).spec_bind_target() }],
                ),
    {
        proof {
            use_type_invariant(&*self);
        }
        let expected = self.data_len();
        if data.len() == 0 {
            return Err(Error::EmptyData);
        }
        if data.len() as u128 != expected {
            return Err(Error::DataLength {
                expected: if expected > usize::MAX as u128 {
                    usize::MAX
                } else {
                    expected as usize
                },
                actual: data.len(),
            });
        }
        let dim = self.id.target().dim;
        if dim != Dimension::D2 {
            return Err(Error::UnsupportedDimension(dim));
        }
        let upload = self.image_upload(Some(copy_bytes(data)));
        let ghost g_upload = upload;
        let target = self.id.target().gl_target();
        let p = self.binding_point();
        let id = self.id();
        ctx.run_bound(p, id, vec![upload, GlCall::GenerateMipmap { target }]);
        assert(is_image_upload(g_upload, *old(self), Some(data@)) && ctx.pending() == old(ctx).pending()
            + scoped_calls(
            old(self).spec_point(),
            old(self).spec_id(),
            old(ctx).spec_current(old(self).spec_point()),
            old(ctx).restores(),
            seq![g_upload, GlCall::GenerateMipmap { target: old(self).spec_bind_target() }],
        ));
        self.has_mipmaps = true;
        Ok(())
    }

    /// Allocates the store of level 0 without contents; only 2D textures.
    pub fn reserve_memory(&self, ctx: &mut Context) -> (r: Result<(), Error>)
        requires
            old(ctx).wf(),
        ensures
            final(ctx).wf(),
            r is Ok ==> final(ctx).slots() == scoped_in(old(ctx).slots(), self.spec_point(), self.spec_id(), old(ctx).restores()),
            final(ctx).spec_alignment() == old(ctx).spec_alignment(),
            final(ctx).restores() == old(ctx).restores(),
            r is Ok <==> self.spec_target().dim == Dimension::D2,
            r is Err ==> *final(ctx) == *old(ctx) && r matches Err(Error::UnsupportedDimension(_)),
            r is Ok ==> exists|upload: GlCall|
                #[trigger] is_image_upload(upload, *self, None) && final(ctx).pending()
                    == old(ctx).pending() + scoped_calls(
                    self.spec_point(),
                    self.spec_id(),
                    old(ctx).spec_current(self.spec_point()),
                    old(ctx).restores(),
                    seq![upload],
                ),
    {
        let dim = self.id.target().dim;
        if dim != Dimension::D2 {
            return Err(Error::UnsupportedDimension(dim));
        }
        let upload = self.image_upload(None);
        let ghost g_upload = upload;
        let p = self.binding_point();
        let id = self.id();
        ctx.run_bound(p, id, vec![upload]);
        assert(is_image_upload(g_upload, *self, None) && ctx.pending() == old(ctx).pending()
            + scoped_calls(
            self.spec_point(),
            self.spec_id(),
            old(ctx).spec_current(self.spec_point()),
            old(ctx).restores(),
            seq![g_upload],
        ));
        Ok(())
    }

    /// Gives the texture new extents, discarding its contents, and makes the mipmaps.
    pub fn clear_resize(&mut self, ctx: &mut Context, width: u32, height: u32, depth: u32) -> (r: Result<(), Error>)
        requires
            old(ctx).wf(),
        ensures
            final(ctx).wf(),
            final(ctx).spec_alignment() == old(ctx).spec_alignment(),
            final(ctx).restores() == old(ctx).restores(),
            r is Ok <==> width > 0 && height > 0 && depth > 0 && old(self).spec_target().dim
                == Dimension::D2,
            !(width > 0 && height > 0 && depth > 0) ==> r matches Err(Error::ZeroExtent),
            width > 0 && height > 0 && depth > 0 && old(self).spec_target().dim != Dimension::D2
                ==> r matches Err(Error::UnsupportedDimension(_)),
            r is Err ==> *final(self) == *old(self) && *final(ctx) == *old(ctx),
            r is Ok ==> final(self).spec_width() == width && final(self).spec_height() == height
                && final(self).spec_depth() == depth && final(self).spec_has_mipmaps()
                && final(self).spec_id() == old(self).spec_id() && final(self).spec_target()
                == old(self).spec_target() && final(self).spec_format() == old(self).spec_format(),
            r is Ok ==> final(ctx).slots() == scoped_in(
                scoped_in(old(ctx).slots(), old(self).spec_point(), old(self).spec_id(), old(ctx).restores()),
                old(self).spec_point(),
                old(self).spec_id(),
                old(ctx).restores(),
            ),
            r is Ok ==> exists|upload: GlCall|
                #[trigger] is_image_upload(upload, *final(self), None) && final(ctx).pending()
                    == old(ctx).pending() + scoped_calls(
                    old(self).spec_point(),
                    old(self).spec_id(),
                    old(ctx).spec_current(old(self).spec_point()),
                    old(ctx).restores(),
                    seq![upload],
                ) + scoped_calls(
                    old(self).spec_point(),
                    old(self).spec_id(),
                    current_in(
                        scoped_in(old(ctx).slots(), old(self).spec_point(), old(self).spec_id(), old(ctx).restores()),
                        old(self).spec_point(),
                    ),
                    old(ctx).restores(),
                    seq![GlCall::GenerateMipmap { target: old(self).spec_bind_target() }],
                ),
    {
        proof {
            use_type_invariant(&*self);
        }
        if width == 0 || height == 0 || depth == 0 {
            return Err(Error::ZeroExtent);
        }
        let dim = self.id.target().dim;
        if dim != Dimension::D2 {
            return Err(Error::UnsupportedDimension(dim));
        }
        *self = Texture { id: self.id, width, height, depth, format: self.format, has_mipmaps: self.has_mipmaps };
        let ghost resized = *self;
        let reserved = self.reserve_memory(ctx);
        let ghost mid = *ctx;
        match reserved {
            Ok(()) => {},
            Err(_) => {
                return Err(Error::UnsupportedDimension(dim));
            },
        }
        let ghost upload = choose|u: GlCall|
            #[trigger] is_image_upload(u, resized, None) && mid.pending() == old(ctx).pending()
                + scoped_calls(
                resized.spec_point(),
                resized.spec_id(),
                old(ctx).spec_current(resized.spec_point()),
                old(ctx).restores(),
                seq![u],
            );
        self.generate_mipmaps(ctx);
        assert(is_image_upload(upload, *self, None));
        assert(ctx.pending() == old(ctx).pending() + scoped_calls(
            old(self).spec_point(),
            old(self).spec_id(),
            old(ctx).spec_current(old(self).spec_point()),
            old(ctx).restores(),
            seq![upload],
        ) + scoped_calls(
            old(self).spec_point(),
            old(self).spec_id(),
            current_in(
                scoped_in(old(ctx).slots(), old(self).spec_point(), old(self).spec_id(), old(ctx).restores()),
                old(self).spec_point(),
            ),
            old(ctx).restores(),
            seq![GlCall::GenerateMipmap { target: old(self).spec_bind_target() }],
        ));
        Ok(())
    }

    /// Replaces the `w` by `h` rectangle at `(x, y)` of mipmap `level` with `data`. The level
    /// must exist, the rectangle must lie within the texture, and `data` must hold its pixels
    /// exactly; a refused request issues no driver call.
    pub fn set_sub_data_2d(
        &self,
        ctx: &mut Context,
        level: usize,
        x: i32,
        y: i32,
        w: i32,
        h: i32,
        data: &[u8],
    ) -> (r: Result<(), Error>)
        requires
            old(ctx).wf(),
        ensures
            final(ctx).wf(),
            r is Ok ==> final(ctx).slots() == scoped_in(old(ctx).slots(), self.spec_point(), self.spec_id(), old(ctx).restores()),
            final(ctx).spec_alignment() == old(ctx).spec_alignment(),
            final(ctx).restores() == old(ctx).restores(),
            level >= self.spec_num_mipmaps() ==> r matches Err(Error::MipmapLevel { .. }),
            r is Ok <==> level < self.spec_num_mipmaps() && sub_rect_fits(*self, x, y, w, h)
                && data@.len() == w as nat * h as nat * self.spec_format().spec_pixel_size()
                && self.spec_target().dim == Dimension::D2 && !self.spec_target().spec_is_multisample(),
            r is Err ==> *final(ctx) == *old(ctx),
            r is Ok ==> exists|upload: GlCall|
                #[trigger] is_sub_upload(upload, *self, level, x, y, w, h, data@) && final(ctx).pending()
                    == old(ctx).pending() + scoped_calls(
                    self.spec_point(),
                    self.spec_id(),
                    old(ctx).spec_current(self.spec_point()),
                    old(ctx).restores(),
                    seq![upload],
                ),
    {
        let levels = self.num_mipmaps();
        if level >= levels {
            return Err(Error::MipmapLevel { level, levels });
        }
        if x < 0 || y < 0 || w < 0 || h < 0 || x as i64 + w as i64 > self.width as i64 || y as i64
            + h as i64 > self.height as i64 {
            return Err(Error::OutOfBounds);
        }
        let px = self.format.pixel_size() as u128;
        proof {
            assert((w as u128) * (h as u128) <= 0xffff_ffff_ffff_ffffu128) by (nonlinear_arith)
                requires 0 <= w <= 0x7fff_ffff, 0 <= h <= 0x7fff_ffff;
            assert((w as u128) * (h as u128) * px <= 0xffff_ffff_ffff_ffff_ffffu128) by (nonlinear_arith)
                requires (w as u128) * (h as u128) <= 0xffff_ffff_ffff_ffffu128, px <= 16;
        }
        let expected = (w as u128) * (h as u128) * px;
        if data.len() as u128 != expected {
            return Err(Error::DataLength {
                expected: if expected > usize::MAX as u128 {
                    usize::MAX
                } else {
                    expected as usize
                },
                actual: data.len(),
            });
        }
        let target = self.id.target();
        if target.dim != Dimension::D2 || target.is_multisample() {
            return Err(Error::UnsupportedDimension(target.dim));
        }
        let upload = GlCall::TexSubImage2D {
            target: target.gl_target(),
            level,
            x_offset: x,
            y_offset: y,
            sub_width: w,
            sub_height: h,
            format: self.format,
            bytes: copy_bytes(data),
        };
        let ghost g_upload = upload;
        let p = self.binding_point();
        let id = self.id();
        ctx.run_bound(p, id, vec![upload]);
        assert(is_sub_upload(g_upload, *self, level, x, y, w, h, data@) && ctx.pending() == old(ctx).pending()
            + scoped_calls(
            self.spec_point(),
            self.spec_id(),
            old(ctx).spec_current(self.spec_point()),
            old(ctx).restores(),
            seq![g_upload],
        ));
        Ok(())
    }

    /// Reads mipmap `level` back; the level must exist, and a refused request issues no call.
    pub fn download(&self, ctx: &mut Context, level: usize) -> (r: Result<(), Error>)
        requires
            old(ctx).wf(),
        ensures
            final(ctx).wf(),
            r is Ok ==> final(ctx).slots() == scoped_in(old(ctx).slots(), self.spec_point(), self.spec_id(), old(ctx).restores()),
            final(ctx).spec_alignment() == old(ctx).spec_alignment(),
            final(ctx).restores() == old(ctx).restores(),
            r is Ok <==> level < self.spec_num_mipmaps(),
            r is Err ==> *final(ctx) == *old(ctx) && r matches Err(Error::MipmapLevel { .. }),
            r is Ok ==> final(ctx).pending() == old(ctx).pending() + scoped_calls(
                self.spec_point(),
                self.spec_id(),
                old(ctx).spec_current(self.spec_point()),
                old(ctx).restores(),
                seq![GlCall::GetTexImage { target: self.spec_bind_target(), level, format: self.spec_format() }],
            ),
    {
        let levels = self.num_mipmaps();
        if level >= levels {
            return Err(Error::MipmapLevel { level, levels });
        }
        let target = self.id.target().gl_target();
        let p = self.binding_point();
        let id = self.id();
        ctx.run_bound(p, id, vec![GlCall::GetTexImage { target, level, format: self.format }]);
        Ok(())
    }

    /// Reads the pixel at `(x, y)`, which must lie within the texture.
    pub fn read_pixel(&self, ctx: &mut Context, x: u32, y: u32) -> (r: Result<(), Error>)
        requires
            old(ctx).wf(),
        ensures
            final(ctx).wf(),
            r is Ok ==> final(ctx).slots() == scoped_in(old(ctx).slots(), self.spec_point(), self.spec_id(), old(ctx).restores()),
            final(ctx).spec_alignment() == old(ctx).spec_alignment(),
            final(ctx).restores() == old(ctx).restores(),
            r is Ok <==> x < self.spec_width() && y < self.spec_height(),
            r is Err ==> *final(ctx) == *old(ctx) && r matches Err(Error::OutOfBounds),
            r is Ok ==> final(ctx).pending() == old(ctx).pending() + scoped_calls(
                self.spec_point(),
                self.spec_id(),
                old(ctx).spec_current(self.spec_point()),
                old(ctx).restores(),
                seq![GlCall::ReadPixels { x, y, format: self.spec_format() }],
            ),
    {
        if x >= self.width || y >= self.height {
            return Err(Error::OutOfBounds);
        }
        let p = self.binding_point();
        let id = self.id();
        ctx.run_bound(p, id, vec![GlCall::ReadPixels { x, y, format: self.format }]);
        Ok(())
    }

    /// Sets one parameter of the texture.
    pub fn set_param(&self, ctx: &mut Context, param: TexParam)
        requires
            old(ctx).wf(),
        ensures
            final(ctx).wf(),
            final(ctx).slots() == scoped_in(old(ctx).slots(), self.spec_point(), self.spec_id(), old(ctx).restores()),
            final(ctx).spec_alignment() == old(ctx).spec_alignment(),
            final(ctx).restores() == old(ctx).restores(),
            final(ctx).pending() == old(ctx).pending() + scoped_calls(
                self.spec_point(),
                self.spec_id(),
                old(ctx).spec_current(self.spec_point()),
                old(ctx).restores(),
                seq![GlCall::TexParameter { target: self.spec_bind_target(), param }],
            ),
    {
        let target = self.id.target().gl_target();
        let p = self.binding_point();
        let id = self.id();
        ctx.run_bound(p, id, vec![GlCall::TexParameter { target, param }]);
    }

    pub fn wrap_s(&self, ctx: &mut Context, wrap: TextureWrap)
        requires
            old(ctx).wf(),
        ensures
            final(ctx).wf(),
            final(ctx).slots() == scoped_in(old(ctx).slots(), self.spec_point(), self.spec_id(), old(ctx).restores()),
            final(ctx).spec_alignment() == old(ctx).spec_alignment(),
            final(ctx).restores() == old(ctx).restores(),
            final(ctx).pending() == old(ctx).pending() + scoped_calls(
                self.spec_point(),
                self.spec_id(),
                old(ctx).spec_current(self.spec_point()),
                old(ctx).restores(),
                seq![GlCall::TexParameter { target: self.spec_bind_target(), param: TexParam::WrapS(wrap) }],
            ),
    {
        self.set_param(ctx, TexParam::WrapS(wrap));
    }

    pub fn wrap_t(&self, ctx: &mut Context, wrap: TextureWrap)
        requires
            old(ctx).wf(),
        ensures
            final(ctx).wf(),
            final(ctx).slots() == scoped_in(old(ctx).slots(), self.spec_point(), self.spec_id(), old(ctx).restores()),
            final(ctx).spec_alignment() == old(ctx).spec_alignment(),
            final(ctx).restores() == old(ctx).restores(),
            final(ctx).pending() == old(ctx).pending() + scoped_calls(
                self.spec_point(),
                self.spec_id(),
                old(ctx).spec_current(self.spec_point()),
                old(ctx).restores(),
                seq![GlCall::TexParameter { target: self.spec_bind_target(), param: TexParam::WrapT(wrap) }],
            ),
    {
        self.set_param(ctx, TexParam::WrapT(wrap));
    }

    pub fn wrap_r(&self, ctx: &mut Context, wrap: TextureWrap)
        requires
            old(ctx).wf(),
        ensures
            final(ctx).wf(),
            final(ctx).slots() == scoped_in(old(ctx).slots(), self.spec_point(), self.spec_id(), old(ctx).restores()),
            final(ctx).spec_alignment() == old(ctx).spec_alignment(),
            final(ctx).restores() == old(ctx).restores(),
            final(ctx).pending() == old(ctx).pending() + scoped_calls(
                self.spec_point(),
                self.spec_id(),
                old(ctx).spec_current(self.spec_point()),
                old(ctx).restores(),
                seq![GlCall::TexParameter { target: self.spec_bind_target(), param: TexParam::WrapR(wrap) }],
            ),
    {
        self.set_param(ctx, TexParam::WrapR(wrap));
    }

    /// Minification filter without mipmaps.
    pub fn filter_min(&self, ctx: &mut Context, mode: SampleMode)
        requires
            old(ctx).wf(),
        ensures
            final(ctx).wf(),
            final(ctx).slots() == scoped_in(old(ctx).slots(), self.spec_point(), self.spec_id(), old(ctx).restores()),
            final(ctx).spec_alignment() == old(ctx).spec_alignment(),
            final(ctx).restores() == old(ctx).restores(),
            final(ctx).pending() == old(ctx).pending() + scoped_calls(
                self.spec_point(),
                self.spec_id(),
                old(ctx).spec_current(self.spec_point()),
                old(ctx).restores(),
                seq![GlCall::TexParameter {
                    target: self.spec_bind_target(),
                    param: TexParam::MinFilter(
                        match mode {
                            SampleMode::Nearest => MinFilter::Nearest,
                            SampleMode::Linear => MinFilter::Linear,
                        },
                    ),
                }],
            ),
    {
        let f = match mode {
            SampleMode::Nearest => MinFilter::Nearest,
            SampleMode::Linear => MinFilter::Linear,
        };
        self.set_param(ctx, TexParam::MinFilter(f));
    }

    /// Minification filter that samples between mipmap levels by `mipmap` and between texels
    /// by `texture`.
    pub fn filter_min_mipmap(&self, ctx: &mut Context, mipmap: SampleMode, texture: SampleMode)
        requires
            old(ctx).wf(),
        ensures
            final(ctx).wf(),
            final(ctx).slots() == scoped_in(old(ctx).slots(), self.spec_point(), self.spec_id(), old(ctx).restores()),
            final(ctx).spec_alignment() == old(ctx).spec_alignment(),
            final(ctx).restores() == old(ctx).restores(),
            final(ctx).pending() == old(ctx).pending() + scoped_calls(
                self.spec_point(),
                self.spec_id(),
                old(ctx).spec_current(self.spec_point()),
                old(ctx).restores(),
                seq![GlCall::TexParameter {
                    target: self.spec_bind_target(),
                    param: TexParam::MinFilter(spec_min_mipmap_filter(mipmap, texture)),
                }],
            ),
    {
        let f = min_mipmap_filter(mipmap, texture);
        self.set_param(ctx, TexParam::MinFilter(f));
    }

    pub fn filter_mag(&self, ctx: &mut Context, mode: SampleMode)
        requires
            old(ctx).wf(),
        ensures
            final(ctx).wf(),
            final(ctx).slots() == scoped_in(old(ctx).slots(), self.spec_point(), self.spec_id(), old(ctx).restores()),
            final(ctx).spec_alignment() == old(ctx).spec_alignment(),
            final(ctx).restores() == old(ctx).restores(),
            final(ctx).pending() == old(ctx).pending() + scoped_calls(
                self.spec_point(),
                self.spec_id(),
                old(ctx).spec_current(self.spec_point()),
                old(ctx).restores(),
                seq![GlCall::TexParameter { target: self.spec_bind_target(), param: TexParam::MagFilter(mode) }],
            ),
    {
        self.set_param(ctx, TexParam::MagFilter(mode));
    }

    /// Binds the texture on texture unit `unit` and returns the unit, to be written into a
    /// sampler uniform. The binding stays for the draw calls that sample it. `max_units` is the
    /// driver's number of texture units.
    pub fn as_uniform(&self, ctx: &mut Context, unit: u32, max_units: u32) -> (r: Result<TextureUnit, Error>)
        requires
            old(ctx).wf(),
        ensures
            final(ctx).wf(),
            final(ctx).spec_alignment() == old(ctx).spec_alignment(),
            final(ctx).restores() == old(ctx).restores(),
            r is Ok <==> unit < max_units,
            r is Err ==> *final(ctx) == *old(ctx) && r matches Err(Error::TextureUnit { .. }),
            r matches Ok(u) ==> u == TextureUnit(unit) && final(ctx).slots() == crate::base::bound_in(
                old(ctx).slots(),
                self.spec_point(),
                self.spec_id(),
            ) && final(ctx).pending() == old(ctx).pending() + seq![
                GlCall::ActiveTexture { unit },
                GlCall::Bind { point: self.spec_point(), id: self.spec_id() },
            ],
    {
        if unit >= max_units {
            return Err(Error::TextureUnit { unit, max: max_units });
        }
        ctx.push(GlCall::ActiveTexture { unit });
        let _g: BindGuard = ctx.bind(self);
        Ok(TextureUnit(unit))
    }

    /// Deletes the texture object.
    pub fn delete(self, ctx: &mut Context)
        ensures
            final(ctx).slots() == old(ctx).slots(),
            final(ctx).spec_alignment() == old(ctx).spec_alignment(),
            final(ctx).restores() == old(ctx).restores(),
            final(ctx).wf() == old(ctx).wf(),
            final(ctx).pending() == old(ctx).pending().push(GlCall::DeleteTexture { id: self.spec_id() }),
    {
        let id = self.id.get();
        ctx.push(GlCall::DeleteTexture { id });
    }

    /// A 2D texture on the object `handle`, `width` pixels wide, holding `data`: whole rows of
    /// pixels of `format`. The height is the number of rows.
    pub fn from_2d_pixels(
        ctx: &mut Context,
        handle: u32,
        width: u32,
        format: TextureFormat,
        data: &[u8],
    ) -> (r: Result<Texture, Error>)
        requires
            old(ctx).wf(),
        ensures
            final(ctx).wf(),
            final(ctx).spec_alignment() == old(ctx).spec_alignment(),
            data@.len() == 0 ==> r matches Err(Error::EmptyData),
            r is Ok ==> handle != 0 && data@.len() > 0 && width > 0 && data@.len() % (width as nat
                * format.spec_pixel_size()) == 0 && data@.len() / (width as nat * format.spec_pixel_size())
                <= u32::MAX,
            handle != 0 && data@.len() > 0 && width > 0 && data@.len() % (width as nat
                * format.spec_pixel_size()) == 0 && data@.len() / (width as nat * format.spec_pixel_size())
                <= u32::MAX ==> r is Ok,
            r matches Ok(t) ==> t.spec_id() == handle && t.spec_width() == width && t.spec_height()
                == data@.len() / (width as nat * format.spec_pixel_size()) && t.spec_depth() == 1
                && t.spec_format() == format && t.spec_target() == (TextureTarget {
                dim: Dimension::D2,
                samples: 1,
            }) && t.spec_has_mipmaps(),
            final(ctx).restores() == old(ctx).restores(),
            r matches Ok(t) ==> final(ctx).slots() == scoped_in(old(ctx).slots(), t.spec_point(), handle, old(ctx).restores()),
            r matches Ok(t) ==> exists|upload: GlCall|
                #[trigger] is_image_upload(upload, t, Some(data@)) && final(ctx).pending()
                    == old(ctx).pending() + scoped_calls(
                    t.spec_point(),
                    handle,
                    old(ctx).spec_current(t.spec_point()),
                    old(ctx).restores(),
                    seq![upload, GlCall::GenerateMipmap { target: TexTarget::Tex2D }],
                ),
            r is Err ==> final(ctx).pending() == old(ctx).pending(),
    {
        if data.len() == 0 {
            return Err(Error::EmptyData);
        }
        if width == 0 {
            return Err(Error::ZeroExtent);
        }
        let px = format.pixel_size();
        if width as usize > usize::MAX / px {
            proof {
                assert(width as nat * px as nat > usize::MAX) by (nonlinear_arith)
                    requires width as nat > usize::MAX as nat / px as nat, px > 0;
                assert(data@.len() % (width as nat * px as nat) != 0 || data@.len() == 0) by {
                    assert(data@.len() < width as nat * px as nat);
                    vstd::arithmetic::div_mod::lemma_small_mod(data@.len(), width as nat * px as nat);
                }
            }
            return Err(Error::DataLength { expected: usize::MAX, actual: data.len() });
        }
        proof {
            assert(width as nat * px as nat <= usize::MAX) by (nonlinear_arith)
                requires width as nat <= usize::MAX as nat / px as nat, px > 0;
            assert(width as nat * px as nat > 0) by (nonlinear_arith)
                requires width > 0, px > 0;
        }
        let row = width as usize * px;
        if data.len() % row != 0 {
            return Err(Error::NotRectangular { row_len: row, len: data.len() });
        }
        let rows = data.len() / row;
        if rows > u32::MAX as usize {
            return Err(Error::OutOfBounds);
        }
        proof {
            assert(rows > 0) by (nonlinear_arith)
                requires rows == data@.len() / row as nat, data@.len() % row as nat == 0, data@.len() > 0, row > 0;
        }
        let mut t = Texture::new(handle, width, rows as u32, 1, Dimension::D2, format)?;
        proof {
            assert(data@.len() == rows * row) by (nonlinear_arith)
                requires rows == data@.len() / row as nat, data@.len() % row as nat == 0, row > 0;
            assert(t.spec_data_len() == data@.len()) by (nonlinear_arith)
                requires t.spec_data_len() == width as nat * rows as nat * 1 * px as nat,
                    data@.len() == rows * row, row == width as nat * px as nat;
        }
        let ghost t0 = t;
        match t.set_data(ctx, data) {
            Ok(()) => {
                let ghost upload = choose|u: GlCall|
                    #[trigger] is_image_upload(u, t0, Some(data@)) && ctx.pending() == old(ctx).pending()
                        + scoped_calls(
                        t0.spec_point(),
                        t0.spec_id(),
                        old(ctx).spec_current(t0.spec_point()),
                        old(ctx).restores(),
                        seq![u, GlCall::GenerateMipmap { target: t0.spec_bind_target() }],
                    );
                assert(is_image_upload(upload, t, Some(data@)));
                Ok(t)
            },
            Err(e) => Err(e),
        }
    }
}

} // verus!
