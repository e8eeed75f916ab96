use violette::base::Context;
use violette::calls::GlCall;
use violette::texture::{
    min_mipmap_filter, Channels, Dimension, MinFilter, SampleMode, Subpixel, TexParam, TexTarget, Texture,
    TextureFormat, TextureTarget, TextureUnit, TextureWrap,
};
use violette::utils::Error;

const RGBA8: TextureFormat = TextureFormat::Color { channels: Channels::Rgba, subpixel: Subpixel::U8, normalized: true };

#[test]
fn rgba8_4x4_has_three_mip_levels() {
    let mut ctx = Context::new(256, true);
    let mut t = Texture::new(5, 4, 4, 1, Dimension::D2, RGBA8).unwrap();
    assert_eq!(t.num_mipmaps(), 1);
    t.set_data(&mut ctx, &[7u8; 64]).unwrap();
    t.generate_mipmaps(&mut ctx);
    assert_eq!(t.num_mipmaps(), 3);
    let calls = ctx.take_calls();
    assert!(matches!(&calls[1], GlCall::TexImage2D { width: 4, height: 4, data: Some(d), .. } if d.len() == 64));
    assert!(matches!(calls[2], GlCall::GenerateMipmap { target: TexTarget::Tex2D }));
}

#[test]
fn mip_count_follows_largest_extent() {
    let mut ctx = Context::new(256, true);
    let mut t = Texture::new(5, 5, 1, 1, Dimension::D2, RGBA8).unwrap();
    t.generate_mipmaps(&mut ctx);
    assert_eq!(t.num_mipmaps(), 3);
    let mut big = Texture::new(6, 1024, 300, 1, Dimension::D2, RGBA8).unwrap();
    big.generate_mipmaps(&mut ctx);
    assert_eq!(big.num_mipmaps(), 11);
    let mut one = Texture::new(7, 1, 1, 1, Dimension::D2, RGBA8).unwrap();
    one.generate_mipmaps(&mut ctx);
    assert_eq!(one.num_mipmaps(), 1);
}

#[test]
fn data_length_must_match_extents() {
    let mut ctx = Context::new(256, true);
    let mut t = Texture::new(5, 4, 4, 1, Dimension::D2, RGBA8).unwrap();
    assert!(matches!(t.set_data(&mut ctx, &[0u8; 63]), Err(Error::DataLength { expected: 64, actual: 63 })));
    assert!(matches!(t.set_data(&mut ctx, &[]), Err(Error::EmptyData)));
    assert!(!t.has_mipmaps());
    assert!(ctx.take_calls().is_empty());
    let mut d3 = Texture::new(6, 2, 2, 2, Dimension::D3, RGBA8).unwrap();
    assert!(matches!(d3.set_data(&mut ctx, &[0u8; 32]), Err(Error::UnsupportedDimension(Dimension::D3))));
}

#[test]
fn multisampled_upload_allocates_without_data() {
    let mut ctx = Context::new(256, true);
    let mut t = Texture::new_multisampled(5, 2, 2, 1, Dimension::D2, 4, RGBA8).unwrap();
    assert!(t.is_multisample());
    assert_eq!(t.samples(), 4);
    t.set_data(&mut ctx, &[0u8; 16]).unwrap();
    let calls = ctx.take_calls();
    assert!(matches!(calls[0], GlCall::Bind { .. }));
    assert!(matches!(calls[1], GlCall::TexImage2DMultisample { samples: 4, target: TexTarget::Tex2DMultisample, .. }));
}

#[test]
fn out_of_range_mip_level_is_refused() {
    let mut ctx = Context::new(256, true);
    let mut t = Texture::new(5, 4, 4, 1, Dimension::D2, RGBA8).unwrap();
    t.set_data(&mut ctx, &[0u8; 64]).unwrap();
    ctx.take_calls();
    assert!(matches!(
        t.set_sub_data_2d(&mut ctx, 3, 0, 0, 1, 1, &[0u8; 4]),
        Err(Error::MipmapLevel { level: 3, levels: 3 })
    ));
    assert!(matches!(t.download(&mut ctx, 7), Err(Error::MipmapLevel { level: 7, levels: 3 })));
    assert!(ctx.take_calls().is_empty());
    t.download(&mut ctx, 2).unwrap();
    let calls = ctx.take_calls();
    assert!(matches!(calls[1], GlCall::GetTexImage { level: 2, .. }));
}

#[test]
fn level_sizes_halve_down_to_one() {
    let mut ctx = Context::new(256, true);
    let mut t = Texture::new(5, 8, 2, 1, Dimension::D2, RGBA8).unwrap();
    assert!(matches!(t.level_size(1), Err(Error::MipmapLevel { level: 1, levels: 1 })));
    t.generate_mipmaps(&mut ctx);
    assert_eq!(t.level_size(0).unwrap(), (8, 2));
    assert_eq!(t.level_size(1).unwrap(), (4, 1));
    assert_eq!(t.level_size(3).unwrap(), (1, 1));
    assert!(t.level_size(4).is_err());
}

#[test]
fn sub_rectangle_must_fit() {
    let mut ctx = Context::new(256, true);
    let t = Texture::new(5, 4, 4, 1, Dimension::D2, RGBA8).unwrap();
    assert!(matches!(t.set_sub_data_2d(&mut ctx, 0, 2, 2, 3, 1, &[0u8; 12]), Err(Error::OutOfBounds)));
    assert!(matches!(t.set_sub_data_2d(&mut ctx, 0, -1, 0, 1, 1, &[0u8; 4]), Err(Error::OutOfBounds)));
    assert!(matches!(
        t.set_sub_data_2d(&mut ctx, 0, 0, 0, 2, 2, &[0u8; 4]),
        Err(Error::DataLength { expected: 16, actual: 4 })
    ));
    t.set_sub_data_2d(&mut ctx, 0, 2, 2, 2, 2, &[1u8; 16]).unwrap();
    let calls = ctx.take_calls();
    assert!(matches!(calls[1], GlCall::TexSubImage2D { x_offset: 2, y_offset: 2, sub_width: 2, sub_height: 2, .. }));
}

#[test]
fn mipmap_filters_are_four_distinct_constants() {
    let (n, l) = (SampleMode::Nearest, SampleMode::Linear);
    assert_eq!(min_mipmap_filter(l, l), MinFilter::LinearMipmapLinear);
    assert_eq!(min_mipmap_filter(n, n), MinFilter::NearestMipmapNearest);
    assert_eq!(min_mipmap_filter(n, l), MinFilter::NearestMipmapLinear);
    assert_eq!(min_mipmap_filter(l, n), MinFilter::LinearMipmapNearest);
}

#[test]
fn parameters_are_set_on_the_texture_target() {
    let mut ctx = Context::new(256, true);
    let t = Texture::new(5, 4, 4, 1, Dimension::D2, RGBA8).unwrap();
    t.wrap_s(&mut ctx, TextureWrap::ClampEdge);
    t.filter_min_mipmap(&mut ctx, SampleMode::Linear, SampleMode::Nearest);
    t.filter_mag(&mut ctx, SampleMode::Nearest);
    let calls = ctx.take_calls();
    assert!(matches!(calls[1], GlCall::TexParameter { target: TexTarget::Tex2D, param: TexParam::WrapS(TextureWrap::ClampEdge) }));
    assert!(matches!(calls[4], GlCall::TexParameter { param: TexParam::MinFilter(MinFilter::LinearMipmapNearest), .. }));
    assert!(matches!(calls[7], GlCall::TexParameter { param: TexParam::MagFilter(SampleMode::Nearest), .. }));
}

#[test]
fn targets_follow_dimension_and_samples() {
    assert_eq!(TextureTarget { dim: Dimension::D2, samples: 1 }.gl_target(), TexTarget::Tex2D);
    assert_eq!(TextureTarget { dim: Dimension::D2, samples: 4 }.gl_target(), TexTarget::Tex2DMultisample);
    assert_eq!(TextureTarget { dim: Dimension::D2Array, samples: 2 }.gl_target(), TexTarget::Tex2DMultisampleArray);
    assert_eq!(TextureTarget { dim: Dimension::D3, samples: 4 }.gl_target(), TexTarget::Tex3D);
    assert_eq!(Dimension::D1Array.num_dimension(), 11);
    assert_eq!(Dimension::D3.num_dimension(), 3);
}

#[test]
fn construction_refuses_zero_extents_and_handles() {
    assert!(matches!(Texture::new(0, 4, 4, 1, Dimension::D2, RGBA8), Err(Error::NullHandle)));
    assert!(matches!(Texture::new(3, 0, 4, 1, Dimension::D2, RGBA8), Err(Error::ZeroExtent)));
    assert!(matches!(Texture::new_multisampled(3, 4, 4, 1, Dimension::D2, 0, RGBA8), Err(Error::ZeroExtent)));
}

#[test]
fn from_2d_pixels_takes_whole_rows() {
    let mut ctx = Context::new(256, true);
    let t = Texture::from_2d_pixels(&mut ctx, 9, 2, RGBA8, &[0u8; 24]).unwrap();
    assert_eq!(t.size(), (2, 3, 1));
    assert!(t.has_mipmaps());
    assert!(matches!(
        Texture::from_2d_pixels(&mut ctx, 9, 2, RGBA8, &[0u8; 20]),
        Err(Error::NotRectangular { row_len: 8, len: 20 })
    ));
    assert!(matches!(Texture::from_2d_pixels(&mut ctx, 9, 2, RGBA8, &[]), Err(Error::EmptyData)));
}

#[test]
fn texture_unit_is_checked() {
    let mut ctx = Context::new(256, true);
    let t = Texture::new(5, 4, 4, 1, Dimension::D2, RGBA8).unwrap();
    assert_eq!(t.as_uniform(&mut ctx, 2, 16).unwrap(), TextureUnit(2));
    assert!(matches!(t.as_uniform(&mut ctx, 16, 16), Err(Error::TextureUnit { unit: 16, max: 16 })));
    let calls = ctx.take_calls();
    assert!(matches!(calls[0], GlCall::ActiveTexture { unit: 2 }));
}

#[test]
fn reserve_and_resize() {
    let mut ctx = Context::new(256, true);
    let mut t = Texture::new(5, 4, 4, 1, Dimension::D2, RGBA8).unwrap();
    t.clear_resize(&mut ctx, 8, 2, 1).unwrap();
    assert_eq!(t.size(), (8, 2, 1));
    assert_eq!(t.num_mipmaps(), 4);
    let calls = ctx.take_calls();
    assert!(matches!(calls[1], GlCall::TexImage2D { width: 8, height: 2, data: None, .. }));
    assert!(matches!(t.clear_resize(&mut ctx, 0, 2, 1), Err(Error::ZeroExtent)));
    let one_d = Texture::new(6, 4, 1, 1, Dimension::D1, RGBA8).unwrap();
    assert!(matches!(one_d.reserve_memory(&mut ctx), Err(Error::UnsupportedDimension(Dimension::D1))));
    assert!(matches!(one_d.read_pixel(&mut ctx, 4, 0), Err(Error::OutOfBounds)));
}

#[test]
fn clear_resize_reallocates_then_makes_mipmaps() {
    let mut ctx = Context::new(256, true);
    let mut t = Texture::new(5, 4, 4, 1, Dimension::D2, RGBA8).unwrap();
    t.clear_resize(&mut ctx, 16, 8, 1).unwrap();
    let calls = ctx.take_calls();
    assert_eq!(calls.len(), 6);
    assert!(matches!(calls[0], GlCall::Bind { id: 5, .. }));
    assert!(matches!(calls[1], GlCall::TexImage2D { width: 16, height: 8, data: None, .. }));
    assert!(matches!(calls[2], GlCall::Bind { id: 0, .. }));
    assert!(matches!(calls[4], GlCall::GenerateMipmap { target: TexTarget::Tex2D }));
    let mut arr = Texture::new(6, 4, 4, 2, Dimension::D2Array, RGBA8).unwrap();
    assert!(matches!(arr.clear_resize(&mut ctx, 8, 8, 2), Err(Error::UnsupportedDimension(Dimension::D2Array))));
    assert!(ctx.take_calls().is_empty());
}
