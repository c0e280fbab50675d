//! Capture configuration: image formats, viewport metrics, clip regions and
//! per-capture options.

use vstd::prelude::*;
use vstd::string::*;
use crate::number::Decimal;
use crate::text::decimal;

verus! {

/// Encoding of a captured image.
#[derive(Debug, Clone, Copy, PartialEq, Eq, Structural)]
pub enum ImageFormat {
    Jpeg,
    Png,
    WebP,
}

impl ImageFormat {
    /// The protocol name of the format.
    pub open spec fn name(self) -> Seq<char> {
        match self {
            ImageFormat::Jpeg => "jpeg"@,
            ImageFormat::Png => "png"@,
            ImageFormat::WebP => "webp"@,
        }
    }

    /// Whether the encoding takes a quality setting.
    pub open spec fn lossy(self) -> bool {
        self != ImageFormat::Png
    }

    /// Returns the protocol name of the format.
    pub fn as_str(&self) -> (name: &'static str)
        ensures
            name@ == self.name(),
    {
        match self {
            ImageFormat::Jpeg => "jpeg",
            ImageFormat::Png => "png",
            ImageFormat::WebP => "webp",
        }
    }

    /// Tells whether the encoding takes a quality setting.
    pub fn is_lossy(&self) -> (b: bool)
        ensures
            b == self.lossy(),
    {
        !matches!(self, ImageFormat::Png)
    }
}

impl Default for ImageFormat {
    /// JPEG.
    fn default() -> (format: ImageFormat)
        ensures
            format == ImageFormat::Jpeg,
    {
        ImageFormat::Jpeg
    }
}

/// Page dimensions and device emulation.
#[derive(Debug, PartialEq, Eq)]
pub struct Viewport {
    /// Width in pixels.
    pub width: u32,
    /// Height in pixels.
    pub height: u32,
    /// Device pixels per logical pixel.
    pub device_scale_factor: Decimal,
    /// Whether to emulate a mobile device.
    pub is_mobile: bool,
    /// Whether touch events are emulated.
    pub has_touch: bool,
    /// Whether the screen is in landscape orientation.
    pub is_landscape: bool,
}

/// The mathematical value of a [`Viewport`].
pub struct ViewportView {
    pub width: u32,
    pub height: u32,
    pub device_scale_factor: Seq<char>,
    pub is_mobile: bool,
    pub has_touch: bool,
    pub is_landscape: bool,
}

impl View for Viewport {
    type V = ViewportView;

    open spec fn view(&self) -> ViewportView {
        ViewportView {
            width: self.width,
            height: self.height,
            device_scale_factor: self.device_scale_factor@,
            is_mobile: self.is_mobile,
            has_touch: self.has_touch,
            is_landscape: self.is_landscape,
        }
    }
}

/// The viewport used where none is asked for: 800 by 600 at scale 1, no
/// emulation.
pub open spec fn default_viewport() -> ViewportView {
    ViewportView {
        width: 800,
        height: 600,
        device_scale_factor: decimal(1) + ".0"@,
        is_mobile: false,
        has_touch: false,
        is_landscape: false,
    }
}

impl Default for Viewport {
    fn default() -> (viewport: Viewport)
        ensures
            viewport@ == default_viewport(),
    {
        Viewport {
            width: 800,
            height: 600,
            device_scale_factor: Decimal::whole(1),
            is_mobile: false,
            has_touch: false,
            is_landscape: false,
        }
    }
}

impl Viewport {
    /// The default viewport with the given dimensions.
    pub fn new(width: u32, height: u32) -> (viewport: Viewport)
        ensures
            viewport@ == (ViewportView { width, height, ..default_viewport() }),
    {
        Viewport {
            width,
            height,
            device_scale_factor: Decimal::whole(1),
            is_mobile: false,
            has_touch: false,
            is_landscape: false,
        }
    }

    /// A builder with nothing set.
    pub fn builder() -> (builder: ViewportBuilder)
        ensures
            builder@ == ViewportBuilderView::unset(),
    {
        ViewportBuilder::default()
    }

    /// The same viewport at another scale.
    pub fn with_device_scale_factor(self, factor: Decimal) -> (viewport: Viewport)
        ensures
            viewport@ == (ViewportView { device_scale_factor: factor@, ..self@ }),
    {
        Viewport { device_scale_factor: factor, ..self }
    }

    /// The same viewport with or without the emulation of a mobile device.
    pub fn with_mobile(self, is_mobile: bool) -> (viewport: Viewport)
        ensures
            viewport@ == (ViewportView { is_mobile, ..self@ }),
    {
        Viewport { is_mobile, ..self }
    }

    /// The same viewport with or without the emulation of touch.
    pub fn with_touch(self, has_touch: bool) -> (viewport: Viewport)
        ensures
            viewport@ == (ViewportView { has_touch, ..self@ }),
    {
        Viewport { has_touch, ..self }
    }

    /// The same viewport in landscape or in portrait orientation.
    pub fn with_landscape(self, is_landscape: bool) -> (viewport: Viewport)
        ensures
            viewport@ == (ViewportView { is_landscape, ..self@ }),
    {
        Viewport { is_landscape, ..self }
    }
}

impl Clone for Viewport {
    fn clone(&self) -> (copy: Viewport)
        ensures
            copy@ == self@,
    {
        Viewport {
            width: self.width,
            height: self.height,
            device_scale_factor: self.device_scale_factor.clone(),
            is_mobile: self.is_mobile,
            has_touch: self.has_touch,
            is_landscape: self.is_landscape,
        }
    }
}

/// Collects viewport settings; what is left unset takes the default.
#[derive(Debug, PartialEq, Eq)]
pub struct ViewportBuilder {
    width: Option<u32>,
    height: Option<u32>,
    device_scale_factor: Option<Decimal>,
    is_mobile: Option<bool>,
    has_touch: Option<bool>,
    is_landscape: Option<bool>,
}

/// The mathematical value of a [`ViewportBuilder`].
pub struct ViewportBuilderView {
    pub width: Option<u32>,
    pub height: Option<u32>,
    pub device_scale_factor: Option<Seq<char>>,
    pub is_mobile: Option<bool>,
    pub has_touch: Option<bool>,
    pub is_landscape: Option<bool>,
}

impl ViewportBuilderView {
    /// The builder with nothing set.
    pub open spec fn unset() -> ViewportBuilderView {
        ViewportBuilderView {
            width: None,
            height: None,
            device_scale_factor: None,
            is_mobile: None,
            has_touch: None,
            is_landscape: None,
        }
    }

    /// The viewport that the builder describes.
    pub open spec fn built(self) -> ViewportView {
        let default = default_viewport();
        ViewportView {
            width: self.width.unwrap_or(default.width),
            height: self.height.unwrap_or(default.height),
            device_scale_factor: self.device_scale_factor.unwrap_or(default.device_scale_factor),
            is_mobile: self.is_mobile.unwrap_or(default.is_mobile),
            has_touch: self.has_touch.unwrap_or(default.has_touch),
            is_landscape: self.is_landscape.unwrap_or(default.is_landscape),
        }
    }
}

impl View for ViewportBuilder {
    type V = ViewportBuilderView;

    closed spec fn view(&self) -> ViewportBuilderView {
        ViewportBuilderView {
            width: self.width,
            height: self.height,
            device_scale_factor: match self.device_scale_factor {
                Some(d) => Some(d@),
                None => None,
            },
            is_mobile: self.is_mobile,
            has_touch: self.has_touch,
            is_landscape: self.is_landscape,
        }
    }
}

impl Default for ViewportBuilder {
    fn default() -> (builder: ViewportBuilder)
        ensures
            builder@ == ViewportBuilderView::unset(),
    {
        ViewportBuilder {
            width: None,
            height: None,
            device_scale_factor: None,
            is_mobile: None,
            has_touch: None,
            is_landscape: None,
        }
    }
}

impl ViewportBuilder {
    /// Sets the width in pixels.
    pub fn width(self, width: u32) -> (builder: ViewportBuilder)
        ensures
            builder@ == (ViewportBuilderView { width: Some(width), ..self@ }),
    {
        ViewportBuilder { width: Some(width), ..self }
    }

    /// Sets the height in pixels.
    pub fn height(self, height: u32) -> (builder: ViewportBuilder)
        ensures
            builder@ == (ViewportBuilderView { height: Some(height), ..self@ }),
    {
        ViewportBuilder { height: Some(height), ..self }
    }

    /// Sets the scale.
    pub fn device_scale_factor(self, factor: Decimal) -> (builder: ViewportBuilder)
        ensures
            builder@ == (ViewportBuilderView { device_scale_factor: Some(factor@), ..self@ }),
    {
        ViewportBuilder { device_scale_factor: Some(factor), ..self }
    }

    /// Sets whether a mobile device is emulated.
    pub fn is_mobile(self, mobile: bool) -> (builder: ViewportBuilder)
        ensures
            builder@ == (ViewportBuilderView { is_mobile: Some(mobile), ..self@ }),
    {
        ViewportBuilder { is_mobile: Some(mobile), ..self }
    }

    /// Sets whether touch is emulated.
    pub fn has_touch(self, touch: bool) -> (builder: ViewportBuilder)
        ensures
            builder@ == (ViewportBuilderView { has_touch: Some(touch), ..self@ }),
    {
        ViewportBuilder { has_touch: Some(touch), ..self }
    }

    /// Sets whether the screen is in landscape orientation.
    pub fn is_landscape(self, landscape: bool) -> (builder: ViewportBuilder)
        ensures
            builder@ == (ViewportBuilderView { is_landscape: Some(landscape), ..self@ }),
    {
        ViewportBuilder { is_landscape: Some(landscape), ..self }
    }

    /// The viewport with what was set, and the default for the rest.
    pub fn build(self) -> (viewport: Viewport)
        ensures
            viewport@ == self@.built(),
    {
        Viewport {
            width: match self.width {
                Some(w) => w,
                None => 800,
            },
            height: match self.height {
                Some(h) => h,
                None => 600,
            },
            device_scale_factor: match self.device_scale_factor {
                Some(d) => d,
                None => Decimal::whole(1),
            },
            is_mobile: match self.is_mobile {
                Some(b) => b,
                None => false,
            },
            has_touch: match self.has_touch {
                Some(b) => b,
                None => false,
            },
            is_landscape: match self.is_landscape {
                Some(b) => b,
                None => false,
            },
        }
    }
}

/// A rectangle of the page, in logical pixels, and the scale at which it is
/// captured.
#[derive(Debug, PartialEq, Eq)]
pub struct ClipRegion {
    pub x: Decimal,
    pub y: Decimal,
    pub width: Decimal,
    pub height: Decimal,
    pub scale: Decimal,
}

/// The mathematical value of a [`ClipRegion`].
pub struct ClipRegionView {
    pub x: Seq<char>,
    pub y: Seq<char>,
    pub width: Seq<char>,
    pub height: Seq<char>,
    pub scale: Seq<char>,
}

impl View for ClipRegion {
    type V = ClipRegionView;

    open spec fn view(&self) -> ClipRegionView {
        ClipRegionView {
            x: self.x@,
            y: self.y@,
            width: self.width@,
            height: self.height@,
            scale: self.scale@,
        }
    }
}

/// The scale of a region that is captured as it is laid out.
pub open spec fn unit_scale() -> Seq<char> {
    decimal(1) + ".0"@
}

impl ClipRegion {
    /// The region with the given corner and extent, at scale 1.
    pub fn new(x: Decimal, y: Decimal, width: Decimal, height: Decimal) -> (clip: ClipRegion)
        ensures
            clip@ == (ClipRegionView {
                x: x@,
                y: y@,
                width: width@,
                height: height@,
                scale: unit_scale(),
            }),
    {
        ClipRegion { x, y, width, height, scale: Decimal::whole(1) }
    }

    /// The same region captured at another scale.
    pub fn with_scale(self, scale: Decimal) -> (clip: ClipRegion)
        ensures
            clip@ == (ClipRegionView { scale: scale@, ..self@ }),
    {
        ClipRegion { scale, ..self }
    }
}

impl Clone for ClipRegion {
    fn clone(&self) -> (copy: ClipRegion)
        ensures
            copy@ == self@,
    {
        ClipRegion {
            x: self.x.clone(),
            y: self.y.clone(),
            width: self.width.clone(),
            height: self.height.clone(),
            scale: self.scale.clone(),
        }
    }
}

/// The value of an optional viewport.
pub open spec fn viewport_view(viewport: Option<Viewport>) -> Option<ViewportView> {
    match viewport {
        Some(v) => Some(v@),
        None => None,
    }
}

/// The value of an optional clip region.
pub open spec fn clip_view(clip: Option<ClipRegion>) -> Option<ClipRegionView> {
    match clip {
        Some(c) => Some(c@),
        None => None,
    }
}

/// What to capture and how to encode it.
#[derive(Debug, PartialEq, Eq)]
pub struct CaptureOptions {
    format: ImageFormat,
    quality: Option<u8>,
    viewport: Option<Viewport>,
    full_page: bool,
    omit_background: bool,
    clip: Option<ClipRegion>,
}

/// The mathematical value of [`CaptureOptions`].
pub struct CaptureOptionsView {
    pub format: ImageFormat,
    /// Encoding quality, at most 100.
    pub quality: Option<u8>,
    pub viewport: Option<ViewportView>,
    pub full_page: bool,
    pub omit_background: bool,
    pub clip: Option<ClipRegionView>,
}

impl CaptureOptionsView {
    /// The options used where none are given: JPEG, the rest unset.
    pub open spec fn unset() -> CaptureOptionsView {
        CaptureOptionsView {
            format: ImageFormat::Jpeg,
            quality: None,
            viewport: None,
            full_page: false,
            omit_background: false,
            clip: None,
        }
    }

    /// The quality that the encoder is given where the format takes one.
    pub open spec fn effective_quality(self) -> u8 {
        match self.quality {
            Some(q) => q,
            None => 90,
        }
    }

    /// Whether the page background is made transparent for the capture.
    pub open spec fn transparent(self) -> bool {
        self.omit_background && self.format == ImageFormat::Png
    }
}

impl View for CaptureOptions {
    type V = CaptureOptionsView;

    closed spec fn view(&self) -> CaptureOptionsView {
        CaptureOptionsView {
            format: self.format,
            quality: self.quality,
            viewport: viewport_view(self.viewport),
            full_page: self.full_page,
            omit_background: self.omit_background,
            clip: clip_view(self.clip),
        }
    }
}

impl Default for CaptureOptions {
    fn default() -> (options: CaptureOptions)
        ensures
            options@ == CaptureOptionsView::unset(),
    {
        CaptureOptions {
            format: ImageFormat::Jpeg,
            quality: None,
            viewport: None,
            full_page: false,
            omit_background: false,
            clip: None,
        }
    }
}

impl Clone for CaptureOptions {
    fn clone(&self) -> (copy: CaptureOptions)
        ensures
            copy@ == self@,
    {
        proof {
            use_type_invariant(self);
        }
        CaptureOptions {
            format: self.format,
            quality: self.quality,
            viewport: match &self.viewport {
                Some(v) => Some(v.clone()),
                None => None,
            },
            full_page: self.full_page,
            omit_background: self.omit_background,
            clip: match &self.clip {
                Some(c) => Some(c.clone()),
                None => None,
            },
        }
    }
}

impl CaptureOptions {
    #[verifier::type_invariant]
    spec fn quality_in_range(self) -> bool {
        self.quality matches Some(q) ==> q <= 100
    }

    /// The default options: JPEG, the rest unset.
    pub fn new() -> (options: CaptureOptions)
        ensures
            options@ == CaptureOptionsView::unset(),
    {
        CaptureOptions::default()
    }

    /// Sets the image format.
    pub fn with_format(self, format: ImageFormat) -> (options: CaptureOptions)
        ensures
            options@ == (CaptureOptionsView { format, ..self@ }),
    {
        proof {
            use_type_invariant(&self);
        }
        CaptureOptions { format, ..self }
    }

    /// Sets the quality, lowered to 100 where it is more.
    pub fn with_quality(self, quality: u8) -> (options: CaptureOptions)
        ensures
            options@ == (CaptureOptionsView {
                quality: Some(if quality <= 100 { quality } else { 100u8 }),
                ..self@
            }),
    {
        let capped: u8 = if quality <= 100 {
            quality
        } else {
            100
        };
        CaptureOptions { quality: Some(capped), ..self }
    }

    /// Sets the viewport that is applied before the capture.
    pub fn with_viewport(self, viewport: Viewport) -> (options: CaptureOptions)
        ensures
            options@ == (CaptureOptionsView { viewport: Some(viewport@), ..self@ }),
    {
        proof {
            use_type_invariant(&self);
        }
        CaptureOptions { viewport: Some(viewport), ..self }
    }

    /// Sets whether the capture reaches beyond the viewport.
    pub fn with_full_page(self, full_page: bool) -> (options: CaptureOptions)
        ensures
            options@ == (CaptureOptionsView { full_page, ..self@ }),
    {
        proof {
            use_type_invariant(&self);
        }
        CaptureOptions { full_page, ..self }
    }

    /// Sets whether the page background is left out; this takes effect for PNG
    /// only.
    pub fn with_omit_background(self, omit: bool) -> (options: CaptureOptions)
        ensures
            options@ == (CaptureOptionsView { omit_background: omit, ..self@ }),
    {
        proof {
            use_type_invariant(&self);
        }
        CaptureOptions { omit_background: omit, ..self }
    }

    /// Sets the region to capture.
    pub fn with_clip(self, clip: ClipRegion) -> (options: CaptureOptions)
        ensures
            options@ == (CaptureOptionsView { clip: Some(clip@), ..self@ }),
    {
        proof {
            use_type_invariant(&self);
        }
        CaptureOptions { clip: Some(clip), ..self }
    }

    /// PNG, the rest unset.
    pub fn raw_png() -> (options: CaptureOptions)
        ensures
            options@ == (CaptureOptionsView {
                format: ImageFormat::Png,
                ..CaptureOptionsView::unset()
            }),
    {
        CaptureOptions::new().with_format(ImageFormat::Png)
    }

    /// JPEG at quality 95.
    pub fn high_quality_jpeg() -> (options: CaptureOptions)
        ensures
            options@ == (CaptureOptionsView {
                format: ImageFormat::Jpeg,
                quality: Some(95u8),
                ..CaptureOptionsView::unset()
            }),
    {
        CaptureOptions::new().with_format(ImageFormat::Jpeg).with_quality(95)
    }

    /// The default viewport at scale 2.
    pub fn hidpi() -> (options: CaptureOptions)
        ensures
            options@ == (CaptureOptionsView {
                viewport: Some(
                    ViewportView {
                        device_scale_factor: decimal(2) + ".0"@,
                        ..default_viewport()
                    },
                ),
                ..CaptureOptionsView::unset()
            }),
    {
        CaptureOptions::new().with_viewport(
            Viewport::default().with_device_scale_factor(Decimal::whole(2)),
        )
    }

    /// The default viewport at scale 3.
    pub fn ultra_hidpi() -> (options: CaptureOptions)
        ensures
            options@ == (CaptureOptionsView {
                viewport: Some(
                    ViewportView {
                        device_scale_factor: decimal(3) + ".0"@,
                        ..default_viewport()
                    },
                ),
                ..CaptureOptionsView::unset()
            }),
    {
        CaptureOptions::new().with_viewport(
            Viewport::default().with_device_scale_factor(Decimal::whole(3)),
        )
    }

    /// Sets the format to PNG where `raw` holds, to JPEG where it does not.
    pub fn with_raw_png(self, raw: bool) -> (options: CaptureOptions)
        ensures
            options@ == (CaptureOptionsView {
                format: if raw {
                    ImageFormat::Png
                } else {
                    ImageFormat::Jpeg
                },
                ..self@
            }),
    {
        let format = if raw {
            ImageFormat::Png
        } else {
            ImageFormat::Jpeg
        };
        self.with_format(format)
    }

    /// The image format.
    pub fn format(&self) -> (format: ImageFormat)
        ensures
            format == self@.format,
    {
        self.format
    }

    /// The quality that was set, if any: never more than 100.
    pub fn quality(&self) -> (quality: Option<u8>)
        ensures
            quality == self@.quality,
            quality matches Some(q) ==> q <= 100,
    {
        proof {
            use_type_invariant(self);
        }
        self.quality
    }

    /// The quality that the encoder is given where the format takes one:
    /// what was set, 90 where nothing was.
    pub fn effective_quality(&self) -> (quality: u8)
        ensures
            quality == self@.effective_quality(),
            quality <= 100,
    {
        proof {
            use_type_invariant(self);
        }
        match self.quality {
            Some(q) => q,
            None => 90,
        }
    }

    /// The viewport to set before the capture, if any.
    pub fn viewport(&self) -> (viewport: Option<Viewport>)
        ensures
            viewport_view(viewport) == self@.viewport,
    {
        match &self.viewport {
            Some(v) => Some(v.clone()),
            None => None,
        }
    }

    /// Whether the capture reaches beyond the viewport.
    pub fn full_page(&self) -> (full_page: bool)
        ensures
            full_page == self@.full_page,
    {
        self.full_page
    }

    /// Whether the page background is made transparent for the capture:
    /// where that was asked for and the format is PNG.
    pub fn transparent(&self) -> (transparent: bool)
        ensures
            transparent == self@.transparent(),
    {
        self.omit_background && matches!(self.format, ImageFormat::Png)
    }

    /// The region to capture, if one was given.
    pub fn clip(&self) -> (clip: Option<ClipRegion>)
        ensures
            clip_view(clip) == self@.clip,
    {
        match &self.clip {
            Some(c) => Some(c.clone()),
            None => None,
        }
    }
}

} // verus!
