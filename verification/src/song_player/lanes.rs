use crate::environment::actor_wrapper::{
    ActorWrapper,
    DrawCommand,
    RenderDetails,
    RenderPayload,
    RenderTarget,
    RenderableActorWrapper,
    UpdatePayload,
};
use crate::environment::update_routine::EnvelopeSink;
use vstd::prelude::*;

verus! {

/// Why decoding a lane texture image failed.
#[derive(Debug, Clone, Copy, PartialEq, Eq, Structural)]
pub enum ImageDecodeError {
    InvalidImage,
}

/// What decoding an encoded image yields: the RGBA8 dimensions and pixel
/// bytes, or nothing when the bytes are not a decodable image. The decode
/// result depends on the bytes alone.
pub uninterp spec fn rgba_of(bytes: Seq<u8>) -> Option<(u32, u32, Seq<u8>)>;

/// Relies on `image::load_from_memory` followed by
/// `DynamicImage::to_rgba8` and `ImageBuffer::into_raw`: the decode is a
/// function of the bytes alone (named `rgba_of`), and a decoded RGBA8
/// buffer holds exactly four bytes per pixel, in row-major order.
#[verifier::external_body]
fn decode_rgba(bytes: &[u8]) -> (r: Result<(u32, u32, Vec<u8>), ImageDecodeError>)
    ensures
        r matches Ok(d) ==> rgba_of(bytes@) == Some((d.0, d.1, d.2@)),
        r matches Ok(d) ==> d.2@.len() == 4 * (d.0 as nat) * (d.1 as nat),
        r is Err ==> rgba_of(bytes@) is None,
{
    match image::load_from_memory(bytes) {
        Ok(img) => {
            let rgba = img.to_rgba8();
            let w = rgba.width();
            let h = rgba.height();
            Ok((w, h, rgba.into_raw()))
        },
        Err(_) => Err(ImageDecodeError::InvalidImage),
    }
}

/// A request to turn a decoded lane texture into the graphics resources the
/// lane actor draws with. The decoded pixels are plain RGBA8 bytes; the
/// GPU-side texture and pipeline creation happens on the resource-owning
/// thread when the request is handled.
#[derive(Debug, Clone, PartialEq)]
pub struct LanesInitRequest {
    pub lane_image_width: u32,
    pub lane_image_height: u32,
    pub lane_image: Vec<u8>,
}

impl LanesInitRequest {
    /// Whether the pixel buffer matches the recorded dimensions.
    pub open spec fn wf(&self) -> bool {
        self.lane_image@.len() == 4 * (self.lane_image_width as nat) * (self.lane_image_height
            as nat)
    }

    /// Decodes an encoded image (PNG or similar) into a lane-texture
    /// initialization request. Succeeds exactly when the bytes decode, and
    /// then carries exactly the decoded dimensions and pixels.
    pub fn new(img_buf: &[u8]) -> (r: Result<LanesInitRequest, ImageDecodeError>)
        ensures
            r matches Ok(req) ==> rgba_of(img_buf@) == Some(
                (req.lane_image_width, req.lane_image_height, req.lane_image@),
            ) && req.wf(),
            r is Err ==> rgba_of(img_buf@) is None && r == Err::<
                LanesInitRequest,
                ImageDecodeError,
            >(ImageDecodeError::InvalidImage),
    {
        match decode_rgba(img_buf) {
            Ok((w, h, pixels)) => Ok(
                LanesInitRequest { lane_image_width: w, lane_image_height: h, lane_image: pixels },
            ),
            Err(e) => Err(e),
        }
    }

    /// The state of the lane actor once its resources exist: this is the
    /// part of handling the request that does not touch the graphics
    /// context.
    pub fn handle(self) -> (r: Lanes)
        ensures
            r.texture_width == self.lane_image_width,
            r.texture_height == self.lane_image_height,
    {
        Lanes {
            texture_width: self.lane_image_width,
            texture_height: self.lane_image_height,
        }
    }
}

/// The lane actor: it owns no animated state of its own, only the (modelled)
/// lane texture that the graphics layer samples when drawing.
#[derive(Debug, Clone, PartialEq, Eq, Structural)]
pub struct Lanes {
    pub texture_width: u32,
    pub texture_height: u32,
}

/// What the lane actor draws: its texture over the target it was aimed at.
#[derive(Debug, Clone, Copy, PartialEq, Eq)]
pub struct LanesRenderDetails {
    pub color_target: RenderTarget,
}

impl ActorWrapper for Lanes {
    type Payload = ();

    open spec fn update_ready(&self, payload: UpdatePayload<()>) -> bool {
        true
    }

    fn update<S: EnvelopeSink>(&mut self, payload: UpdatePayload<()>, sink: &mut S)
        ensures
            *final(self) == *old(self),
    {
    }
}

impl RenderableActorWrapper for Lanes {
    type Payload = ();

    type Details = LanesRenderDetails;

    open spec fn render_ready(&self, payload: RenderPayload<()>) -> bool {
        true
    }

    fn emit_render_details(&mut self, payload: RenderPayload<()>) -> (d: LanesRenderDetails)
        ensures
            *final(self) == *old(self),
            d.color_target == payload.color_target,
    {
        LanesRenderDetails { color_target: payload.color_target }
    }
}

impl RenderDetails for LanesRenderDetails {
    fn render(self) -> (r: Vec<DrawCommand>)
        ensures
            r@ == seq![DrawCommand::Lanes { target: self.color_target }],
    {
        let mut cmds: Vec<DrawCommand> = Vec::new();
        cmds.push(DrawCommand::Lanes { target: self.color_target });
        proof {
            assert(cmds@ =~= seq![DrawCommand::Lanes { target: self.color_target }]);
        }
        cmds
    }
}

} // verus!
