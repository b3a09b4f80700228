use vstd::prelude::*;

verus! {

/// What the surface reports about the chains it can present: the least
/// image count a chain may have, the first supported pixel format and
/// compositing mode (the demo always takes the first option offered), and
/// the range of pixel dimensions the surface accepts.
#[derive(Clone, Copy, Debug, PartialEq, Eq, Structural)]
pub struct SurfaceCapabilities {
    pub min_image_count: u32,
    pub format: u32,
    pub alpha_mode: u32,
    pub min_width: u32,
    pub max_width: u32,
    pub min_height: u32,
    pub max_height: u32,
}

impl SurfaceCapabilities {
    pub open spec fn wf(self) -> bool {
        &&& self.min_image_count >= 1
        &&& self.min_width <= self.max_width
        &&& self.min_height <= self.max_height
    }

    /// The surface accepts a chain of exactly these pixel dimensions.
    pub open spec fn supports_dimensions(self, width: u32, height: u32) -> bool {
        &&& self.min_width <= width <= self.max_width
        &&& self.min_height <= height <= self.max_height
    }
}

/// The presentation chain as the loop sees it: how many presentable
/// images it holds, their pixel format, and the pixel dimensions it was
/// created with.  These are fixed at creation; a window resize replaces
/// the chain rather than mutating it.
#[derive(Clone, Copy, Debug, PartialEq, Eq, Structural)]
pub struct PresentationChain {
    pub image_count: u32,
    pub format: u32,
    pub width: u32,
    pub height: u32,
}

impl PresentationChain {
    pub open spec fn wf(self) -> bool {
        self.image_count >= 1
    }
}

/// Chain creation can fail recoverably in exactly one way: the window's
/// current dimensions fall outside the range the surface supports.  The
/// loop then skips the tick and retries; every other platform failure is
/// fatal and never reaches this type.
#[derive(Clone, Copy, Debug, PartialEq, Eq, Structural)]
pub enum ChainError {
    UnsupportedDimensions,
}

/// The chain that creation at these capabilities and dimensions yields:
/// image count pinned to the capabilities' minimum, pixel format the
/// first one the surface supports, sized exactly to the request.  The
/// demo's remaining creation parameters — strict first-in-first-out
/// presentation and colour-attachment usage only — are fixed constants,
/// so the model does not record them.
pub open spec fn created_chain(caps: SurfaceCapabilities, width: u32, height: u32) -> PresentationChain {
    PresentationChain {
        image_count: caps.min_image_count,
        format: caps.format,
        width,
        height,
    }
}

/// Everything `create_chain` promises of its result: success exactly when
/// the dimensions are supported, and the chain then determined by the
/// capabilities and the request alone.
pub open spec fn create_chain_post(
    caps: SurfaceCapabilities,
    width: u32,
    height: u32,
    r: Result<PresentationChain, ChainError>,
) -> bool {
    match r {
        Ok(c) => caps.supports_dimensions(width, height) && c == created_chain(caps, width, height),
        Err(e) => e == ChainError::UnsupportedDimensions && !caps.supports_dimensions(width, height),
    }
}

/// Create (or recreate) the presentation chain at the given pixel
/// dimensions.  Succeeds if and only if the surface supports those
/// dimensions; the resulting chain takes the minimum image count and the
/// first supported format, as the demo always does.
pub fn create_chain(caps: &SurfaceCapabilities, width: u32, height: u32) -> (r: Result<
    PresentationChain,
    ChainError,
>)
    requires
        caps.wf(),
    ensures
        create_chain_post(*caps, width, height, r),
        (r matches Ok(c) ==> c.wf()),
{
    if caps.min_width <= width && width <= caps.max_width && caps.min_height <= height
        && height <= caps.max_height {
        Ok(
            PresentationChain {
                image_count: caps.min_image_count,
                format: caps.format,
                width,
                height,
            },
        )
    } else {
        Err(ChainError::UnsupportedDimensions)
    }
}

/// One render destination per presentable image: the image it binds as
/// its sole colour attachment, and the extent and format it inherits from
/// the chain generation that produced it.
#[derive(Clone, Copy, Debug, PartialEq, Eq, Structural)]
pub struct FrameTarget {
    pub image_index: u32,
    pub width: u32,
    pub height: u32,
    pub format: u32,
}

/// The frame target that image `i` of chain `c` gets.
pub open spec fn target_for(c: PresentationChain, i: int) -> FrameTarget {
    FrameTarget { image_index: i as u32, width: c.width, height: c.height, format: c.format }
}

/// The targets `ts` are exactly the targets of chain `c`: one per
/// presentable image, in image order, each bound to that image alone.
pub open spec fn targets_match(ts: Seq<FrameTarget>, c: PresentationChain) -> bool {
    &&& ts.len() == c.image_count
    &&& forall|i: int| 0 <= i < ts.len() ==> ts[i] == target_for(c, i)
}

/// Build one frame target per presentable image of the chain.  This is a
/// pure function of the chain: calling it again on the same chain yields
/// the same targets, so targets can be rebuilt freely whenever the chain
/// is replaced.
pub fn build_frame_targets(chain: &PresentationChain) -> (r: Vec<FrameTarget>)
    ensures
        targets_match(r@, *chain),
{
    let mut targets: Vec<FrameTarget> = Vec::new();
    let mut i: u32 = 0;
    while i < chain.image_count
        invariant
            i <= chain.image_count,
            targets@.len() == i,
            forall|j: int| 0 <= j < i ==> targets@[j] == target_for(*chain, j),
        decreases chain.image_count - i,
    {
        targets.push(
            FrameTarget {
                image_index: i,
                width: chain.width,
                height: chain.height,
                format: chain.format,
            },
        );
        i = i + 1;
    }
    targets
}

/// The viewport covering a full image of the chain: origin at the top
/// left corner, extent the whole image.  (Its depth range is the fixed
/// unit interval; only the integer pixel extent varies.)
#[derive(Clone, Copy, Debug, PartialEq, Eq, Structural)]
pub struct FullViewport {
    pub x: u32,
    pub y: u32,
    pub width: u32,
    pub height: u32,
}

/// Viewport matching the current chain extent, as rebuilt alongside the
/// frame targets after every chain recreation.
pub fn viewport_for(chain: &PresentationChain) -> (v: FullViewport)
    ensures
        v == (FullViewport { x: 0, y: 0, width: chain.width, height: chain.height }),
{
    FullViewport { x: 0, y: 0, width: chain.width, height: chain.height }
}

/// Chain recreation idempotence: two creations at the same capabilities
/// and the same dimensions yield the same outcome — in particular, on
/// success, chains with the same image count and the same format.
pub proof fn lemma_chain_recreation_idempotent(
    caps: SurfaceCapabilities,
    width: u32,
    height: u32,
    r1: Result<PresentationChain, ChainError>,
    r2: Result<PresentationChain, ChainError>,
)
    requires
        create_chain_post(caps, width, height, r1),
        create_chain_post(caps, width, height, r2),
    ensures
        r1 == r2,
        r1 matches Ok(c1) ==> (r2 matches Ok(c2) ==> c1.image_count == c2.image_count
            && c1.format == c2.format),
{
}

} // verus!
