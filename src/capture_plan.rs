use vstd::prelude::*;

verus! {

/// The images that take part in a capture.
#[derive(Clone, Copy, Debug, PartialEq, Eq, Structural)]
pub enum CaptureImage {
    /// The swapchain image that was last presented.
    Present,
    /// The image the presented frame is blitted (and converted) into.
    Target,
    /// The linear, host-visible image used only on the two-step path.
    Staging,
}

/// The layouts an image passes through during a capture.
#[derive(Clone, Copy, Debug, PartialEq, Eq, Structural)]
pub enum ImageLayout {
    Undefined,
    PresentSrc,
    TransferSrc,
    TransferDst,
    General,
}

/// One command recorded into the capture command buffer.
#[derive(Clone, Copy, Debug, PartialEq, Eq, Structural)]
pub enum CaptureCommand {
    /// A layout transition barrier.
    Transition { image: CaptureImage, from: ImageLayout, to: ImageLayout },
    /// A blit, which converts the source format into the destination format.
    Blit { src: CaptureImage, dst: CaptureImage },
    /// A byte-exact copy between images of the same format.
    Copy { src: CaptureImage, dst: CaptureImage },
}

/// What an image holds, as far as the capture is concerned.
#[derive(Clone, Copy, Debug, PartialEq, Eq, Structural)]
pub enum Content {
    /// Nothing of use.
    Stale,
    /// The presented frame in the surface format.
    Frame,
    /// The presented frame converted into the capture format.
    Converted,
}

/// The layout and content of one image.
pub struct ImageState {
    pub layout: ImageLayout,
    pub content: Content,
}

/// The state of the three capture images, and whether every command so far
/// was legal (each barrier names the image's current layout, or `Undefined`
/// to discard it, and each transfer finds its images in transfer layouts).
pub struct CaptureState {
    pub present: ImageState,
    pub target: ImageState,
    pub staging: ImageState,
    pub valid: bool,
}

/// The state of one capture image.
pub open spec fn image_state(s: CaptureState, image: CaptureImage) -> ImageState {
    match image {
        CaptureImage::Present => s.present,
        CaptureImage::Target => s.target,
        CaptureImage::Staging => s.staging,
    }
}

/// The capture state with one image replaced.
pub open spec fn with_image(s: CaptureState, image: CaptureImage, st: ImageState) -> CaptureState {
    match image {
        CaptureImage::Present => CaptureState { present: st, ..s },
        CaptureImage::Target => CaptureState { target: st, ..s },
        CaptureImage::Staging => CaptureState { staging: st, ..s },
    }
}

/// What a blit writes: the converted frame when it reads the frame.
pub open spec fn blit_content(src: Content) -> Content {
    if src == Content::Frame {
        Content::Converted
    } else {
        Content::Stale
    }
}

/// The effect of one command on the capture images.
pub open spec fn apply(s: CaptureState, c: CaptureCommand) -> CaptureState {
    match c {
        CaptureCommand::Transition { image, from, to } => {
            let cur = image_state(s, image);
            let content = if from == ImageLayout::Undefined {
                Content::Stale
            } else {
                cur.content
            };
            let legal = from == ImageLayout::Undefined || from == cur.layout;
            let next = with_image(s, image, ImageState { layout: to, content });
            CaptureState { valid: s.valid && legal, ..next }
        },
        CaptureCommand::Blit { src, dst } => {
            let a = image_state(s, src);
            let b = image_state(s, dst);
            let legal = src != dst && a.layout == ImageLayout::TransferSrc && b.layout
                == ImageLayout::TransferDst;
            let next = with_image(
                s,
                dst,
                ImageState { layout: b.layout, content: blit_content(a.content) },
            );
            CaptureState { valid: s.valid && legal, ..next }
        },
        CaptureCommand::Copy { src, dst } => {
            let a = image_state(s, src);
            let b = image_state(s, dst);
            let legal = src != dst && a.layout == ImageLayout::TransferSrc && b.layout
                == ImageLayout::TransferDst;
            let next = with_image(s, dst, ImageState { layout: b.layout, content: a.content });
            CaptureState { valid: s.valid && legal, ..next }
        },
    }
}

/// The effect of a sequence of commands, front to back.
pub open spec fn run(s: CaptureState, cmds: Seq<CaptureCommand>) -> CaptureState
    decreases cmds.len(),
{
    if cmds.len() == 0 {
        s
    } else {
        run(apply(s, cmds[0]), cmds.drop_first())
    }
}

/// The image that the host reads after a capture.
pub open spec fn readable_image_of(two_step: bool) -> CaptureImage {
    if two_step {
        CaptureImage::Staging
    } else {
        CaptureImage::Target
    }
}

/// Names the image whose memory the host reads after a capture.
pub fn readable_image(two_step: bool) -> (r: CaptureImage)
    ensures
        r == readable_image_of(two_step),
{
    if two_step {
        CaptureImage::Staging
    } else {
        CaptureImage::Target
    }
}

/// The commands of one capture. The presented image goes to a transfer-source
/// layout, the target is blitted from it (the blit converts the format); on
/// the two-step path the target is then copied into the staging image. The
/// readable image ends in the general layout, the presented image goes back to
/// the present layout.
pub open spec fn capture_commands_of(two_step: bool) -> Seq<CaptureCommand> {
    let head = seq![
        CaptureCommand::Transition {
            image: CaptureImage::Present,
            from: ImageLayout::PresentSrc,
            to: ImageLayout::TransferSrc,
        },
        CaptureCommand::Transition {
            image: CaptureImage::Target,
            from: ImageLayout::Undefined,
            to: ImageLayout::TransferDst,
        },
        CaptureCommand::Blit { src: CaptureImage::Present, dst: CaptureImage::Target },
    ];
    let middle = if two_step {
        seq![
            CaptureCommand::Transition {
                image: CaptureImage::Staging,
                from: ImageLayout::Undefined,
                to: ImageLayout::TransferDst,
            },
            CaptureCommand::Transition {
                image: CaptureImage::Target,
                from: ImageLayout::TransferDst,
                to: ImageLayout::TransferSrc,
            },
            CaptureCommand::Copy { src: CaptureImage::Target, dst: CaptureImage::Staging },
        ]
    } else {
        seq![]
    };
    let tail = seq![
        CaptureCommand::Transition {
            image: readable_image_of(two_step),
            from: ImageLayout::TransferDst,
            to: ImageLayout::General,
        },
        CaptureCommand::Transition {
            image: CaptureImage::Present,
            from: ImageLayout::TransferSrc,
            to: ImageLayout::PresentSrc,
        },
    ];
    head + middle + tail
}

/// Builds the command list of one capture.
pub fn capture_commands(two_step: bool) -> (r: Vec<CaptureCommand>)
    ensures
        r@ == capture_commands_of(two_step),
{
    let mut r: Vec<CaptureCommand> = Vec::new();
    r.push(
        CaptureCommand::Transition {
            image: CaptureImage::Present,
            from: ImageLayout::PresentSrc,
            to: ImageLayout::TransferSrc,
        },
    );
    r.push(
        CaptureCommand::Transition {
            image: CaptureImage::Target,
            from: ImageLayout::Undefined,
            to: ImageLayout::TransferDst,
        },
    );
    r.push(CaptureCommand::Blit { src: CaptureImage::Present, dst: CaptureImage::Target });
    if two_step {
        r.push(
            CaptureCommand::Transition {
                image: CaptureImage::Staging,
                from: ImageLayout::Undefined,
                to: ImageLayout::TransferDst,
            },
        );
        r.push(
            CaptureCommand::Transition {
                image: CaptureImage::Target,
                from: ImageLayout::TransferDst,
                to: ImageLayout::TransferSrc,
            },
        );
        r.push(CaptureCommand::Copy { src: CaptureImage::Target, dst: CaptureImage::Staging });
    }
    let readable = readable_image(two_step);
    r.push(
        CaptureCommand::Transition {
            image: readable,
            from: ImageLayout::TransferDst,
            to: ImageLayout::General,
        },
    );
    r.push(
        CaptureCommand::Transition {
            image: CaptureImage::Present,
            from: ImageLayout::TransferSrc,
            to: ImageLayout::PresentSrc,
        },
    );
    assert(r@ =~= capture_commands_of(two_step));
    r
}

/// The state before a capture: the presented image holds the frame in the
/// present layout; the other images may hold anything.
pub open spec fn ready_for_capture(s: CaptureState) -> bool {
    &&& s.valid
    &&& s.present == ImageState { layout: ImageLayout::PresentSrc, content: Content::Frame }
}

/// Both capture paths are legal and leave the host-readable image holding the
/// presented frame converted into the capture format, in the general layout,
/// with the presented image back in the present layout. The host then reads
/// that image with the same function on either path, so the two paths give
/// the same bytes for the same frame.
pub proof fn lemma_capture_paths_agree(s: CaptureState, two_step: bool)
    requires
        ready_for_capture(s),
    ensures
        run(s, capture_commands_of(two_step)).valid,
        image_state(run(s, capture_commands_of(two_step)), readable_image_of(two_step))
            == (ImageState { layout: ImageLayout::General, content: Content::Converted }),
        run(s, capture_commands_of(two_step)).present == s.present,
        run(s, capture_commands_of(two_step)).present == run(s, capture_commands_of(!two_step)).present,
        image_state(run(s, capture_commands_of(two_step)), readable_image_of(two_step))
            == image_state(run(s, capture_commands_of(!two_step)), readable_image_of(!two_step)),
{
    lemma_capture_path(s, true);
    lemma_capture_path(s, false);
}

proof fn lemma_capture_path(s: CaptureState, two_step: bool)
    requires
        ready_for_capture(s),
    ensures
        run(s, capture_commands_of(two_step)).valid,
        image_state(run(s, capture_commands_of(two_step)), readable_image_of(two_step))
            == (ImageState { layout: ImageLayout::General, content: Content::Converted }),
        run(s, capture_commands_of(two_step)).present == s.present,
{
    reveal_with_fuel(run, 9);
}

} // verus!
