//! What the GPU collaborator can do with a surface, and what the core picks.
//!
//! The collaborator lists the formats, the present modes and the alpha modes
//! that a surface supports. The core chooses among them by fixed rules and
//! keeps the choice with the window.

use vstd::prelude::*;

verus! {

/// When a finished frame reaches the screen.
#[derive(Debug, Clone, Copy, PartialEq, Eq, Structural)]
pub enum PresentMode {
    AutoVsync,
    AutoNoVsync,
    Fifo,
    FifoRelaxed,
    Immediate,
    Mailbox,
}

/// How the surface blends with what lies behind the window.
#[derive(Debug, Clone, Copy, PartialEq, Eq, Structural)]
pub enum AlphaMode {
    Auto,
    Opaque,
    PreMultiplied,
    PostMultiplied,
    Inherit,
}

/// What a surface supports, each list in the collaborator's order of
/// preference. A format is known here by its place in the list and by whether
/// it stores colours in the sRGB encoding.
#[derive(Debug, Clone, PartialEq, Eq)]
pub struct SurfaceCaps {
    /// For each format, whether it is an sRGB format.
    pub formats_srgb: Vec<bool>,
    pub present_modes: Vec<PresentMode>,
    pub alpha_modes: Vec<AlphaMode>,
}

/// The mathematical content of a `SurfaceCaps`.
pub struct SurfaceCapsView {
    pub formats_srgb: Seq<bool>,
    pub present_modes: Seq<PresentMode>,
    pub alpha_modes: Seq<AlphaMode>,
}

impl View for SurfaceCaps {
    type V = SurfaceCapsView;

    open spec fn view(&self) -> SurfaceCapsView {
        SurfaceCapsView {
            formats_srgb: self.formats_srgb@,
            present_modes: self.present_modes@,
            alpha_modes: self.alpha_modes@,
        }
    }
}

impl SurfaceCaps {
    /// A copy of the capabilities.
    pub fn duplicate(&self) -> (r: SurfaceCaps)
        ensures
            r@ == self@,
    {
        SurfaceCaps {
            formats_srgb: self.formats_srgb.clone(),
            present_modes: self.present_modes.clone(),
            alpha_modes: self.alpha_modes.clone(),
        }
    }
}

/// Number of frames that may wait for the screen.
pub const FRAME_LATENCY: u32 = 2;

/// How the surface of one window is set up.
#[derive(Debug, Clone, Copy, PartialEq, Eq, Structural)]
pub struct SurfaceConfig {
    pub width: u32,
    pub height: u32,
    pub present_mode: PresentMode,
    /// The place of the chosen format in the list of supported formats.
    pub format: usize,
    pub alpha_mode: AlphaMode,
    pub desired_maximum_frame_latency: u32,
}

/// Whether `i` is the place of the first sRGB format of the list.
pub open spec fn is_first_srgb(formats_srgb: Seq<bool>, i: int) -> bool {
    &&& 0 <= i < formats_srgb.len()
    &&& formats_srgb[i]
    &&& forall|j: int| 0 <= j < i ==> !formats_srgb[j]
}

/// Whether the list holds no sRGB format.
pub open spec fn has_no_srgb(formats_srgb: Seq<bool>) -> bool {
    forall|j: int| 0 <= j < formats_srgb.len() ==> !formats_srgb[j]
}

/// The place of the format that the core picks: the first sRGB format, or the
/// first format of all where none is sRGB.
pub open spec fn chosen_format(formats_srgb: Seq<bool>) -> int {
    if has_no_srgb(formats_srgb) {
        0
    } else {
        choose|i: int| is_first_srgb(formats_srgb, i)
    }
}

/// The present mode that the core picks: `Mailbox` where the surface supports
/// it, else `Fifo`.
pub open spec fn chosen_present_mode(present_modes: Seq<PresentMode>) -> PresentMode {
    if present_modes.contains(PresentMode::Mailbox) {
        PresentMode::Mailbox
    } else {
        PresentMode::Fifo
    }
}

/// Whether a surface with these capabilities can be set up at all: it supports
/// at least one format and one alpha mode.
pub open spec fn usable(caps: SurfaceCapsView) -> bool {
    caps.formats_srgb.len() > 0 && caps.alpha_modes.len() > 0
}

/// The setup that the core picks for a surface of the given size.
pub open spec fn chosen_config(caps: SurfaceCapsView, width: u32, height: u32) -> SurfaceConfig
    recommends
        usable(caps),
{
    SurfaceConfig {
        width,
        height,
        present_mode: chosen_present_mode(caps.present_modes),
        format: chosen_format(caps.formats_srgb) as usize,
        alpha_mode: caps.alpha_modes[0],
        desired_maximum_frame_latency: FRAME_LATENCY,
    }
}

/// The first sRGB format of a list is unique, and where there is one the core
/// picks it.
pub proof fn lemma_chosen_format(formats_srgb: Seq<bool>, i: int)
    requires
        is_first_srgb(formats_srgb, i),
    ensures
        chosen_format(formats_srgb) == i,
{
}

/// Finds the format to use.
pub fn select_format(formats_srgb: &Vec<bool>) -> (r: usize)
    ensures
        r == chosen_format(formats_srgb@),
        formats_srgb@.len() > 0 ==> r < formats_srgb@.len(),
{
    let n = formats_srgb.len();
    let mut i: usize = 0;
    while i < n
        invariant
            n == formats_srgb@.len(),
            i <= n,
            forall|j: int| 0 <= j < i ==> !formats_srgb@[j],
        decreases n - i,
    {
        if formats_srgb[i] {
            proof {
                lemma_chosen_format(formats_srgb@, i as int);
            }
            return i;
        }
        i += 1;
    }
    0
}

/// Finds the present mode to use.
pub fn select_present_mode(present_modes: &Vec<PresentMode>) -> (r: PresentMode)
    ensures
        r == chosen_present_mode(present_modes@),
{
    let n = present_modes.len();
    let mut i: usize = 0;
    while i < n
        invariant
            n == present_modes@.len(),
            i <= n,
            forall|j: int| 0 <= j < i ==> present_modes@[j] != PresentMode::Mailbox,
        decreases n - i,
    {
        if present_modes[i] == PresentMode::Mailbox {
            return PresentMode::Mailbox;
        }
        i += 1;
    }
    PresentMode::Fifo
}

/// Sets up a surface of the given size, or tells that it cannot be set up.
pub fn select_config(caps: &SurfaceCaps, width: u32, height: u32) -> (r: Option<SurfaceConfig>)
    ensures
        r == if usable(caps@) {
            Some(chosen_config(caps@, width, height))
        } else {
            None
        },
{
    if caps.formats_srgb.len() == 0 || caps.alpha_modes.len() == 0 {
        return None;
    }
    Some(
        SurfaceConfig {
            width,
            height,
            present_mode: select_present_mode(&caps.present_modes),
            format: select_format(&caps.formats_srgb),
            alpha_mode: caps.alpha_modes[0],
            desired_maximum_frame_latency: FRAME_LATENCY,
        },
    )
}

} // verus!
