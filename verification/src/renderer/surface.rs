//! Native surface configuration choices and the surface resize lifecycle.
//!
//! A surface reports its capabilities as lists of texture formats, present
//! modes and alpha modes. The planner reads of each entry only what it decides
//! on, and answers with positions in those lists, so the platform layer can
//! build the native configuration from its own values.

use vstd::prelude::*;

use crate::text::{append_decimal, append_str, decimal};

verus! {

/// Errors produced when choosing a native surface configuration.
#[derive(Debug, Clone, Copy, PartialEq, Eq, Structural)]
pub enum SurfaceConfigError {
    /// Surface dimensions must be non-zero.
    InvalidSize {
        /// Requested surface width.
        width: u32,
        /// Requested surface height.
        height: u32,
    },
    /// The surface reported no supported texture formats.
    NoSupportedFormats,
    /// The surface reported no supported presentation modes.
    NoSupportedPresentModes,
    /// The surface reported no supported alpha modes.
    NoSupportedAlphaModes,
    /// The surface cannot be rendered into.
    MissingRenderAttachmentUsage,
}

/// The text describing `e`.
pub open spec fn config_error_text(e: SurfaceConfigError) -> Seq<char> {
    match e {
        SurfaceConfigError::InvalidSize { width, height } => "surface dimensions must be non-zero, got "@ + decimal(
            width as nat,
        ) + "x"@ + decimal(height as nat),
        SurfaceConfigError::NoSupportedFormats => "surface reported no supported texture formats"@,
        SurfaceConfigError::NoSupportedPresentModes => "surface reported no supported presentation modes"@,
        SurfaceConfigError::NoSupportedAlphaModes => "surface reported no supported alpha modes"@,
        SurfaceConfigError::MissingRenderAttachmentUsage => "surface does not support render attachment usage"@,
    }
}

impl SurfaceConfigError {
    /// The text describing this error.
    pub fn message(&self) -> (s: String)
        ensures
            s@ == config_error_text(*self),
    {
        match self {
            SurfaceConfigError::InvalidSize { width, height } => {
                let mut s = "surface dimensions must be non-zero, got ".to_owned();
                append_decimal(&mut s, *width as u64);
                append_str(&mut s, "x");
                append_decimal(&mut s, *height as u64);
                s
            },
            SurfaceConfigError::NoSupportedFormats => "surface reported no supported texture formats".to_owned(),
            SurfaceConfigError::NoSupportedPresentModes => "surface reported no supported presentation modes".to_owned(),
            SurfaceConfigError::NoSupportedAlphaModes => "surface reported no supported alpha modes".to_owned(),
            SurfaceConfigError::MissingRenderAttachmentUsage => "surface does not support render attachment usage".to_owned(),
        }
    }
}

/// What the planner reads of a supported texture format.
#[derive(Debug, Clone, Copy, PartialEq, Eq, Structural)]
pub enum SurfaceFormatKind {
    /// 8-bit BGRA with sRGB encoding.
    Bgra8UnormSrgb,
    /// 8-bit RGBA with sRGB encoding.
    Rgba8UnormSrgb,
    /// Any other format; `srgb` tells whether it is sRGB-encoded.
    Other {
        /// Whether the format is sRGB-encoded.
        srgb: bool,
    },
}

/// What the planner reads of a supported presentation mode.
#[derive(Debug, Clone, Copy, PartialEq, Eq, Structural)]
pub enum SurfacePresentKind {
    /// First-in first-out vsync presentation.
    Fifo,
    /// Any other presentation mode.
    Other,
}

/// What the planner reads of a supported alpha compositing mode.
#[derive(Debug, Clone, Copy, PartialEq, Eq, Structural)]
pub enum SurfaceAlphaKind {
    /// Opaque compositing.
    Opaque,
    /// Any other compositing mode.
    Other,
}

/// Capabilities a surface reports, in the order it reports them.
#[derive(Debug, Clone, PartialEq, Eq)]
pub struct SurfaceCapabilitySet {
    /// Supported texture formats.
    pub formats: Vec<SurfaceFormatKind>,
    /// Supported presentation modes.
    pub present_modes: Vec<SurfacePresentKind>,
    /// Supported alpha compositing modes.
    pub alpha_modes: Vec<SurfaceAlphaKind>,
    /// Whether the surface can be used as a render attachment.
    pub render_attachment: bool,
}

/// A chosen surface configuration: positions in the reported capability lists,
/// and the surface size.
#[derive(Debug, Clone, Copy, PartialEq, Eq, Structural)]
pub struct SurfaceConfigChoice {
    /// Position of the chosen texture format.
    pub format: usize,
    /// Position of the chosen presentation mode.
    pub present_mode: usize,
    /// Position of the chosen alpha mode.
    pub alpha_mode: usize,
    /// Surface width in pixels.
    pub width: u32,
    /// Surface height in pixels.
    pub height: u32,
    /// Frames the presentation engine may queue ahead.
    pub desired_maximum_frame_latency: u32,
}

/// Chooses deterministic surface configurations for the native renderer.
#[derive(Debug, Clone, Copy, Default, PartialEq, Eq, Structural)]
pub struct SurfaceConfigPlanner;

/// Platform action required after a surface lifecycle transition.
#[derive(Debug, Clone, Copy, PartialEq, Eq, Structural)]
pub enum SurfaceLifecycleAction {
    /// No surface action is required.
    Unchanged,
    /// Configure the surface for the first time.
    Configure,
    /// Reconfigure an already-created surface.
    Reconfigure,
    /// Defer configuration while the window is minimized or otherwise zero-sized.
    DeferZeroSize,
}

/// Position of the first element of `s` satisfying `p`.
pub open spec fn first_where<A>(s: Seq<A>, p: spec_fn(A) -> bool) -> Option<int>
    decreases s.len(),
{
    if s.len() == 0 {
        None
    } else {
        match first_where(s.drop_last(), p) {
            Some(i) => Some(i),
            None => if p(s.last()) { Some(s.len() - 1) } else { None },
        }
    }
}

/// Whether a format kind is sRGB-encoded.
pub open spec fn is_srgb(f: SurfaceFormatKind) -> bool {
    match f {
        SurfaceFormatKind::Bgra8UnormSrgb => true,
        SurfaceFormatKind::Rgba8UnormSrgb => true,
        SurfaceFormatKind::Other { srgb } => srgb,
    }
}

/// Formats equal to `wanted`.
pub open spec fn format_is(wanted: SurfaceFormatKind) -> spec_fn(SurfaceFormatKind) -> bool {
    |f: SurfaceFormatKind| f == wanted
}

/// The format chosen from `formats`: BGRA8 sRGB if offered, else RGBA8 sRGB,
/// else the first sRGB format, else the first format.
pub open spec fn chosen_format(formats: Seq<SurfaceFormatKind>) -> int {
    match first_where(formats, format_is(SurfaceFormatKind::Bgra8UnormSrgb)) {
        Some(i) => i,
        None => match first_where(formats, format_is(SurfaceFormatKind::Rgba8UnormSrgb)) {
            Some(i) => i,
            None => match first_where(formats, |f: SurfaceFormatKind| is_srgb(f)) {
                Some(i) => i,
                None => 0,
            },
        },
    }
}

/// The presentation mode chosen from `modes`: FIFO if offered, else the first.
pub open spec fn chosen_present_mode(modes: Seq<SurfacePresentKind>) -> int {
    match first_where(modes, |m: SurfacePresentKind| m == SurfacePresentKind::Fifo) {
        Some(i) => i,
        None => 0,
    }
}

/// The alpha mode chosen from `modes`: opaque if offered, else the first.
pub open spec fn chosen_alpha_mode(modes: Seq<SurfaceAlphaKind>) -> int {
    match first_where(modes, |m: SurfaceAlphaKind| m == SurfaceAlphaKind::Opaque) {
        Some(i) => i,
        None => 0,
    }
}

/// The configuration planned for `caps` at `width` x `height`.
pub open spec fn planned_config(caps: SurfaceCapabilitySet, width: u32, height: u32) -> Result<SurfaceConfigChoice, SurfaceConfigError> {
    if width == 0 || height == 0 {
        Err(SurfaceConfigError::InvalidSize { width, height })
    } else if caps.formats@.len() == 0 {
        Err(SurfaceConfigError::NoSupportedFormats)
    } else if caps.present_modes@.len() == 0 {
        Err(SurfaceConfigError::NoSupportedPresentModes)
    } else if caps.alpha_modes@.len() == 0 {
        Err(SurfaceConfigError::NoSupportedAlphaModes)
    } else if !caps.render_attachment {
        Err(SurfaceConfigError::MissingRenderAttachmentUsage)
    } else {
        Ok(
            SurfaceConfigChoice {
                format: chosen_format(caps.formats@) as usize,
                present_mode: chosen_present_mode(caps.present_modes@) as usize,
                alpha_mode: chosen_alpha_mode(caps.alpha_modes@) as usize,
                width,
                height,
                desired_maximum_frame_latency: 1,
            },
        )
    }
}

/// Once a prefix holds a match, every longer prefix has the same first match.
proof fn lemma_first_where_sticks<A>(s: Seq<A>, p: spec_fn(A) -> bool, n: int)
    requires
        0 <= n <= s.len(),
        first_where(s.subrange(0, n), p) is Some,
    ensures
        first_where(s, p) == first_where(s.subrange(0, n), p),
    decreases s.len() - n,
{
    if n < s.len() {
        assert(s.subrange(0, n + 1).drop_last() =~= s.subrange(0, n));
        lemma_first_where_sticks(s, p, n + 1);
    } else {
        assert(s.subrange(0, n) =~= s);
    }
}

/// A match first found at position `i` is the first match of the whole sequence.
proof fn lemma_first_where_found<A>(s: Seq<A>, p: spec_fn(A) -> bool, i: int)
    requires
        0 <= i < s.len(),
        first_where(s.subrange(0, i), p) is None,
        p(s[i]),
    ensures
        first_where(s, p) == Some(i),
{
    assert(s.subrange(0, i + 1).drop_last() =~= s.subrange(0, i));
    lemma_first_where_sticks(s, p, i + 1);
}

/// A sequence with no match up to its end has no match.
proof fn lemma_first_where_none<A>(s: Seq<A>, p: spec_fn(A) -> bool)
    requires
        first_where(s.subrange(0, s.len() as int), p) is None,
    ensures
        first_where(s, p) is None,
{
    assert(s.subrange(0, s.len() as int) =~= s);
}

/// Position of the first format equal to `wanted`, if any.
fn find_format(formats: &Vec<SurfaceFormatKind>, wanted: SurfaceFormatKind) -> (r: Option<usize>)
    ensures
        r matches Some(j) ==> first_where(formats@, format_is(wanted)) == Some(j as int),
        r is None ==> first_where(formats@, format_is(wanted)) is None,
{
    let ghost p = format_is(wanted);
    let mut i: usize = 0;
    while i < formats.len()
        invariant
            i <= formats@.len(),
            p == format_is(wanted),
            first_where(formats@.subrange(0, i as int), p) is None,
        decreases formats@.len() - i,
    {
        if formats[i] == wanted {
            proof {
                lemma_first_where_found(formats@, p, i as int);
            }
            return Some(i);
        }
        proof {
            assert(formats@.subrange(0, i + 1).drop_last() =~= formats@.subrange(0, i as int));
        }
        i = i + 1;
    }
    proof {
        lemma_first_where_none(formats@, p);
    }
    None
}

/// Position of the first sRGB format, if any.
fn find_srgb_format(formats: &Vec<SurfaceFormatKind>) -> (r: Option<usize>)
    ensures
        r matches Some(j) ==> first_where(formats@, |f: SurfaceFormatKind| is_srgb(f)) == Some(j as int),
        r is None ==> first_where(formats@, |f: SurfaceFormatKind| is_srgb(f)) is None,
{
    let ghost p = |f: SurfaceFormatKind| is_srgb(f);
    let mut i: usize = 0;
    while i < formats.len()
        invariant
            i <= formats@.len(),
            p == (|f: SurfaceFormatKind| is_srgb(f)),
            first_where(formats@.subrange(0, i as int), p) is None,
        decreases formats@.len() - i,
    {
        let srgb = match formats[i] {
            SurfaceFormatKind::Bgra8UnormSrgb => true,
            SurfaceFormatKind::Rgba8UnormSrgb => true,
            SurfaceFormatKind::Other { srgb } => srgb,
        };
        if srgb {
            proof {
                lemma_first_where_found(formats@, p, i as int);
            }
            return Some(i);
        }
        proof {
            assert(formats@.subrange(0, i + 1).drop_last() =~= formats@.subrange(0, i as int));
        }
        i = i + 1;
    }
    proof {
        lemma_first_where_none(formats@, p);
    }
    None
}

/// Choose a texture format: BGRA8 sRGB if offered, else RGBA8 sRGB, else the
/// first sRGB format, else the first format.
fn choose_surface_format(formats: &Vec<SurfaceFormatKind>) -> (r: usize)
    requires
        formats@.len() > 0,
    ensures
        r == chosen_format(formats@),
{
    if let Some(i) = find_format(formats, SurfaceFormatKind::Bgra8UnormSrgb) {
        return i;
    }
    if let Some(i) = find_format(formats, SurfaceFormatKind::Rgba8UnormSrgb) {
        return i;
    }
    match find_srgb_format(formats) {
        Some(i) => i,
        None => 0,
    }
}

/// Choose a presentation mode: FIFO if offered, else the first.
fn choose_present_mode(modes: &Vec<SurfacePresentKind>) -> (r: usize)
    requires
        modes@.len() > 0,
    ensures
        r == chosen_present_mode(modes@),
{
    let ghost p = |m: SurfacePresentKind| m == SurfacePresentKind::Fifo;
    let mut i: usize = 0;
    while i < modes.len()
        invariant
            i <= modes@.len(),
            p == (|m: SurfacePresentKind| m == SurfacePresentKind::Fifo),
            first_where(modes@.subrange(0, i as int), p) is None,
        decreases modes@.len() - i,
    {
        if modes[i] == SurfacePresentKind::Fifo {
            proof {
                lemma_first_where_found(modes@, p, i as int);
            }
            return i;
        }
        proof {
            assert(modes@.subrange(0, i + 1).drop_last() =~= modes@.subrange(0, i as int));
        }
        i = i + 1;
    }
    proof {
        lemma_first_where_none(modes@, p);
    }
    0
}

/// Choose an alpha mode: opaque if offered, else the first.
fn choose_alpha_mode(modes: &Vec<SurfaceAlphaKind>) -> (r: usize)
    requires
        modes@.len() > 0,
    ensures
        r == chosen_alpha_mode(modes@),
{
    let ghost p = |m: SurfaceAlphaKind| m == SurfaceAlphaKind::Opaque;
    let mut i: usize = 0;
    while i < modes.len()
        invariant
            i <= modes@.len(),
            p == (|m: SurfaceAlphaKind| m == SurfaceAlphaKind::Opaque),
            first_where(modes@.subrange(0, i as int), p) is None,
        decreases modes@.len() - i,
    {
        if modes[i] == SurfaceAlphaKind::Opaque {
            proof {
                lemma_first_where_found(modes@, p, i as int);
            }
            return i;
        }
        proof {
            assert(modes@.subrange(0, i + 1).drop_last() =~= modes@.subrange(0, i as int));
        }
        i = i + 1;
    }
    proof {
        lemma_first_where_none(modes@, p);
    }
    0
}

impl SurfaceConfigPlanner {
    /// Create a surface configuration planner.
    pub fn new() -> (p: Self) {
        Self
    }

    /// Choose a surface configuration from the surface's capabilities.
    pub fn plan(&self, capabilities: &SurfaceCapabilitySet, width: u32, height: u32) -> (r: Result<SurfaceConfigChoice, SurfaceConfigError>)
        ensures
            r == planned_config(*capabilities, width, height),
    {
        if width == 0 || height == 0 {
            return Err(SurfaceConfigError::InvalidSize { width, height });
        }
        if capabilities.formats.len() == 0 {
            return Err(SurfaceConfigError::NoSupportedFormats);
        }
        if capabilities.present_modes.len() == 0 {
            return Err(SurfaceConfigError::NoSupportedPresentModes);
        }
        if capabilities.alpha_modes.len() == 0 {
            return Err(SurfaceConfigError::NoSupportedAlphaModes);
        }
        if !capabilities.render_attachment {
            return Err(SurfaceConfigError::MissingRenderAttachmentUsage);
        }
        Ok(SurfaceConfigChoice {
            format: choose_surface_format(&capabilities.formats),
            present_mode: choose_present_mode(&capabilities.present_modes),
            alpha_mode: choose_alpha_mode(&capabilities.alpha_modes),
            width,
            height,
            desired_maximum_frame_latency: 1,
        })
    }
}

/// Deterministic state for native surface configuration and resize handling.
#[derive(Debug, Clone)]
pub struct SurfaceLifecycle {
    planner: SurfaceConfigPlanner,
    current_config: Option<SurfaceConfigChoice>,
    current_size: Option<(u32, u32)>,
    suspended_for_zero_size: bool,
    configure_count: u64,
}

/// Mathematical state of a surface lifecycle.
pub ghost struct SurfaceLifecycleState {
    /// Configuration currently applied, if any.
    pub config: Option<SurfaceConfigChoice>,
    /// Current non-zero surface size, if any.
    pub size: Option<(u32, u32)>,
    /// Whether configuration is suspended for a zero-sized window.
    pub suspended: bool,
    /// Number of configuration transitions applied.
    pub configure_count: u64,
}

impl View for SurfaceLifecycle {
    type V = SurfaceLifecycleState;

    closed spec fn view(&self) -> SurfaceLifecycleState {
        SurfaceLifecycleState {
            config: self.current_config,
            size: self.current_size,
            suspended: self.suspended_for_zero_size,
            configure_count: self.configure_count,
        }
    }
}

/// The action a successfully planned resize to `width` x `height` calls for:
/// a first configuration, none when an active surface keeps its size, else a
/// reconfiguration.
pub open spec fn resize_action(st: SurfaceLifecycleState, width: u32, height: u32) -> SurfaceLifecycleAction {
    if st.config is Some {
        if st.size == Some((width, height)) && !st.suspended {
            SurfaceLifecycleAction::Unchanged
        } else {
            SurfaceLifecycleAction::Reconfigure
        }
    } else {
        SurfaceLifecycleAction::Configure
    }
}

/// The state and answer after handling a surface size of `width` x `height`
/// from state `st`, when the planner answers `planned` for it. A zero size
/// suspends configuration; a refused plan changes nothing; otherwise the plan
/// is applied and counted unless no action was needed.
pub open spec fn size_transition(
    st: SurfaceLifecycleState,
    planned: Result<SurfaceConfigChoice, SurfaceConfigError>,
    width: u32,
    height: u32,
) -> (SurfaceLifecycleState, Result<SurfaceLifecycleAction, SurfaceConfigError>) {
    if width == 0 || height == 0 {
        (SurfaceLifecycleState { suspended: true, ..st }, Ok(SurfaceLifecycleAction::DeferZeroSize))
    } else {
        match planned {
            Err(e) => (st, Err(e)),
            Ok(config) => {
                let action = resize_action(st, width, height);
                (
                    SurfaceLifecycleState {
                        config: Some(config),
                        size: Some((width, height)),
                        suspended: false,
                        configure_count: if action == SurfaceLifecycleAction::Unchanged {
                            st.configure_count
                        } else {
                            (st.configure_count + 1) as u64
                        },
                    },
                    Ok(action),
                )
            },
        }
    }
}

impl SurfaceLifecycle {
    /// Create surface lifecycle state using `planner`.
    pub fn new(planner: SurfaceConfigPlanner) -> (l: Self)
        ensures
            l@ == (SurfaceLifecycleState { config: None, size: None, suspended: false, configure_count: 0 }),
    {
        Self { planner, current_config: None, current_size: None, suspended_for_zero_size: false, configure_count: 0 }
    }

    /// Configure the surface for an initial non-zero size.
    pub fn configure(&mut self, capabilities: &SurfaceCapabilitySet, width: u32, height: u32) -> (r: Result<SurfaceLifecycleAction, SurfaceConfigError>)
        requires
            old(self)@.configure_count < u64::MAX,
        ensures
            (final(self)@, r) == size_transition(old(self)@, planned_config(*capabilities, width, height), width, height),
    {
        self.apply_size(capabilities, width, height)
    }

    /// Handle a native window resize.
    pub fn on_resized(&mut self, capabilities: &SurfaceCapabilitySet, width: u32, height: u32) -> (r: Result<SurfaceLifecycleAction, SurfaceConfigError>)
        requires
            old(self)@.configure_count < u64::MAX,
        ensures
            (final(self)@, r) == size_transition(old(self)@, planned_config(*capabilities, width, height), width, height),
    {
        self.apply_size(capabilities, width, height)
    }

    /// Return the current surface configuration.
    pub fn current_config(&self) -> (r: Option<SurfaceConfigChoice>)
        ensures
            r == self@.config,
    {
        self.current_config
    }

    /// Return the current non-zero surface size.
    pub fn size(&self) -> (r: Option<(u32, u32)>)
        ensures
            r == self@.size,
    {
        self.current_size
    }

    /// Whether a valid surface configuration exists.
    pub fn is_configured(&self) -> (r: bool)
        ensures
            r == self@.config is Some,
    {
        self.current_config.is_some()
    }

    /// Whether configuration is suspended because the window is zero-sized.
    pub fn is_suspended(&self) -> (r: bool)
        ensures
            r == self@.suspended,
    {
        self.suspended_for_zero_size
    }

    /// Number of surface configuration transitions applied.
    pub fn configure_count(&self) -> (r: u64)
        ensures
            r == self@.configure_count,
    {
        self.configure_count
    }

    fn apply_size(&mut self, capabilities: &SurfaceCapabilitySet, width: u32, height: u32) -> (r: Result<SurfaceLifecycleAction, SurfaceConfigError>)
        requires
            old(self)@.configure_count < u64::MAX,
        ensures
            (final(self)@, r) == size_transition(old(self)@, planned_config(*capabilities, width, height), width, height),
    {
        if width == 0 || height == 0 {
            self.suspended_for_zero_size = true;
            return Ok(SurfaceLifecycleAction::DeferZeroSize);
        }
        let config = match self.planner.plan(capabilities, width, height) {
            Ok(config) => config,
            Err(e) => return Err(e),
        };
        let same_size = match self.current_size {
            Some((w, h)) => w == width && h == height,
            None => false,
        };
        let action = if self.current_config.is_some() {
            if same_size && !self.suspended_for_zero_size {
                SurfaceLifecycleAction::Unchanged
            } else {
                SurfaceLifecycleAction::Reconfigure
            }
        } else {
            SurfaceLifecycleAction::Configure
        };
        if action != SurfaceLifecycleAction::Unchanged {
            self.configure_count = self.configure_count + 1;
        }
        self.current_size = Some((width, height));
        self.current_config = Some(config);
        self.suspended_for_zero_size = false;
        Ok(action)
    }
}

/// Surface endpoint that can receive a chosen surface configuration.
pub trait SurfaceBackend {
    /// Apply `config` to the native surface boundary.
    fn configure(&mut self, config: &SurfaceConfigChoice);
}

/// Applies planned surface lifecycle transitions to a concrete surface backend.
#[derive(Debug, Clone)]
pub struct SurfaceConfigurationController {
    lifecycle: SurfaceLifecycle,
}

impl SurfaceConfigurationController {
    /// The lifecycle state this controller drives.
    pub closed spec fn state(&self) -> SurfaceLifecycleState {
        self.lifecycle@
    }

    /// Create a surface configuration controller.
    pub fn new(planner: SurfaceConfigPlanner) -> (c: Self)
        ensures
            c.state() == (SurfaceLifecycleState { config: None, size: None, suspended: false, configure_count: 0 }),
    {
        Self { lifecycle: SurfaceLifecycle::new(planner) }
    }

    /// Access the underlying lifecycle state.
    pub fn lifecycle(&self) -> (l: &SurfaceLifecycle)
        ensures
            l@ == self.state(),
    {
        &self.lifecycle
    }

    /// Configure an initial surface size; when the lifecycle calls for a
    /// (re)configuration, the new configuration is applied to `backend`.
    pub fn configure<B: SurfaceBackend>(&mut self, backend: &mut B, capabilities: &SurfaceCapabilitySet, width: u32, height: u32) -> (r: Result<SurfaceLifecycleAction, SurfaceConfigError>)
        requires
            old(self).state().configure_count < u64::MAX,
        ensures
            (final(self).state(), r) == size_transition(old(self).state(), planned_config(*capabilities, width, height), width, height),
    {
        let action = match self.lifecycle.configure(capabilities, width, height) {
            Ok(action) => action,
            Err(e) => return Err(e),
        };
        self.apply_action(backend, action);
        Ok(action)
    }

    /// Resize a configured surface; when the lifecycle calls for a
    /// (re)configuration, the new configuration is applied to `backend`.
    pub fn resize<B: SurfaceBackend>(&mut self, backend: &mut B, capabilities: &SurfaceCapabilitySet, width: u32, height: u32) -> (r: Result<SurfaceLifecycleAction, SurfaceConfigError>)
        requires
            old(self).state().configure_count < u64::MAX,
        ensures
            (final(self).state(), r) == size_transition(old(self).state(), planned_config(*capabilities, width, height), width, height),
    {
        let action = match self.lifecycle.on_resized(capabilities, width, height) {
            Ok(action) => action,
            Err(e) => return Err(e),
        };
        self.apply_action(backend, action);
        Ok(action)
    }

    /// Apply a lifecycle action to `backend`: a configure or reconfigure hands
    /// the lifecycle's current configuration to `backend.configure`, taking the
    /// backend from its old to its final value; any other action leaves the
    /// backend as it was.
    fn apply_action<B: SurfaceBackend>(&self, backend: &mut B, action: SurfaceLifecycleAction)
        ensures
            (action == SurfaceLifecycleAction::Configure || action == SurfaceLifecycleAction::Reconfigure)
                && self.state().config is Some ==> exists|m: &mut B|
                *m == *old(backend) && *final(m) == *final(backend) && call_ensures(
                    B::configure,
                    (m, &self.state().config.unwrap()),
                    (),
                ),
            !((action == SurfaceLifecycleAction::Configure || action == SurfaceLifecycleAction::Reconfigure)
                && self.state().config is Some) ==> *final(backend) == *old(backend),
    {
        if action == SurfaceLifecycleAction::Configure || action == SurfaceLifecycleAction::Reconfigure {
            if let Some(config) = self.lifecycle.current_config() {
                backend.configure(&config);
            }
        }
    }
}

/// Handling the size a configured, active surface already has calls for no
/// action and leaves the configuration count unchanged.
pub proof fn lemma_same_size_is_unchanged(st: SurfaceLifecycleState, caps: SurfaceCapabilitySet, width: u32, height: u32)
    requires
        st.config is Some,
        st.size == Some((width, height)),
        !st.suspended,
        planned_config(caps, width, height) is Ok,
    ensures
        size_transition(st, planned_config(caps, width, height), width, height).1 == Ok::<SurfaceLifecycleAction, SurfaceConfigError>(
            SurfaceLifecycleAction::Unchanged,
        ),
        size_transition(st, planned_config(caps, width, height), width, height).0.configure_count == st.configure_count,
{
}

/// A window minimized to zero size and restored to its earlier size is
/// reconfigured: the restore counts as a configuration transition.
pub proof fn lemma_restore_after_zero_size_reconfigures(st: SurfaceLifecycleState, caps: SurfaceCapabilitySet, width: u32, height: u32, zw: u32, zh: u32)
    requires
        st.config is Some,
        zw == 0 || zh == 0,
        planned_config(caps, width, height) is Ok,
        st.configure_count < u64::MAX,
    ensures
        ({
            let deferred = size_transition(st, planned_config(caps, zw, zh), zw, zh);
            let restored = size_transition(deferred.0, planned_config(caps, width, height), width, height);
            &&& deferred.1 == Ok::<SurfaceLifecycleAction, SurfaceConfigError>(SurfaceLifecycleAction::DeferZeroSize)
            &&& restored.1 == Ok::<SurfaceLifecycleAction, SurfaceConfigError>(SurfaceLifecycleAction::Reconfigure)
            &&& restored.0.configure_count == st.configure_count + 1
            &&& !restored.0.suspended
        }),
{
}

/// A refused plan leaves the lifecycle state unchanged.
pub proof fn lemma_refused_plan_keeps_state(st: SurfaceLifecycleState, caps: SurfaceCapabilitySet, width: u32, height: u32)
    requires
        width != 0 && height != 0,
        planned_config(caps, width, height) is Err,
    ensures
        size_transition(st, planned_config(caps, width, height), width, height).0 == st,
        size_transition(st, planned_config(caps, width, height), width, height).1 is Err,
{
}

} // verus!
