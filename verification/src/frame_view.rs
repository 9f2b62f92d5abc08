//! Video views: what is on screen while frames are drawn, and which graphics
//! device draws them.

use vstd::prelude::*;

verus! {

/// What a view shows.
#[derive(Debug, Clone, Copy, PartialEq, Eq, Structural)]
pub enum Picture {
    /// A black placeholder.
    Placeholder,
    /// The last frame that was drawn, of this width and height.
    Frame(u32, u32),
}

/// View that draws the frames you hand it.
///
/// It shows the last drawn frame, or a black placeholder before the first.
#[derive(Debug, Clone, Copy, PartialEq, Eq)]
pub struct FrameView {
    /// Whether there is a renderer.
    pub renderer: bool,
    /// The size of the last frame that was drawn.
    pub texture: Option<(u32, u32)>,
    /// Whether the last frame failed to draw, so a run of failures warns once.
    pub failing: bool,
}

impl FrameView {
    /// Creates a view.
    ///
    /// `renderer` tells whether there is a device and its renderer was built.
    /// Without one the view only shows the placeholder.
    pub fn new(renderer: bool) -> (res: Self)
        ensures
            res == (FrameView { renderer, texture: None, failing: false }),
    {
        FrameView { renderer, texture: None, failing: false }
    }

    /// The view after a frame.
    pub open spec fn after(self, drawn: Option<(u32, u32)>) -> FrameView {
        if !self.renderer {
            self
        } else {
            match drawn {
                Some(size) => FrameView { texture: Some(size), failing: false, ..self },
                None => FrameView { failing: true, ..self },
            }
        }
    }

    /// Whether a frame is warned of.
    pub open spec fn warns(self, drawn: Option<(u32, u32)>) -> bool {
        self.renderer && drawn is None && !self.failing
    }

    /// Takes a frame that was drawn at a size, or that failed to draw, and
    /// returns whether to warn.
    ///
    /// Keeps the old picture if drawing fails, and warns once per run of
    /// failures. A view without a renderer ignores the frame.
    pub fn render_frame(&mut self, drawn: Option<(u32, u32)>) -> (res: bool)
        ensures
            *final(self) == old(self).after(drawn),
            res == old(self).warns(drawn),
    {
        if !self.renderer {
            return false;
        }
        match drawn {
            Some(size) => {
                self.texture = Some(size);
                self.failing = false;
                false
            },
            None => {
                let warn: bool = !self.failing;
                self.failing = true;
                warn
            },
        }
    }

    /// What the view shows.
    pub open spec fn shown(self) -> Picture {
        match self.texture {
            Some((width, height)) => if self.renderer {
                Picture::Frame(width, height)
            } else {
                Picture::Placeholder
            },
            None => Picture::Placeholder,
        }
    }

    /// Returns what the view shows: the current frame, or the placeholder.
    pub fn image(&self) -> (res: Picture)
        ensures
            res == self.shown(),
    {
        match self.texture {
            Some((width, height)) => if self.renderer {
                Picture::Frame(width, height)
            } else {
                Picture::Placeholder
            },
            None => Picture::Placeholder,
        }
    }
}

/// What a pass of a [`VideoView`] comes to.
#[derive(Debug, Clone, Copy, PartialEq, Eq, Structural)]
pub struct Rendered {
    /// What the view shows.
    pub picture: Picture,
    /// Whether to warn that a frame failed to draw.
    pub warn: bool,
}

/// View that draws a stream of frames.
///
/// It draws the newest frame on the next pass.
#[derive(Debug, Clone, Copy, PartialEq, Eq)]
pub struct VideoView {
    /// Whether the view has a stream.
    pub streaming: bool,
    pub frame_view: FrameView,
}

impl VideoView {
    /// Creates a view.
    ///
    /// A view without a stream shows the placeholder until
    /// [`VideoView::set_frames`] gives it one.
    pub fn new(streaming: bool, renderer: bool) -> (res: Self)
        ensures
            res == (VideoView {
                streaming,
                frame_view: FrameView { renderer, texture: None, failing: false },
            }),
    {
        VideoView { streaming, frame_view: FrameView::new(renderer) }
    }

    /// Replaces the stream this view draws, or removes it.
    ///
    /// The last frame stays on screen until the new stream delivers one.
    pub fn set_frames(&mut self, streaming: bool)
        ensures
            *final(self) == (VideoView { streaming, ..*old(self) }),
    {
        self.streaming = streaming;
    }

    /// The view after a pass: `next` is the newest frame, if one arrived, by
    /// what came of drawing it.
    pub open spec fn after(self, next: Option<Option<(u32, u32)>>) -> VideoView {
        match next {
            Some(drawn) => if self.streaming {
                VideoView { frame_view: self.frame_view.after(drawn), ..self }
            } else {
                self
            },
            None => self,
        }
    }

    /// Whether a pass warns: the newest frame failed to draw, and the one before
    /// it did not.
    pub open spec fn warns(self, next: Option<Option<(u32, u32)>>) -> bool {
        next == Some(None::<(u32, u32)>) && self.streaming && self.frame_view.warns(None)
    }

    /// Draws the newest frame, if a new one arrived, and returns what the view
    /// shows and whether to warn.
    pub fn render(&mut self, next: Option<Option<(u32, u32)>>) -> (res: Rendered)
        ensures
            *final(self) == old(self).after(next),
            res.picture == final(self).frame_view.shown(),
            res.warn == old(self).warns(next),
    {
        let mut warn: bool = false;
        if let Some(drawn) = next {
            if self.streaming {
                warn = self.frame_view.render_frame(drawn);
            }
        }
        Rendered { picture: self.frame_view.image(), warn }
    }
}

/// A run of failures warns once: after a frame that failed to draw none warns
/// until one draws.
pub proof fn law_a_run_of_failures_warns_once(view: FrameView, size: (u32, u32))
    ensures
        !view.after(None).warns(None),
        view.renderer ==> view.after(Some(size)).warns(None),
{
}

/// A new stream keeps the picture of the old one until it delivers a frame that
/// draws.
pub proof fn law_a_new_stream_keeps_the_picture(view: VideoView, streaming: bool)
    ensures
        (VideoView { streaming, ..view }).frame_view.shown() == view.frame_view.shown(),
        (VideoView { streaming, ..view }).after(None).frame_view.shown()
            == view.frame_view.shown(),
        (VideoView { streaming, ..view }).after(Some(None)).frame_view.shown()
            == view.frame_view.shown(),
{
}

/// Which graphics device draws the video.
#[derive(Debug, Clone, Copy, PartialEq, Eq, Structural)]
pub enum GpuSetup {
    /// The one the toolkit builds, asked for the adapter's own limits.
    ///
    /// The toolkit's default limits are those of a desktop, and a small board
    /// fails to meet them before a window opens.
    AdapterLimits,
    /// A Vulkan device built here, which imports DMA-BUF frames without a copy
    /// through the CPU if its adapter supports that.
    Vulkan { dma_buf: bool },
}

/// What is found on the way to a Vulkan device.
#[derive(Debug, Clone, Copy, PartialEq, Eq, Structural)]
pub struct GpuFound {
    /// Whether the system is Linux.
    pub linux: bool,
    /// Whether the environment asks for backends, and whether Vulkan is one.
    pub requested: Option<bool>,
    /// Whether there is a Vulkan adapter.
    pub adapter: bool,
    /// Whether the adapter imports DMA-BUF frames.
    pub dma_buf: bool,
    /// Whether the adapter gave a device.
    pub device: bool,
}

/// Decides which graphics device draws the video.
pub fn create_egui_wgpu_config(found: GpuFound) -> (res: GpuSetup)
    ensures
        res == if found.linux && found.requested != Some(false) && found.adapter && found.device {
            GpuSetup::Vulkan { dma_buf: found.dma_buf }
        } else {
            GpuSetup::AdapterLimits
        },
{
    if !found.linux {
        return GpuSetup::AdapterLimits;
    }
    if let Some(vulkan) = found.requested {
        if !vulkan {
            return GpuSetup::AdapterLimits;
        }
    }
    if !found.adapter || !found.device {
        return GpuSetup::AdapterLimits;
    }
    GpuSetup::Vulkan { dma_buf: found.dma_buf }
}

/// A frame that fails to draw leaves the picture as it was.
pub proof fn law_a_failed_frame_keeps_the_picture(view: FrameView)
    ensures
        view.after(None).shown() == view.shown(),
{
}

/// A frame that was drawn is shown until another is. Without a renderer nothing is
/// ever shown, and nothing to warn of either.
pub proof fn law_the_last_frame_is_shown(view: FrameView, width: u32, height: u32, drawn: Option<(u32, u32)>)
    ensures
        view.renderer ==> view.after(Some((width, height))).shown() == Picture::Frame(
            width,
            height,
        ),
        !view.renderer ==> view.shown() is Placeholder && !view.warns(drawn) && view.after(drawn)
            == view,
        view.texture is None ==> view.shown() is Placeholder,
        view.after(drawn).renderer == view.renderer,
        view.renderer ==> view.after(drawn).failing == (drawn is None),
        view.warns(drawn) ==> drawn is None && !view.failing,
{
}

/// A stream shows what a view shows of its frames, and without one, or without a
/// next frame, everything stays.
pub proof fn law_a_stream_shows_its_frames(view: VideoView, drawn: Option<(u32, u32)>, next: Option<Option<(u32, u32)>>)
    ensures
        view.streaming ==> view.after(Some(drawn)).frame_view == view.frame_view.after(drawn),
        view.streaming ==> view.warns(Some(drawn)) == view.frame_view.warns(drawn),
        !view.streaming ==> view.after(next) == view && !view.warns(next),
        view.after(None) == view,
        !view.warns(None),
        view.after(next).streaming == view.streaming,
{
}

} // verus!
