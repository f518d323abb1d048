//! Animations of tiles.

use crate::error::Error;
use crate::error::ErrorView;
use crate::number::read_u32;
use crate::number::u32_of;
use crate::text::lemma_views_empty;
use crate::text::lemma_views_push;
use crate::text::same_text;
use crate::text::views;
use vstd::prelude::*;

verus! {

/// One frame of an animation.
#[derive(Debug, PartialEq, Eq)]
pub struct Frame {
    tile_id: u32,
    duration: u32,
}

/// The mathematical value of a [`Frame`].
pub struct FrameView {
    pub tile_id: u32,
    pub duration: u32,
}

impl View for Frame {
    type V = FrameView;

    closed spec fn view(&self) -> FrameView {
        FrameView {
            tile_id: self.tile_id,
            duration: self.duration,
        }
    }
}

impl FrameView {
    /// The value of an element `frame` before anything of it is read: every
    /// default in place, nothing attached.
    pub open spec fn fresh() -> FrameView {
        FrameView {
            tile_id: 0,
            duration: 0,
        }
    }

    /// Whether `name` is an attribute that an element `frame` defines.
    pub open spec fn recognizes(name: Seq<char>) -> bool {
        name == "tileid"@
            || name == "duration"@
    }

    /// The value after one more attribute is read. An attribute that the
    /// element does not define is refused by name; a value that cannot be
    /// read is refused with the error of its reader.
    pub open spec fn with_attribute(self, name: Seq<char>, value: Seq<char>) -> Result<
        FrameView,
        ErrorView,
    > {
        if name == "tileid"@ {
            match u32_of(value) {
                Ok(parsed) => Ok(FrameView { tile_id: parsed, ..self }),
                Err(e) => Err(e),
            }
        } else if name == "duration"@ {
            match u32_of(value) {
                Ok(parsed) => Ok(FrameView { duration: parsed, ..self }),
                Err(e) => Err(e),
            }
        } else {
            Err(ErrorView::UnknownAttribute(name))
        }
    }
}

impl Frame {
    /// An element `frame` with every default in place and nothing attached.
    pub fn new() -> (fresh: Frame)
        ensures
            fresh@ == FrameView::fresh(),
    {
        Frame {
            tile_id: 0,
            duration: 0,
        }
    }

    /// The tile that is shown, by its id within the tileset.
    pub fn tile_id(&self) -> (tile_id: u32)
        ensures
            tile_id == self@.tile_id,
    {
        self.tile_id
    }

    /// How long the frame is shown, in milliseconds.
    pub fn duration(&self) -> (duration: u32)
        ensures
            duration == self@.duration,
    {
        self.duration
    }

    /// Reads one attribute into the element, as [`FrameView::with_attribute`]
    /// says. After an error the element is not to be used.
    pub(crate) fn read_attribute(&mut self, name: &str, value: &str) -> (result: Result<
        (),
        Error,
    >)
        ensures
            match old(self)@.with_attribute(name@, value@) {
                Ok(next) => result is Ok && final(self)@ == next,
                Err(e) => result is Err && result->Err_0@ == e,
            },
    {
        if same_text(name, "tileid") {
            match read_u32(value) {
                Ok(parsed) => {
                    self.tile_id = parsed;
                    Ok(())
                },
                Err(e) => Err(e),
            }
        } else if same_text(name, "duration") {
            match read_u32(value) {
                Ok(parsed) => {
                    self.duration = parsed;
                    Ok(())
                },
                Err(e) => Err(e),
            }
        } else {
            Err(Error::UnknownAttribute(String::from_str(name)))
        }
    }
}

impl Default for Frame {
    fn default() -> (fresh: Frame)
        ensures
            fresh@ == FrameView::fresh(),
    {
        Frame::new()
    }
}

/// The animation of a tile: its frames in order.
#[derive(Debug, PartialEq, Eq)]
pub struct Animation {
    frames: Vec<Frame>,
}

/// The mathematical value of an [`Animation`].
pub struct AnimationView {
    pub frames: Seq<FrameView>,
}

impl View for Animation {
    type V = AnimationView;

    closed spec fn view(&self) -> AnimationView {
        AnimationView {
            frames: views(self.frames@),
        }
    }
}

impl AnimationView {
    /// The value of an element `animation` before anything of it is read: every
    /// default in place, nothing attached.
    pub open spec fn fresh() -> AnimationView {
        AnimationView {
            frames: Seq::empty(),
        }
    }

    /// Whether `name` is an attribute that an element `animation` defines.
    pub open spec fn recognizes(name: Seq<char>) -> bool {
        false
    }

    /// The value after one more attribute is read. An attribute that the
    /// element does not define is refused by name; a value that cannot be
    /// read is refused with the error of its reader.
    pub open spec fn with_attribute(self, name: Seq<char>, value: Seq<char>) -> Result<
        AnimationView,
        ErrorView,
    > {
        Err(ErrorView::UnknownAttribute(name))
    }
}

impl Animation {
    /// An element `animation` with every default in place and nothing attached.
    pub fn new() -> (fresh: Animation)
        ensures
            fresh@ == AnimationView::fresh(),
    {
        proof {
            lemma_views_empty::<Frame>();
        }
        Animation {
            frames: Vec::new(),
        }
    }

    /// The frames, in document order.
    pub fn frames(&self) -> (frames: &Vec<Frame>)
        ensures
            views(frames@) == self@.frames,
    {
        &self.frames
    }

    /// Reads one attribute into the element, as [`AnimationView::with_attribute`]
    /// says. After an error the element is not to be used.
    pub(crate) fn read_attribute(&mut self, name: &str, value: &str) -> (result: Result<
        (),
        Error,
    >)
        ensures
            match old(self)@.with_attribute(name@, value@) {
                Ok(next) => result is Ok && final(self)@ == next,
                Err(e) => result is Err && result->Err_0@ == e,
            },
    {
        Err(Error::UnknownAttribute(String::from_str(name)))
    }

    /// Attaches one more child `frame`, after those attached before.
    pub(crate) fn add_frame(&mut self, child: Frame)
        ensures
            final(self)@ == (AnimationView {
                frames: old(self)@.frames.push(child@),
                ..old(self)@
            }),
    {
        proof {
            lemma_views_push(self.frames@, child);
        }
        self.frames.push(child);
    }
}

impl Default for Animation {
    fn default() -> (fresh: Animation)
        ensures
            fresh@ == AnimationView::fresh(),
    {
        Animation::new()
    }
}

} // verus!
