use vstd::prelude::*;

use crate::frame::{rgba_bytes, CaptureError, Frame, Rgba};
use crate::geometry::{normalized, shadow_rects, shadow_tiles, Point, Rect};

verus! {

/// Width of the magnifier window, in pixels.
pub const MAGNIFIER_WIDTH: u32 = 200;

/// Height of the magnifier window, in pixels.
pub const MAGNIFIER_HEIGHT: u32 = 100;

/// Alpha of the black tiles that dim the screen outside the selection.
pub const SHADOW_ALPHA: u8 = 170;

/// Where the drag selection stands.
#[derive(Clone, Copy, Debug, PartialEq, Eq, Structural)]
pub enum Selection {
    /// Nothing is selected.
    Idle,
    /// The primary button went down at `anchor` and has not come up yet.
    Anchored { anchor: Point },
    /// The selection spans from `anchor` to `release`.
    Released { anchor: Point, release: Point },
}

/// An RGBA image for the clipboard: `bytes` holds four bytes per pixel, row by row.
#[derive(Clone, Debug)]
pub struct ClipboardImage {
    pub width: usize,
    pub height: usize,
    pub bytes: Vec<u8>,
}

/// What the host reports to the session.
#[derive(Clone, Copy, Debug, PartialEq, Eq, Structural)]
pub enum InputEvent {
    /// The pointer is now at this position.
    PointerMove(Point),
    /// The primary button went down.
    PrimaryPress,
    /// The primary button came up.
    PrimaryRelease,
    /// Escape, or the secondary button.
    Cancel,
    /// The save shortcut.
    SaveShortcut,
    /// The save sink is done: `true` when the image was written, `false` when
    /// the user dismissed the dialog.
    SaveFinished(bool),
    /// The copy shortcut.
    CopyShortcut,
}

/// What the host is to do after an event.
#[derive(Clone, Debug)]
pub enum Action {
    /// Nothing beyond repainting.
    Nothing,
    /// Ask for a path and write this image there, then report `SaveFinished`.
    Save(Frame),
    /// Put this image on the clipboard.
    Copy(ClipboardImage),
    /// End the session.
    Close,
}

/// One capture session: the captured frame, the pointer and the selection.
#[derive(Clone, Debug)]
pub struct ScreenshotApp {
    pub frame: Frame,
    pub cur_pos: Point,
    pub selection: Selection,
}

/// The corner where the selection started, once there is one.
pub open spec fn anchor_of(s: Selection) -> Option<Point> {
    match s {
        Selection::Idle => None,
        Selection::Anchored { anchor } => Some(anchor),
        Selection::Released { anchor, .. } => Some(anchor),
    }
}

/// The corner where the primary button came up, once it has.
pub open spec fn release_of(s: Selection) -> Option<Point> {
    match s {
        Selection::Released { release, .. } => Some(release),
        _ => None,
    }
}

/// The bytes handed to the clipboard for a cropped image.
pub open spec fn clipboard_of(f: Frame, c: ClipboardImage) -> bool {
    c.width == f.width && c.height == f.height && c.bytes@ == rgba_bytes(f.pixels@)
}

impl ScreenshotApp {
    pub open spec fn wf(&self) -> bool {
        self.frame.wf()
    }

    /// The state after the pointer moved to `p`.
    pub open spec fn moved(self, p: Point) -> ScreenshotApp {
        ScreenshotApp { cur_pos: p, ..self }
    }

    /// The state after a press of the primary button: an idle session anchors
    /// at the pointer, any other stays as it is.
    pub open spec fn pressed(self) -> ScreenshotApp {
        match self.selection {
            Selection::Idle => ScreenshotApp {
                selection: Selection::Anchored { anchor: self.cur_pos },
                ..self
            },
            _ => self,
        }
    }

    /// The state after a release of the primary button: an anchored session
    /// records the pointer as the other corner, any other stays as it is.
    pub open spec fn released(self) -> ScreenshotApp {
        match self.selection {
            Selection::Anchored { anchor } => ScreenshotApp {
                selection: Selection::Released { anchor, release: self.cur_pos },
                ..self
            },
            _ => self,
        }
    }

    /// The state after a cancel: the selection is gone.
    pub open spec fn cancelled(self) -> ScreenshotApp {
        ScreenshotApp { selection: Selection::Idle, ..self }
    }

    /// The state after the save sink reported: a completed selection that was
    /// written is cleared; in every other case nothing changes.
    pub open spec fn after_save(self, written: bool) -> ScreenshotApp {
        if written && self.selection is Released {
            ScreenshotApp { selection: Selection::Idle, ..self }
        } else {
            self
        }
    }

    /// The rectangle selected so far: from the anchor to the release point, or to
    /// the live pointer while the button is still down.
    pub open spec fn selection_rect_spec(self) -> Option<Rect> {
        match self.selection {
            Selection::Idle => None,
            Selection::Anchored { anchor } => Some(normalized(anchor, self.cur_pos)),
            Selection::Released { anchor, release } => Some(normalized(anchor, release)),
        }
    }

    /// The finished selection, once the button has come up.
    pub open spec fn committed_rect_spec(self) -> Option<Rect> {
        match self.selection {
            Selection::Released { anchor, release } => Some(normalized(anchor, release)),
            _ => None,
        }
    }

    /// `c` is the committed selection cut out of the frame.
    pub open spec fn is_selection_crop(self, c: Frame) -> bool {
        match self.committed_rect_spec() {
            Some(r) => self.frame.is_crop(r.min.x as int, r.min.y as int, r.width_spec(), r.height_spec(), c),
            None => false,
        }
    }

    /// Starts a session on a captured frame, with the pointer at the origin and
    /// nothing selected.
    pub fn new(frame: Frame) -> (r: ScreenshotApp)
        requires
            frame.wf(),
        ensures
            r.wf(),
            r.frame == frame,
            r.cur_pos == (Point { x: 0, y: 0 }),
            r.selection == Selection::Idle,
    {
        ScreenshotApp { frame, cur_pos: Point { x: 0, y: 0 }, selection: Selection::Idle }
    }

    /// Starts a session on a capture given as RGBA bytes; fails with
    /// `CaptureUnavailable` when the bytes do not fit the size.
    pub fn from_capture(width: u32, height: u32, bytes: &Vec<u8>) -> (r: Result<
        ScreenshotApp,
        CaptureError,
    >)
        ensures
            r is Ok <==> bytes@.len() == 4 * (width as int * height as int),
            r matches Err(e) ==> e == CaptureError::CaptureUnavailable,
            r matches Ok(s) ==> s.wf() && s.frame.width == width && s.frame.height == height
                && rgba_bytes(s.frame.pixels@) == bytes@ && s.cur_pos == (Point { x: 0, y: 0 })
                && s.selection == Selection::Idle,
    {
        match Frame::from_rgba(width, height, bytes) {
            Ok(frame) => Ok(ScreenshotApp::new(frame)),
            Err(e) => Err(e),
        }
    }

    /// The pointer moved to `p`.
    pub fn on_pointer_move(&mut self, p: Point)
        ensures
            *final(self) == old(self).moved(p),
    {
        self.cur_pos = p;
    }

    /// The primary button went down: anchors at the pointer unless a selection
    /// is already under way.
    pub fn on_primary_press(&mut self)
        ensures
            *final(self) == old(self).pressed(),
    {
        if let Selection::Idle = self.selection {
            self.selection = Selection::Anchored { anchor: self.cur_pos };
        }
    }

    /// The primary button came up: an anchored selection ends at the pointer.
    pub fn on_primary_release(&mut self)
        ensures
            *final(self) == old(self).released(),
    {
        if let Selection::Anchored { anchor } = self.selection {
            self.selection = Selection::Released { anchor, release: self.cur_pos };
        }
    }

    /// Escape or the secondary button: drops the selection, or, where there is
    /// none, returns `true` to say that the session is to close.
    pub fn on_cancel(&mut self) -> (close: bool)
        ensures
            close == (old(self).selection is Idle),
            *final(self) == old(self).cancelled(),
    {
        let close = match self.selection {
            Selection::Idle => true,
            _ => false,
        };
        self.selection = Selection::Idle;
        close
    }

    /// The save sink reported: a written image clears the selection; a dismissed
    /// dialog, or a session with no finished selection, leaves all as it was.
    pub fn on_commit_save(&mut self, written: bool)
        ensures
            *final(self) == old(self).after_save(written),
    {
        if written {
            if let Selection::Released { .. } = self.selection {
                self.selection = Selection::Idle;
            }
        }
    }

    /// The rectangle selected so far, normalized; `None` while idle.
    pub fn selection_rect(&self) -> (r: Option<Rect>)
        ensures
            r == self.selection_rect_spec(),
    {
        match self.selection {
            Selection::Idle => None,
            Selection::Anchored { anchor } => Some(Rect::from_two_pos(anchor, self.cur_pos)),
            Selection::Released { anchor, release } => Some(Rect::from_two_pos(anchor, release)),
        }
    }

    /// The finished selection, normalized; `None` until the button has come up.
    pub fn committed_rect(&self) -> (r: Option<Rect>)
        ensures
            r == self.committed_rect_spec(),
    {
        match self.selection {
            Selection::Released { anchor, release } => Some(Rect::from_two_pos(anchor, release)),
            _ => None,
        }
    }

    /// The finished selection cut out of the frame; `None` until there is one.
    pub fn crop_selection(&self) -> (r: Option<Frame>)
        requires
            self.wf(),
        ensures
            r is Some <==> self.selection is Released,
            r matches Some(c) ==> self.is_selection_crop(c),
    {
        match self.committed_rect() {
            Some(rect) => {
                let tl = rect.left_top();
                Some(self.frame.crop(tl.x, tl.y, rect.width(), rect.height()))
            },
            None => None,
        }
    }

    /// The finished selection as an image for the clipboard; `None` until there
    /// is one. The selection stays.
    pub fn on_commit_copy(&self) -> (r: Option<ClipboardImage>)
        requires
            self.wf(),
        ensures
            r is Some <==> self.selection is Released,
            r matches Some(c) ==> exists|f: Frame| self.is_selection_crop(f) && clipboard_of(f, c),
    {
        match self.crop_selection() {
            Some(f) => {
                let bytes = f.to_rgba();
                let c = ClipboardImage { width: f.width as usize, height: f.height as usize, bytes };
                assert(clipboard_of(f, c));
                Some(c)
            },
            None => None,
        }
    }

    /// The four dimming tiles around the selection on `screen`; `None` while idle.
    pub fn shadow(&self, screen: Rect) -> (r: Option<Vec<Rect>>)
        ensures
            r is Some <==> self.selection_rect_spec() is Some,
            r matches Some(v) ==> v@ == shadow_tiles(screen, self.selection_rect_spec()->Some_0),
    {
        match self.selection_rect() {
            Some(sel) => Some(shadow_rects(screen, sel)),
            None => None,
        }
    }

    /// The magnifier window around the pointer.
    pub fn magnifier(&self) -> (r: Frame)
        requires
            self.wf(),
        ensures
            r.wf(),
            r.width == MAGNIFIER_WIDTH,
            r.height == MAGNIFIER_HEIGHT,
            forall|i: int, j: int|
                0 <= i < MAGNIFIER_WIDTH && 0 <= j < MAGNIFIER_HEIGHT ==> #[trigger] r.pixel(i, j)
                    == self.frame.sample(
                    self.cur_pos.x - MAGNIFIER_WIDTH / 2 + i,
                    self.cur_pos.y - MAGNIFIER_HEIGHT / 2 + j,
                ),
    {
        self.frame.magnify(self.cur_pos.x, self.cur_pos.y, MAGNIFIER_WIDTH, MAGNIFIER_HEIGHT)
    }

    /// The color under the pointer; transparent where the pointer is off the frame.
    pub fn cursor_color(&self) -> (r: Rgba)
        requires
            self.wf(),
        ensures
            r == self.frame.sample(self.cur_pos.x as int, self.cur_pos.y as int),
    {
        self.frame.sample_at(self.cur_pos.x as i64, self.cur_pos.y as i64)
    }

    /// The state that `ev` leads to.
    pub open spec fn next(self, ev: InputEvent) -> ScreenshotApp {
        match ev {
            InputEvent::PointerMove(p) => self.moved(p),
            InputEvent::PrimaryPress => self.pressed(),
            InputEvent::PrimaryRelease => self.released(),
            InputEvent::Cancel => self.cancelled(),
            InputEvent::SaveFinished(written) => self.after_save(written),
            InputEvent::SaveShortcut => self,
            InputEvent::CopyShortcut => self,
        }
    }

    /// `a` is what the host is asked to do on `ev` in this state.
    pub open spec fn action_for(self, ev: InputEvent, a: Action) -> bool {
        match ev {
            InputEvent::Cancel => if self.selection is Idle {
                a is Close
            } else {
                a is Nothing
            },
            InputEvent::SaveShortcut => match a {
                Action::Save(c) => self.is_selection_crop(c),
                Action::Nothing => !(self.selection is Released),
                _ => false,
            },
            InputEvent::CopyShortcut => match a {
                Action::Copy(c) => exists|f: Frame| self.is_selection_crop(f) && clipboard_of(f, c),
                Action::Nothing => !(self.selection is Released),
                _ => false,
            },
            _ => a is Nothing,
        }
    }

    /// Takes one event from the host, moves the session on, and says what the
    /// host is to do next.
    pub fn handle(&mut self, ev: InputEvent) -> (a: Action)
        requires
            old(self).wf(),
        ensures
            final(self).wf(),
            *final(self) == old(self).next(ev),
            old(self).action_for(ev, a),
    {
        match ev {
            InputEvent::PointerMove(p) => {
                self.on_pointer_move(p);
                Action::Nothing
            },
            InputEvent::PrimaryPress => {
                self.on_primary_press();
                Action::Nothing
            },
            InputEvent::PrimaryRelease => {
                self.on_primary_release();
                Action::Nothing
            },
            InputEvent::Cancel => {
                if self.on_cancel() {
                    Action::Close
                } else {
                    Action::Nothing
                }
            },
            InputEvent::SaveFinished(written) => {
                self.on_commit_save(written);
                Action::Nothing
            },
            InputEvent::SaveShortcut => match self.crop_selection() {
                Some(c) => Action::Save(c),
                None => Action::Nothing,
            },
            InputEvent::CopyShortcut => match self.on_commit_copy() {
                Some(c) => Action::Copy(c),
                None => Action::Nothing,
            },
        }
    }

    /// The pointer position.
    pub fn cursor_pos(&self) -> (r: Point)
        ensures
            r == self.cur_pos,
    {
        self.cur_pos
    }
}

/// Pressing at `a` and releasing at `b`, starting from no selection, selects the
/// rectangle whose left-top corner is the smaller coordinates of the two points
/// and whose right-bottom corner is the larger, whichever point came first.
pub proof fn lemma_drag_selects_span(s: ScreenshotApp, a: Point, b: Point)
    requires
        s.selection is Idle,
    ensures
        ({
            let r = s.moved(a).pressed().moved(b).released().committed_rect_spec()->Some_0;
            &&& s.moved(a).pressed().moved(b).released().committed_rect_spec() is Some
            &&& r.min.x == (if a.x <= b.x { a.x } else { b.x })
            &&& r.min.y == (if a.y <= b.y { a.y } else { b.y })
            &&& r.max.x == (if a.x <= b.x { b.x } else { a.x })
            &&& r.max.y == (if a.y <= b.y { b.y } else { a.y })
        }),
        s.moved(a).pressed().moved(b).released().committed_rect_spec() == s.moved(b).pressed().moved(
            a,
        ).released().committed_rect_spec(),
{
}

/// From a selection under way or finished, a cancel goes back to no selection,
/// keeps the session open and leaves the frame and the pointer alone.
pub proof fn lemma_cancel_clears(s: ScreenshotApp)
    requires
        s.selection is Anchored || s.selection is Released,
    ensures
        s.cancelled().selection is Idle,
        anchor_of(s.cancelled().selection) is None,
        release_of(s.cancelled().selection) is None,
        s.cancelled().frame == s.frame,
        s.cancelled().cur_pos == s.cur_pos,
        s.action_for(InputEvent::Cancel, Action::Nothing),
{
}

/// Without a finished selection, a save does nothing: it asks the host to write
/// nothing, and whatever the sink reports leaves the session as it was.
pub proof fn lemma_save_without_selection(s: ScreenshotApp, written: bool)
    requires
        !(s.selection is Released),
    ensures
        s.action_for(InputEvent::SaveShortcut, Action::Nothing),
        s.after_save(written) == s,
{
}

/// Once anchored, further presses of the primary button, wherever the pointer
/// has gone meanwhile, leave the anchor where it was.
pub proof fn lemma_press_keeps_anchor(s: ScreenshotApp, p: Point)
    requires
        s.selection is Anchored,
    ensures
        s.pressed() == s,
        anchor_of(s.moved(p).pressed().pressed().selection) == anchor_of(s.selection),
{
}

} // verus!
