//! The local pane: ground truth for a directly driven screen.
//!
//! A local pane owns its screen model outright.  The process and pty handles
//! live outside this layer; output already decoded by the terminal emulator
//! is applied here as row batches, and input is queued for the emulator and
//! the raw sink to drain.

use vstd::prelude::*;
use crate::changeset::RangeSet;
use crate::screen::{Line, RenderableDimensions, Screen, StableCursorPosition};
use crate::pane::Pane;
use crate::{
    ColorPalette, DomainId, InputEvent, KeyCode, KeyModifiers, MouseEvent, PaneError, PaneId,
    PtySize, SequenceNo, StableRowIndex,
};

verus! {

/// Declares `url::Url` to the verifier so a pane can carry the working
/// directory the application reported; the value is opaque here.
#[verifier::external_type_specification]
#[verifier::external_body]
pub struct ExUrl(url::Url);

/// Relies on `url::Url::clone`, a derived clone of a plain data struct: it
/// returns a value equal to its argument.
#[verifier::external_body]
fn clone_url(u: &url::Url) -> (r: url::Url)
    ensures
        r == *u,
{
    u.clone()
}

/// A pane driven by a locally spawned process.
pub struct LocalPane {
    /// Identifier of this pane; immutable, never reused.
    pub pane_id: PaneId,
    /// Identifier of the owning domain.
    pub domain_id: DomainId,
    /// The screen model, exclusively owned.
    pub screen: Screen,
    /// Whether the backing process reported termination.
    pub dead: bool,
    /// Whether the input channel to the process is still open.
    pub writer_open: bool,
    /// Title reported by the application.
    pub title: String,
    /// Whether the application grabbed the mouse.
    pub mouse_grabbed: bool,
    /// Whether the alternate screen is active.
    pub alt_screen: bool,
    /// Working directory reported by the application, if any.
    pub cwd: Option<url::Url>,
    /// Input events queued for the terminal emulator.
    pub events: Vec<InputEvent>,
    /// Raw bytes queued for the process input sink.
    pub input: Vec<u8>,
    /// Palette currently in effect.
    pub palette: ColorPalette,
}

impl LocalPane {
    /// A fresh local pane with a blank screen.
    pub fn new(
        pane_id: PaneId,
        domain_id: DomainId,
        viewport_rows: usize,
        cols: usize,
        title: String,
    ) -> (p: LocalPane)
        requires
            1 <= viewport_rows,
            viewport_rows <= isize::MAX as usize,
        ensures
            p.inv(),
            p.pane_id == pane_id,
            p.domain_id == domain_id,
            !p.dead,
            p.writer_open,
            p.screen.top == 0,
            p.screen.seqno == 0,
            p.screen.viewport_rows == viewport_rows,
            p.screen.rows@.len() == viewport_rows,
            p.screen.cols == cols,
            p.title == title,
            p.cwd is None,
            p.events@.len() == 0,
            p.input@.len() == 0,
    {
        LocalPane {
            pane_id,
            domain_id,
            screen: Screen::new(viewport_rows, cols),
            dead: false,
            writer_open: true,
            title,
            mouse_grabbed: false,
            alt_screen: false,
            cwd: None,
            events: Vec::new(),
            input: Vec::new(),
            palette: default_palette(),
        }
    }

    /// Applies one decoded batch of row overwrites to the screen.  Fails
    /// with `PaneClosed` once the pane is dead.  A batch names each row at
    /// most once; a decoder that touches a row twice merges the writes
    /// before handing the batch over.
    pub fn apply_output_changes(&mut self, changes: &Vec<(StableRowIndex, String)>) -> (r: Result<
        (),
        PaneError,
    >)
        requires
            old(self).inv(),
            old(self).screen.seqno < usize::MAX,
            forall|k: int|
                0 <= k < changes@.len() ==> old(self).screen.in_extent(
                    (#[trigger] changes@[k]).0 as int,
                ),
            forall|k1: int, k2: int|
                0 <= k1 < k2 < changes@.len() ==> (#[trigger] changes@[k1]).0 != (
                #[trigger] changes@[k2]).0,
        ensures
            final(self).inv(),
            old(self).dead ==> r == Err::<(), PaneError>(PaneError::PaneClosed) && *final(self)
                == *old(self),
            !old(self).dead ==> r == Ok::<(), PaneError>(()) && *final(self) == (LocalPane {
                screen: final(self).screen,
                ..*old(self)
            }) && final(self).screen.seqno == old(self).screen.seqno + 1 && final(self).screen.top
                == old(self).screen.top && final(self).screen.rows@.len()
                == old(self).screen.rows@.len() && final(self).screen.viewport_rows == old(self).screen.viewport_rows && final(self).screen.cols == old(self).screen.cols && final(self).screen.cursor == old(self).screen.cursor && (forall|k: int|
                0 <= k < changes@.len() ==> final(self).screen.line_at(
                    (#[trigger] changes@[k]).0 as int,
                ).text@ == changes@[k].1@) && (forall|row: int|
                old(self).screen.in_extent(row) && (forall|k: int|
                    0 <= k < changes@.len() ==> (#[trigger] changes@[k]).0 != row) ==> final(self).screen.line_at(row) == old(self).screen.line_at(row)),
            Screen::conservative_from(old(self).screen, final(self).screen),
    {
        if self.dead {
            return Err(PaneError::PaneClosed);
        }
        self.screen.apply_changes(changes);
        Ok(())
    }

    /// Appends newly produced rows at the bottom of the screen.  Fails with
    /// `PaneClosed` once the pane is dead.
    pub fn append_output_lines(&mut self, texts: &Vec<String>) -> (r: Result<(), PaneError>)
        requires
            old(self).inv(),
            old(self).screen.seqno < usize::MAX,
            old(self).screen.extent_end() + texts@.len() <= isize::MAX as int,
            old(self).screen.rows@.len() + texts@.len() <= isize::MAX as int,
        ensures
            final(self).inv(),
            old(self).dead ==> r == Err::<(), PaneError>(PaneError::PaneClosed) && *final(self)
                == *old(self),
            !old(self).dead ==> r == Ok::<(), PaneError>(()) && *final(self) == (LocalPane {
                screen: final(self).screen,
                ..*old(self)
            }) && final(self).screen.seqno == old(self).screen.seqno + 1 && final(self).screen.top
                == old(self).screen.top && final(self).screen.rows@.len()
                == old(self).screen.rows@.len() + texts@.len() && final(self).screen.viewport_rows
                == old(self).screen.viewport_rows && final(self).screen.cols == old(self).screen.cols && final(self).screen.cursor == old(self).screen.cursor && (forall|row: int|
                old(self).screen.in_extent(row) ==> final(self).screen.line_at(row) == old(self).screen.line_at(row)) && (forall|k: int|
                0 <= k < texts@.len() ==> final(self).screen.line_at(
                    old(self).screen.extent_end() + k,
                ).text@ == (#[trigger] texts@[k])@),
            Screen::conservative_from(old(self).screen, final(self).screen),
    {
        if self.dead {
            return Err(PaneError::PaneClosed);
        }
        self.screen.append_lines(texts);
        Ok(())
    }

    /// Moves the cursor as the emulator reports it.
    pub fn set_reported_cursor(&mut self, x: usize, y: StableRowIndex) -> (r: Result<
        (),
        PaneError,
    >)
        requires
            old(self).inv(),
            x <= old(self).screen.cols,
            old(self).screen.in_extent(y as int),
        ensures
            final(self).inv(),
            old(self).dead ==> r == Err::<(), PaneError>(PaneError::PaneClosed) && *final(self)
                == *old(self),
            !old(self).dead ==> r == Ok::<(), PaneError>(()) && *final(self) == (LocalPane {
                screen: (Screen {
                    cursor: StableCursorPosition { x, y },
                    ..old(self).screen
                }),
                ..*old(self)
            }),
    {
        if self.dead {
            return Err(PaneError::PaneClosed);
        }
        self.screen.set_cursor(x, y);
        Ok(())
    }

    /// Records that the backing process terminated.
    pub fn mark_dead(&mut self)
        ensures
            *final(self) == (LocalPane { dead: true, ..*old(self) }),
    {
        self.dead = true;
    }

    /// Records that the input channel broke.
    pub fn mark_writer_closed(&mut self)
        ensures
            *final(self) == (LocalPane { writer_open: false, ..*old(self) }),
    {
        self.writer_open = false;
    }

    /// Stores the title the application reported.
    pub fn set_title(&mut self, title: String)
        ensures
            *final(self) == (LocalPane { title, ..*old(self) }),
    {
        self.title = title;
    }

    /// Stores whether the application grabbed the mouse.
    pub fn set_mouse_grabbed(&mut self, grabbed: bool)
        ensures
            *final(self) == (LocalPane { mouse_grabbed: grabbed, ..*old(self) }),
    {
        self.mouse_grabbed = grabbed;
    }

    /// Stores whether the alternate screen is active.
    pub fn set_alt_screen(&mut self, active: bool)
        ensures
            *final(self) == (LocalPane { alt_screen: active, ..*old(self) }),
    {
        self.alt_screen = active;
    }

    /// Stores the working directory the application reported.
    pub fn set_current_working_dir(&mut self, cwd: Option<url::Url>)
        ensures
            *final(self) == (LocalPane { cwd, ..*old(self) }),
    {
        self.cwd = cwd;
    }

    /// Stores the palette in effect.
    pub fn set_palette(&mut self, palette: ColorPalette)
        ensures
            *final(self) == (LocalPane { palette, ..*old(self) }),
    {
        self.palette = palette;
    }

    /// Hands the oldest queued input event to the emulator driver.
    pub fn next_event(&mut self) -> (r: Option<InputEvent>)
        ensures
            old(self).events@.len() == 0 ==> r is None && *final(self) == *old(self),
            old(self).events@.len() > 0 ==> (r matches Some(e) && e == old(self).events@[0])
                && *final(self) == (LocalPane { events: final(self).events, ..*old(self) })
                && final(self).events@ == old(self).events@.remove(0),
    {
        if self.events.len() == 0 {
            None
        } else {
            Some(self.events.remove(0))
        }
    }

    /// Drains the raw input bytes queued for the process sink.
    pub fn take_input(&mut self) -> (r: Vec<u8>)
        ensures
            r@ == old(self).input@,
            *final(self) == (LocalPane { input: final(self).input, ..*old(self) }),
            final(self).input@.len() == 0,
    {
        let mut drained: Vec<u8> = Vec::new();
        core::mem::swap(&mut drained, &mut self.input);
        drained
    }
}

/// The palette a pane starts with: light grey on black.
pub fn default_palette() -> (p: ColorPalette)
    ensures
        p == (ColorPalette {
            foreground: crate::RgbColor { red: 192, green: 192, blue: 192 },
            background: crate::RgbColor { red: 0, green: 0, blue: 0 },
        }),
{
    ColorPalette {
        foreground: crate::RgbColor { red: 192, green: 192, blue: 192 },
        background: crate::RgbColor { red: 0, green: 0, blue: 0 },
    }
}

impl Pane for LocalPane {
    open spec fn screen_spec(&self) -> Screen {
        self.screen
    }

    open spec fn id_spec(&self) -> PaneId {
        self.pane_id
    }

    open spec fn domain_spec(&self) -> DomainId {
        self.domain_id
    }

    open spec fn dead_spec(&self) -> bool {
        self.dead
    }

    open spec fn writer_open_spec(&self) -> bool {
        self.writer_open
    }

    open spec fn title_spec(&self) -> Seq<char> {
        self.title@
    }

    open spec fn palette_spec(&self) -> ColorPalette {
        self.palette
    }

    open spec fn mouse_grabbed_spec(&self) -> bool {
        self.mouse_grabbed
    }

    open spec fn alt_screen_spec(&self) -> bool {
        self.alt_screen
    }

    open spec fn cwd_spec(&self) -> Option<url::Url> {
        self.cwd
    }

    open spec fn events_spec(&self) -> Seq<InputEvent> {
        self.events@
    }

    open spec fn input_spec(&self) -> Seq<u8> {
        self.input@
    }

    open spec fn inv(&self) -> bool {
        self.screen.wf()
    }

    fn pane_id(&self) -> PaneId {
        self.pane_id
    }

    fn domain_id(&self) -> DomainId {
        self.domain_id
    }

    fn is_dead(&self) -> bool {
        self.dead
    }

    fn get_current_seqno(&self) -> SequenceNo {
        self.screen.seqno
    }

    fn get_cursor_position(&self) -> StableCursorPosition {
        self.screen.cursor
    }

    fn get_dimensions(&self) -> RenderableDimensions {
        self.screen.dimensions()
    }

    fn get_title(&self) -> String {
        self.title.clone()
    }

    fn palette(&self) -> ColorPalette {
        self.palette
    }

    fn is_mouse_grabbed(&self) -> bool {
        self.mouse_grabbed
    }

    fn is_alt_screen_active(&self) -> bool {
        self.alt_screen
    }

    fn get_current_working_dir(&self) -> (r: Option<url::Url>) {
        match &self.cwd {
            None => None,
            Some(u) => Some(clone_url(u)),
        }
    }

    fn get_changed_since(&self, start: StableRowIndex, end: StableRowIndex, seqno: SequenceNo) -> (
        cs: RangeSet) {
        self.screen.get_changed_since(start, end, seqno)
    }

    fn get_lines(&self, start: StableRowIndex, end: StableRowIndex) -> (r: (
        StableRowIndex,
        Vec<Line>,
    )) {
        self.screen.get_lines(start, end)
    }

    fn send_paste(&mut self, text: &str) -> (r: Result<(), PaneError>) {
        if self.dead {
            Err(PaneError::PaneClosed)
        } else if !self.writer_open {
            Err(PaneError::ChannelWriteFailed)
        } else {
            self.events.push(InputEvent::Paste(text.to_owned()));
            Ok(())
        }
    }

    fn key_down(&mut self, key: KeyCode, mods: KeyModifiers) -> (r: Result<(), PaneError>) {
        if self.dead {
            Err(PaneError::PaneClosed)
        } else if !self.writer_open {
            Err(PaneError::ChannelWriteFailed)
        } else {
            self.events.push(InputEvent::KeyDown(key, mods));
            Ok(())
        }
    }

    fn key_up(&mut self, key: KeyCode, mods: KeyModifiers) -> (r: Result<(), PaneError>) {
        if self.dead {
            Err(PaneError::PaneClosed)
        } else if !self.writer_open {
            Err(PaneError::ChannelWriteFailed)
        } else {
            self.events.push(InputEvent::KeyUp(key, mods));
            Ok(())
        }
    }

    fn mouse_event(&mut self, event: MouseEvent) -> (r: Result<(), PaneError>) {
        if self.dead {
            Err(PaneError::PaneClosed)
        } else if !self.writer_open {
            Err(PaneError::ChannelWriteFailed)
        } else {
            self.events.push(InputEvent::Mouse(event));
            Ok(())
        }
    }

    fn resize(&mut self, size: PtySize) -> (r: Result<(), PaneError>) {
        if self.dead {
            Err(PaneError::PaneClosed)
        } else {
            self.screen.resize(size.rows as usize, size.cols as usize);
            Ok(())
        }
    }

    fn writer(&mut self) -> (r: Result<&mut Vec<u8>, PaneError>) {
        if self.dead {
            Err(PaneError::PaneClosed)
        } else {
            Ok(&mut self.input)
        }
    }
}

} // verus!
