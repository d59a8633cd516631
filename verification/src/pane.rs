//! The polymorphic pane capability interface.
//!
//! A renderer addresses every pane through this trait and never distinguishes
//! the concrete variants.  Each implementor exposes its state through the
//! trait's spec functions, and every method's contract is stated over those,
//! so the same contract binds every variant: observers are pure, input and
//! resize operations on a dead pane fail with [`PaneError::PaneClosed`], and
//! row queries are clamped to the materialized extent.

use vstd::prelude::*;
use crate::changeset::RangeSet;
use crate::screen::{Line, RenderableDimensions, Screen, StableCursorPosition};
use crate::{
    ColorPalette, DomainId, InputEvent, KeyCode, KeyModifiers, MouseEvent, PaneError, PaneId,
    PtySize, SequenceNo, StableRowIndex,
};

verus! {

/// The capability set every pane variant implements.
pub trait Pane: Sized {
    /// The pane's screen model.
    spec fn screen_spec(&self) -> Screen;

    /// The pane's identifier.
    spec fn id_spec(&self) -> PaneId;

    /// The owning domain's identifier.
    spec fn domain_spec(&self) -> DomainId;

    /// Whether the pane has been torn down.
    spec fn dead_spec(&self) -> bool;

    /// Whether the input channel to the backing process is still open.
    spec fn writer_open_spec(&self) -> bool;

    /// The pane's title.
    spec fn title_spec(&self) -> Seq<char>;

    /// The pane's palette.
    spec fn palette_spec(&self) -> ColorPalette;

    /// Whether the application in the pane grabbed the mouse.
    spec fn mouse_grabbed_spec(&self) -> bool;

    /// Whether the alternate screen is active.
    spec fn alt_screen_spec(&self) -> bool;

    /// The working directory the application reported, if any.
    spec fn cwd_spec(&self) -> Option<url::Url>;

    /// Input events queued for the terminal emulator.
    spec fn events_spec(&self) -> Seq<InputEvent>;

    /// Raw bytes queued for the process input sink.
    spec fn input_spec(&self) -> Seq<u8>;

    /// The pane's internal invariant.
    spec fn inv(&self) -> bool;

    /// Identity, side-effect free.
    fn pane_id(&self) -> (r: PaneId)
        ensures
            r == self.id_spec(),
    ;

    /// Owning domain, side-effect free.
    fn domain_id(&self) -> (r: DomainId)
        ensures
            r == self.domain_spec(),
    ;

    /// Whether the backing process or session reported termination.
    fn is_dead(&self) -> (r: bool)
        ensures
            r == self.dead_spec(),
    ;

    /// Current modification counter of the screen model.
    fn get_current_seqno(&self) -> (r: SequenceNo)
        requires
            self.inv(),
        ensures
            r == self.screen_spec().seqno,
    ;

    /// Cursor position in stable coordinates.
    fn get_cursor_position(&self) -> (r: StableCursorPosition)
        requires
            self.inv(),
        ensures
            r == self.screen_spec().cursor,
    ;

    /// Viewport size and addressable extent.
    fn get_dimensions(&self) -> (d: RenderableDimensions)
        requires
            self.inv(),
        ensures
            d.cols == self.screen_spec().cols,
            d.viewport_rows == self.screen_spec().viewport_rows,
            d.scrollback_rows == self.screen_spec().rows@.len(),
            d.physical_top as int == self.screen_spec().extent_end()
                - self.screen_spec().viewport_rows,
            d.scrollback_top == self.screen_spec().top,
    ;

    /// The pane's title.
    fn get_title(&self) -> (r: String)
        ensures
            r@ == self.title_spec(),
    ;

    /// The pane's palette.
    fn palette(&self) -> (r: ColorPalette)
        ensures
            r == self.palette_spec(),
    ;

    /// Whether the application grabbed the mouse.
    fn is_mouse_grabbed(&self) -> (r: bool)
        ensures
            r == self.mouse_grabbed_spec(),
    ;

    /// Whether the alternate screen is active.
    fn is_alt_screen_active(&self) -> (r: bool)
        ensures
            r == self.alt_screen_spec(),
    ;

    /// The working directory the application reported, if any.
    fn get_current_working_dir(&self) -> (r: Option<url::Url>)
        ensures
            r == self.cwd_spec(),
    ;

    /// The conservative set of rows of `[start, end)` that changed since
    /// sequence number `seqno`; here the set is exact.
    fn get_changed_since(&self, start: StableRowIndex, end: StableRowIndex, seqno: SequenceNo) -> (
        cs: RangeSet)
        requires
            self.inv(),
            start <= end,
        ensures
            cs.wf(),
            forall|r: int|
                cs.contains_row(r) <==> (start <= r < end && self.screen_spec().changed_since(
                    seqno,
                    r,
                )),
    ;

    /// Materialized rows of `[start, end)`, left-clamped to the extent
    /// together with the base index where the returned rows begin.
    fn get_lines(&self, start: StableRowIndex, end: StableRowIndex) -> (r: (
        StableRowIndex,
        Vec<Line>,
    ))
        requires
            self.inv(),
            start <= end,
        ensures
            r.0 as int == self.screen_spec().lines_reply_spec(start as int, end as int).0,
            r.1@ == self.screen_spec().lines_reply_spec(start as int, end as int).1,
            self.screen_spec().extent_start() <= r.0 as int,
            r.0 as int + r.1@.len() <= self.screen_spec().extent_end(),
    ;

    /// Queues pasted text for the emulator.  Fails with `PaneClosed` on a
    /// dead pane and `ChannelWriteFailed` on a broken input channel.
    fn send_paste(&mut self, text: &str) -> (r: Result<(), PaneError>)
        requires
            old(self).inv(),
        ensures
            final(self).inv(),
            final(self).screen_spec() == old(self).screen_spec(),
            final(self).dead_spec() == old(self).dead_spec(),
            final(self).id_spec() == old(self).id_spec(),
            final(self).domain_spec() == old(self).domain_spec(),
            old(self).dead_spec() ==> r == Err::<(), PaneError>(PaneError::PaneClosed) && *final(self) == *old(self),
            !old(self).dead_spec() && !old(self).writer_open_spec() ==> r == Err::<(), PaneError>(
                PaneError::ChannelWriteFailed,
            ) && *final(self) == *old(self),
            !old(self).dead_spec() && old(self).writer_open_spec() ==> r == Ok::<(), PaneError>(())
                && final(self).events_spec().len() == old(self).events_spec().len() + 1 && final(self).events_spec().subrange(0, old(self).events_spec().len() as int) == old(self).events_spec() && (final(self).events_spec().last() matches InputEvent::Paste(s)
                && s@ == text@),
    ;

    /// Queues a key press.  Fails with `PaneClosed` on a dead pane and
    /// `ChannelWriteFailed` on a broken input channel.
    fn key_down(&mut self, key: KeyCode, mods: KeyModifiers) -> (r: Result<(), PaneError>)
        requires
            old(self).inv(),
        ensures
            final(self).inv(),
            final(self).screen_spec() == old(self).screen_spec(),
            final(self).dead_spec() == old(self).dead_spec(),
            old(self).dead_spec() ==> r == Err::<(), PaneError>(PaneError::PaneClosed) && *final(self) == *old(self),
            !old(self).dead_spec() && !old(self).writer_open_spec() ==> r == Err::<(), PaneError>(
                PaneError::ChannelWriteFailed,
            ) && *final(self) == *old(self),
            !old(self).dead_spec() && old(self).writer_open_spec() ==> r == Ok::<(), PaneError>(())
                && final(self).events_spec() == old(self).events_spec().push(
                InputEvent::KeyDown(key, mods),
            ),
    ;

    /// Queues a key release.  Fails with `PaneClosed` on a dead pane and
    /// `ChannelWriteFailed` on a broken input channel.
    fn key_up(&mut self, key: KeyCode, mods: KeyModifiers) -> (r: Result<(), PaneError>)
        requires
            old(self).inv(),
        ensures
            final(self).inv(),
            final(self).screen_spec() == old(self).screen_spec(),
            final(self).dead_spec() == old(self).dead_spec(),
            old(self).dead_spec() ==> r == Err::<(), PaneError>(PaneError::PaneClosed) && *final(self) == *old(self),
            !old(self).dead_spec() && !old(self).writer_open_spec() ==> r == Err::<(), PaneError>(
                PaneError::ChannelWriteFailed,
            ) && *final(self) == *old(self),
            !old(self).dead_spec() && old(self).writer_open_spec() ==> r == Ok::<(), PaneError>(())
                && final(self).events_spec() == old(self).events_spec().push(
                InputEvent::KeyUp(key, mods),
            ),
    ;

    /// Queues a mouse event.  Fails with `PaneClosed` on a dead pane and
    /// `ChannelWriteFailed` on a broken input channel.
    fn mouse_event(&mut self, event: MouseEvent) -> (r: Result<(), PaneError>)
        requires
            old(self).inv(),
        ensures
            final(self).inv(),
            final(self).screen_spec() == old(self).screen_spec(),
            final(self).dead_spec() == old(self).dead_spec(),
            old(self).dead_spec() ==> r == Err::<(), PaneError>(PaneError::PaneClosed) && *final(self) == *old(self),
            !old(self).dead_spec() && !old(self).writer_open_spec() ==> r == Err::<(), PaneError>(
                PaneError::ChannelWriteFailed,
            ) && *final(self) == *old(self),
            !old(self).dead_spec() && old(self).writer_open_spec() ==> r == Ok::<(), PaneError>(())
                && final(self).events_spec() == old(self).events_spec().push(
                InputEvent::Mouse(event),
            ),
    ;

    /// Resizes the viewport.  No materialized row is lost; the change is one
    /// tracked mutation of the screen model.  Fails with `PaneClosed` on a
    /// dead pane.
    fn resize(&mut self, size: PtySize) -> (r: Result<(), PaneError>)
        requires
            old(self).inv(),
            1 <= size.rows,
            old(self).screen_spec().seqno < usize::MAX,
            old(self).screen_spec().extent_end() + size.rows <= isize::MAX as int,
        ensures
            final(self).inv(),
            final(self).dead_spec() == old(self).dead_spec(),
            final(self).id_spec() == old(self).id_spec(),
            final(self).domain_spec() == old(self).domain_spec(),
            final(self).events_spec() == old(self).events_spec(),
            old(self).dead_spec() ==> r == Err::<(), PaneError>(PaneError::PaneClosed) && *final(self) == *old(self),
            !old(self).dead_spec() ==> r == Ok::<(), PaneError>(()) && final(self).screen_spec().viewport_rows == size.rows && final(self).screen_spec().cols
                == size.cols && final(self).screen_spec().top == old(self).screen_spec().top
                && final(self).screen_spec().rows@.len() >= old(self).screen_spec().rows@.len()
                && final(self).screen_spec().cursor.y == old(self).screen_spec().cursor.y && final(self).screen_spec().cursor.x == (if old(self).screen_spec().cursor.x > size.cols as usize {
                size.cols as usize
            } else {
                old(self).screen_spec().cursor.x
            }) && (forall|row: int|
                old(self).screen_spec().in_extent(row) ==> final(self).screen_spec().line_at(row)
                    == old(self).screen_spec().line_at(row)) && Screen::conservative_from(
                old(self).screen_spec(),
                final(self).screen_spec(),
            ),
    ;

    /// Grants exclusive, scoped access to the raw input byte sink; the
    /// borrow's lifetime serializes writers.  Fails with `PaneClosed` on a
    /// dead pane.
    fn writer(&mut self) -> (r: Result<&mut Vec<u8>, PaneError>)
        requires
            old(self).inv(),
        ensures
            final(self).inv(),
            old(self).dead_spec() ==> (r matches Err(e) && e == PaneError::PaneClosed) && *final(self) == *old(self),
            !old(self).dead_spec() ==> r is Ok,
            r is Err ==> *final(self) == *old(self),
            r matches Ok(w) ==> (*w)@ == old(self).input_spec() && final(self).input_spec() == (*final(w))@,
            final(self).dead_spec() == old(self).dead_spec(),
            final(self).screen_spec() == old(self).screen_spec(),
            final(self).events_spec() == old(self).events_spec(),
    ;
}

} // verus!
