//! A pane mirrored from a remote multiplexing session.
//!
//! A `TmuxPane` acts as a local pane except that it takes care of history
//! scrollback and keeps it in sync with the remote session.  It composes a
//! [`LocalPane`] and delegates every capability to it, except that a row
//! request crossing unfetched history first asks the remote session for the
//! missing rows (keyed by stable row range) and splices the fetched content
//! into the screen model in one atomic mutation.  The remote session is
//! declared to retain `history_size` rows of scrollback; requests beyond
//! that are answered with the closest available content, never fabricated.

use vstd::prelude::*;
use crate::changeset::RangeSet;
use crate::localpane::LocalPane;
use crate::pane::Pane;
use crate::screen::{Line, RenderableDimensions, Screen, StableCursorPosition};
use crate::{
    ColorPalette, DomainId, InputEvent, KeyCode, KeyModifiers, MouseEvent, PaneError, PaneId,
    PtySize, SequenceNo, StableRowIndex,
};

verus! {

/// How often a transient fetch failure is retried before `FetchTimeout`.
pub const MAX_FETCH_ATTEMPTS: usize = 3;

/// State of the history fetch a pane may have outstanding.
#[derive(Clone, Copy, Debug, PartialEq, Eq, Structural)]
pub enum FetchState {
    /// No fetch is outstanding.
    Idle,
    /// Rows `[start, end)` were requested from the remote session.
    InFlight {
        /// First row requested.
        start: StableRowIndex,
        /// One past the last row requested; always the top of the extent.
        end: StableRowIndex,
        /// Transient failures seen so far.
        attempts: usize,
    },
}

/// The stable top once a buffer reaching `ext_end` is trimmed to hold at
/// most `cap` rows: unchanged if it already fits, else raised just far
/// enough that exactly `cap` rows remain.
pub open spec fn trimmed_top_spec(top: int, ext_end: int, cap: int) -> int {
    if ext_end - cap > top {
        ext_end - cap
    } else {
        top
    }
}

/// Answer to a row request against a remote-backed pane.
pub enum LinesReply {
    /// The rows are materialized locally: base index and content.
    Lines(StableRowIndex, Vec<Line>),
    /// Rows `[start, end)` must first be fetched from the remote session.
    Fetch(StableRowIndex, StableRowIndex),
}

/// A pane whose authoritative content lives in a remote multiplexer session.
pub struct TmuxPane {
    /// Rows of scrollback the remote session is declared to retain.
    pub history_size: u64,
    /// The embedded local pane that owns the screen model.
    pub localpane: LocalPane,
    /// The in-flight fetch, if any.
    pub fetch: FetchState,
}

impl TmuxPane {
    /// Lowest stable row the remote session still retains.
    pub open spec fn fetch_floor(&self) -> int {
        -(self.history_size as int)
    }

    /// The materialized buffer does not exceed the declared history depth:
    /// at most `history_size` rows of scrollback above the viewport.  This
    /// holds whenever no fetch is in flight and output is applied through
    /// this pane; a resize that shrinks the viewport may break it until the
    /// next mutation or an explicit `trim_to_history` restores it.
    pub open spec fn within_history(&self) -> bool {
        self.localpane.screen.rows@.len() as int <= self.history_size
            + self.localpane.screen.viewport_rows
    }

    /// Rows the buffer may hold at most: the declared history depth plus
    /// the viewport.
    pub open spec fn row_cap(&self) -> int {
        self.history_size + self.localpane.screen.viewport_rows
    }

    /// Well-formedness: the embedded pane is well-formed, the extent never
    /// reaches below the retained history, and an in-flight fetch asks for
    /// retained rows directly above the extent.
    pub open spec fn wf(&self) -> bool {
        &&& self.localpane.inv()
        &&& self.history_size <= isize::MAX as u64
        &&& self.localpane.screen.top as int >= self.fetch_floor()
        &&& match self.fetch {
            FetchState::Idle => true,
            FetchState::InFlight { start, end, attempts } => {
                &&& end == self.localpane.screen.top
                &&& start < end
                &&& start as int >= self.fetch_floor()
                &&& attempts < MAX_FETCH_ATTEMPTS
            },
        }
    }

    /// A fresh remote-backed pane with a blank screen and no fetch.
    pub fn new(
        pane_id: PaneId,
        viewport_rows: usize,
        cols: usize,
        domain_id: DomainId,
        history_size: u64,
        title: String,
    ) -> (p: TmuxPane)
        requires
            1 <= viewport_rows,
            viewport_rows <= isize::MAX as usize,
            history_size <= isize::MAX as u64,
        ensures
            p.wf(),
            p.history_size == history_size,
            p.fetch == FetchState::Idle,
            p.localpane.pane_id == pane_id,
            p.localpane.domain_id == domain_id,
            !p.localpane.dead,
            p.localpane.screen.top == 0,
            p.localpane.screen.seqno == 0,
            p.localpane.screen.viewport_rows == viewport_rows,
            p.localpane.screen.rows@.len() == viewport_rows,
            p.localpane.screen.cols == cols,
            p.localpane.title == title,
            p.within_history(),
    {
        TmuxPane {
            history_size,
            localpane: LocalPane::new(pane_id, domain_id, viewport_rows, cols, title),
            fetch: FetchState::Idle,
        }
    }

    /// Whether a history fetch is outstanding.
    pub fn fetch_in_flight(&self) -> (b: bool)
        ensures
            b == !(self.fetch is Idle),
    {
        match self.fetch {
            FetchState::Idle => false,
            FetchState::InFlight { .. } => true,
        }
    }

    /// Answers a row request under the reconciliation policy: a request the
    /// materialized extent can satisfy is answered locally at once; a
    /// request crossing unfetched, still-retained history starts a fetch of
    /// the missing rows directly above the extent; a request entirely
    /// outside the retained history is answered with the closest available
    /// content and its true base index, never fabricated.
    pub fn poll_lines(&mut self, start: StableRowIndex, end: StableRowIndex) -> (r: Result<
        LinesReply,
        PaneError,
    >)
        requires
            old(self).wf(),
            start <= end,
        ensures
            final(self).wf(),
            final(self).localpane == old(self).localpane,
            final(self).history_size == old(self).history_size,
            old(self).localpane.dead ==> ((r matches Err(e) && e == PaneError::PaneClosed)
                && *final(self) == *old(self)),
            old(self).fetch matches FetchState::InFlight { start: s, end: e, attempts: a } ==> (
            old(self).localpane.dead || (*final(self) == *old(self) && r == Ok::<
                LinesReply,
                PaneError,
            >(LinesReply::Fetch(s, e)))),
            !old(self).localpane.dead && old(self).fetch is Idle && (start as int
                >= old(self).localpane.screen.extent_start() || end as int <= old(self).fetch_floor() || old(self).localpane.screen.extent_start() <= old(self).fetch_floor())
                ==> *final(self) == *old(self) && (r matches Ok(rep)
                && rep matches LinesReply::Lines(base, lines) && base as int == old(self).localpane.screen.lines_reply_spec(start as int, end as int).0 && lines@ == old(self).localpane.screen.lines_reply_spec(start as int, end as int).1),
            !old(self).localpane.dead && old(self).fetch is Idle && !(start as int
                >= old(self).localpane.screen.extent_start() || end as int <= old(self).fetch_floor() || old(self).localpane.screen.extent_start() <= old(self).fetch_floor())
                ==> (final(self).fetch matches FetchState::InFlight { start: fs, end: fe, attempts: a2 }
                && fs as int == (if start as int >= old(self).fetch_floor() {
                start as int
            } else {
                old(self).fetch_floor()
            }) && fe == old(self).localpane.screen.top && a2 == 0 && (r matches Ok(rep)
                && rep == LinesReply::Fetch(fs, fe))),
            r matches Ok(LinesReply::Lines(base, lines)) ==> (base as int >= old(self).fetch_floor() && base as int >= -(old(self).history_size as int)),
    {
        if self.localpane.dead {
            return Err(PaneError::PaneClosed);
        }
        let floor: isize = -(self.history_size as isize);
        match self.fetch {
            FetchState::InFlight { start: s, end: e, attempts: _ } => Ok(LinesReply::Fetch(s, e)),
            FetchState::Idle => {
                let top: isize = self.localpane.screen.top;
                if start >= top || end <= floor || top <= floor {
                    let reply = self.localpane.screen.get_lines(start, end);
                    Ok(LinesReply::Lines(reply.0, reply.1))
                } else {
                    let fs: isize = if start >= floor {
                        start
                    } else {
                        floor
                    };
                    self.fetch = FetchState::InFlight { start: fs, end: top, attempts: 0 };
                    Ok(LinesReply::Fetch(fs, top))
                }
            },
        }
    }

    /// Accepts the rows the remote session returned for the in-flight fetch
    /// and splices them above the extent in one atomic mutation: afterwards
    /// every row still within the retained window is unchanged if it was
    /// materialized before and holds its fetched content otherwise, and the
    /// buffer is trimmed back to at most `history_size` rows of scrollback;
    /// a reader runs either before or after the whole mutation, never in
    /// between.  If the pane was torn down while the fetch was outstanding,
    /// the caller is released with `PaneClosed` and the screen model is
    /// untouched.
    pub fn splice_fetched(&mut self, start: StableRowIndex, texts: &Vec<String>) -> (r: Result<
        (),
        PaneError,
    >)
        requires
            old(self).wf(),
            old(self).localpane.screen.seqno < usize::MAX,
            old(self).localpane.screen.rows@.len() + texts@.len() <= isize::MAX as int,
            old(self).fetch matches FetchState::InFlight { start: s, end: e, attempts: a } && s
                <= start && start as int + texts@.len() == e as int,
        ensures
            final(self).wf(),
            final(self).fetch == FetchState::Idle,
            final(self).history_size == old(self).history_size,
            old(self).localpane.dead ==> ((r matches Err(e) && e == PaneError::PaneClosed)
                && final(self).localpane == old(self).localpane),
            !old(self).localpane.dead ==> r == Ok::<(), PaneError>(()) && final(self).localpane
                == (LocalPane {
                screen: final(self).localpane.screen,
                ..old(self).localpane
            }) && final(self).within_history() && final(self).localpane.screen.top as int
                == trimmed_top_spec(
                start as int,
                old(self).localpane.screen.extent_end(),
                old(self).row_cap(),
            ) && final(self).localpane.screen.extent_end() == old(self).localpane.screen.extent_end() && final(self).localpane.screen.seqno == old(self).localpane.screen.seqno + 1 && final(self).localpane.screen.viewport_rows == old(self).localpane.screen.viewport_rows && final(self).localpane.screen.cols == old(self).localpane.screen.cols && (forall|row: int|
                old(self).localpane.screen.in_extent(row) && final(self).localpane.screen.in_extent(
                    row,
                ) ==> final(self).localpane.screen.line_at(row) == old(self).localpane.screen.line_at(row)) && (forall|k: int|
                0 <= k < texts@.len() && final(self).localpane.screen.in_extent(start as int + k)
                    && start as int + k < old(self).localpane.screen.top as int ==> final(self).localpane.screen.line_at(start as int + k).text@ == (#[trigger] texts@[k])@)
                && Screen::conservative_from(
                old(self).localpane.screen,
                final(self).localpane.screen,
            ),
    {
        if self.localpane.dead {
            self.fetch = FetchState::Idle;
            return Err(PaneError::PaneClosed);
        }
        self.localpane.screen.splice_above(start, texts);
        self.fetch = FetchState::Idle;
        let ghost mid = self.localpane.screen;
        let viewport: usize = self.localpane.screen.viewport_rows;
        let scrollback: usize = self.localpane.screen.rows.len() - viewport;
        if scrollback as u64 > self.history_size {
            let excess: usize = scrollback - self.history_size as usize;
            let new_top: StableRowIndex = self.localpane.screen.top + excess as isize;
            self.localpane.screen.trim_top(new_top);
            proof {
                crate::screen::lemma_conservative_from_trans(
                    old(self).localpane.screen,
                    mid,
                    self.localpane.screen,
                );
            }
        }
        Ok(())
    }

    /// Appends newly produced output rows at the bottom and trims the
    /// buffer back to the retained history window.  While a fetch is in
    /// flight the trim is deferred — the pending splice needs the extent's
    /// top where it was — so any excess over the window is transient and
    /// removed when the splice lands.  Fails with `PaneClosed` once the
    /// pane is dead.
    pub fn append_output_lines(&mut self, texts: &Vec<String>) -> (r: Result<(), PaneError>)
        requires
            old(self).wf(),
            old(self).localpane.screen.seqno < usize::MAX,
            old(self).localpane.screen.extent_end() + texts@.len() <= isize::MAX as int,
            old(self).localpane.screen.rows@.len() + texts@.len() <= isize::MAX as int,
        ensures
            final(self).wf(),
            final(self).fetch == old(self).fetch,
            final(self).history_size == old(self).history_size,
            old(self).localpane.dead ==> r == Err::<(), PaneError>(PaneError::PaneClosed) && *final(self) == *old(self),
            !old(self).localpane.dead ==> r == Ok::<(), PaneError>(()) && final(self).localpane
                == (LocalPane {
                screen: final(self).localpane.screen,
                ..old(self).localpane
            }) && final(self).localpane.screen.seqno == old(self).localpane.screen.seqno + 1
                && final(self).localpane.screen.extent_end() == old(self).localpane.screen.extent_end() + texts@.len() && final(self).localpane.screen.viewport_rows == old(self).localpane.screen.viewport_rows && final(self).localpane.screen.cols == old(self).localpane.screen.cols && final(self).localpane.screen.top as int == (if old(self).fetch is Idle {
                trimmed_top_spec(
                    old(self).localpane.screen.top as int,
                    old(self).localpane.screen.extent_end() + texts@.len(),
                    old(self).row_cap(),
                )
            } else {
                old(self).localpane.screen.top as int
            }) && (forall|row: int|
                old(self).localpane.screen.in_extent(row) && final(self).localpane.screen.in_extent(
                    row,
                ) ==> final(self).localpane.screen.line_at(row) == old(self).localpane.screen.line_at(row)) && (forall|k: int|
                0 <= k < texts@.len() && final(self).localpane.screen.in_extent(
                    old(self).localpane.screen.extent_end() + k,
                ) ==> final(self).localpane.screen.line_at(
                    old(self).localpane.screen.extent_end() + k,
                ).text@ == (#[trigger] texts@[k])@) && Screen::conservative_from(
                old(self).localpane.screen,
                final(self).localpane.screen,
            ),
            !old(self).localpane.dead && old(self).fetch is Idle ==> final(self).within_history(),
    {
        if self.localpane.dead {
            return Err(PaneError::PaneClosed);
        }
        match self.localpane.append_output_lines(texts) {
            Ok(()) => {},
            Err(e) => {
                return Err(e);
            },
        }
        let ghost mid = self.localpane.screen;
        let idle: bool = match self.fetch {
            FetchState::Idle => true,
            FetchState::InFlight { .. } => false,
        };
        if idle {
            let viewport: usize = self.localpane.screen.viewport_rows;
            let scrollback: usize = self.localpane.screen.rows.len() - viewport;
            if scrollback as u64 > self.history_size {
                let excess: usize = scrollback - self.history_size as usize;
                let new_top: StableRowIndex = self.localpane.screen.top + excess as isize;
                self.localpane.screen.trim_top(new_top);
                proof {
                    crate::screen::lemma_conservative_from_trans(
                        old(self).localpane.screen,
                        mid,
                        self.localpane.screen,
                    );
                }
            }
        }
        Ok(())
    }

    /// Trims the buffer back to at most `history_size` rows of scrollback.
    /// Content within the retained window is untouched; the renderer calls
    /// this after a viewport change so any excess the resize exposed is
    /// removed.  Only meaningful with no fetch in flight: a pending splice
    /// pins the extent's top.
    pub fn trim_to_history(&mut self) -> (r: Result<(), PaneError>)
        requires
            old(self).wf(),
            old(self).fetch is Idle,
        ensures
            final(self).wf(),
            final(self).fetch == FetchState::Idle,
            final(self).history_size == old(self).history_size,
            old(self).localpane.dead ==> r == Err::<(), PaneError>(PaneError::PaneClosed) && *final(self) == *old(self),
            !old(self).localpane.dead ==> r == Ok::<(), PaneError>(()) && final(self).within_history() && final(self).localpane == (LocalPane {
                screen: final(self).localpane.screen,
                ..old(self).localpane
            }) && final(self).localpane.screen.seqno == old(self).localpane.screen.seqno && final(self).localpane.screen.extent_end() == old(self).localpane.screen.extent_end() && final(self).localpane.screen.viewport_rows == old(self).localpane.screen.viewport_rows && final(self).localpane.screen.cols == old(self).localpane.screen.cols && final(self).localpane.screen.top as int == trimmed_top_spec(
                old(self).localpane.screen.top as int,
                old(self).localpane.screen.extent_end(),
                old(self).row_cap(),
            ) && (forall|row: int|
                final(self).localpane.screen.in_extent(row) ==> final(self).localpane.screen.line_at(row) == old(self).localpane.screen.line_at(row))
                && Screen::conservative_from(
                old(self).localpane.screen,
                final(self).localpane.screen,
            ),
    {
        if self.localpane.dead {
            return Err(PaneError::PaneClosed);
        }
        let viewport: usize = self.localpane.screen.viewport_rows;
        let scrollback: usize = self.localpane.screen.rows.len() - viewport;
        if scrollback as u64 > self.history_size {
            let excess: usize = scrollback - self.history_size as usize;
            let new_top: StableRowIndex = self.localpane.screen.top + excess as isize;
            self.localpane.screen.trim_top(new_top);
        }
        Ok(())
    }

    /// Records one transient failure of the in-flight fetch: the fetch is
    /// retried a bounded number of times, then surfaced as `FetchTimeout`;
    /// on a torn-down pane the caller is released with `PaneClosed`.
    pub fn fetch_failed(&mut self) -> (r: Result<(StableRowIndex, StableRowIndex), PaneError>)
        requires
            old(self).wf(),
            old(self).fetch is InFlight,
        ensures
            final(self).wf(),
            final(self).localpane == old(self).localpane,
            final(self).history_size == old(self).history_size,
            old(self).localpane.dead ==> ((r matches Err(e) && e == PaneError::PaneClosed)
                && final(self).fetch == FetchState::Idle),
            old(self).fetch matches FetchState::InFlight { start: s, end: e, attempts: a } ==> (
            old(self).localpane.dead || (if a + 1 < MAX_FETCH_ATTEMPTS {
                r == Ok::<(StableRowIndex, StableRowIndex), PaneError>((s, e)) && final(self).fetch
                    == (FetchState::InFlight { start: s, end: e, attempts: (a + 1) as usize })
            } else {
                r == Err::<(StableRowIndex, StableRowIndex), PaneError>(PaneError::FetchTimeout)
                    && final(self).fetch == FetchState::Idle
            })),
    {
        match self.fetch {
            FetchState::InFlight { start: s, end: e, attempts: a } => {
                if self.localpane.dead {
                    self.fetch = FetchState::Idle;
                    Err(PaneError::PaneClosed)
                } else if a + 1 < MAX_FETCH_ATTEMPTS {
                    self.fetch = FetchState::InFlight { start: s, end: e, attempts: a + 1 };
                    Ok((s, e))
                } else {
                    self.fetch = FetchState::Idle;
                    Err(PaneError::FetchTimeout)
                }
            },
            FetchState::Idle => vstd::pervasive::unreached(),
        }
    }

    /// Tears the pane down: the backing session is gone.  The pane reports
    /// dead from now on.  An outstanding fetch stays recorded, so the
    /// caller waiting on it still reaches `splice_fetched` or
    /// `fetch_failed`, which on a dead pane release that caller with
    /// `PaneClosed` and abandon the fetch rather than letting it wait
    /// forever.
    pub fn tear_down(&mut self)
        requires
            old(self).wf(),
        ensures
            final(self).wf(),
            final(self).localpane.dead,
            final(self).fetch == old(self).fetch,
            *final(self) == (TmuxPane {
                localpane: (LocalPane { dead: true, ..old(self).localpane }),
                ..*old(self)
            }),
    {
        self.localpane.mark_dead();
    }
}

/// Law: the fast path is unaffected by fetch traffic.  Two remote-backed
/// panes with the same embedded local pane answer every row request with
/// the same base index and the same rows, whatever fetches either has in
/// flight: `get_lines` reads the screen model alone.
pub proof fn lemma_get_lines_ignores_fetch_state(a: TmuxPane, b: TmuxPane, start: int, end: int)
    requires
        a.localpane == b.localpane,
    ensures
        a.screen_spec().lines_reply_spec(start, end) == b.screen_spec().lines_reply_spec(
            start,
            end,
        ),
{
}

impl Pane for TmuxPane {
    open spec fn screen_spec(&self) -> Screen {
        self.localpane.screen
    }

    open spec fn id_spec(&self) -> PaneId {
        self.localpane.pane_id
    }

    open spec fn domain_spec(&self) -> DomainId {
        self.localpane.domain_id
    }

    open spec fn dead_spec(&self) -> bool {
        self.localpane.dead
    }

    open spec fn writer_open_spec(&self) -> bool {
        self.localpane.writer_open
    }

    open spec fn title_spec(&self) -> Seq<char> {
        self.localpane.title@
    }

    open spec fn palette_spec(&self) -> ColorPalette {
        self.localpane.palette
    }

    open spec fn mouse_grabbed_spec(&self) -> bool {
        self.localpane.mouse_grabbed
    }

    open spec fn alt_screen_spec(&self) -> bool {
        self.localpane.alt_screen
    }

    open spec fn cwd_spec(&self) -> Option<url::Url> {
        self.localpane.cwd
    }

    open spec fn events_spec(&self) -> Seq<InputEvent> {
        self.localpane.events@
    }

    open spec fn input_spec(&self) -> Seq<u8> {
        self.localpane.input@
    }

    open spec fn inv(&self) -> bool {
        self.wf()
    }

    fn pane_id(&self) -> PaneId {
        self.localpane.pane_id
    }

    fn domain_id(&self) -> DomainId {
        self.localpane.domain_id
    }

    fn is_dead(&self) -> bool {
        Pane::is_dead(&self.localpane)
    }

    fn get_current_seqno(&self) -> SequenceNo {
        Pane::get_current_seqno(&self.localpane)
    }

    fn get_cursor_position(&self) -> StableCursorPosition {
        Pane::get_cursor_position(&self.localpane)
    }

    fn get_dimensions(&self) -> RenderableDimensions {
        Pane::get_dimensions(&self.localpane)
    }

    fn get_title(&self) -> String {
        Pane::get_title(&self.localpane)
    }

    fn palette(&self) -> ColorPalette {
        Pane::palette(&self.localpane)
    }

    fn is_mouse_grabbed(&self) -> bool {
        Pane::is_mouse_grabbed(&self.localpane)
    }

    fn is_alt_screen_active(&self) -> bool {
        Pane::is_alt_screen_active(&self.localpane)
    }

    fn get_current_working_dir(&self) -> (r: Option<url::Url>) {
        Pane::get_current_working_dir(&self.localpane)
    }

    fn get_changed_since(&self, start: StableRowIndex, end: StableRowIndex, seqno: SequenceNo) -> (
        cs: RangeSet) {
        Pane::get_changed_since(&self.localpane, start, end, seqno)
    }

    fn get_lines(&self, start: StableRowIndex, end: StableRowIndex) -> (r: (
        StableRowIndex,
        Vec<Line>,
    )) {
        Pane::get_lines(&self.localpane, start, end)
    }

    fn send_paste(&mut self, text: &str) -> (r: Result<(), PaneError>) {
        Pane::send_paste(&mut self.localpane, text)
    }

    fn key_down(&mut self, key: KeyCode, mods: KeyModifiers) -> (r: Result<(), PaneError>) {
        Pane::key_down(&mut self.localpane, key, mods)
    }

    fn key_up(&mut self, key: KeyCode, mods: KeyModifiers) -> (r: Result<(), PaneError>) {
        Pane::key_up(&mut self.localpane, key, mods)
    }

    fn mouse_event(&mut self, event: MouseEvent) -> (r: Result<(), PaneError>) {
        Pane::mouse_event(&mut self.localpane, event)
    }

    fn resize(&mut self, size: PtySize) -> (r: Result<(), PaneError>) {
        Pane::resize(&mut self.localpane, size)
    }

    fn writer(&mut self) -> (r: Result<&mut Vec<u8>, PaneError>) {
        Pane::writer(&mut self.localpane)
    }
}

} // verus!
