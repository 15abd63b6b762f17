//! A screen of cells on top of a session.

use vstd::prelude::*;
use crate::error::Error;
use crate::render::{in_reach, Cell, RenderModel, RendererState};
use crate::session::{Minitel, MinitelRead, MinitelWrite};
use crate::videotex::{SetPosition, MAX_COLUMN, MAX_ROW};
use crate::MinitelMessage;

verus! {

/// Number of columns of the screen.
pub const COLUMNS: u16 = 40;

/// Number of rows of the screen, the status row included.
pub const ROWS: u16 = 25;

/// Draws cells on the screen of a terminal, and sends only what changed.
pub struct MinitelBackend<S> {
    /// The session with the terminal.
    pub minitel: Minitel<S>,
    /// The mirror of the terminal.
    pub state: RendererState,
}

impl<S> MinitelBackend<S> {
    /// What the backend knows of the terminal.
    pub open spec fn model(&self) -> RenderModel {
        self.state@
    }

    /// Between two operations no copies are held back.
    pub open spec fn wf(&self) -> bool {
        self.state@.wf() && self.state@.repeat == 0
    }

    /// Tests whether the backend is in order.
    pub fn is_wf(&self) -> (b: bool)
        ensures
            b == self.wf(),
    {
        self.state.is_wf() && self.state.repeat == 0
    }

    /// A backend that knows nothing of the terminal yet.
    pub fn new(minitel: Minitel<S>) -> (backend: Self)
        ensures
            backend.minitel == minitel,
            backend.model() == RenderModel::unknown(),
            backend.wf(),
    {
        MinitelBackend { minitel, state: RendererState::new() }
    }

    /// The size of the screen, as columns and rows.
    pub fn size(&self) -> (size: (u16, u16))
        ensures
            size == (COLUMNS, ROWS),
    {
        (COLUMNS, ROWS)
    }
}

impl<S: MinitelWrite> MinitelBackend<S> {
    /// What sending bytes to the terminal leaves: the bytes sent and the
    /// mirror as given, or a failure of the channel, nothing sent, and a
    /// mirror that knows nothing, so that the next cell starts afresh.
    pub open spec fn sends(
        before: Self,
        after: Self,
        r: Result<(), Error>,
        bytes: Seq<u8>,
        model: RenderModel,
    ) -> bool {
        match r {
            Ok(_) => Minitel::wrote(before.minitel, after.minitel, bytes) && after.model() == model,
            Err(e) => e is Io && Minitel::idle(before.minitel, after.minitel) && after.model()
                == RenderModel::unknown(),
        }
    }

    /// Sends bytes, and forgets the mirror where the channel fails.
    fn emit(&mut self, bytes: &[u8]) -> (r: Result<(), Error>)
        ensures
            Self::sends(*old(self), *final(self), r, bytes@, old(self).model()),
    {
        match self.minitel.write_bytes(bytes) {
            Ok(()) => Ok(()),
            Err(e) => {
                self.state.reset();
                Err(e)
            },
        }
    }

    /// Draws one pass over a sequence of cells, each with its column and
    /// its row: sends the bytes that bring the screen up to date.
    pub fn draw(&mut self, content: &[(u16, u16, Cell)]) -> (r: Result<(), Error>)
        requires
            old(self).wf(),
            in_reach(content@),
        ensures
            final(self).wf(),
            Self::sends(
                *old(self),
                *final(self),
                r,
                old(self).model().pass_bytes(content@),
                old(self).model().after_pass(content@),
            ),
    {
        let bytes = self.state.render(content);
        self.emit(bytes.as_slice())
    }

    /// Hides the cursor.
    pub fn hide_cursor(&mut self) -> (r: Result<(), Error>)
        requires
            old(self).wf(),
        ensures
            final(self).wf(),
            Self::sends(*old(self), *final(self), r, seq![0x14u8], old(self).model()),
    {
        let bytes = [0x14u8];
        assert(bytes@ =~= seq![0x14u8]);
        self.emit(&bytes)
    }

    /// Shows the cursor.
    pub fn show_cursor(&mut self) -> (r: Result<(), Error>)
        requires
            old(self).wf(),
        ensures
            final(self).wf(),
            Self::sends(*old(self), *final(self), r, seq![0x11u8], old(self).model()),
    {
        let bytes = [0x11u8];
        assert(bytes@ =~= seq![0x11u8]);
        self.emit(&bytes)
    }

    /// Moves the cursor to a column and a row. The terminal drops its
    /// attributes on the way, so the mirror keeps the cursor only.
    pub fn set_cursor_position(&mut self, x: u16, y: u16) -> (r: Result<(), Error>)
        requires
            old(self).wf(),
            x <= MAX_COLUMN,
            y <= MAX_ROW,
        ensures
            final(self).wf(),
            Self::sends(
                *old(self),
                *final(self),
                r,
                SetPosition(x as u8, y as u8).bytes(),
                (RenderModel { cursor: Some((x, y)), ..RenderModel::unknown() }),
            ),
    {
        let bytes = SetPosition(x as u8, y as u8).message();
        self.state.reset();
        let r = self.emit(bytes.as_slice());
        if r.is_ok() {
            self.state.cursor_position = Some((x, y));
        }
        r
    }

    /// Clears the screen. The mirror knows nothing afterwards.
    pub fn clear(&mut self) -> (r: Result<(), Error>)
        requires
            old(self).wf(),
        ensures
            final(self).wf(),
            Self::sends(*old(self), *final(self), r, seq![0x0Cu8], RenderModel::unknown()),
    {
        let bytes = [0x0Cu8];
        assert(bytes@ =~= seq![0x0Cu8]);
        self.state.reset();
        self.emit(&bytes)
    }

    /// Waits until the channel has let go of what it was handed.
    pub fn flush(&mut self) -> (r: Result<(), Error>)
        ensures
            final(self).model() == old(self).model(),
            match r {
                Ok(_) => Minitel::flushed(old(self).minitel, final(self).minitel),
                Err(e) => e is Io && Minitel::idle(old(self).minitel, final(self).minitel),
            },
    {
        self.minitel.flush()
    }
}

impl<S: MinitelRead + MinitelWrite> MinitelBackend<S> {
    /// Asks the terminal where its cursor is, and returns the column and
    /// the row. The question leaves the terminal as it is, and so the
    /// mirror; a failure leaves a mirror that knows nothing.
    pub fn get_cursor_position(&mut self) -> (r: Result<(u16, u16), Error>)
        requires
            old(self).wf(),
        ensures
            final(self).wf(),
            match r {
                Ok(position) => {
                    &&& position.0 <= u8::MAX && position.1 <= u8::MAX
                    &&& Minitel::asks_position(
                        old(self).minitel,
                        final(self).minitel,
                        Ok((position.0 as u8, position.1 as u8)),
                    )
                    &&& final(self).model() == old(self).model()
                },
                Err(e) => {
                    &&& Minitel::asks_position(old(self).minitel, final(self).minitel, Err(e))
                    &&& final(self).model() == RenderModel::unknown()
                },
            },
    {
        match self.minitel.get_pos() {
            Ok((x, y)) => Ok((x as u16, y as u16)),
            Err(e) => {
                self.state.reset();
                Err(e)
            },
        }
    }
}

} // verus!
