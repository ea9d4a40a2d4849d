//! The one writer that every part of the system prints through, behind a spin
//! lock.

use vstd::prelude::*;
use spin::{Mutex, MutexGuard};
use super::buffer::{Buffer, ScreenChar, BUFFER_HEIGHT, BUFFER_WIDTH};
use super::writer::Writer;

verus! {

/// `spin::Mutex`: a lock that is taken by spinning. The verifier sees nothing
/// inside it.
#[verifier::external_type_specification]
#[verifier::external_body]
#[verifier::reject_recursive_types(T)]
pub struct ExMutex<T: ?Sized>(Mutex<T>);

/// `spin::MutexGuard`: the proof that a lock is held, and the way to what it
/// protects. The verifier sees nothing inside it.
#[verifier::external_type_specification]
#[verifier::external_body]
#[verifier::reject_recursive_types(T)]
pub struct ExMutexGuard<'a, T: ?Sized + 'a>(MutexGuard<'a, T>);

/// `spin::Mutex::new`: a lock around `user_data`, not held by anyone. Nothing is
/// claimed of it.
pub assume_specification<T>[ Mutex::<T>::new ](user_data: T) -> (mutex: Mutex<T>);

/// `spin::Mutex::lock`: spins until the lock is free, takes it, and returns a
/// guard that gives the lock back when it is dropped. Nothing is claimed of what
/// the guard protects: another holder may have changed it since it was last seen.
///
/// A caller that already holds the lock never returns from this call.
pub assume_specification<T: ?Sized>[ Mutex::<T>::lock ](mutex: &Mutex<T>) -> (guard: MutexGuard<
    '_,
    T,
>);

/// `DerefMut::deref_mut` of `spin::MutexGuard`: the writer that the held lock
/// protects. Nothing is claimed of its state: it is as `SharedWriter::new` made
/// it or as the last holder of the lock left it.
#[verifier::external_body]
fn locked_writer<'g, 'a>(guard: &'g mut MutexGuard<'a, Writer>) -> (writer: &'g mut Writer) {
    core::ops::DerefMut::deref_mut(guard)
}

/// A writer shared by everything that prints. Whoever wants to use it must take
/// its lock, so two uses never overlap.
pub struct SharedWriter {
    writer: Mutex<Writer>,
    made_with: Ghost<super::screen::Screen>,
}

impl SharedWriter {
    /// The shared writer for the screen in `buffer`, with its lock free.
    pub fn new(buffer: Buffer) -> (shared: SharedWriter)
        ensures
            shared.initial() == (super::screen::Screen {
                rows: buffer@,
                column: 0,
                color: Writer::default_color(),
            }),
            shared.initial().wf(),
    {
        let writer = Writer::new(buffer);
        let made_with = Ghost(writer@);
        SharedWriter { writer: Mutex::new(writer), made_with }
    }

    /// What the writer showed when it went behind the lock: the screen as the
    /// buffer held it, the cursor at the left edge, cyan on black. Whoever takes
    /// the lock first finds the writer so; later holders find it as the one
    /// before them left it.
    pub closed spec fn initial(&self) -> super::screen::Screen {
        self.made_with@
    }

    /// Takes the lock, runs `f` on the writer and gives the lock back. While `f`
    /// runs nobody else can touch the writer; a caller that comes meanwhile spins
    /// until `f` is done.
    ///
    /// `f` must not call `with_writer` on the same `SharedWriter`: the inner call
    /// would wait for a lock that the outer one holds.
    pub fn with_writer<R, F: FnOnce(&mut Writer) -> R>(&self, f: F) -> (result: R)
        requires
            forall|writer: &mut Writer| f.requires((writer,)),
        ensures
            exists|writer: &mut Writer| f.ensures((writer,), result),
    {
        let mut guard = self.writer.lock();
        let writer = locked_writer(&mut guard);
        f(writer)
    }
}

/// Prints `text` on the shared screen. The lock is held for the whole text, so
/// the output of two calls is never mixed.
pub fn _print(shared: &SharedWriter, text: &str) {
    shared.with_writer(|writer: &mut Writer| writer.write_string(text));
}

/// Blanks the shared screen, so that a test starts from a known picture.
pub fn prepare_test(shared: &SharedWriter) {
    shared.with_writer(|writer: &mut Writer| writer.clear_screen());
}

/// The character that a cell shows, for a channel that speaks in characters: the
/// one whose code point is the cell's character code.
pub fn glyph(cell: ScreenChar) -> (c: char)
    ensures
        c as u32 == cell.ascii_character as u32,
{
    cell.ascii_character as char
}

/// Reads the shared screen cell by cell, taking the lock for each cell, and
/// returns its rows as characters, ready to be sent down a serial line. Each
/// character is the glyph of the cell as it was when it was read; if somebody
/// prints in between, the rows returned are not one picture of the screen.
pub fn print_screen_serial(shared: &SharedWriter) -> (lines: Vec<Vec<char>>)
    ensures
        lines@.len() == BUFFER_HEIGHT,
        forall|row: int|
            0 <= row < BUFFER_HEIGHT ==> (#[trigger] lines@[row])@.len() == BUFFER_WIDTH,
        forall|row: int, col: int|
            0 <= row < BUFFER_HEIGHT && 0 <= col < BUFFER_WIDTH ==> (#[trigger] lines@[row]@[col])
                as u32 <= 0xff,
{
    let mut lines: Vec<Vec<char>> = Vec::new();
    for row in 0..BUFFER_HEIGHT
        invariant
            lines@.len() == row,
            forall|r: int| 0 <= r < row ==> (#[trigger] lines@[r])@.len() == BUFFER_WIDTH,
            forall|r: int, c: int|
                0 <= r < row && 0 <= c < BUFFER_WIDTH ==> (#[trigger] lines@[r]@[c]) as u32 <= 0xff,
    {
        let mut line: Vec<char> = Vec::new();
        for col in 0..BUFFER_WIDTH
            invariant
                row < BUFFER_HEIGHT,
                line@.len() == col,
                forall|c: int| 0 <= c < col ==> (#[trigger] line@[c]) as u32 <= 0xff,
        {
            let value = shared.with_writer(|writer: &mut Writer| writer.read(row, col));
            line.push(glyph(value));
        }
        lines.push(line);
    }
    lines
}

} // verus!
