use vstd::prelude::*;
use crate::colour::Colour;
use crate::input::{
    close_requested, has_close_request, key_events, key_sequence, InputCallback, WindowEvent,
};
use crate::pixels::{blank, buffer_len, empty_pixels, lemma_with_pixel, pixel_at, set_pixel, with_pixel};

verus! {

/// The backend-independent part of a window: its size, its pixel buffer,
/// its input callback and whether it is still open.
///
/// Callers draw in logical coordinates (row 0 at the top); the buffer stores
/// rows from the bottom, as the presentation surface reads them.
pub struct Window<C> {
    width: usize,
    height: usize,
    pixel_buffer: Vec<u8>,
    key_callback: C,
    open: bool,
}

impl<C: InputCallback> Window<C> {
    pub closed spec fn spec_width(&self) -> int {
        self.width as int
    }

    pub closed spec fn spec_height(&self) -> int {
        self.height as int
    }

    /// The stored bytes, rows from the bottom.
    pub closed spec fn spec_pixels(&self) -> Seq<u8> {
        self.pixel_buffer@
    }

    pub closed spec fn spec_open(&self) -> bool {
        self.open
    }

    /// The callback that key transitions go to.
    pub closed spec fn spec_callback(&self) -> C {
        self.key_callback
    }

    /// The window's size is positive and its buffer holds exactly one triple per pixel.
    pub open spec fn wf(&self) -> bool {
        &&& 0 < self.spec_width()
        &&& 0 < self.spec_height()
        &&& buffer_len(self.spec_width(), self.spec_height()) <= usize::MAX
        &&& self.spec_pixels().len() == buffer_len(self.spec_width(), self.spec_height())
    }

    /// An open window of `width` by `height` pixels, all zero.
    pub fn new(width: usize, height: usize, key_callback: C) -> (r: Self)
        requires
            0 < width,
            0 < height,
            buffer_len(width as int, height as int) <= usize::MAX,
        ensures
            r.wf(),
            r.spec_width() == width,
            r.spec_height() == height,
            r.spec_open(),
            r.spec_pixels() == blank(width as int, height as int),
            r.spec_callback() == key_callback,
    {
        Window { width, height, pixel_buffer: empty_pixels(width, height), key_callback, open: true }
    }

    pub fn width(&self) -> (r: usize)
        ensures
            r == self.spec_width(),
    {
        self.width
    }

    pub fn height(&self) -> (r: usize)
        ensures
            r == self.spec_height(),
    {
        self.height
    }

    pub fn is_open(&self) -> (r: bool)
        ensures
            r == self.spec_open(),
    {
        self.open
    }

    /// The buffer to upload to the presentation surface, rows from the bottom.
    pub fn pixels(&self) -> (r: &Vec<u8>)
        ensures
            r@ == self.spec_pixels(),
    {
        &self.pixel_buffer
    }

    /// Replaces the input callback; it takes effect at the next update.
    pub fn set_input_callback(&mut self, callback: C)
        ensures
            final(self).spec_width() == old(self).spec_width(),
            final(self).spec_height() == old(self).spec_height(),
            final(self).spec_pixels() == old(self).spec_pixels(),
            final(self).spec_open() == old(self).spec_open(),
            final(self).spec_callback() == callback,
    {
        self.key_callback = callback;
    }

    /// Writes `colour` at logical `(x, y)`, that is at storage row
    /// `height - y - 1`; a coordinate outside the window changes nothing.
    pub fn draw_pixel(&mut self, x: usize, y: usize, colour: &Colour)
        requires
            old(self).wf(),
        ensures
            final(self).wf(),
            final(self).spec_width() == old(self).spec_width(),
            final(self).spec_height() == old(self).spec_height(),
            final(self).spec_open() == old(self).spec_open(),
            final(self).spec_callback() == old(self).spec_callback(),
            y < old(self).spec_height() ==> final(self).spec_pixels() == with_pixel(
                old(self).spec_pixels(),
                x as int,
                old(self).spec_height() - y - 1,
                old(self).spec_width(),
                old(self).spec_height(),
                colour.raw(),
            ),
            x >= old(self).spec_width() || y >= old(self).spec_height() ==> final(self).spec_pixels()
                == old(self).spec_pixels(),
            x < old(self).spec_width() && y < old(self).spec_height() ==> pixel_at(
                final(self).spec_pixels(),
                x as int,
                old(self).spec_height() - y - 1,
                old(self).spec_width(),
            ) == colour.raw(),
    {
        if y >= self.height {
            return ;
        }
        let raw = colour.to_raw();
        let row = self.height - y - 1;
        proof {
            if x < self.width {
                lemma_with_pixel(
                    self.pixel_buffer@,
                    x as int,
                    row as int,
                    self.width as int,
                    self.height as int,
                    raw,
                );
            }
        }
        set_pixel(&mut self.pixel_buffer, x, row, self.width, self.height, raw);
    }

    /// Ends a frame whose buffer has been uploaded and presented, given the
    /// events drained after presenting: clears the buffer when
    /// `clear_pixel_buffer` holds, calls the callback for each key transition
    /// in arrival order, and returns whether the window is still open.
    pub fn update(&mut self, clear_pixel_buffer: bool, events: &Vec<WindowEvent>) -> (r: bool)
        requires
            old(self).wf(),
        ensures
            final(self).wf(),
            final(self).spec_width() == old(self).spec_width(),
            final(self).spec_height() == old(self).spec_height(),
            clear_pixel_buffer ==> final(self).spec_pixels() == blank(
                old(self).spec_width(),
                old(self).spec_height(),
            ),
            !clear_pixel_buffer ==> final(self).spec_pixels() == old(self).spec_pixels(),
            r == (old(self).spec_open() && !close_requested(events@)),
            final(self).spec_open() == r,
            final(self).spec_callback().received() == old(self).spec_callback().received()
                + key_sequence(events@),
    {
        if clear_pixel_buffer {
            self.pixel_buffer = empty_pixels(self.width, self.height);
        }
        let keys = key_events(events);
        for i in 0..keys.len()
            invariant
                self.wf(),
                self.width == old(self).width,
                self.height == old(self).height,
                self.open == old(self).open,
                clear_pixel_buffer ==> self.pixel_buffer@ == blank(
                    self.width as int,
                    self.height as int,
                ),
                !clear_pixel_buffer ==> self.pixel_buffer@ == old(self).pixel_buffer@,
                keys@ == key_sequence(events@),
                self.key_callback.received() == old(self).key_callback.received() + keys@.subrange(
                    0,
                    i as int,
                ),
        {
            let (code, state) = keys[i];
            self.key_callback.on_key(code, state);
            assert(keys@.subrange(0, i + 1) =~= keys@.subrange(0, i as int).push((code, state)));
        }
        assert(keys@.subrange(0, keys@.len() as int) =~= keys@);
        if has_close_request(events) {
            self.open = false;
        }
        self.open
    }
}

} // verus!
