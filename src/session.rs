use crate::imaging::{
    brighten_image, crop_image, decode_rgba, decoded_of, encode_png, flip_horizontal_image,
    flip_vertical_image, png_of, resampled, resize_image, rotate180_image, rotate270_image,
    rotate90_image, FilterKind,
};
use crate::raster::{
    brighten_of, crop_of, flip_horizontal_of, flip_vertical_of, raster_of,
    rotate180_of, rotate270_of, rotate90_of, PixelBuffer, Raster,
};
use vstd::prelude::*;

verus! {

/// Why an editing call did not go through.
#[derive(Clone, Copy, Debug, PartialEq, Eq, Structural)]
pub enum EditError {
    /// The bytes are no image that can be decoded.
    DecodeError,
    /// The picture could not be encoded.
    EncodeError,
    /// The crop rectangle is empty or leaves the picture.
    InvalidRegion,
    /// The target size of a resize is empty or too large to hold.
    InvalidSize,
    /// There is no picture to work on.
    NoImageLoaded,
}

/// The model of an editing session: the picture being edited and the two history stacks,
/// whose tops are their last elements.
pub struct EditState {
    pub current: Option<Raster>,
    pub undo: Seq<Raster>,
    pub redo: Seq<Raster>,
}

/// No picture and empty history.
pub open spec fn empty_state() -> EditState {
    EditState { current: None, undo: Seq::empty(), redo: Seq::empty() }
}

/// A freshly loaded picture with empty history.
pub open spec fn loaded_state(m: Raster) -> EditState {
    EditState { current: Some(m), undo: Seq::empty(), redo: Seq::empty() }
}

/// A mutating operation: the picture before it goes on the undo stack and `next` is current.
pub open spec fn pushed(s: EditState, next: Raster) -> EditState {
    match s.current {
        Some(c) => EditState { current: Some(next), undo: s.undo.push(c), redo: s.redo },
        None => s,
    }
}

/// One undo: the top of the undo stack becomes current and the current picture goes on the
/// redo stack; with an empty undo stack nothing changes.
pub open spec fn undo_step(s: EditState) -> EditState {
    if s.undo.len() == 0 {
        s
    } else {
        EditState {
            current: Some(s.undo.last()),
            undo: s.undo.drop_last(),
            redo: match s.current {
                Some(c) => s.redo.push(c),
                None => s.redo,
            },
        }
    }
}

/// One redo, the mirror of an undo.
pub open spec fn redo_step(s: EditState) -> EditState {
    if s.redo.len() == 0 {
        s
    } else {
        EditState {
            current: Some(s.redo.last()),
            redo: s.redo.drop_last(),
            undo: match s.current {
                Some(c) => s.undo.push(c),
                None => s.undo,
            },
        }
    }
}

/// `n` undos in a row.
pub open spec fn undo_n(s: EditState, n: nat) -> EditState
    decreases n,
{
    if n == 0 {
        s
    } else {
        undo_n(undo_step(s), (n - 1) as nat)
    }
}

/// `n` redos in a row.
pub open spec fn redo_n(s: EditState, n: nat) -> EditState
    decreases n,
{
    if n == 0 {
        s
    } else {
        redo_step(redo_n(s, (n - 1) as nat))
    }
}

/// A crop rectangle that is not empty and lies inside `m`.
pub open spec fn region_fits(m: Raster, x: nat, y: nat, width: nat, height: nat) -> bool {
    &&& width >= 1
    &&& height >= 1
    &&& x + width <= m.width
    &&& y + height <= m.height
}

/// A resize target that is not empty and whose buffers can be addressed.
pub open spec fn size_fits(m: Raster, width: nat, height: nat) -> bool {
    &&& width >= 1
    &&& height >= 1
    &&& width * height * 4 <= usize::MAX
    &&& m.width * height * 4 <= usize::MAX
}

/// A decoded file that makes a picture of at least one pixel.
pub open spec fn decoded_fits(t: (nat, nat, Seq<u8>)) -> bool {
    &&& t.0 >= 1
    &&& t.1 >= 1
    &&& t.2.len() == t.0 * t.1 * 4
}

/// Undoing `n` steps and then redoing `n` steps gives back the same picture and the same stacks,
/// wherever the undo stack held at least `n` snapshots and a picture was current.
pub proof fn lemma_undo_redo_round_trip(s: EditState, n: nat)
    requires
        s.current is Some,
        n <= s.undo.len(),
    ensures
        redo_n(undo_n(s, n), n) == s,
    decreases n,
{
    if n > 0 {
        let s1 = undo_step(s);
        lemma_undo_redo_round_trip(s1, (n - 1) as nat);
        assert(s.undo.drop_last().push(s.undo.last()) =~= s.undo);
        assert(s1.redo.drop_last() =~= s.redo);
        assert(redo_step(s1) == s);
    }
}

/// The state after mutating operations whose results are `nexts`, in order.
pub open spec fn pushed_all(s: EditState, nexts: Seq<Raster>) -> EditState
    decreases nexts.len(),
{
    if nexts.len() == 0 {
        s
    } else {
        pushed(pushed_all(s, nexts.drop_last()), nexts.last())
    }
}

/// Each mutating operation on a loaded picture adds one snapshot to the undo stack.
pub proof fn lemma_operations_fill_undo(s: EditState, nexts: Seq<Raster>)
    requires
        s.current is Some,
    ensures
        pushed_all(s, nexts).current is Some,
        pushed_all(s, nexts).undo.len() == s.undo.len() + nexts.len(),
    decreases nexts.len(),
{
    if nexts.len() > 0 {
        lemma_operations_fill_undo(s, nexts.drop_last());
    }
}

/// After any `n` mutating operations on a loaded picture, `n` undos followed by `n` redos give
/// back the picture and both stacks as they stood after the operations.
pub proof fn lemma_operations_undone_and_redone(s: EditState, nexts: Seq<Raster>)
    requires
        s.current is Some,
    ensures
        redo_n(undo_n(pushed_all(s, nexts), nexts.len()), nexts.len()) == pushed_all(s, nexts),
{
    lemma_operations_fill_undo(s, nexts);
    lemma_undo_redo_round_trip(pushed_all(s, nexts), nexts.len());
}

/// Brightening by more than 255 saturates every colour channel just as brightening by 255.
proof fn lemma_brighten_saturated(m: Raster, value: int, step: int)
    requires
        step == if value > 255 {
            255
        } else {
            value
        },
    ensures
        brighten_of(m, step) == brighten_of(m, value),
{
    let a = brighten_of(m, step);
    let b = brighten_of(m, value);
    assert forall|y: int| 0 <= y < m.height implies #[trigger] a.rows[y] =~= b.rows[y] by {}
    assert(a.rows =~= b.rows);
}

/// The editing session: zero or one picture, with undo and redo history.
pub struct ImageOperations {
    image_data: Option<PixelBuffer>,
    undo_stack: Vec<PixelBuffer>,
    redo_stack: Vec<PixelBuffer>,
}

impl View for ImageOperations {
    type V = EditState;

    closed spec fn view(&self) -> EditState {
        EditState {
            current: match self.image_data {
                Some(b) => Some(b@),
                None => None,
            },
            undo: self.undo_stack@.map_values(|b: PixelBuffer| b@),
            redo: self.redo_stack@.map_values(|b: PixelBuffer| b@),
        }
    }
}

impl ImageOperations {
    pub closed spec fn wf(&self) -> bool {
        &&& self.image_data matches Some(b) ==> b.wf()
        &&& forall|i: int| 0 <= i < self.undo_stack@.len() ==> (#[trigger] self.undo_stack@[i]).wf()
        &&& forall|i: int| 0 <= i < self.redo_stack@.len() ==> (#[trigger] self.redo_stack@[i]).wf()
        &&& (self.undo_stack@.len() > 0 || self.redo_stack@.len() > 0) ==> self.image_data is Some
    }

    /// A session with no picture and empty history.
    pub fn new() -> (r: ImageOperations)
        ensures
            r.wf(),
            r@ == empty_state(),
    {
        let r = ImageOperations { image_data: None, undo_stack: Vec::new(), redo_stack: Vec::new() };
        assert(r@.undo =~= Seq::<Raster>::empty());
        assert(r@.redo =~= Seq::<Raster>::empty());
        r
    }

    /// The picture being edited.
    pub fn current(&self) -> (r: Option<&PixelBuffer>)
        requires
            self.wf(),
        ensures
            match r {
                Some(b) => b.wf() && self@.current == Some(b@),
                None => self@.current is None,
            },
    {
        self.image_data.as_ref()
    }

    /// How many snapshots the undo stack holds.
    pub fn undo_depth(&self) -> (r: usize)
        ensures
            r == self@.undo.len(),
    {
        self.undo_stack.len()
    }

    /// How many snapshots the redo stack holds.
    pub fn redo_depth(&self) -> (r: usize)
        ensures
            r == self@.redo.len(),
    {
        self.redo_stack.len()
    }

    /// Makes `buf` the picture being edited and starts its history afresh.
    pub fn load_image(&mut self, buf: PixelBuffer)
        requires
            buf.wf(),
        ensures
            final(self).wf(),
            final(self)@ == loaded_state(buf@),
    {
        self.image_data = Some(buf);
        self.undo_stack = Vec::new();
        self.redo_stack = Vec::new();
        assert(self@.undo =~= Seq::<Raster>::empty());
        assert(self@.redo =~= Seq::<Raster>::empty());
    }

    /// Decodes an image file and loads it; on failure nothing changes.
    pub fn load_image_from_bytes(&mut self, bytes: &[u8]) -> (r: Result<(), EditError>)
        requires
            old(self).wf(),
        ensures
            final(self).wf(),
            r is Ok <==> (decoded_of(bytes@) matches Some(t) && decoded_fits(t)),
            r is Ok ==> (decoded_of(bytes@) matches Some(t) && final(self)@ == loaded_state(
                raster_of(t.0, t.1, t.2),
            )),
            r is Err ==> r == Err::<(), EditError>(EditError::DecodeError) && final(self)@ == old(
                self,
            )@,
    {
        match decode_rgba(bytes) {
            Ok((width, height, data)) => match PixelBuffer::from_raw(width, height, data) {
                Some(buf) => {
                    self.load_image(buf);
                    Ok(())
                },
                None => Err(EditError::DecodeError),
            },
            Err(_) => Err(EditError::DecodeError),
        }
    }

    /// The PNG file of the picture being edited. The session is left as it is.
    pub fn save(&self) -> (r: Result<Vec<u8>, EditError>)
        requires
            self.wf(),
        ensures
            match self@.current {
                None => r == Err::<Vec<u8>, EditError>(EditError::NoImageLoaded),
                Some(c) => match png_of(c) {
                    Some(v) => r matches Ok(bytes) && bytes@ == v,
                    None => r == Err::<Vec<u8>, EditError>(EditError::EncodeError),
                },
            },
    {
        match &self.image_data {
            None => Err(EditError::NoImageLoaded),
            Some(cur) => match encode_png(cur) {
                Ok(bytes) => Ok(bytes),
                Err(_) => Err(EditError::EncodeError),
            },
        }
    }

    /// Records the current picture on the undo stack and makes `next` current; with no
    /// picture loaded nothing changes.
    pub fn apply(&mut self, next: PixelBuffer) -> (r: Result<(), EditError>)
        requires
            old(self).wf(),
            next.wf(),
        ensures
            final(self).wf(),
            old(self)@.current is None ==> r == Err::<(), EditError>(EditError::NoImageLoaded)
                && final(self)@ == old(self)@,
            old(self)@.current is Some ==> r is Ok && final(self)@ == pushed(old(self)@, next@),
    {
        match self.image_data.take() {
            None => Err(EditError::NoImageLoaded),
            Some(prev) => {
                self.undo_stack.push(prev);
                self.image_data = Some(next);
                assert(self@.undo =~= old(self)@.undo.push(prev@));
                Ok(())
            },
        }
    }
    /// Turns the picture a quarter turn clockwise.
    pub fn rotate90(&mut self) -> (r: Result<(), EditError>)
        requires
            old(self).wf(),
        ensures
            final(self).wf(),
            old(self)@.current is None ==> r == Err::<(), EditError>(EditError::NoImageLoaded)
                && final(self)@ == old(self)@,
            old(self)@.current matches Some(c) ==> r is Ok && final(self)@ == pushed(
                old(self)@,
                rotate90_of(c),
            ),
    {
        match &self.image_data {
            None => Err(EditError::NoImageLoaded),
            Some(cur) => {
                let next = rotate90_image(cur);
                self.apply(next)
            },
        }
    }

    /// Turns the picture half a turn.
    pub fn rotate180(&mut self) -> (r: Result<(), EditError>)
        requires
            old(self).wf(),
        ensures
            final(self).wf(),
            old(self)@.current is None ==> r == Err::<(), EditError>(EditError::NoImageLoaded)
                && final(self)@ == old(self)@,
            old(self)@.current matches Some(c) ==> r is Ok && final(self)@ == pushed(
                old(self)@,
                rotate180_of(c),
            ),
    {
        match &self.image_data {
            None => Err(EditError::NoImageLoaded),
            Some(cur) => {
                let next = rotate180_image(cur);
                self.apply(next)
            },
        }
    }

    /// Turns the picture three quarter turns clockwise.
    pub fn rotate270(&mut self) -> (r: Result<(), EditError>)
        requires
            old(self).wf(),
        ensures
            final(self).wf(),
            old(self)@.current is None ==> r == Err::<(), EditError>(EditError::NoImageLoaded)
                && final(self)@ == old(self)@,
            old(self)@.current matches Some(c) ==> r is Ok && final(self)@ == pushed(
                old(self)@,
                rotate270_of(c),
            ),
    {
        match &self.image_data {
            None => Err(EditError::NoImageLoaded),
            Some(cur) => {
                let next = rotate270_image(cur);
                self.apply(next)
            },
        }
    }

    /// Mirrors the picture top to bottom.
    pub fn flip_vertical(&mut self) -> (r: Result<(), EditError>)
        requires
            old(self).wf(),
        ensures
            final(self).wf(),
            old(self)@.current is None ==> r == Err::<(), EditError>(EditError::NoImageLoaded)
                && final(self)@ == old(self)@,
            old(self)@.current matches Some(c) ==> r is Ok && final(self)@ == pushed(
                old(self)@,
                flip_vertical_of(c),
            ),
    {
        match &self.image_data {
            None => Err(EditError::NoImageLoaded),
            Some(cur) => {
                let next = flip_vertical_image(cur);
                self.apply(next)
            },
        }
    }

    /// Mirrors the picture left to right.
    pub fn flip_horizontal(&mut self) -> (r: Result<(), EditError>)
        requires
            old(self).wf(),
        ensures
            final(self).wf(),
            old(self)@.current is None ==> r == Err::<(), EditError>(EditError::NoImageLoaded)
                && final(self)@ == old(self)@,
            old(self)@.current matches Some(c) ==> r is Ok && final(self)@ == pushed(
                old(self)@,
                flip_horizontal_of(c),
            ),
    {
        match &self.image_data {
            None => Err(EditError::NoImageLoaded),
            Some(cur) => {
                let next = flip_horizontal_image(cur);
                self.apply(next)
            },
        }
    }

    /// Adds `value` to the colour channels of every pixel, saturating at 0 and 255.
    pub fn brightness(&mut self, value: i32) -> (r: Result<(), EditError>)
        requires
            old(self).wf(),
        ensures
            final(self).wf(),
            old(self)@.current is None ==> r == Err::<(), EditError>(EditError::NoImageLoaded)
                && final(self)@ == old(self)@,
            old(self)@.current matches Some(c) ==> r is Ok && final(self)@ == pushed(
                old(self)@,
                brighten_of(c, value as int),
            ),
    {
        match &self.image_data {
            None => Err(EditError::NoImageLoaded),
            Some(cur) => {
                let step: i32 = if value > 255 {
                    255
                } else {
                    value
                };
                proof {
                    lemma_brighten_saturated(cur@, value as int, step as int);
                }
                let next = brighten_image(cur, step);
                self.apply(next)
            },
        }
    }

    /// Keeps the `width` by `height` rectangle whose top left corner is `(x, y)`.
    pub fn crop(&mut self, x: u32, y: u32, width: u32, height: u32) -> (r: Result<(), EditError>)
        requires
            old(self).wf(),
        ensures
            final(self).wf(),
            old(self)@.current is None ==> r == Err::<(), EditError>(EditError::NoImageLoaded)
                && final(self)@ == old(self)@,
            old(self)@.current matches Some(c) ==> {
                if region_fits(c, x as nat, y as nat, width as nat, height as nat) {
                    r is Ok && final(self)@ == pushed(
                        old(self)@,
                        crop_of(c, x as nat, y as nat, width as nat, height as nat),
                    )
                } else {
                    r == Err::<(), EditError>(EditError::InvalidRegion) && final(self)@ == old(
                        self,
                    )@
                }
            },
    {
        match &self.image_data {
            None => Err(EditError::NoImageLoaded),
            Some(cur) => {
                let w = cur.width();
                let h = cur.height();
                if width == 0 || height == 0 || x as u64 + width as u64 > w as u64 || y as u64
                    + height as u64 > h as u64 {
                    return Err(EditError::InvalidRegion);
                }
                let next = crop_image(cur, x, y, width, height);
                self.apply(next)
            },
        }
    }

    /// Resamples the picture to `width` by `height`. Where that is its size already, nothing
    /// changes and no history is recorded.
    pub fn resize(&mut self, width: u32, height: u32, filter: FilterKind) -> (r: Result<
        (),
        EditError,
    >)
        requires
            old(self).wf(),
        ensures
            final(self).wf(),
            old(self)@.current is None ==> r == Err::<(), EditError>(EditError::NoImageLoaded)
                && final(self)@ == old(self)@,
            old(self)@.current matches Some(c) ==> {
                if c.width == width && c.height == height {
                    r is Ok && final(self)@ == old(self)@
                } else if size_fits(c, width as nat, height as nat) {
                    r is Ok && final(self)@ == pushed(
                        old(self)@,
                        resampled(c, width as nat, height as nat, filter),
                    )
                } else {
                    r == Err::<(), EditError>(EditError::InvalidSize) && final(self)@ == old(self)@
                }
            },
    {
        match &self.image_data {
            None => Err(EditError::NoImageLoaded),
            Some(cur) => {
                let w = cur.width();
                let h = cur.height();
                if w == width && h == height {
                    return Ok(());
                }
                let limit = usize::MAX as u128;
                proof {
                    assert((width as int) * (height as int) * 4 <= u32::MAX * u32::MAX * 4)
                        by (nonlinear_arith)
                        requires
                            width <= u32::MAX,
                            height <= u32::MAX,
                    ;
                    assert((w as int) * (height as int) * 4 <= u32::MAX * u32::MAX * 4)
                        by (nonlinear_arith)
                        requires
                            w <= u32::MAX,
                            height <= u32::MAX,
                    ;
                }
                if width == 0 || height == 0 || (width as u128) * (height as u128) * 4 > limit
                    || (w as u128) * (height as u128) * 4 > limit {
                    return Err(EditError::InvalidSize);
                }
                let next = resize_image(cur, width, height, filter);
                self.apply(next)
            },
        }
    }

    /// Brings back the picture before the last operation; the current one goes on the redo
    /// stack. With an empty undo stack nothing changes.
    pub fn undo(&mut self) -> (r: bool)
        requires
            old(self).wf(),
        ensures
            final(self).wf(),
            r == (old(self)@.undo.len() > 0),
            final(self)@ == undo_step(old(self)@),
    {
        match self.undo_stack.pop() {
            None => false,
            Some(prev) => {
                let cur = self.image_data.take();
                match cur {
                    Some(c) => self.redo_stack.push(c),
                    None => {},
                }
                self.image_data = Some(prev);
                assert(self@.undo =~= old(self)@.undo.drop_last());
                assert(self@.redo =~= undo_step(old(self)@).redo);
                true
            },
        }
    }

    /// Brings back the picture that the last undo put aside; the current one goes on the undo
    /// stack. With an empty redo stack nothing changes.
    pub fn redo(&mut self) -> (r: bool)
        requires
            old(self).wf(),
        ensures
            final(self).wf(),
            r == (old(self)@.redo.len() > 0),
            final(self)@ == redo_step(old(self)@),
    {
        match self.redo_stack.pop() {
            None => false,
            Some(next) => {
                let cur = self.image_data.take();
                match cur {
                    Some(c) => self.undo_stack.push(c),
                    None => {},
                }
                self.image_data = Some(next);
                assert(self@.redo =~= old(self)@.redo.drop_last());
                assert(self@.undo =~= redo_step(old(self)@).undo);
                true
            },
        }
    }
}

impl Default for ImageOperations {
    fn default() -> (r: ImageOperations)
        ensures
            r.wf(),
            r@ == empty_state(),
    {
        ImageOperations::new()
    }
}

} // verus!
