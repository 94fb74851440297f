//! Text box widget to display editable text

use vstd::prelude::*;
use vstd::std_specs::iter::IteratorSpec;
use vstd::string::StringSliceAdditionalSpecFns;
use vstd::utf8::{
    decode_utf8, decode_utf8_encode_utf8, encode_scalar, encode_utf8, encode_utf8_decode_utf8,
    encode_utf8_valid_utf8, valid_utf8,
};

use crate::data::{NoData, WidgetData};
use crate::geometry::{BoundingBox, MeasureSpec, MeasuredSize, Position};
use crate::input::{InputContext, InputEvent, Key, KeyEvent, Modifier, PointerEvent};
use crate::state::selection::{Selected, Unselected};
use crate::state::{lemma_group_value, State, WidgetState};
use crate::widgets::utils::callback::{
    DataChangedCallback, NoCallback, StateCallback, TextCallback, TextUpdate,
};
use crate::widgets::utils::WidgetDataHolder;
use crate::widgets::label::CharSeq;
use crate::widgets::Widget;

verus! {

broadcast use vstd::string::axiom_spec_iter;

/// The UTF-8 encoding of two texts one after the other is the encoding of the first
/// followed by that of the second.
pub proof fn lemma_encode_utf8_concat(a: Seq<char>, b: Seq<char>)
    ensures
        encode_utf8(a + b) == encode_utf8(a) + encode_utf8(b),
    decreases a.len(),
{
    if a.len() == 0 {
        assert(a + b =~= b);
        assert(encode_utf8(a) + encode_utf8(b) =~= encode_utf8(b));
    } else {
        lemma_encode_utf8_concat(a.drop_first(), b);
        assert((a + b).drop_first() =~= a.drop_first() + b);
        assert((a + b)[0] == a[0]);
        assert(encode_utf8(a + b) =~= encode_utf8(a) + encode_utf8(b));
    }
}

/// The UTF-8 encoding of one character.
pub proof fn lemma_encode_utf8_single(c: char)
    ensures
        encode_utf8(seq![c]) == encode_scalar(c as u32),
{
    let s = seq![c];
    assert(s.drop_first() =~= Seq::<char>::empty());
    assert(encode_utf8(Seq::<char>::empty()) =~= Seq::<u8>::empty());
    assert(encode_utf8(s) == encode_scalar(s[0] as u32) + encode_utf8(s.drop_first()));
    assert(encode_scalar(c as u32) + Seq::<u8>::empty() =~= encode_scalar(c as u32));
}

/// The encoding of a text is that of all but its last character followed by that of the
/// last character.
pub proof fn lemma_encode_utf8_drop_last(s: Seq<char>)
    requires
        s.len() > 0,
    ensures
        encode_utf8(s) == encode_utf8(s.drop_last()) + encode_scalar(s.last() as u32),
{
    lemma_encode_utf8_concat(s.drop_last(), seq![s.last()]);
    assert(s.drop_last() + seq![s.last()] =~= s);
    lemma_encode_utf8_single(s.last());
}

/// The text that `bytes` encode in UTF-8, if they are valid UTF-8
/// (`core::str::from_utf8`). Valid bytes always give a text, and a text has exactly the
/// bytes it was made from.
#[verifier::external_body]
fn str_from_utf8(bytes: &[u8]) -> (r: Option<&str>)
    ensures
        valid_utf8(bytes@) ==> r is Some,
        r matches Some(s) ==> s.spec_bytes() == bytes@,
{
    match core::str::from_utf8(bytes) {
        Ok(s) => Some(s),
        Err(_) => None,
    }
}

/// `c` encoded in UTF-8 in `buf`, as a text (`char::encode_utf8`).
#[verifier::external_body]
fn char_encode_utf8(c: char, buf: &mut [u8; 4]) -> (r: &str)
    ensures
        r@ == seq![c],
{
    c.encode_utf8(buf)
}

/// The last character of what `chars` has left, taken from the back
/// (`DoubleEndedIterator::next_back` of `core::str::Chars`).
#[verifier::external_body]
fn chars_next_back(chars: &mut core::str::Chars) -> (r: Option<char>)
    ensures
        (*old(chars)).remaining().len() == 0 ==> r is None,
        (*old(chars)).remaining().len() > 0 ==> r == Some((*old(chars)).remaining().last()),
{
    chars.next_back()
}

/// The number of bytes the UTF-8 encoding of `c` takes.
fn char_len_utf8(c: char) -> (r: usize)
    ensures
        r == encode_scalar(c as u32).len(),
{
    let v = c as u32;
    if v <= 0x7f {
        1
    } else if v <= 0x7ff {
        2
    } else if v <= 0xffff {
        3
    } else {
        4
    }
}

/// A text of at most `N` bytes in UTF-8, the storage of a text box; it needs no heap.
/// Operations that would make it longer fail and leave it as it was.
pub struct TextBuffer<const N: usize> {
    bytes: [u8; N],
    len: usize,
}

impl<const N: usize> View for TextBuffer<N> {
    type V = Seq<char>;

    closed spec fn view(&self) -> Seq<char> {
        decode_utf8(self.bytes@.subrange(0, self.len as int))
    }
}

impl<const N: usize> TextBuffer<N> {
    #[verifier::type_invariant]
    closed spec fn fits(self) -> bool {
        &&& self.len <= N
        &&& valid_utf8(self.bytes@.subrange(0, self.len as int))
    }

    /// The number of bytes the text takes in UTF-8.
    pub open spec fn spec_len(&self) -> nat {
        encode_utf8(self@).len()
    }

    /// The stored bytes are the encoding of the text.
    proof fn lemma_bytes(self)
        requires
            self.fits(),
        ensures
            self.bytes@.subrange(0, self.len as int) == encode_utf8(self@),
            self.spec_len() == self.len,
    {
        decode_utf8_encode_utf8(self.bytes@.subrange(0, self.len as int));
    }

    /// An empty text.
    pub fn new() -> (r: Self)
        ensures
            r@ == Seq::<char>::empty(),
    {
        let r = TextBuffer { bytes: [0u8; N], len: 0 };
        assert(r.bytes@.subrange(0, 0) =~= Seq::<u8>::empty());
        r
    }

    /// A copy of `text`, which must fit.
    pub fn from_str(text: &str) -> (r: Self)
        requires
            encode_utf8(text@).len() <= N,
        ensures
            r@ == text@,
    {
        let mut r = Self::new();
        let pushed = r.push_str(text);
        assert(pushed is Ok);
        assert(Seq::<char>::empty() + text@ =~= text@);
        r
    }

    /// The text.
    pub fn as_str(&self) -> (r: &str)
        ensures
            r@ == self@,
    {
        proof {
            use_type_invariant(self);
        }
        let bytes = vstd::slice::slice_subrange(self.bytes.as_slice(), 0, self.len);
        match str_from_utf8(bytes) {
            Some(s) => {
                proof {
                    encode_utf8_decode_utf8(s@);
                }
                s
            },
            None => "",
        }
    }

    /// The number of bytes the text takes in UTF-8; at most `N`.
    pub fn len(&self) -> (r: usize)
        ensures
            r == self.spec_len(),
            r <= N,
    {
        proof {
            use_type_invariant(self);
            self.lemma_bytes();
        }
        self.len
    }

    /// The largest number of bytes the text can take.
    pub fn capacity(&self) -> (r: usize)
        ensures
            r == N,
    {
        N
    }

    /// Whether the text is `text`.
    pub fn equals(&self, text: &str) -> (r: bool)
        ensures
            r == (self@ == text@),
    {
        proof {
            use_type_invariant(self);
            self.lemma_bytes();
            encode_utf8_decode_utf8(self@);
            encode_utf8_decode_utf8(text@);
        }
        let other = text.as_bytes();
        let ghost mine = self.bytes@.subrange(0, self.len as int);
        assert(other@ == encode_utf8(text@));
        assert(mine == encode_utf8(self@));
        assert(self@ == text@ ==> mine == other@);
        if other.len() != self.len {
            return false;
        }
        let mut i: usize = 0;
        while i < self.len
            invariant
                self.len <= N,
                other@.len() == self.len,
                mine == self.bytes@.subrange(0, self.len as int),
                i <= self.len,
                forall|j: int| 0 <= j < i ==> mine[j] == other@[j],
                self@ == text@ ==> mine == other@,
            decreases self.len - i,
        {
            if self.bytes[i] != other[i] {
                assert(mine[i as int] != other@[i as int]);
                return false;
            }
            i = i + 1;
        }
        assert(mine =~= other@);
        true
    }

    /// Empties the text.
    pub fn clear(&mut self)
        ensures
            final(self)@ == Seq::<char>::empty(),
    {
        self.len = 0;
        assert(self.bytes@.subrange(0, 0) =~= Seq::<u8>::empty());
    }

    /// Appends `s` if the result fits; otherwise fails and leaves the text as it was.
    pub fn push_str(&mut self, s: &str) -> (r: Result<(), ()>)
        ensures
            r is Ok <==> old(self).spec_len() + encode_utf8(s@).len() <= N,
            r is Ok ==> final(self)@ == old(self)@ + s@,
            r is Err ==> final(self)@ == old(self)@,
    {
        proof {
            use_type_invariant(&*self);
            self.lemma_bytes();
        }
        let extra = s.as_bytes();
        let n = extra.len();
        let len = self.len;
        if n > N - len {
            return Err(());
        }
        let ghost start = self.bytes@.subrange(0, len as int);
        let ghost text = self@;
        let mut bytes = self.bytes;
        let mut i: usize = 0;
        while i < n
            invariant
                len + n <= N,
                extra@ == encode_utf8(s@),
                n == extra@.len(),
                i <= n,
                bytes@.len() == N,
                bytes@.subrange(0, len as int) == start,
                forall|j: int| 0 <= j < i ==> bytes@[len + j] == extra@[j],
            decreases n - i,
        {
            let b = extra[i];
            bytes[len + i] = b;
            assert(bytes@.subrange(0, len as int) =~= start);
            i = i + 1;
        }
        proof {
            assert(bytes@.subrange(0, (len + n) as int) =~= start + extra@);
            lemma_encode_utf8_concat(text, s@);
            encode_utf8_valid_utf8(text + s@);
            encode_utf8_decode_utf8(text + s@);
        }
        *self = TextBuffer { bytes, len: len + n };
        Ok(())
    }

    /// Appends `c` if the result fits; otherwise fails and leaves the text as it was.
    pub fn push(&mut self, c: char) -> (r: Result<(), ()>)
        ensures
            r is Ok <==> old(self).spec_len() + encode_scalar(c as u32).len() <= N,
            r is Ok ==> final(self)@ == old(self)@.push(c),
            r is Err ==> final(self)@ == old(self)@,
    {
        let mut buf = [0u8; 4];
        let s = char_encode_utf8(c, &mut buf);
        proof {
            lemma_encode_utf8_single(c);
            assert(old(self)@ + seq![c] =~= old(self)@.push(c));
        }
        self.push_str(s)
    }

    /// Removes and returns the last character, if there is one.
    pub fn pop(&mut self) -> (r: Option<char>)
        ensures
            old(self)@.len() == 0 ==> r is None && final(self)@ == old(self)@,
            old(self)@.len() > 0 ==> r == Some(old(self)@.last()) && final(self)@ == old(self)@.drop_last(),
    {
        proof {
            use_type_invariant(&*self);
            self.lemma_bytes();
        }
        let ghost text = self@;
        let last = {
            let s = self.as_str();
            let mut chars = s.chars();
            chars_next_back(&mut chars)
        };
        match last {
            None => None,
            Some(c) => {
                let k = char_len_utf8(c);
                proof {
                    assert(text.len() > 0);
                    lemma_encode_utf8_drop_last(text);
                    encode_utf8_valid_utf8(text.drop_last());
                    encode_utf8_decode_utf8(text.drop_last());
                    let full = self.bytes@.subrange(0, self.len as int);
                    assert(full.subrange(0, self.len - k) =~= encode_utf8(text.drop_last()));
                    assert(full.subrange(0, self.len - k) =~= self.bytes@.subrange(0, self.len - k));
                }
                self.len = self.len - k;
                Some(c)
            },
        }
    }
}

/// Law: popping right after a push gives back the pushed character and the text as it was
/// before the push (`push` appends `c`, `pop` removes the last character).
pub proof fn law_pop_undoes_push(text: Seq<char>, c: char)
    ensures
        text.push(c).len() > 0,
        text.push(c).last() == c,
        text.push(c).drop_last() == text,
{
    assert(text.push(c).drop_last() =~= text);
}

/// Where a text box keeps its text: in itself, or in a buffer it borrows.
pub trait BorrowText<const N: usize> {
    /// The buffer.
    spec fn spec_buffer(&self) -> TextBuffer<N>;

    /// The buffer.
    fn buffer(&self) -> (r: &TextBuffer<N>)
        ensures
            *r == self.spec_buffer(),
    ;

    /// Write access to the buffer; what is written through it is what the storage then
    /// holds.
    fn buffer_mut(&mut self) -> (r: &mut TextBuffer<N>)
        ensures
            *r == old(self).spec_buffer(),
            final(self).spec_buffer() == *final(r),
    ;
}

impl<const N: usize> BorrowText<N> for TextBuffer<N> {
    open spec fn spec_buffer(&self) -> TextBuffer<N> {
        *self
    }

    fn buffer(&self) -> (r: &TextBuffer<N>) {
        self
    }

    fn buffer_mut(&mut self) -> (r: &mut TextBuffer<N>) {
        self
    }
}

impl<'a, const N: usize> BorrowText<N> for &'a mut TextBuffer<N> {
    open spec fn spec_buffer(&self) -> TextBuffer<N> {
        **self
    }

    fn buffer(&self) -> (r: &TextBuffer<N>) {
        &**self
    }

    fn buffer_mut(&mut self) -> (r: &mut TextBuffer<N>) {
        &mut **self
    }
}

/// How a backend draws and edits text boxes: implemented by the drawing backends.
pub trait TextBoxProperties: Sized {
    /// The size `text` takes when drawn under `spec`.
    spec fn spec_measure_text(&self, text: CharSeq, spec: MeasureSpec) -> MeasuredSize;

    /// The size `text` takes when drawn under `spec`.
    fn measure_text(&self, text: &str, spec: MeasureSpec) -> (r: MeasuredSize)
        ensures
            r == self.spec_measure_text(text@, spec),
    ;

    /// Whether editing `text`, in a buffer of `capacity` bytes, as `key` and `modifier`
    /// say may turn the backend into `after` and the text into `text_after`, with the
    /// answer `r`.
    spec fn spec_handles_keypress(
        &self,
        key: Key,
        modifier: Modifier,
        capacity: usize,
        text: Seq<char>,
        after: Self,
        text_after: Seq<char>,
        r: bool,
    ) -> bool;

    /// Whether moving the cursor to `coordinates` may turn the backend into `after`.
    spec fn spec_cursor_down(&self, coordinates: Position, after: Self) -> bool;

    /// Edits `text` as the key says. Returns whether the text should be reported as changed.
    fn handle_keypress<const N: usize>(
        &mut self,
        key: Key,
        modifier: Modifier,
        text: &mut TextBuffer<N>,
    ) -> (r: bool)
        ensures
            old(self).spec_handles_keypress(key, modifier, N, old(text)@, *final(self), final(text)@, r),
    ;

    /// Moves the cursor to where the pointer went down.
    fn handle_cursor_down(&mut self, coordinates: Position)
        ensures
            old(self).spec_cursor_down(coordinates, *final(self)),
    ;
}

/// The fields of a text box that callbacks may change.
pub struct TextBoxFields<B, P, D, const N: usize, FT = NoCallback, FS = NoCallback> {
    pub text: B,
    pub label_properties: P,
    pub bounds: BoundingBox,
    pub parent_index: usize,
    pub state: WidgetState,
    pub on_text_changed: FT,
    pub on_parent_state_changed: FS,
    pub data: core::marker::PhantomData<D>,
}

impl<B, P, D, const N: usize, FT, FS> TextBoxFields<B, P, D, N, FT, FS> where B: BorrowText<N> {
    /// The text shown.
    pub open spec fn spec_text(&self) -> Seq<char> {
        self.text.spec_buffer()@
    }

    /// Replaces the text with `text`, which must fit. Returns whether the text changed.
    pub fn set_text(&mut self, text: &str) -> (r: bool)
        requires
            encode_utf8(text@).len() <= N,
        ensures
            r == (old(self).spec_text() != text@),
            final(self).spec_text() == text@,
            final(self).label_properties == old(self).label_properties,
            final(self).bounds == old(self).bounds,
            final(self).parent_index == old(self).parent_index,
            final(self).state == old(self).state,
            final(self).on_text_changed == old(self).on_text_changed,
            final(self).on_parent_state_changed == old(self).on_parent_state_changed,
            !r ==> *final(self) == *old(self),
    {
        if self.text.buffer().equals(text) {
            return false;
        }
        *self.text.buffer_mut() = TextBuffer::from_str(text);
        true
    }
}

/// The text box reacts to input.
#[derive(Clone, Copy, Debug, PartialEq, Eq, Structural)]
pub struct Active;

impl State for Active {
    open spec fn spec_mask() -> u32 {
        4
    }

    open spec fn spec_value() -> u32 {
        0
    }

    fn mask(&self) -> (r: u32) {
        4
    }

    fn value(&self) -> (r: u32) {
        0
    }

    proof fn lemma_value_within_mask() {
        lemma_group_value(4, 0);
    }
}

/// The text box ignores input.
#[derive(Clone, Copy, Debug, PartialEq, Eq, Structural)]
pub struct Inactive;

impl State for Inactive {
    open spec fn spec_mask() -> u32 {
        4
    }

    open spec fn spec_value() -> u32 {
        4
    }

    fn mask(&self) -> (r: u32) {
        4
    }

    fn value(&self) -> (r: u32) {
        4
    }

    proof fn lemma_value_within_mask() {
        lemma_group_value(4, 4);
    }
}

/// A widget that shows text the user can edit.
pub struct TextBox<B, P, D, const N: usize, FT = NoCallback, FS = NoCallback, FD = NoCallback> where
    D: WidgetData,
 {
    pub fields: TextBoxFields<B, P, D::Data, N, FT, FS>,
    pub data_holder: WidgetDataHolder<TextBoxFields<B, P, D::Data, N, FT, FS>, D, FD>,
}

impl TextBox<TextBuffer<0>, (), NoData, 0> {
    pub const STATE_INACTIVE: Inactive = Inactive;
    pub const STATE_ACTIVE: Active = Active;
    pub const STATE_SELECTED: Selected = Selected;
    pub const STATE_UNSELECTED: Unselected = Unselected;
}

impl<B, P, const N: usize, FT, FS, FD> TextBox<B, P, NoData, N, FT, FS, FD> where
    B: BorrowText<N>,
    P: TextBoxProperties,
 {
    /// Binds the text box to `data`; the callbacks start out doing nothing.
    pub fn bind<D>(self, data: D) -> (r: TextBox<B, P, D, N>) where D: WidgetData
        ensures
            r.fields.text == self.fields.text,
            r.fields.label_properties == self.fields.label_properties,
            r.fields.bounds == self.fields.bounds,
            r.fields.parent_index == self.fields.parent_index,
            r.fields.state == self.fields.state,
            r.data_holder.data == data,
            r.data_holder.on_data_changed == NoCallback,
    {
        TextBox {
            fields: TextBoxFields {
                parent_index: self.fields.parent_index,
                text: self.fields.text,
                bounds: self.fields.bounds,
                label_properties: self.fields.label_properties,
                state: self.fields.state,
                on_text_changed: NoCallback,
                on_parent_state_changed: NoCallback,
                data: core::marker::PhantomData,
            },
            data_holder: WidgetDataHolder::new(data),
        }
    }
}

impl<B, P, D, const N: usize, FT, FS, FD> TextBox<B, P, D, N, FT, FS, FD> where
    B: BorrowText<N>,
    D: WidgetData,
    P: TextBoxProperties,
 {
    /// Sets the callback that runs on the fields when the parent's state changed.
    pub fn on_state_changed<G>(self, callback: G) -> (r: TextBox<B, P, D, N, FT, G, FD>)
        ensures
            r.fields.text == self.fields.text,
            r.fields.label_properties == self.fields.label_properties,
            r.fields.bounds == self.fields.bounds,
            r.fields.parent_index == self.fields.parent_index,
            r.fields.state == self.fields.state,
            r.fields.on_text_changed == self.fields.on_text_changed,
            r.fields.on_parent_state_changed == callback,
            r.data_holder.data == self.data_holder.data,
            r.data_holder.on_data_changed == self.data_holder.on_data_changed,
    {
        TextBox {
            fields: TextBoxFields {
                parent_index: self.fields.parent_index,
                text: self.fields.text,
                bounds: self.fields.bounds,
                label_properties: self.fields.label_properties,
                state: self.fields.state,
                on_text_changed: self.fields.on_text_changed,
                on_parent_state_changed: callback,
                data: core::marker::PhantomData,
            },
            data_holder: self.data_holder.retarget(),
        }
    }

    fn change_state<S: State>(&mut self, state: S) -> (r: &mut Self)
        ensures
            r.fields.state == old(self).fields.state.spec_set_state::<S>(),
            r.fields.text == old(self).fields.text,
            r.fields.label_properties == old(self).fields.label_properties,
            r.fields.bounds == old(self).fields.bounds,
            r.fields.parent_index == old(self).fields.parent_index,
            r.fields.on_text_changed == old(self).fields.on_text_changed,
            r.fields.on_parent_state_changed == old(self).fields.on_parent_state_changed,
            r.data_holder == old(self).data_holder,
            *final(self) == *final(r),
    {
        self.fields.state.set_state(state);
        self
    }

    /// Lets the text box react to input, or not.
    pub fn set_active(&mut self, active: bool)
        ensures
            final(self).fields.state == (if active {
                old(self).fields.state.spec_set_state::<Active>()
            } else {
                old(self).fields.state.spec_set_state::<Inactive>()
            }),
            final(self).fields.text == old(self).fields.text,
            final(self).fields.parent_index == old(self).fields.parent_index,
            final(self).data_holder == old(self).data_holder,
    {
        if active {
            self.change_state(Active);
        } else {
            self.change_state(Inactive);
        }
    }

    /// Sets the callback that runs on the bound data when the text changed.
    pub fn on_text_changed<G>(self, callback: G) -> (r: TextBox<B, P, D, N, G, FS, FD>)
        ensures
            r.fields.text == self.fields.text,
            r.fields.label_properties == self.fields.label_properties,
            r.fields.bounds == self.fields.bounds,
            r.fields.parent_index == self.fields.parent_index,
            r.fields.state == self.fields.state,
            r.fields.on_text_changed == callback,
            r.fields.on_parent_state_changed == self.fields.on_parent_state_changed,
            r.data_holder.data == self.data_holder.data,
            r.data_holder.on_data_changed == self.data_holder.on_data_changed,
    {
        TextBox {
            fields: TextBoxFields {
                parent_index: self.fields.parent_index,
                text: self.fields.text,
                bounds: self.fields.bounds,
                label_properties: self.fields.label_properties,
                state: self.fields.state,
                on_text_changed: callback,
                on_parent_state_changed: self.fields.on_parent_state_changed,
                data: core::marker::PhantomData,
            },
            data_holder: self.data_holder.retarget(),
        }
    }

    /// Sets the callback that runs on the fields when the bound data changed.
    pub fn on_data_changed<G>(self, callback: G) -> (r: TextBox<B, P, D, N, FT, FS, G>)
        ensures
            r.fields == self.fields,
            r.data_holder.data == self.data_holder.data,
            r.data_holder.on_data_changed == callback,
    {
        TextBox { fields: self.fields, data_holder: self.data_holder.with_callback(callback) }
    }
}

impl<B, P, D, const N: usize, FT, FS, FD> TextBox<B, P, D, N, FT, FS, FD> where
    B: BorrowText<N>,
    D: WidgetData,
    P: TextBoxProperties,
    FT: TextCallback<D::Data>,
 {
    /// Runs the text callback on the bound data with the current text.
    fn fire_text_changed(&mut self)
        ensures
            final(self).fields == old(self).fields,
            final(self).data_holder.on_data_changed == old(self).data_holder.on_data_changed,
            old(self).fields.on_text_changed.spec_text_call(
                old(self).data_holder.data.spec_data(),
                old(self).fields.spec_text(),
                final(self).data_holder.data.spec_data(),
            ),
    {
        self.data_holder.data.update(
            TextUpdate {
                callback: &self.fields.on_text_changed,
                text: self.fields.text.buffer().as_str(),
            },
        );
    }

    /// Shows `text`, which must fit; if that changed the text, the text callback runs.
    pub fn set_text(&mut self, text: &str)
        requires
            encode_utf8(text@).len() <= N,
        ensures
            final(self).fields.spec_text() == text@,
            final(self).fields.state == old(self).fields.state,
            final(self).fields.parent_index == old(self).fields.parent_index,
            final(self).fields.bounds == old(self).fields.bounds,
            old(self).fields.spec_text() == text@ ==> *final(self) == *old(self),
    {
        if self.fields.set_text(text) {
            self.fire_text_changed();
        }
    }
}

impl<B, P, D, const N: usize, FT, FS, FD> Widget for TextBox<B, P, D, N, FT, FS, FD> where
    B: BorrowText<N>,
    D: WidgetData,
    P: TextBoxProperties,
    FT: TextCallback<D::Data>,
    FS: StateCallback<TextBoxFields<B, P, D::Data, N, FT, FS>> + Copy,
    FD: DataChangedCallback<TextBoxFields<B, P, D::Data, N, FT, FS>, D::Data>,
 {
    open spec fn spec_bounding_box(&self) -> BoundingBox {
        self.fields.bounds
    }

    open spec fn spec_children() -> nat {
        0
    }

    open spec fn spec_parent_index(&self) -> usize {
        self.fields.parent_index
    }

    open spec fn spec_is_selectable(&self) -> bool {
        true
    }

    open spec fn spec_measures_to(&self, measure_spec: MeasureSpec, after: Self) -> bool {
        &&& (after.fields.bounds.size == (MeasuredSize {
            width: measure_spec.width.spec_apply_to_measured(
                self.fields.label_properties.spec_measure_text(
                    self.fields.spec_text(),
                    measure_spec,
                ).width,
            ),
            height: measure_spec.height.spec_apply_to_measured(
                self.fields.label_properties.spec_measure_text(
                    self.fields.spec_text(),
                    measure_spec,
                ).height,
            ),
        }))
        &&& after.fields.state == self.fields.state
    }

    open spec fn spec_resizes_to(&self, size: MeasuredSize, after: Self) -> bool {
        &&& after.fields.bounds == (BoundingBox { size, ..self.fields.bounds })
    }

    open spec fn spec_updates_to(&self, after: Self) -> bool {
        if self.data_holder.data.spec_changed() {
            self.data_holder.on_data_changed.spec_data_changed_call(
                self.fields,
                self.data_holder.data.spec_data(),
                after.fields,
            ) && after == (TextBox { fields: after.fields, ..*self })
        } else {
            after == *self
        }
    }

    open spec fn spec_resets_to(&self, after: Self) -> bool {
        &&& after == (TextBox { data_holder: after.data_holder, ..*self })
        &&& !after.data_holder.data.spec_changed()
        &&& after.data_holder.data.spec_data() == self.data_holder.data.spec_data()
        &&& after.data_holder.on_data_changed == self.data_holder.on_data_changed
    }

    open spec fn spec_tests_input(&self, event: InputEvent, after: Self, r: Option<usize>) -> bool {
        &&& self.fields.state.spec_has_state::<Inactive>() ==> r is None && after == *self
        &&& (!self.fields.state.spec_has_state::<Inactive>() ==> match event {
            InputEvent::Cancel => r is None
                && after.fields.state == self.fields.state.spec_set_state::<Unselected>(),
            InputEvent::PointerEvent(p, PointerEvent::Down) => if self.fields.bounds.spec_contains(p) {
                r == Some(0usize) && after == *self
            } else {
                r is None && after.fields.state == self.fields.state.spec_set_state::<Unselected>()
            },
            InputEvent::KeyEvent(_) => after == *self
                && r == (if self.fields.state.spec_has_state::<Selected>() { Some(0usize) } else { None }),
            _ => r is None && after == *self,
        })
        &&& after.fields.text == self.fields.text
        &&& after.fields.bounds == self.fields.bounds
    }

    open spec fn spec_handles_input(&self, ctxt: InputContext, event: InputEvent, after: Self, r: bool) -> bool {
        &&& self.fields.state.spec_has_state::<Inactive>() ==> !r && after == *self
        &&& (!self.fields.state.spec_has_state::<Inactive>() ==> r == match event {
            InputEvent::Cancel => true,
            InputEvent::PointerEvent(_, PointerEvent::Down) => true,
            InputEvent::KeyEvent(KeyEvent::KeyDown(_, _, _)) => true,
            _ => false,
        })
        &&& (!self.fields.state.spec_has_state::<Inactive>() ==> match event {
            InputEvent::Cancel => after.fields.state
                == self.fields.state.spec_set_state::<Unselected>(),
            InputEvent::PointerEvent(_, PointerEvent::Down) => after.fields.state
                == self.fields.state.spec_set_state::<Selected>(),
            InputEvent::KeyEvent(KeyEvent::KeyDown(_, _, _)) => after.fields.state
                == self.fields.state,
            _ => after == *self,
        })
        &&& (!self.fields.state.spec_has_state::<Inactive>() ==> match event {
            InputEvent::PointerEvent(p, PointerEvent::Down) => self.fields.label_properties.spec_cursor_down(
                p,
                after.fields.label_properties,
            ) && after.fields.text == self.fields.text
                && after.data_holder == self.data_holder,
            InputEvent::KeyEvent(KeyEvent::KeyDown(key, modifier, _)) => exists|k: bool|
                #![trigger self.fields.label_properties.spec_handles_keypress(key, modifier, N, self.fields.spec_text(), after.fields.label_properties, after.fields.spec_text(), k)]
                self.fields.label_properties.spec_handles_keypress(
                    key,
                    modifier,
                    N,
                    self.fields.spec_text(),
                    after.fields.label_properties,
                    after.fields.spec_text(),
                    k,
                ) && if k {
                    self.fields.on_text_changed.spec_text_call(
                        self.data_holder.data.spec_data(),
                        after.fields.spec_text(),
                        after.data_holder.data.spec_data(),
                    )
                } else {
                    after.data_holder == self.data_holder
                },
            _ => true,
        })
    }

    open spec fn spec_state_changes_to(&self, state: WidgetState, after: Self) -> bool {
        self.fields.on_parent_state_changed.spec_state_call(self.fields, state, after.fields)
            && after == (TextBox { fields: after.fields, ..*self })
    }

    fn attach(&mut self, parent: usize, index: usize)
        ensures
            final(self).fields.parent_index == parent,
    {
        self.set_parent(parent);
    }

    fn bounding_box(&self) -> (r: BoundingBox) {
        self.fields.bounds
    }

    fn children(&self) -> (r: usize) {
        0
    }

    fn parent_index(&self) -> (r: usize) {
        self.fields.parent_index
    }

    fn set_parent(&mut self, index: usize)
        ensures
            final(self).fields.parent_index == index,
            final(self).fields.state == old(self).fields.state,
            final(self).fields.bounds == old(self).fields.bounds,
    {
        self.fields.parent_index = index;
    }

    /// The text box takes the size of its text drawn under the constraints, within them.
    fn measure(&mut self, measure_spec: MeasureSpec)
        ensures
            final(self).fields.bounds.size == (MeasuredSize {
                width: measure_spec.width.spec_apply_to_measured(
                    old(self).fields.label_properties.spec_measure_text(
                        old(self).fields.spec_text(),
                        measure_spec,
                    ).width,
                ),
                height: measure_spec.height.spec_apply_to_measured(
                    old(self).fields.label_properties.spec_measure_text(
                        old(self).fields.spec_text(),
                        measure_spec,
                    ).height,
                ),
            }),
            final(self).fields.state == old(self).fields.state,
    {
        let size = self.fields.label_properties.measure_text(
            self.fields.text.buffer().as_str(),
            measure_spec,
        );

        let width = measure_spec.width.apply_to_measured(size.width);
        let height = measure_spec.height.apply_to_measured(size.height);

        self.fields.bounds.size = MeasuredSize { width, height };
    }

    fn arrange(&mut self, position: Position) {
        self.fields.bounds.position = position;
    }

    fn set_measured_size(&mut self, size: MeasuredSize)
        ensures
            final(self).fields.bounds == (BoundingBox { size, ..old(self).fields.bounds }),
    {
        self.fields.bounds.size = size;
    }

    /// Runs the state callback on the fields.
    fn on_state_changed(&mut self, state: WidgetState) {
        let callback = self.fields.on_parent_state_changed;
        callback.call(&mut self.fields, state);
    }

    fn update(&mut self) {
        self.data_holder.update(&mut self.fields);
    }

    fn reset_changed(&mut self) {
        self.data_holder.reset_changed();
    }

    /// An inactive text box wants nothing. A press inside wants the text box, a press
    /// outside deselects it; key events go to a selected text box; a cancel deselects.
    fn test_input(&mut self, event: InputEvent) -> (r: Option<usize>)
        ensures
            old(self).fields.state.spec_has_state::<Inactive>() ==> r is None && *final(self) == *old(self),
            !old(self).fields.state.spec_has_state::<Inactive>() ==> match event {
                InputEvent::Cancel => r is None
                    && final(self).fields.state == old(self).fields.state.spec_set_state::<Unselected>(),
                InputEvent::PointerEvent(p, PointerEvent::Down) => if old(self).fields.bounds.spec_contains(p) {
                    r == Some(0usize) && *final(self) == *old(self)
                } else {
                    r is None && final(self).fields.state == old(self).fields.state.spec_set_state::<Unselected>()
                },
                InputEvent::KeyEvent(_) => *final(self) == *old(self)
                    && r == (if old(self).fields.state.spec_has_state::<Selected>() { Some(0usize) } else { None }),
                _ => r is None && *final(self) == *old(self),
            },
            final(self).fields.text == old(self).fields.text,
            final(self).fields.bounds == old(self).fields.bounds,
    {
        if self.fields.state.has_state(Inactive) {
            return None;
        }

        match event {
            InputEvent::Cancel => {
                self.change_state(Unselected);
                None
            },
            InputEvent::PointerEvent(position, PointerEvent::Down) => {
                if self.fields.bounds.contains(position) {
                    Some(0)
                } else {
                    // Allow a potentially clicked widget to handle the event.
                    self.change_state(Unselected);
                    None
                }
            },
            InputEvent::PointerEvent(_, PointerEvent::Drag)
            | InputEvent::PointerEvent(_, PointerEvent::Up)
            | InputEvent::PointerEvent(_, PointerEvent::Hover) => None,
            InputEvent::KeyEvent(_) => {
                if self.fields.state.has_state(Selected) {
                    Some(0)
                } else {
                    None
                }
            },
            InputEvent::ScrollEvent(_) => None,
        }
    }

    /// An inactive text box handles nothing. A cancel deselects it; a press selects it and
    /// moves the cursor; a key going down edits the text, and if the text changed the
    /// text callback runs.
    fn handle_input(&mut self, ctxt: InputContext, event: InputEvent) -> (r: bool)
        ensures
            old(self).fields.state.spec_has_state::<Inactive>() ==> !r && *final(self) == *old(self),
            !old(self).fields.state.spec_has_state::<Inactive>() ==> r == match event {
                InputEvent::Cancel => true,
                InputEvent::PointerEvent(_, PointerEvent::Down) => true,
                InputEvent::KeyEvent(KeyEvent::KeyDown(_, _, _)) => true,
                _ => false,
            },
            !old(self).fields.state.spec_has_state::<Inactive>() ==> match event {
                InputEvent::Cancel => final(self).fields.state
                    == old(self).fields.state.spec_set_state::<Unselected>(),
                InputEvent::PointerEvent(_, PointerEvent::Down) => final(self).fields.state
                    == old(self).fields.state.spec_set_state::<Selected>(),
                InputEvent::KeyEvent(KeyEvent::KeyDown(_, _, _)) => final(self).fields.state
                    == old(self).fields.state,
                _ => *final(self) == *old(self),
            },
            !old(self).fields.state.spec_has_state::<Inactive>() ==> match event {
                InputEvent::PointerEvent(p, PointerEvent::Down) => old(self).fields.label_properties.spec_cursor_down(
                    p,
                    final(self).fields.label_properties,
                ) && final(self).fields.text == old(self).fields.text
                    && final(self).data_holder == old(self).data_holder,
                InputEvent::KeyEvent(KeyEvent::KeyDown(key, modifier, _)) => exists|k: bool|
                    #![trigger old(self).fields.label_properties.spec_handles_keypress(key, modifier, N, old(self).fields.spec_text(), final(self).fields.label_properties, final(self).fields.spec_text(), k)]
                    old(self).fields.label_properties.spec_handles_keypress(
                        key,
                        modifier,
                        N,
                        old(self).fields.spec_text(),
                        final(self).fields.label_properties,
                        final(self).fields.spec_text(),
                        k,
                    ) && if k {
                        old(self).fields.on_text_changed.spec_text_call(
                            old(self).data_holder.data.spec_data(),
                            final(self).fields.spec_text(),
                            final(self).data_holder.data.spec_data(),
                        )
                    } else {
                        final(self).data_holder == old(self).data_holder
                    },
                _ => true,
            },
    {
        if self.fields.state.has_state(Inactive) {
            return false;
        }

        match event {
            InputEvent::Cancel => {
                self.change_state(Unselected);
                true
            },
            InputEvent::PointerEvent(pos, pe) => match pe {
                // Drags and releases are left alone; they could select text one day.
                PointerEvent::Down => {
                    self.change_state(Selected);
                    self.fields.label_properties.handle_cursor_down(pos);
                    true
                },
                _ => false,
            },
            InputEvent::KeyEvent(KeyEvent::KeyDown(keycode, modifier, _repetition_counter)) => {
                let changed = self.fields.label_properties.handle_keypress(
                    keycode,
                    modifier,
                    self.fields.text.buffer_mut(),
                );
                assert(old(self).fields.label_properties.spec_handles_keypress(
                    keycode,
                    modifier,
                    N,
                    old(self).fields.spec_text(),
                    self.fields.label_properties,
                    self.fields.spec_text(),
                    changed,
                ));
                if changed {
                    self.fire_text_changed();
                }
                true
            },
            _ => false,
        }
    }

    fn is_selectable(&self) -> (r: bool) {
        true
    }
}

} // verus!
