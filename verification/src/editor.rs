//! The byte-stream preprocessor between the serial console and the command
//! runner. It echoes what the user types, lets single or double quotes group
//! words (a space inside quotes is forwarded as a separator byte that the
//! runner's word splitter keeps), handles backspace and the end of a line,
//! and caps a line at the runner's buffer size, ringing the bell once when
//! the cap is reached.

use vstd::prelude::*;

use crate::bounded::{line_as_slice, line_bytes, line_clear, line_new, line_pop, line_push, LINE_CAPACITY};

verus! {

/// The size of the command runner's input buffer.
pub const CLI_BUF_LEN: usize = 256;

/// The byte forwarded for a space typed inside quotes.
pub const QUOTED_SPACE_BYTE: u8 = 0x1F;

/// A byte that opens or closes a quoted group: `"` or `'`.
pub open spec fn is_quote(b: u8) -> bool {
    b == 0x22 || b == 0x27
}

/// The quote state after byte `b`: an opening quote is remembered, the
/// matching quote closes it, and every other byte (the other quote style
/// included) leaves it unchanged.
pub open spec fn quote_step(state: Option<u8>, b: u8) -> Option<u8> {
    match state {
        None => if is_quote(b) {
            Some(b)
        } else {
            None
        },
        Some(q) => if b == q {
            None
        } else {
            Some(q)
        },
    }
}

/// The quote left open by the visible characters `s` of a line.
pub open spec fn quote_state(s: Seq<u8>) -> Option<u8>
    decreases s.len(),
{
    if s.len() == 0 {
        None
    } else {
        quote_step(quote_state(s.drop_last()), s.last())
    }
}

/// The quote left open by the visible characters of a line. Used after a
/// backspace to recover the quote state of what remains.
pub fn recompute_quote_state(shadow: &[u8]) -> (r: Option<u8>)
    ensures
        r == quote_state(shadow@),
{
    let mut state: Option<u8> = None;
    let mut i: usize = 0;
    while i < shadow.len()
        invariant
            i <= shadow@.len(),
            state == quote_state(shadow@.take(i as int)),
        decreases shadow@.len() - i,
    {
        let b = shadow[i];
        assert(shadow@.take(i + 1).drop_last() =~= shadow@.take(i as int));
        state = match state {
            None => if b == 0x22 || b == 0x27 {
                Some(b)
            } else {
                None
            },
            Some(q) => if b == q {
                None
            } else {
                Some(q)
            },
        };
        i = i + 1;
    }
    assert(shadow@.take(shadow@.len() as int) =~= shadow@);
    state
}

/// What the preprocessor writes back to the console for one input byte.
#[derive(Clone, Copy, Debug, PartialEq, Eq, Structural)]
pub enum Echo {
    /// Nothing.
    Nothing,
    /// The byte itself.
    Byte(u8),
    /// A real space, for a space typed inside quotes.
    Space,
    /// The terminal bell: the line is full.
    Bell,
    /// Backspace, space, backspace: erases one character on the screen.
    EraseChar,
    /// Carriage return and erase-line, before a line is submitted.
    EraseLine,
}

/// The preprocessor's response to one input byte: what to echo, then which
/// byte, if any, to hand to the command runner.
#[derive(Clone, Copy, Debug, PartialEq, Eq, Structural)]
pub struct Step {
    pub echo: Echo,
    pub forward: Option<u8>,
}

/// The state of the preprocessor.
pub struct LineEditor {
    /// Every visible character of the current line, in typed order,
    /// including quote characters, which the runner never sees.
    shadow: heapless::Vec<u8, 256>,
    /// The quote character that opened the current quoted group.
    quote: Option<u8>,
    /// The number of bytes handed to the runner on this line, which is what
    /// the runner's own buffer holds.
    forwarded: usize,
    /// The bell has rung for the full line and has not been re-armed.
    at_capacity: bool,
}

/// The mathematical value of a [`LineEditor`].
#[verifier::ext_equal]
pub struct EditorModel {
    pub shadow: Seq<u8>,
    pub quote: Option<u8>,
    pub forwarded: nat,
    pub at_capacity: bool,
}

impl View for LineEditor {
    type V = EditorModel;

    closed spec fn view(&self) -> EditorModel {
        EditorModel {
            shadow: line_bytes(self.shadow),
            quote: self.quote,
            forwarded: self.forwarded as nat,
            at_capacity: self.at_capacity,
        }
    }
}

/// The shadow after remembering `b`; a full shadow drops it.
pub open spec fn remember(s: Seq<u8>, b: u8) -> Seq<u8> {
    if s.len() < LINE_CAPACITY {
        s.push(b)
    } else {
        s
    }
}

/// A byte that is typed into the line once the line is full: the first one
/// rings the bell, the next ones are dropped silently.
pub open spec fn full_line(m: EditorModel) -> (EditorModel, Step) {
    if !m.at_capacity {
        (EditorModel { at_capacity: true, ..m }, Step { echo: Echo::Bell, forward: None })
    } else {
        (m, Step { echo: Echo::Nothing, forward: None })
    }
}

/// The preprocessor's transition on input byte `b`.
pub open spec fn editor_step(m: EditorModel, b: u8) -> (EditorModel, Step) {
    if is_quote(b) && m.quote is None {
        // opening quote: echoed and remembered, not forwarded
        (
            EditorModel { quote: Some(b), shadow: remember(m.shadow, b), ..m },
            Step { echo: Echo::Byte(b), forward: None },
        )
    } else if m.quote == Some(b) {
        // matching closing quote: echoed and remembered, not forwarded
        (
            EditorModel { quote: None, shadow: remember(m.shadow, b), ..m },
            Step { echo: Echo::Byte(b), forward: None },
        )
    } else if b == 0x20 && m.quote is Some {
        // space inside quotes: a real space is echoed, the separator forwarded
        if m.forwarded < CLI_BUF_LEN {
            (
                EditorModel {
                    shadow: remember(m.shadow, QUOTED_SPACE_BYTE),
                    forwarded: m.forwarded + 1,
                    ..m
                },
                Step { echo: Echo::Space, forward: Some(QUOTED_SPACE_BYTE) },
            )
        } else {
            full_line(m)
        }
    } else if b == 0x08 || b == 0x7F {
        // backspace: forget the last visible character
        if m.shadow.len() == 0 {
            (m, Step { echo: Echo::Nothing, forward: None })
        } else {
            let rest = m.shadow.drop_last();
            if is_quote(m.shadow.last()) {
                (
                    EditorModel { shadow: rest, quote: quote_state(rest), at_capacity: false, ..m },
                    Step { echo: Echo::EraseChar, forward: None },
                )
            } else {
                (
                    EditorModel {
                        shadow: rest,
                        quote: quote_state(rest),
                        forwarded: if m.forwarded > 0 {
                            (m.forwarded - 1) as nat
                        } else {
                            0
                        },
                        at_capacity: false,
                    },
                    Step { echo: Echo::Nothing, forward: Some(b) },
                )
            }
        }
    } else if b == 0x0D {
        // carriage return: the line is submitted and the runner's buffer empties
        (
            EditorModel { shadow: Seq::empty(), quote: None, forwarded: 0, at_capacity: false },
            Step { echo: Echo::EraseLine, forward: Some(b) },
        )
    } else if b == 0x0A {
        // line feed: the runner strips it without touching its buffer
        (
            EditorModel { shadow: Seq::empty(), quote: None, ..m },
            Step { echo: Echo::Nothing, forward: Some(b) },
        )
    } else if m.forwarded < CLI_BUF_LEN {
        (
            EditorModel { shadow: remember(m.shadow, b), forwarded: m.forwarded + 1, ..m },
            Step { echo: Echo::Byte(b), forward: Some(b) },
        )
    } else {
        full_line(m)
    }
}

/// The well-formed states: no more than a full line is remembered or
/// forwarded, and the bell is latched only on a full line.
pub open spec fn editor_wf(m: EditorModel) -> bool {
    &&& m.shadow.len() <= LINE_CAPACITY
    &&& m.forwarded <= CLI_BUF_LEN
    &&& m.at_capacity ==> m.forwarded == CLI_BUF_LEN
}

impl LineEditor {
    /// A preprocessor at the start of an empty line.
    pub fn new() -> (r: LineEditor)
        ensures
            r@ == (EditorModel { shadow: Seq::empty(), quote: None, forwarded: 0, at_capacity: false }),
    {
        LineEditor { shadow: line_new(), quote: None, forwarded: 0, at_capacity: false }
    }

    /// The quote character of the group that is open, if any.
    pub fn open_quote(&self) -> (r: Option<u8>)
        ensures
            r == self@.quote,
    {
        self.quote
    }

    fn remember_byte(&mut self, b: u8)
        ensures
            final(self)@ == (EditorModel { shadow: remember(old(self)@.shadow, b), ..old(self)@ }),
    {
        let _ = line_push(&mut self.shadow, b);
    }

    fn line_full(&mut self) -> (r: Step)
        ensures
            (final(self)@, r) == full_line(old(self)@),
    {
        if !self.at_capacity {
            self.at_capacity = true;
            Step { echo: Echo::Bell, forward: None }
        } else {
            Step { echo: Echo::Nothing, forward: None }
        }
    }

    /// Handles one byte typed on the console: returns what to echo and which
    /// byte to hand to the command runner.
    pub fn step(&mut self, b: u8) -> (r: Step)
        requires
            editor_wf(old(self)@),
        ensures
            (final(self)@, r) == editor_step(old(self)@, b),
            editor_wf(final(self)@),
    {
        let is_q = b == 0x22 || b == 0x27;
        if is_q && self.quote.is_none() {
            self.quote = Some(b);
            self.remember_byte(b);
            Step { echo: Echo::Byte(b), forward: None }
        } else if self.quote == Some(b) {
            self.quote = None;
            self.remember_byte(b);
            Step { echo: Echo::Byte(b), forward: None }
        } else if b == 0x20 && self.quote.is_some() {
            if self.forwarded < CLI_BUF_LEN {
                self.remember_byte(QUOTED_SPACE_BYTE);
                self.forwarded = self.forwarded + 1;
                Step { echo: Echo::Space, forward: Some(QUOTED_SPACE_BYTE) }
            } else {
                self.line_full()
            }
        } else if b == 0x08 || b == 0x7F {
            match line_pop(&mut self.shadow) {
                None => Step { echo: Echo::Nothing, forward: None },
                Some(last) => {
                    self.quote = recompute_quote_state(line_as_slice(&self.shadow));
                    self.at_capacity = false;
                    if last == 0x22 || last == 0x27 {
                        Step { echo: Echo::EraseChar, forward: None }
                    } else {
                        if self.forwarded > 0 {
                            self.forwarded = self.forwarded - 1;
                        }
                        Step { echo: Echo::Nothing, forward: Some(b) }
                    }
                },
            }
        } else if b == 0x0D {
            line_clear(&mut self.shadow);
            self.quote = None;
            self.forwarded = 0;
            self.at_capacity = false;
            Step { echo: Echo::EraseLine, forward: Some(b) }
        } else if b == 0x0A {
            line_clear(&mut self.shadow);
            self.quote = None;
            Step { echo: Echo::Nothing, forward: Some(b) }
        } else if self.forwarded < CLI_BUF_LEN {
            self.remember_byte(b);
            self.forwarded = self.forwarded + 1;
            Step { echo: Echo::Byte(b), forward: Some(b) }
        } else {
            self.line_full()
        }
    }

    /// Forgets a half-typed line when a collection run ends: no open quote
    /// and nothing remembered. The count of forwarded bytes is kept, since
    /// the runner's buffer is untouched.
    pub fn end_collection(&mut self)
        ensures
            final(self)@ == (EditorModel { shadow: Seq::empty(), quote: None, ..old(self)@ }),
    {
        line_clear(&mut self.shadow);
        self.quote = None;
    }
}

/// The preprocessor's quote state always agrees with the visible characters
/// it remembers: whatever byte is typed, the quote that is open afterwards is
/// the one that the remembered line leaves open (as long as the line still
/// had room to remember the byte).
pub proof fn lemma_quote_state_tracks_line(m: EditorModel, b: u8)
    requires
        editor_wf(m),
        m.quote == quote_state(m.shadow),
        m.shadow.len() < LINE_CAPACITY,
    ensures
        editor_step(m, b).0.quote == quote_state(editor_step(m, b).0.shadow),
{
    lemma_quote_state_is_quote(m.shadow);
    assert(m.shadow.push(b).drop_last() =~= m.shadow);
    assert(m.shadow.push(QUOTED_SPACE_BYTE).drop_last() =~= m.shadow);
}

/// An open quote is always a quote character.
proof fn lemma_quote_state_is_quote(s: Seq<u8>)
    ensures
        quote_state(s) matches Some(q) ==> is_quote(q),
    decreases s.len(),
{
    if s.len() > 0 {
        lemma_quote_state_is_quote(s.drop_last());
    }
}

/// The bell rings at most once per full line: a byte typed while the bell
/// is latched never rings it again, and when it rings the line is full and
/// nothing is forwarded.
pub proof fn lemma_bell_rings_once(m: EditorModel, b: u8)
    requires
        editor_wf(m),
    ensures
        m.at_capacity ==> editor_step(m, b).1.echo != Echo::Bell,
        editor_step(m, b).1.echo == Echo::Bell ==> {
            &&& editor_step(m, b).0.at_capacity
            &&& editor_step(m, b).0.forwarded == CLI_BUF_LEN
            &&& editor_step(m, b).1.forward is None
        },
{
}

/// The runner never receives more than a line's worth of bytes: from a
/// well-formed state, every byte keeps the state well-formed, and a byte
/// that is forwarded into the line only when the line has room.
pub proof fn lemma_line_never_overflows(m: EditorModel, b: u8)
    requires
        editor_wf(m),
    ensures
        editor_wf(editor_step(m, b).0),
        editor_step(m, b).0.forwarded > m.forwarded ==> m.forwarded < CLI_BUF_LEN,
{
}

/// The bytes handed to the runner while the preprocessor reads `bs`.
pub open spec fn feed(m: EditorModel, bs: Seq<u8>) -> (EditorModel, Seq<u8>)
    decreases bs.len(),
{
    if bs.len() == 0 {
        (m, Seq::empty())
    } else {
        let (m1, st) = editor_step(m, bs[0]);
        let (m2, rest) = feed(m1, bs.drop_first());
        (
            m2,
            match st.forward {
                Some(f) => seq![f] + rest,
                None => rest,
            },
        )
    }
}

/// Text as the runner receives it from inside quotes: each space replaced
/// by the separator byte.
pub open spec fn quoted_form(t: Seq<u8>) -> Seq<u8> {
    t.map_values(|x: u8| if x == 0x20 { QUOTED_SPACE_BYTE } else { x })
}

/// A byte that the preprocessor passes through unchanged inside a group
/// opened by `q`: neither the closing quote nor a line-editing control.
pub open spec fn plain_in_group(x: u8, q: u8) -> bool {
    x != q && x != 0x08 && x != 0x7F && x != 0x0D && x != 0x0A
}

proof fn lemma_feed_inside_group(m: EditorModel, t: Seq<u8>, q: u8)
    requires
        is_quote(q),
        m.quote == Some(q),
        m.forwarded + t.len() <= CLI_BUF_LEN,
        forall|i: int| 0 <= i < t.len() ==> plain_in_group(#[trigger] t[i], q),
    ensures
        feed(m, t).1 == quoted_form(t),
        feed(m, t).0.quote == Some(q),
        feed(m, t).0.forwarded == m.forwarded + t.len(),
        feed(m, t).0.at_capacity == m.at_capacity,
    decreases t.len(),
{
    if t.len() == 0 {
        assert(quoted_form(t) =~= Seq::<u8>::empty());
    } else {
        let (m1, st) = editor_step(m, t[0]);
        assert(plain_in_group(t[0], q));
        let rest = t.drop_first();
        assert forall|i: int| 0 <= i < rest.len() implies plain_in_group(#[trigger] rest[i], q) by {
            assert(rest[i] == t[i + 1]);
        }
        lemma_feed_inside_group(m1, rest, q);
        assert(quoted_form(t) =~= seq![if t[0] == 0x20 { QUOTED_SPACE_BYTE } else { t[0] }]
            + quoted_form(rest));
    }
}

/// Quoting keeps a value together: on a fresh line, a value typed between
/// matching quotes reaches the runner without the quotes and with each of its
/// spaces replaced by the separator byte, so the runner's word splitter sees
/// one word; the other quote style passes through literally. The value must
/// fit in the runner's buffer and hold no line-editing control.
pub proof fn lemma_quoted_value_stays_one_word(q: u8, t: Seq<u8>)
    requires
        is_quote(q),
        t.len() <= CLI_BUF_LEN,
        forall|i: int| 0 <= i < t.len() ==> plain_in_group(#[trigger] t[i], q),
    ensures
        feed(
            EditorModel { shadow: Seq::empty(), quote: None, forwarded: 0, at_capacity: false },
            seq![q] + t + seq![q],
        ).1 == quoted_form(t),
        forall|i: int| 0 <= i < t.len() ==> #[trigger] quoted_form(t)[i] != 0x20,
{
    let m0 = EditorModel { shadow: Seq::empty(), quote: None, forwarded: 0, at_capacity: false };
    let bs = seq![q] + t + seq![q];
    let (m1, st1) = editor_step(m0, q);
    assert(m1.quote == Some(q));
    assert(st1.forward is None);
    assert(bs.drop_first() =~= t + seq![q]);
    lemma_feed_inside_group(m1, t, q);
    lemma_feed_split(m1, t, seq![q]);
    let mt = feed(m1, t).0;
    let (m2, st2) = editor_step(mt, q);
    assert(st2.forward is None);
    assert(seq![q].drop_first() =~= Seq::<u8>::empty());
    assert(feed(m2, Seq::<u8>::empty()).1 =~= Seq::<u8>::empty());
    assert(feed(mt, seq![q]).1 =~= Seq::<u8>::empty());
    assert(quoted_form(t) + Seq::<u8>::empty() =~= quoted_form(t));
}

/// Feeding two pieces one after the other forwards what each forwards.
proof fn lemma_feed_split(m: EditorModel, a: Seq<u8>, b: Seq<u8>)
    ensures
        feed(m, a + b).1 == feed(m, a).1 + feed(feed(m, a).0, b).1,
        feed(m, a + b).0 == feed(feed(m, a).0, b).0,
    decreases a.len(),
{
    if a.len() == 0 {
        assert(a + b =~= b);
        assert(feed(m, a).1 + feed(feed(m, a).0, b).1 =~= feed(m, b).1);
    } else {
        let (m1, st) = editor_step(m, a[0]);
        assert((a + b)[0] == a[0]);
        assert((a + b).drop_first() =~= a.drop_first() + b);
        lemma_feed_split(m1, a.drop_first(), b);
        match st.forward {
            Some(f) => {
                assert(seq![f] + feed(m1, a.drop_first() + b).1 =~= (seq![f] + feed(
                    m1,
                    a.drop_first(),
                ).1) + feed(feed(m1, a.drop_first()).0, b).1);
            },
            None => {},
        }
    }
}

} // verus!
