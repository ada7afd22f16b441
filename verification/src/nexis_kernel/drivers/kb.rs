//! PS/2 keyboard: scancode queue, line editing and a small PRNG.
use vstd::prelude::*;
use pc_keyboard::{DecodedKey, HandleControl, Keyboard, ScancodeSet1};
use pc_keyboard::layouts::Us104Key;
use crate::nexis_kernel::drivers::{Driver, InputDriver};
use crate::nexis_kernel::drivers::vga::{Console, serial_print, after_put};
use crate::text::push_char;

verus! {

/// One step of the xorshift64 generator (shifts 13, 7, 17).
pub open spec fn xorshift64_step(x: u64) -> u64 {
    let a = x ^ (x << 13u64);
    let b = a ^ (a >> 7u64);
    b ^ (b << 17u64)
}

/// Simple xorshift64 pseudo-random number generator.
pub struct XorShift64 {
    pub state: u64,
}

impl XorShift64 {
    /// Seeds the generator; a zero seed is replaced by one.
    pub fn new(seed: u64) -> (r: Self)
        ensures
            r.state == (if seed == 0 { 1 } else { seed }),
    {
        Self { state: if seed == 0 { 1 } else { seed } }
    }

    /// Advances the generator and returns the new state.
    pub fn next_u64(&mut self) -> (r: u64)
        ensures
            r == xorshift64_step(old(self).state),
            final(self).state == r,
    {
        let mut x = self.state;
        x ^= x << 13u64;
        x ^= x >> 7u64;
        x ^= x << 17u64;
        self.state = x;
        x
    }

    /// Low byte of the next value.
    pub fn next_u8(&mut self) -> (r: u8)
        ensures
            final(self).state == xorshift64_step(old(self).state),
            r == (xorshift64_step(old(self).state) & 0xFF) as u8,
    {
        (self.next_u64() & 0xFF) as u8
    }

    /// A value in `low..=high` (or `low` when the range is empty).
    pub fn next_range_u8(&mut self, low: u8, high: u8) -> (r: u8)
        requires
            high - low < 255,
        ensures
            high <= low ==> r == low && final(self).state == old(self).state,
            high > low ==> final(self).state == xorshift64_step(old(self).state) && r == low
                + xorshift64_step(old(self).state) % ((high - low + 1) as u64),
            high > low ==> low <= r <= high,
    {
        if high <= low {
            return low;
        }
        let range = (high - low + 1) as u64;
        let r = self.next_u64() % range;
        low + r as u8
    }
}

/// Capacity of the scancode queue.
pub const BUF_SIZE: usize = 1024;

/// Capacity of the line buffer, including room for a terminator.
pub const LINE_BUF_SIZE: usize = 256;

/// Ring buffer of scancodes received from the keyboard controller.
pub struct ScancodeQueue {
    buf: Vec<u8>,
    head: usize,
    tail: usize,
    count: usize,
}

impl View for ScancodeQueue {
    /// The queued scancodes, oldest first.
    type V = Seq<u8>;

    closed spec fn view(&self) -> Seq<u8> {
        Seq::new(self.count as nat, |i: int| self.buf@[(self.tail + i) % (BUF_SIZE as int)])
    }
}

impl ScancodeQueue {
    /// Ring-buffer consistency.
    pub closed spec fn wf(&self) -> bool {
        &&& self.buf@.len() == BUF_SIZE
        &&& self.count <= BUF_SIZE
        &&& self.tail < BUF_SIZE
        &&& self.head == (self.tail + self.count) % (BUF_SIZE as int)
    }

    /// An empty queue.
    pub fn new() -> (r: Self)
        ensures
            r.wf(),
            r@ == Seq::<u8>::empty(),
    {
        let q = ScancodeQueue { buf: vec![0u8; BUF_SIZE], head: 0, tail: 0, count: 0 };
        assert(q@ =~= Seq::<u8>::empty());
        q
    }

    /// Appends a scancode; a full queue drops it and reports `false`.
    pub fn push(&mut self, sc: u8) -> (r: bool)
        requires
            old(self).wf(),
        ensures
            final(self).wf(),
            r == (old(self)@.len() < BUF_SIZE),
            r ==> final(self)@ == old(self)@.push(sc),
            !r ==> final(self)@ == old(self)@,
    {
        if self.count >= BUF_SIZE {
            return false;
        }
        let ghost before = self@;
        let h = self.head;
        self.buf.set(h, sc);
        self.head = (self.head + 1) % BUF_SIZE;
        self.count = self.count + 1;
        proof {
            assert forall|i: int| 0 <= i < self.count implies #[trigger] self@[i] == before.push(sc)[i] by {
                if i < self.count - 1 {
                    assert((self.tail + i) % (BUF_SIZE as int) != h as int) by {
                        assert(h as int == (self.tail + self.count - 1) % (BUF_SIZE as int));
                    }
                }
            }
            assert(self@ =~= before.push(sc));
        }
        true
    }

    /// Removes the oldest scancode.
    pub fn pop(&mut self) -> (r: Option<u8>)
        requires
            old(self).wf(),
        ensures
            final(self).wf(),
            old(self)@.len() == 0 ==> r is None && final(self)@ == old(self)@,
            old(self)@.len() > 0 ==> r == Some(old(self)@[0]) && final(self)@ == old(self)@.drop_first(),
    {
        if self.count == 0 {
            return None;
        }
        let ghost before = self@;
        let sc = self.buf[self.tail];
        self.tail = (self.tail + 1) % BUF_SIZE;
        self.count = self.count - 1;
        proof {
            assert forall|i: int| 0 <= i < self.count implies #[trigger] self@[i] == before.drop_first()[i] by {
                assert((old(self).tail + (i + 1)) % (BUF_SIZE as int) == (self.tail + i) % (BUF_SIZE as int));
            }
            assert(self@ =~= before.drop_first());
        }
        Some(sc)
    }

    /// Number of queued scancodes.
    pub fn len(&self) -> (r: usize)
        requires
            self.wf(),
        ensures
            r == self@.len(),
    {
        self.count
    }

    /// Whether the queue is empty.
    pub fn is_empty(&self) -> (r: bool)
        requires
            self.wf(),
        ensures
            r == (self@.len() == 0),
    {
        self.count == 0
    }

    /// Drops every queued scancode.
    pub fn clear(&mut self)
        requires
            old(self).wf(),
        ensures
            final(self).wf(),
            final(self)@ == Seq::<u8>::empty(),
    {
        self.head = 0;
        self.tail = 0;
        self.count = 0;
        assert(self@ =~= Seq::<u8>::empty());
    }
}

/// The scancode decoder this driver uses: a `pc_keyboard` decoder for a
/// US 104-key layout over scancode set 1, control keys left as letters.
/// Verus refuses a declaration of `Keyboard` (its bounds name traits of
/// `pc_keyboard`), so it is held here, out of Verus's sight, and spoken of
/// through `keyboard_fed`.
#[verifier::external_body]
pub struct KeyDecoder {
    kb: Keyboard<Us104Key, ScancodeSet1>,
}

/// The scancode bytes fed to a decoder since it was made by `Keyboard::new`,
/// in order.  The decoder's state (pending multi-byte codes, modifiers held)
/// is a function of them.
pub uninterp spec fn keyboard_fed(d: KeyDecoder) -> Seq<u8>;

/// The key that the last of `fed` completes, for a decoder made by
/// `Keyboard::new(ScancodeSet1::new(), Us104Key, HandleControl::Ignore)` and
/// fed `fed` in order: `None` when that byte completes no key event, is
/// refused (`add_byte`'s error) or gives no key (`process_keyevent`).
pub uninterp spec fn decoded_key(fed: Seq<u8>) -> Option<KeyInput>;

/// The number `pc_keyboard` gives the Return key (`KeyCode::Return as u8`).
pub const KEYCODE_RETURN: u8 = 72;

/// The number `pc_keyboard` gives the Backspace key (`KeyCode::Backspace as u8`).
pub const KEYCODE_BACKSPACE: u8 = 30;

/// A decoded key.
#[derive(Debug, Clone, Copy, PartialEq, Eq, Structural)]
pub enum KeyInput {
    /// A key with a Unicode character.
    Char(char),
    /// A key without a character, by its `pc_keyboard` key code number.
    Raw(u8),
}

/// A decoder made by `Keyboard::new` for a US 104-key keyboard on scancode
/// set 1, control keys left as letters; it has been fed nothing.
#[verifier::external_body]
fn new_keyboard() -> (r: KeyDecoder)
    ensures
        keyboard_fed(r) == Seq::<u8>::empty(),
{
    KeyDecoder { kb: Keyboard::new(ScancodeSet1::new(), Us104Key, HandleControl::Ignore) }
}

/// Feeds a scancode byte to the decoder (`Keyboard::add_byte`) and, when a
/// key event is complete, turns it into a key (`Keyboard::process_keyevent`),
/// which also updates the modifier state: the byte joins the bytes fed, and
/// the key is the one they give (`decoded_key`).  A raw key comes back with
/// its key code's number.
#[verifier::external_body]
fn keyboard_decode_byte(d: &mut KeyDecoder, sc: u8) -> (r: Option<KeyInput>)
    ensures
        keyboard_fed(*final(d)) == keyboard_fed(*old(d)).push(sc),
        r == decoded_key(keyboard_fed(*final(d))),
{
    let ev = d.kb.add_byte(sc).ok().flatten()?;
    match d.kb.process_keyevent(ev) {
        Some(DecodedKey::Unicode(ch)) => Some(KeyInput::Char(ch)),
        Some(DecodedKey::RawKey(code)) => Some(KeyInput::Raw(code as u8)),
        None => None,
    }
}

/// The key finishes a line: Enter, or a line-feed or carriage-return
/// character.
pub open spec fn is_enter_key(key: KeyInput) -> bool {
    match key {
        KeyInput::Char(ch) => ch == '\r' || ch == '\n',
        KeyInput::Raw(code) => code == KEYCODE_RETURN,
    }
}

/// The key erases: Backspace, or the backspace character.
pub open spec fn is_back_key(key: KeyInput) -> bool {
    match key {
        KeyInput::Char(ch) => ch == '\x08',
        KeyInput::Raw(code) => code == KEYCODE_BACKSPACE,
    }
}

/// Line after a key: Enter (or a line-feed/carriage-return character)
/// finishes it, Backspace removes the last character, a printable ASCII
/// character is added while there is room; anything else is ignored.
pub open spec fn line_after(line: Seq<char>, key: KeyInput) -> (Seq<char>, bool) {
    if is_enter_key(key) {
        (line, true)
    } else if is_back_key(key) {
        (if line.len() > 0 { line.drop_last() } else { line }, false)
    } else {
        match key {
            KeyInput::Char(ch) => if ' ' <= ch <= '~' && line.len() < LINE_BUF_SIZE - 1 {
                (line.push(ch), false)
            } else {
                (line, false)
            },
            KeyInput::Raw(_) => (line, false),
        }
    }
}

/// What a key echoes: the character for the screen (if any) and the serial text.
pub open spec fn echo_of(line: Seq<char>, key: KeyInput) -> (Option<char>, Seq<char>) {
    let is_enter = is_enter_key(key);
    let is_back = is_back_key(key);
    if is_enter {
        (Some('\n'), seq!['\n'])
    } else if is_back {
        if line.len() > 0 {
            (Some('\x08'), seq!['\x08', ' ', '\x08'])
        } else {
            (None, Seq::empty())
        }
    } else {
        match key {
            KeyInput::Char(ch) => if ' ' <= ch <= '~' && line.len() < LINE_BUF_SIZE - 1 {
                (Some(ch), seq![ch])
            } else {
                (None, Seq::empty())
            },
            _ => (None, Seq::empty()),
        }
    }
}

/// `after` is `before` with the echo of `key`, typed on `line`, written to
/// the screen and the serial text.
pub open spec fn echoed(before: Console, after: Console, line: Seq<char>, key: KeyInput) -> bool {
    let (scr, ser) = echo_of(line, key);
    let v = before.vga;
    &&& after.serial@ == before.serial@ + ser
    &&& match scr {
        Some(c) => {
            let (c2, r2, b2) = after_put(v.col(), v.line(), v.screen(), v.attr(), c);
            after.vga.col() == c2 && after.vga.line() == r2 && after.vga.screen() == b2
        },
        None => after.vga == v,
    }
    &&& after.vga.attr() == v.attr()
}

/// One step of line input with the key a scancode decoded to, if any: no key
/// changes nothing; a key is applied to the line and echoed, and when it
/// finishes the line, the line is the result and a new one begins.
pub open spec fn key_line_effect(
    line: Seq<char>,
    con: Console,
    key: Option<KeyInput>,
    line2: Seq<char>,
    con2: Console,
    r: Option<String>,
) -> bool {
    match key {
        None => line2 == line && con2 == con && r is None,
        Some(k) => {
            &&& echoed(con, con2, line, k)
            &&& if line_after(line, k).1 {
                r matches Some(s) && s@ == line && line2 == Seq::<char>::empty()
            } else {
                r is None && line2 == line_after(line, k).0
            }
        },
    }
}

/// Line input over several scancodes, one decoded key (or none) each: the
/// lines and consoles before and after each step, every step as
/// `key_line_effect` says, only the last one giving a result (`r`), and
/// `None` when there was no step.
pub open spec fn line_trace(keys: Seq<Option<KeyInput>>, lines: Seq<Seq<char>>, cons: Seq<Console>, r: Option<
    String,
>) -> bool {
    &&& lines.len() == keys.len() + 1
    &&& cons.len() == keys.len() + 1
    &&& keys.len() == 0 ==> r is None
    &&& forall|i: int|
        #![trigger keys[i]]
        0 <= i < keys.len() ==> key_line_effect(lines[i], cons[i], keys[i], lines[i + 1], cons[i + 1],
            if i == keys.len() - 1 { r } else { None::<String> })
}

/// The keys are those the decoder gives as the bytes of `queue` are fed to
/// it in order after `fed0`, one for each byte taken.
pub open spec fn keys_decoded(fed0: Seq<u8>, queue: Seq<u8>, keys: Seq<Option<KeyInput>>) -> bool {
    &&& keys.len() <= queue.len()
    &&& forall|i: int| #![trigger keys[i]] 0 <= i < keys.len() ==> keys[i] == decoded_key(fed0 + queue.take(i + 1))
}

/// The character of a decoded key, if it has one.
pub open spec fn key_char(key: Option<KeyInput>) -> Option<char> {
    match key {
        Some(KeyInput::Char(ch)) => Some(ch),
        _ => None,
    }
}

/// Applies one key to the line being edited and echoes it to the console.
/// Returns whether the line is finished.
pub fn edit_line(line: &mut Vec<char>, con: &mut Console, key: KeyInput) -> (done: bool)
    requires
        old(con).wf(),
        old(line)@.len() < LINE_BUF_SIZE,
    ensures
        final(con).wf(),
        final(line)@.len() < LINE_BUF_SIZE,
        (final(line)@, done) == line_after(old(line)@, key),
        echoed(*old(con), *final(con), old(line)@, key),
{
    let (is_enter, is_back) = match key {
        KeyInput::Char(ch) => (ch == '\r' || ch == '\n', ch == '\x08'),
        KeyInput::Raw(code) => (code == KEYCODE_RETURN, code == KEYCODE_BACKSPACE),
    };
    if is_enter {
        con.vga.put_char('\n');
        push_char(&mut con.serial, '\n');
        assert(con.serial@ =~= old(con).serial@ + seq!['\n']);
        return true;
    }
    if is_back {
        if line.len() > 0 {
            line.pop();
            con.vga.put_char('\x08');
            push_char(&mut con.serial, '\x08');
            push_char(&mut con.serial, ' ');
            push_char(&mut con.serial, '\x08');
            assert(con.serial@ =~= old(con).serial@ + seq!['\x08', ' ', '\x08']);
            assert(line@ =~= old(line)@.drop_last());
        } else {
            assert(con.serial@ =~= old(con).serial@ + Seq::<char>::empty());
        }
        return false;
    }
    match key {
        KeyInput::Char(ch) => {
            if ch >= ' ' && ch <= '~' && line.len() < LINE_BUF_SIZE - 1 {
                line.push(ch);
                con.vga.put_char(ch);
                push_char(&mut con.serial, ch);
                assert(con.serial@ =~= old(con).serial@ + seq![ch]);
            } else {
                assert(con.serial@ =~= old(con).serial@ + Seq::<char>::empty());
            }
        },
        _ => {
            assert(con.serial@ =~= old(con).serial@ + Seq::<char>::empty());
        },
    }
    false
}

/// The characters of a line as a string.
pub fn line_to_string(line: &Vec<char>) -> (r: String)
    ensures
        r@ == line@,
{
    let mut s = String::new();
    let mut i: usize = 0;
    while i < line.len()
        invariant
            i <= line@.len(),
            s@ == line@.subrange(0, i as int),
        decreases line@.len() - i,
    {
        push_char(&mut s, line[i]);
        assert(s@ =~= line@.subrange(0, i as int + 1));
        i = i + 1;
    }
    assert(line@.subrange(0, i as int) =~= line@);
    s
}

/// `after` is what is left of `before` once some scancodes were taken
/// from its front.
pub open spec fn consumed_front(before: Seq<u8>, after: Seq<u8>) -> bool {
    after.len() <= before.len() && after == before.skip(before.len() - after.len())
}

/// Taking one more scancode from the front keeps the relation.
pub proof fn lemma_consumed_step(before: Seq<u8>, after: Seq<u8>)
    requires
        consumed_front(before, after),
    ensures
        after.len() > 0 ==> consumed_front(before, after.drop_first()),
{
    if after.len() > 0 {
        assert(after.drop_first() =~= before.skip(before.len() - after.drop_first().len()));
    }
}

/// Keyboard driver state: the scancode queue, the decoder, and the line
/// being edited.
pub struct Kb {
    pub queue: ScancodeQueue,
    pub keyboard: KeyDecoder,
    pub line: Vec<char>,
    pub initialized: bool,
}

impl Kb {
    /// The driver is consistent.
    pub open spec fn wf(&self) -> bool {
        self.queue.wf() && self.line@.len() < LINE_BUF_SIZE
    }

    /// A driver with an empty queue and line, not yet initialised.
    pub fn new() -> (r: Self)
        ensures
            r.wf(),
            r.queue@ == Seq::<u8>::empty(),
            r.line@ == Seq::<char>::empty(),
            !r.initialized,
            keyboard_fed(r.keyboard) == Seq::<u8>::empty(),
    {
        Kb { queue: ScancodeQueue::new(), keyboard: new_keyboard(), line: Vec::new(), initialized: false }
    }

    /// Marks the driver initialised.
    pub fn init(&mut self) -> (r: Result<(), &'static str>)
        requires
            old(self).wf(),
        ensures
            final(self).keyboard == old(self).keyboard,
            final(self).wf(),
            r is Ok,
            final(self).initialized,
            final(self).queue@ == old(self).queue@,
            final(self).line@ == old(self).line@,
    {
        self.initialized = true;
        Ok(())
    }

    /// Queues a scancode from the interrupt handler; dropped when full.
    pub fn push_scancode(&mut self, sc: u8)
        requires
            old(self).wf(),
        ensures
            final(self).keyboard == old(self).keyboard,
            final(self).wf(),
            old(self).queue@.len() < BUF_SIZE ==> final(self).queue@ == old(self).queue@.push(sc),
            old(self).queue@.len() >= BUF_SIZE ==> final(self).queue@ == old(self).queue@,
            final(self).line@ == old(self).line@,
            final(self).initialized == old(self).initialized,
    {
        let _ = self.queue.push(sc);
    }

    /// Takes the oldest queued scancode, if any.
    pub fn read_scancode(&mut self) -> (r: Option<u8>)
        requires
            old(self).wf(),
        ensures
            final(self).keyboard == old(self).keyboard,
            final(self).wf(),
            old(self).queue@.len() == 0 ==> r is None && final(self).queue@ == old(self).queue@,
            old(self).queue@.len() > 0 ==> r == Some(old(self).queue@[0]) && final(self).queue@ == old(
                self).queue@.drop_first(),
            final(self).line@ == old(self).line@,
            final(self).initialized == old(self).initialized,
    {
        self.queue.pop()
    }

    /// Number of queued scancodes.
    pub fn queue_len(&self) -> (r: usize)
        requires
            self.wf(),
        ensures
            r == self.queue@.len(),
    {
        self.queue.len()
    }

    /// Whether a scancode is waiting.
    pub fn has_input(&self) -> (r: bool)
        requires
            self.wf(),
        ensures
            r == (self.queue@.len() > 0),
    {
        !self.queue.is_empty()
    }

    /// Decodes a scancode into a key, if it completes one.
    pub fn decode(&mut self, sc: u8) -> (r: Option<KeyInput>)
        requires
            old(self).wf(),
        ensures
            final(self).wf(),
            final(self).queue@ == old(self).queue@,
            final(self).line@ == old(self).line@,
            final(self).initialized == old(self).initialized,
            keyboard_fed(final(self).keyboard) == keyboard_fed(old(self).keyboard).push(sc),
            r == decoded_key(keyboard_fed(final(self).keyboard)),
    {
        keyboard_decode_byte(&mut self.keyboard, sc)
    }

    /// Line input with an already decoded key: see `key_line_effect`.
    pub fn line_input_key(&mut self, con: &mut Console, key: Option<KeyInput>) -> (r: Option<String>)
        requires
            old(self).wf(),
            old(con).wf(),
        ensures
            final(self).wf(),
            final(con).wf(),
            final(self).queue@ == old(self).queue@,
            final(self).initialized == old(self).initialized,
            final(self).keyboard == old(self).keyboard,
            key_line_effect(old(self).line@, *old(con), key, final(self).line@, *final(con), r),
    {
        match key {
            Some(k) => {
                if edit_line(&mut self.line, con, k) {
                    let s = line_to_string(&self.line);
                    self.line = Vec::new();
                    Some(s)
                } else {
                    None
                }
            },
            None => None,
        }
    }

    /// Line input, one scancode at a time: the scancode is decoded, the key
    /// applied to the line and echoed; when it finishes the line, the line is
    /// returned and a new one begins.  The key is the one the bytes fed to
    /// the decoder give (`decoded_key`).
    pub fn line_input(&mut self, con: &mut Console, sc: u8) -> (r: Option<String>)
        requires
            old(self).wf(),
            old(con).wf(),
        ensures
            final(self).wf(),
            final(con).wf(),
            final(self).queue@ == old(self).queue@,
            final(self).initialized == old(self).initialized,
            keyboard_fed(final(self).keyboard) == keyboard_fed(old(self).keyboard).push(sc),
            key_line_effect(old(self).line@, *old(con), decoded_key(keyboard_fed(final(self).keyboard)),
                final(self).line@, *final(con), r),
    {
        let key = self.decode(sc);
        self.line_input_key(con, key)
    }

    /// The character of a decoded key, if it has one.
    pub fn char_of_key(key: Option<KeyInput>) -> (r: Option<char>)
        ensures
            r == key_char(key),
    {
        match key {
            Some(KeyInput::Char(ch)) => Some(ch),
            _ => None,
        }
    }

    /// The character a scancode completes, if any: the decoded key's
    /// character.
    pub fn char_input(&mut self, sc: u8) -> (r: Option<char>)
        requires
            old(self).wf(),
        ensures
            final(self).wf(),
            final(self).queue@ == old(self).queue@,
            final(self).line@ == old(self).line@,
            final(self).initialized == old(self).initialized,
            keyboard_fed(final(self).keyboard) == keyboard_fed(old(self).keyboard).push(sc),
            r == key_char(decoded_key(keyboard_fed(final(self).keyboard))),
    {
        let key = self.decode(sc);
        Self::char_of_key(key)
    }

    /// Reads a line from the queued scancodes: each is decoded, applied to
    /// the line and echoed, until a key finishes the line, which is returned
    /// and a new one begun.  `None` when the queue runs out first; the line
    /// so far is kept for the next call (the caller waits for more input).
    /// Which key each scancode gives is the decoder's, so the steps are those
    /// of some key for each scancode taken (`line_trace`).
    pub fn read_line_irq(&mut self, con: &mut Console) -> (r: Option<String>)
        requires
            old(self).wf(),
            old(con).wf(),
        ensures
            final(self).wf(),
            final(con).wf(),
            consumed_front(old(self).queue@, final(self).queue@),
            final(self).initialized == old(self).initialized,
            r is None ==> final(self).queue@.len() == 0,
            r matches Some(_) ==> final(self).line@ == Seq::<char>::empty(),
            old(self).queue@.len() == 0 ==> r is None && final(self).line@ == old(self).line@ && *final(con)
                == *old(con) && final(self).queue@ == old(self).queue@,
            keyboard_fed(final(self).keyboard) == keyboard_fed(old(self).keyboard) + old(self).queue@.take(
                old(self).queue@.len() - final(self).queue@.len()),
            exists|keys: Seq<Option<KeyInput>>, lines: Seq<Seq<char>>, cons: Seq<Console>|
                #[trigger] line_trace(keys, lines, cons, r) && keys.len() == old(self).queue@.len()
                    - final(self).queue@.len() && keys_decoded(keyboard_fed(old(self).keyboard), old(
                    self).queue@, keys) && lines[0] == old(self).line@ && cons[0] == *old(con)
                    && lines.last() == final(self).line@ && cons.last() == *final(con),
    {
        proof {
            assert(old(self).queue@.skip(0) =~= old(self).queue@);
            assert(keyboard_fed(self.keyboard) + old(self).queue@.take(0) =~= keyboard_fed(self.keyboard));
        }
        let ghost fed0 = keyboard_fed(self.keyboard);
        let ghost mut keys: Seq<Option<KeyInput>> = Seq::empty();
        let ghost mut lines: Seq<Seq<char>> = seq![self.line@];
        let ghost mut cons: Seq<Console> = seq![*con];
        loop
            invariant
                self.wf(),
                con.wf(),
                consumed_front(old(self).queue@, self.queue@),
                self.initialized == old(self).initialized,
                line_trace(keys, lines, cons, None),
                keys.len() == old(self).queue@.len() - self.queue@.len(),
                fed0 == keyboard_fed(old(self).keyboard),
                keyboard_fed(self.keyboard) == fed0 + old(self).queue@.take(keys.len() as int),
                keys_decoded(fed0, old(self).queue@, keys),
                lines[0] == old(self).line@,
                cons[0] == *old(con),
                lines.last() == self.line@,
                cons.last() == *con,
            decreases self.queue@.len(),
        {
            let ghost q = self.queue@;
            let ghost l0 = self.line@;
            let ghost c0 = *con;
            match self.read_scancode() {
                None => {
                    return None;
                },
                Some(sc) => {
                    proof {
                        lemma_consumed_step(old(self).queue@, q);
                    }
                    let res = self.line_input(con, sc);
                    let ghost k = decoded_key(keyboard_fed(self.keyboard));
                    proof {
                        let n = keys.len() as int;
                        let oq = old(self).queue@;
                        assert(q[0] == oq[n]);
                        assert(oq.take(n + 1) =~= oq.take(n).push(oq[n]));
                        assert(fed0 + oq.take(n + 1) =~= (fed0 + oq.take(n)).push(sc));
                        let nk = keys.push(k);
                        assert forall|i: int| #![trigger nk[i]] 0 <= i < nk.len() implies nk[i] == decoded_key(fed0
                            + oq.take(i + 1)) by {
                            if i < n {
                                assert(nk[i] == keys[i]);
                            }
                        }
                        let nl = lines.push(self.line@);
                        let nc = cons.push(*con);
                        assert forall|i: int| #![trigger nk[i]] 0 <= i < nk.len() implies key_line_effect(nl[i],
                            nc[i], nk[i], nl[i + 1], nc[i + 1], if i == nk.len() - 1 { res } else {
                            None::<String> }) by {
                            if i < keys.len() {
                                assert(nk[i] == keys[i]);
                                assert(key_line_effect(lines[i], cons[i], keys[i], lines[i + 1], cons[i
                                    + 1], None::<String>));
                            }
                        }
                        assert(line_trace(nk, nl, nc, res));
                        keys = nk;
                        lines = nl;
                        cons = nc;
                    }
                    if let Some(text) = res {
                        return Some(text);
                    }
                },
            }
        }
    }

    /// Reads the next character from the queued scancodes; `None` when the
    /// queue runs out before a key with a character (the caller waits).
    pub fn read_char(&mut self) -> (r: Option<char>)
        requires
            old(self).wf(),
        ensures
            final(self).wf(),
            consumed_front(old(self).queue@, final(self).queue@),
            r is None ==> final(self).queue@.len() == 0,
            final(self).line@ == old(self).line@,
            final(self).initialized == old(self).initialized,
            ({
                let n = old(self).queue@.len() - final(self).queue@.len();
                let fed0 = keyboard_fed(old(self).keyboard);
                let taken = old(self).queue@.take(n);
                &&& keyboard_fed(final(self).keyboard) == fed0 + taken
                &&& r is Some ==> n > 0 && r == key_char(decoded_key(fed0 + taken))
                &&& forall|i: int| 0 <= i < n && (r is None || i < n - 1) ==> #[trigger] key_char(decoded_key(
                    fed0 + old(self).queue@.take(i + 1))) is None
            }),
    {
        proof {
            assert(old(self).queue@.skip(0) =~= old(self).queue@);
            assert(keyboard_fed(self.keyboard) + old(self).queue@.take(0) =~= keyboard_fed(self.keyboard));
        }
        let ghost fed0 = keyboard_fed(self.keyboard);
        loop
            invariant
                self.wf(),
                consumed_front(old(self).queue@, self.queue@),
                self.line@ == old(self).line@,
                self.initialized == old(self).initialized,
                fed0 == keyboard_fed(old(self).keyboard),
                keyboard_fed(self.keyboard) == fed0 + old(self).queue@.take(old(self).queue@.len()
                    - self.queue@.len()),
                forall|i: int| 0 <= i < old(self).queue@.len() - self.queue@.len() ==> #[trigger] key_char(
                    decoded_key(fed0 + old(self).queue@.take(i + 1))) is None,
            decreases self.queue@.len(),
        {
            let ghost q = self.queue@;
            match self.read_scancode() {
                None => {
                    return None;
                },
                Some(sc) => {
                    proof {
                        lemma_consumed_step(old(self).queue@, q);
                        let oq = old(self).queue@;
                        let n = oq.len() - q.len();
                        assert(q[0] == oq[n]);
                        assert(oq.take(n + 1) =~= oq.take(n).push(oq[n]));
                        assert(fed0 + oq.take(n + 1) =~= (fed0 + oq.take(n)).push(sc));
                    }
                    if let Some(ch) = self.char_input(sc) {
                        return Some(ch);
                    }
                },
            }
        }
    }

    /// Empties the scancode queue.
    pub fn cleanup(&mut self) -> (r: Result<(), &'static str>)
        requires
            old(self).wf(),
        ensures
            final(self).keyboard == old(self).keyboard,
            final(self).wf(),
            r is Ok,
            final(self).queue@ == Seq::<u8>::empty(),
            final(self).line@ == old(self).line@,
            final(self).initialized == old(self).initialized,
    {
        self.queue.clear();
        Ok(())
    }
}

impl Driver for Kb {
    type Error = &'static str;

    open spec fn driver_inv(&self) -> bool {
        self.wf()
    }

    fn name(&self) -> (r: &'static str)
        ensures
            r@ == "PS/2 Keyboard Driver"@,
    {
        "PS/2 Keyboard Driver"
    }

    fn init(&mut self) -> (r: Result<(), &'static str>)
        ensures
            final(self).keyboard == old(self).keyboard,
            r is Ok,
            final(self).initialized,
            final(self).queue@ == old(self).queue@,
            final(self).line@ == old(self).line@,
    {
        Kb::init(self)
    }

    fn cleanup(&mut self) -> (r: Result<(), &'static str>)
        ensures
            final(self).keyboard == old(self).keyboard,
            r is Ok,
            final(self).queue@ == Seq::<u8>::empty(),
            final(self).line@ == old(self).line@,
            final(self).initialized == old(self).initialized,
    {
        Kb::cleanup(self)
    }

    fn is_initialized(&self) -> (r: bool)
        ensures
            r == self.initialized,
    {
        self.initialized
    }
}

impl InputDriver for Kb {
    fn read(&mut self, buffer: &mut [u8]) -> (r: Result<usize, &'static str>)
        ensures
            final(self).keyboard == old(self).keyboard,
            r matches Ok(n) && n == (if old(buffer)@.len() < old(self).queue@.len() { old(buffer)@.len() } else {
                old(self).queue@.len() }) && final(buffer)@ == old(self).queue@.take(n as int) + old(buffer)@.skip(
                n as int) && final(self).queue@ == old(self).queue@.skip(n as int),
            final(self).line@ == old(self).line@,
            final(self).initialized == old(self).initialized,
    {
        let mut n: usize = 0;
        while n < buffer.len()
            invariant_except_break
                self.wf(),
                n <= buffer@.len(),
                buffer@.len() == old(buffer)@.len(),
                n <= old(self).queue@.len(),
                buffer@ == old(self).queue@.take(n as int) + old(buffer)@.skip(n as int),
                self.queue@ == old(self).queue@.skip(n as int),
                self.line@ == old(self).line@,
                self.initialized == old(self).initialized,
                self.keyboard == old(self).keyboard,
            ensures
                self.wf(),
                self.keyboard == old(self).keyboard,
                buffer@.len() == old(buffer)@.len(),
                n == (if old(buffer)@.len() < old(self).queue@.len() { old(buffer)@.len() } else {
                    old(self).queue@.len() }),
                buffer@ == old(self).queue@.take(n as int) + old(buffer)@.skip(n as int),
                self.queue@ == old(self).queue@.skip(n as int),
                self.line@ == old(self).line@,
                self.initialized == old(self).initialized,
            decreases buffer@.len() - n,
        {
            match self.read_scancode() {
                Some(sc) => {
                    buffer[n] = sc;
                    proof {
                        assert(old(self).queue@.skip(n as int).drop_first() =~= old(self).queue@.skip(n as int + 1));
                        assert(buffer@ =~= old(self).queue@.take(n as int + 1) + old(buffer)@.skip(n as int + 1));
                    }
                    n = n + 1;
                },
                None => {
                    break;
                },
            }
        }
        Ok(n)
    }

    fn has_input(&self) -> (r: bool)
        ensures
            r == (self.queue@.len() > 0),
    {
        Kb::has_input(self)
    }
}

/// Initialises the keyboard driver.
pub fn init(kb: &mut Kb) -> (r: Result<(), &'static str>)
    requires
        old(kb).wf(),
    ensures
        final(kb).wf(),
        r is Ok,
        final(kb).initialized,
        final(kb).queue@ == old(kb).queue@,
{
    kb.init()
}

/// The scancode queue is first in, first out: a scancode queued behind
/// others comes out after them, and into an empty queue it comes out next.
pub proof fn law_queue_fifo(s: Seq<u8>, x: u8)
    ensures
        s.len() == 0 ==> s.push(x)[0] == x && s.push(x).drop_first() == Seq::<u8>::empty(),
        s.len() > 0 ==> s.push(x)[0] == s[0] && s.push(x).drop_first() == s.drop_first().push(x),
{
    if s.len() == 0 {
        assert(s.push(x).drop_first() =~= Seq::<u8>::empty());
    } else {
        assert(s.push(x).drop_first() =~= s.drop_first().push(x));
    }
}

/// The generator never reaches zero from a non-zero state, so it never
/// gets stuck.
pub proof fn law_xorshift_nonzero(x: u64)
    requires
        x != 0,
    ensures
        xorshift64_step(x) != 0,
{
    let a = x ^ (x << 13u64);
    let b = a ^ (a >> 7u64);
    let c = b ^ (b << 17u64);
    assert(x != 0 ==> x ^ (x << 13u64) != 0) by (bit_vector);
    assert(a != 0 ==> a ^ (a >> 7u64) != 0) by (bit_vector);
    assert(b != 0 ==> b ^ (b << 17u64) != 0) by (bit_vector);
}

} // verus!
