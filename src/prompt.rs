//! A one-line text prompt: the edits that each key makes to the input and the
//! cursor, and the pieces the line is drawn from.
use vstd::prelude::*;

verus! {

/// A key press, as far as the prompt tells keys apart.
#[derive(Debug, Clone, Copy, PartialEq, Eq, Structural)]
pub enum Key {
    Left,
    Right,
    Backspace,
    Enter,
    Tab,
    Char(char),
    /// Control-C: the user gives up.
    Interrupt,
    Other,
}

/// The state of a prompt: its label, the input typed so far, the cursor,
/// and whether the input was confirmed.
pub struct Prompt<'a> {
    prompt: &'a str,
    pointer: usize,
    input: Vec<char>,
    done: bool,
}

impl<'a> Prompt<'a> {
    /// The label shown before the input.
    pub closed spec fn label(&self) -> Seq<char> {
        self.prompt@
    }

    /// The cursor: the number of characters before it.
    pub closed spec fn pointer(&self) -> nat {
        self.pointer as nat
    }

    /// The text typed so far.
    pub closed spec fn input(&self) -> Seq<char> {
        self.input@
    }

    /// Whether the input has been confirmed.
    pub closed spec fn done(&self) -> bool {
        self.done
    }

    /// The cursor stands within the input.
    pub closed spec fn wf(&self) -> bool {
        self.pointer <= self.input@.len()
    }

    /// An empty prompt with the given label.
    pub fn new(prompt: &'a str) -> (r: Self)
        ensures
            r.wf(),
            r.label() == prompt@,
            r.pointer() == 0,
            r.input() == Seq::<char>::empty(),
            !r.done(),
    {
        Prompt { prompt, pointer: 0, input: Vec::new(), done: false }
    }

    /// The label.
    pub fn label_text(&self) -> (r: &'a str)
        ensures
            r@ == self.label(),
    {
        self.prompt
    }

    /// The number of characters typed.
    pub fn input_len(&self) -> (r: usize)
        ensures
            r == self.input().len(),
    {
        self.input.len()
    }

    /// Whether the input has been confirmed.
    pub fn is_done(&self) -> (r: bool)
        ensures
            r == self.done(),
    {
        self.done
    }

    /// The text typed, once the prompt is no longer needed.
    pub fn into_input(self) -> (r: Vec<char>)
        ensures
            r@ == self.input(),
    {
        self.input
    }

    /// Applies one key press. Arrows move the cursor within the text,
    /// backspace removes the character before the cursor, a character or a tab
    /// is inserted at the cursor, and enter confirms. Returns whether the user
    /// asked to give up, in which case nothing changes.
    pub fn handle_key(&mut self, key: Key) -> (r: bool)
        requires
            old(self).wf(),
            old(self).input().len() < usize::MAX,
        ensures
            final(self).wf(),
            r == (key is Interrupt),
            final(self).label() == old(self).label(),
            final(self).done() == (old(self).done() || key is Enter),
            match key {
                Key::Right => {
                    &&& final(self).input() == old(self).input()
                    &&& final(self).pointer() == if old(self).pointer() < old(self).input().len() {
                        old(self).pointer() + 1
                    } else {
                        old(self).pointer()
                    }
                },
                Key::Left => {
                    &&& final(self).input() == old(self).input()
                    &&& final(self).pointer() == if old(self).pointer() > 0 {
                        (old(self).pointer() - 1) as nat
                    } else {
                        old(self).pointer()
                    }
                },
                Key::Backspace => if old(self).pointer() > 0 {
                    &&& final(self).input() == old(self).input().remove(old(self).pointer() - 1)
                    &&& final(self).pointer() == old(self).pointer() - 1
                } else {
                    &&& final(self).input() == old(self).input()
                    &&& final(self).pointer() == 0
                },
                Key::Char(c) => {
                    &&& final(self).input() == old(self).input().insert(old(self).pointer() as int, c)
                    &&& final(self).pointer() == old(self).pointer() + 1
                },
                Key::Tab => {
                    &&& final(self).input() == old(self).input().insert(old(self).pointer() as int, '\t')
                    &&& final(self).pointer() == old(self).pointer() + 1
                },
                _ => {
                    &&& final(self).input() == old(self).input()
                    &&& final(self).pointer() == old(self).pointer()
                },
            },
    {
        match key {
            Key::Right => {
                if self.pointer < self.input.len() {
                    self.pointer += 1;
                }
            },
            Key::Left => {
                if self.pointer > 0 {
                    self.pointer -= 1;
                }
            },
            Key::Backspace => {
                if self.pointer > 0 {
                    self.input.remove(self.pointer - 1);
                    self.pointer -= 1;
                }
            },
            Key::Char(c) => {
                self.input.insert(self.pointer, c);
                self.pointer += 1;
            },
            Key::Tab => {
                self.input.insert(self.pointer, '\t');
                self.pointer += 1;
            },
            Key::Enter => {
                self.done = true;
            },
            Key::Interrupt => {
                return true;
            },
            Key::Other => {},
        }
        false
    }

    /// The pieces the line is drawn from: the text before the cursor, the
    /// character under it (none at the end), and the text after that.
    pub fn segments(&self) -> (r: (Vec<char>, Vec<char>, Vec<char>))
        requires
            self.wf(),
        ensures
            r.0@ == self.input().take(self.pointer() as int),
            self.pointer() < self.input().len() ==> r.1@ == seq![self.input()[self.pointer() as int]],
            self.pointer() == self.input().len() ==> r.1@.len() == 0,
            r.0@ + r.1@ + r.2@ == self.input(),
    {
        let n = self.input.len();
        let mut left: Vec<char> = Vec::new();
        let mut mid: Vec<char> = Vec::new();
        let mut right: Vec<char> = Vec::new();
        let mut i: usize = 0;
        while i < n
            invariant
                n == self.input@.len(),
                self.pointer <= n,
                i <= n,
                left@ == self.input@.take(if i < self.pointer { i as int } else { self.pointer as int }),
                i <= self.pointer ==> mid@.len() == 0,
                i > self.pointer ==> mid@ == seq![self.input@[self.pointer as int]],
                i <= self.pointer + 1 ==> right@.len() == 0,
                i > self.pointer + 1 ==> right@ == self.input@.subrange(self.pointer + 1, i as int),
            decreases n - i,
        {
            let c = self.input[i];
            if i < self.pointer {
                left.push(c);
                assert(left@ =~= self.input@.take(i + 1));
            } else if i == self.pointer {
                mid.push(c);
                assert(mid@ =~= seq![self.input@[self.pointer as int]]);
            } else {
                right.push(c);
                assert(right@ =~= self.input@.subrange(self.pointer + 1, i + 1));
            }
            i += 1;
        }
        assert(left@ + mid@ + right@ =~= self.input@);
        (left, mid, right)
    }
}

} // verus!
