//! A one-sided text progress bar: an optional label line, the bar itself,
//! and an optional caret line pointing at the progress position.
//!
//! Lengths in the contracts count characters; every stored string is kept
//! ASCII so that the byte lengths the layout arithmetic uses coincide with
//! them.

use vstd::prelude::*;

verus! {

use vstd::utf8::is_ascii_chars;
use crate::cmdln::min_nat;
use crate::cmdln::min_usize;
use crate::cmdln::repeat_char;
use crate::cmdln::repeat_one;
use crate::cmdln::spaces;
use crate::cmdln::char_to_string;
use crate::cmdln::ascii_len;

/// The character count of an optional label.
pub open spec fn opt_len(l: Option<String>) -> nat {
    match l {
        Some(s) => s@.len(),
        None => 0,
    }
}

/// Whether an optional label is ASCII.
pub open spec fn opt_ascii(l: Option<String>) -> bool {
    match l {
        Some(s) => is_ascii_chars(s@),
        None => true,
    }
}

/// A text progress bar of a fixed width.
pub struct Bar {
    pub bracket_left: String,
    pub bracket_right: String,
    pub fill: String,
    pub blank: String,
    pub width: usize,
    pub progress: usize,
    pub progress_label: Option<String>,
    pub label_left: Option<String>,
    pub label_right: Option<String>,
}

impl Bar {
    /// The structural invariant: single-character ASCII fill and blank,
    /// ASCII brackets and labels, progress within the width, the progress
    /// label within the width, and the two top labels strictly narrower
    /// together than the whole bar.
    pub open spec fn wf(self) -> bool {
        &&& is_ascii_chars(self.bracket_left@)
        &&& is_ascii_chars(self.bracket_right@)
        &&& self.fill@.len() == 1
        &&& self.blank@.len() == 1
        &&& self.progress <= self.width
        &&& self.bracket_left@.len() + self.width + self.bracket_right@.len() + 2 <= usize::MAX
        &&& (self.progress_label matches Some(l) ==> is_ascii_chars(l@) && l@.len()
            <= self.width)
        &&& opt_ascii(self.label_left)
        &&& opt_ascii(self.label_right)
        &&& opt_len(self.label_left) + opt_len(self.label_right) < self.bracket_left@.len()
            + self.width + self.bracket_right@.len()
    }

    /// The rendered text: the label line where labels are set, the bar
    /// line, and the caret line where a progress label is set.
    pub open spec fn rendered(self) -> Seq<char> {
        let bl = self.bracket_left@.len();
        let br = self.bracket_right@.len();
        let labels_part = (match self.label_left {
            Some(l) => l@,
            None => Seq::<char>::empty(),
        }) + (match self.label_right {
            Some(r) => repeat_char(
                ' ',
                (bl + self.width + br - opt_len(self.label_left) - r@.len()) as nat,
            ) + r@ + seq!['\n'],
            None => Seq::<char>::empty(),
        });
        let bar_part = self.bracket_left@ + repeat_char(self.fill@[0], self.progress as nat)
            + repeat_char(self.blank@[0], (self.width - self.progress) as nat)
            + self.bracket_right@ + seq!['\n'];
        let caret_part = match self.progress_label {
            Some(l) => repeat_char(' ', min_nat((self.progress + bl) as nat, self.width as nat))
                + seq!['^', '\n'] + repeat_char(
                ' ',
                min_nat((self.progress + bl + 1) as nat, (self.width + bl - l@.len()) as nat),
            ) + l@,
            None => Seq::<char>::empty(),
        };
        labels_part + bar_part + caret_part
    }

    /// An empty bar of the given shape: no progress and no labels.
    pub fn new(bracket_left: String, bracket_right: String, fill: char, blank: char, width: usize) -> (b: Bar)
        requires
            is_ascii_chars(bracket_left@),
            is_ascii_chars(bracket_right@),
            fill <= '\u{7f}',
            blank <= '\u{7f}',
            bracket_left@.len() + width + bracket_right@.len() >= 1,
            bracket_left@.len() + width + bracket_right@.len() + 2 <= usize::MAX,
        ensures
            b.wf(),
            b.bracket_left == bracket_left,
            b.bracket_right == bracket_right,
            b.fill@ == seq![fill],
            b.blank@ == seq![blank],
            b.width == width,
            b.progress == 0,
            b.progress_label is None,
            b.label_left is None,
            b.label_right is None,
    {
        Bar {
            bracket_left,
            bracket_right,
            fill: char_to_string(fill),
            blank: char_to_string(blank),
            width,
            progress: 0,
            progress_label: None,
            label_left: None,
            label_right: None,
        }
    }

    /// Sets the progress position and its optional label; the position
    /// must lie within the width, and the label must fit under the bar.
    pub fn progress(&mut self, progress: usize, label: Option<String>)
        requires
            old(self).wf(),
            progress <= old(self).width,
            label matches Some(l) ==> is_ascii_chars(l@) && l@.len() <= old(self).width,
        ensures
            final(self).wf(),
            *final(self) == (Bar { progress, progress_label: label, ..*old(self) }),
    {
        self.progress = progress;
        self.progress_label = label;
    }

    /// Sets the two labels of the top line; together they must be
    /// strictly narrower than the whole bar.
    pub fn labels(&mut self, label_left: Option<String>, label_right: Option<String>)
        requires
            old(self).wf(),
            opt_ascii(label_left),
            opt_ascii(label_right),
            opt_len(label_left) + opt_len(label_right) < old(self).bracket_left@.len() + old(
                self,
            ).width + old(self).bracket_right@.len(),
        ensures
            final(self).wf(),
            *final(self) == (Bar { label_left, label_right, ..*old(self) }),
    {
        self.label_left = label_left;
        self.label_right = label_right;
    }

    /// The bar as text.
    #[verifier::rlimit(100)]
    pub fn render(&self) -> (r: String)
        requires
            self.wf(),
        ensures
            r@ == self.rendered(),
    {
        proof {
            broadcast use vstd::string::is_ascii_spec_bytes;

            reveal_strlit("\n");
            reveal_strlit("^");
        }
        let mut out = String::new();
        let bl = ascii_len(self.bracket_left.as_str());
        let br = ascii_len(self.bracket_right.as_str());
        let mut label_offset: usize = 0;
        match &self.label_left {
            Some(l) => {
                out.append(l.as_str());
                label_offset = ascii_len(l.as_str());
            },
            None => {},
        }
        match &self.label_right {
            Some(r) => {
                out.append(spaces(bl + self.width + br - label_offset - ascii_len(r.as_str())).as_str());
                out.append(r.as_str());
                out.append("\n");
            },
            None => {},
        }
        out.append(self.bracket_left.as_str());
        out.append(repeat_one(&self.fill, self.progress).as_str());
        out.append(repeat_one(&self.blank, self.width - self.progress).as_str());
        out.append(self.bracket_right.as_str());
        out.append("\n");
        match &self.progress_label {
            Some(l) => {
                out.append(spaces(min_usize(self.progress + bl, self.width)).as_str());
                out.append("^");
                out.append("\n");
                out.append(
                    spaces(
                        min_usize(self.progress + bl + 1, self.width + bl - ascii_len(l.as_str())),
                    ).as_str(),
                );
                out.append(l.as_str());
            },
            None => {},
        }
        proof {
            assert(out@ =~= self.rendered());
        }
        out
    }
}

} // verus!
