//! A two-sided text progress bar: two half-width bars growing toward a
//! central separator, with optional labels above and optional caret lines
//! below each side.
//!
//! Lengths in the contracts count characters; every stored string is kept
//! ASCII so that the byte lengths the layout arithmetic uses coincide with
//! them.

use vstd::prelude::*;

verus! {

use vstd::utf8::is_ascii_chars;
use crate::cmdln::max_nat;
use crate::cmdln::max_usize;
use crate::cmdln::min_nat;
use crate::cmdln::min_usize;
use crate::cmdln::repeat_char;
use crate::cmdln::repeat_one;
use crate::cmdln::spaces;
use crate::cmdln::char_to_string;
use crate::cmdln::ascii_len;
use crate::cmdln::bar::opt_len;
use crate::cmdln::bar::opt_ascii;

/// A two-sided text progress bar of a fixed odd width.
pub struct RatioBar {
    pub bracket_left: String,
    pub bracket_right: String,
    pub fill: String,
    pub blank: String,
    pub separator: String,
    pub width: usize,
    pub progress_left: usize,
    pub progress_label_left: Option<String>,
    pub progress_right: usize,
    pub progress_label_right: Option<String>,
    pub label_left: Option<String>,
    pub label_right: Option<String>,
}

impl RatioBar {
    /// The structural invariant: an odd width, a non-empty ASCII left
    /// bracket, single-character ASCII fill, blank and separator, both
    /// progress positions within their half, progress labels within their
    /// half and only on bars wide enough to point into, and top labels
    /// strictly narrower together than the whole bar.
    pub open spec fn wf(self) -> bool {
        &&& is_ascii_chars(self.bracket_left@)
        &&& is_ascii_chars(self.bracket_right@)
        &&& self.bracket_left@.len() >= 1
        &&& self.fill@.len() == 1
        &&& self.blank@.len() == 1
        &&& self.separator@.len() == 1
        &&& is_ascii_chars(self.blank@)
        &&& self.width % 2 == 1
        &&& self.bracket_left@.len() + self.width + self.bracket_right@.len() + 2 <= usize::MAX
        &&& self.progress_left <= self.width / 2
        &&& self.progress_right <= self.width / 2
        &&& (self.progress_label_left matches Some(l) ==> is_ascii_chars(l@) && l@.len()
            <= self.width / 2)
        &&& (self.progress_label_right matches Some(l) ==> is_ascii_chars(l@) && l@.len()
            <= self.width / 2)
        &&& ((self.progress_label_left is Some || self.progress_label_right is Some)
            ==> self.width >= 3)
        &&& opt_ascii(self.label_left)
        &&& opt_ascii(self.label_right)
        &&& opt_len(self.label_left) + opt_len(self.label_right) < self.bracket_left@.len()
            + self.width + self.bracket_right@.len()
    }

    /// The caret line under the bar: a caret under each side that has a
    /// progress label, spaced to the positions the labels point at.
    pub open spec fn caret_line(self) -> Seq<char> {
        let bl = self.bracket_left@.len();
        let half = (self.width / 2) as nat;
        (match self.progress_label_left {
            Some(_) => repeat_char(
                ' ',
                max_nat((bl + half - self.progress_left - 1) as nat, bl),
            ) + seq!['^'] + repeat_char(
                ' ',
                (min_nat(self.progress_left as nat, (half - 1) as nat) + self.blank@.len()) as nat,
            ),
            None => repeat_char(' ', (bl + half + 1) as nat),
        }) + (match self.progress_label_right {
            Some(_) => repeat_char(
                ' ',
                min_nat(self.progress_right as nat, (half - 1) as nat),
            ) + seq!['^', '\n'],
            None => seq!['\n'],
        })
    }

    /// The label line under the carets: each side's progress label,
    /// spaced toward the position its caret points at and clamped to the
    /// bar's edges.
    pub open spec fn caret_label_line(self) -> Seq<char> {
        let bl = self.bracket_left@.len();
        let half = (self.width / 2) as nat;
        (match self.progress_label_left {
            Some(l) => {
                let gap = if half - self.progress_left == 0 {
                    1nat
                } else {
                    0nat
                };
                repeat_char(
                    ' ',
                    min_nat(
                        max_nat((half - self.progress_left) as nat, 1) + bl,
                        (half + bl - l@.len()) as nat,
                    ),
                ) + l@ + repeat_char(
                    ' ',
                    (max_nat(self.progress_left as nat, l@.len()) + self.blank@.len() - l@.len()
                        - gap) as nat,
                )
            },
            None => repeat_char(' ', (bl + half + 1) as nat),
        }) + (match self.progress_label_right {
            Some(l) => repeat_char(
                ' ',
                min_nat((self.progress_right + 1) as nat, (half - l@.len()) as nat),
            ) + l@,
            None => Seq::<char>::empty(),
        })
    }

    /// The rendered text: the label line where labels are set, the bar
    /// line, the caret line, and the caret label line where progress
    /// labels are set.
    pub open spec fn rendered(self) -> Seq<char> {
        let bl = self.bracket_left@.len();
        let br = self.bracket_right@.len();
        let half = (self.width / 2) as nat;
        let labels_part = (match self.label_left {
            Some(l) => l@,
            None => Seq::<char>::empty(),
        }) + (match self.label_right {
            Some(r) => repeat_char(
                ' ',
                (bl + self.width + br - opt_len(self.label_left) - r@.len()) as nat,
            ) + r@ + seq!['\n'],
            None => Seq::<char>::empty(),
        });
        let bar_part = self.bracket_left@ + repeat_char(
            self.blank@[0],
            (half - self.progress_left) as nat,
        ) + repeat_char(self.fill@[0], self.progress_left as nat) + self.separator@ + repeat_char(
            self.fill@[0],
            self.progress_right as nat,
        ) + repeat_char(self.blank@[0], (half - self.progress_right) as nat)
            + self.bracket_right@ + seq!['\n'];
        labels_part + bar_part + self.caret_line() + self.caret_label_line()
    }

    /// An empty bar of the given shape: no progress and no labels.  The
    /// width must be odd, and the left bracket non-empty.
    pub fn new(
        bracket_left: String,
        bracket_right: String,
        fill: char,
        blank: char,
        separator: char,
        width: usize,
    ) -> (b: RatioBar)
        requires
            is_ascii_chars(bracket_left@),
            is_ascii_chars(bracket_right@),
            bracket_left@.len() >= 1,
            fill <= '\u{7f}',
            blank <= '\u{7f}',
            separator <= '\u{7f}',
            width % 2 == 1,
            bracket_left@.len() + width + bracket_right@.len() + 2 <= usize::MAX,
        ensures
            b.wf(),
            b.bracket_left == bracket_left,
            b.bracket_right == bracket_right,
            b.fill@ == seq![fill],
            b.blank@ == seq![blank],
            b.separator@ == seq![separator],
            b.width == width,
            b.progress_left == 0,
            b.progress_right == 0,
            b.progress_label_left is None,
            b.progress_label_right is None,
            b.label_left is None,
            b.label_right is None,
    {
        RatioBar {
            bracket_left,
            bracket_right,
            fill: char_to_string(fill),
            blank: char_to_string(blank),
            separator: char_to_string(separator),
            width,
            progress_left: 0,
            progress_label_left: None,
            progress_right: 0,
            progress_label_right: None,
            label_left: None,
            label_right: None,
        }
    }

    /// Sets both progress positions and their optional labels; each must
    /// lie within its half of the bar.
    pub fn progress(
        &mut self,
        progress_left: usize,
        label_left: Option<String>,
        progress_right: usize,
        label_right: Option<String>,
    )
        requires
            old(self).wf(),
            progress_left <= old(self).width / 2,
            progress_right <= old(self).width / 2,
            label_left matches Some(l) ==> is_ascii_chars(l@) && l@.len() <= old(self).width / 2,
            label_right matches Some(l) ==> is_ascii_chars(l@) && l@.len() <= old(self).width
                / 2,
            (label_left is Some || label_right is Some) ==> old(self).width >= 3,
        ensures
            final(self).wf(),
            *final(self) == (RatioBar {
                progress_left,
                progress_label_left: label_left,
                progress_right,
                progress_label_right: label_right,
                ..*old(self)
            }),
    {
        self.progress_left = progress_left;
        self.progress_right = progress_right;
        self.progress_label_left = label_left;
        self.progress_label_right = label_right;
    }

    /// Sets the two labels of the top line; together they must be
    /// strictly narrower than the whole bar.
    pub fn labels(&mut self, label_left: Option<String>, label_right: Option<String>)
        requires
            old(self).wf(),
            opt_ascii(label_left),
            opt_ascii(label_right),
            opt_len(label_left) + opt_len(label_right) < old(self).bracket_left@.len() + old(
                self,
            ).width + old(self).bracket_right@.len(),
        ensures
            final(self).wf(),
            *final(self) == (RatioBar { label_left, label_right, ..*old(self) }),
    {
        self.label_left = label_left;
        self.label_right = label_right;
    }

    /// The caret line as text.
    fn render_caret_line(&self) -> (r: String)
        requires
            self.wf(),
        ensures
            r@ == self.caret_line(),
    {
        proof {
            reveal_strlit("\n");
            reveal_strlit("^");
        }
        let half = self.width / 2;
        let bl = ascii_len(self.bracket_left.as_str());
        let mut out = String::new();
        match &self.progress_label_left {
            Some(_) => {
                out.append(spaces(max_usize(bl + half - self.progress_left - 1, bl)).as_str());
                out.append("^");
                out.append(
                    spaces(
                        min_usize(self.progress_left, half - 1) + ascii_len(
                            self.blank.as_str(),
                        ),
                    ).as_str(),
                );
            },
            None => {
                out.append(spaces(bl + half + 1).as_str());
            },
        }
        match &self.progress_label_right {
            Some(_) => {
                out.append(spaces(min_usize(self.progress_right, half - 1)).as_str());
                out.append("^");
                out.append("\n");
            },
            None => {
                out.append("\n");
            },
        }
        proof {
            assert(out@ =~= self.caret_line());
        }
        out
    }

    /// The caret label line as text.
    fn render_caret_label_line(&self) -> (r: String)
        requires
            self.wf(),
        ensures
            r@ == self.caret_label_line(),
    {
        let half = self.width / 2;
        let bl = ascii_len(self.bracket_left.as_str());
        let mut out = String::new();
        match &self.progress_label_left {
            Some(l) => {
                let gap: usize = if half - self.progress_left == 0 {
                    1
                } else {
                    0
                };
                out.append(
                    spaces(
                        min_usize(
                            max_usize(half - self.progress_left, 1) + bl,
                            half + bl - ascii_len(l.as_str()),
                        ),
                    ).as_str(),
                );
                out.append(l.as_str());
                out.append(
                    spaces(
                        max_usize(self.progress_left, ascii_len(l.as_str())) + ascii_len(
                            self.blank.as_str(),
                        ) - ascii_len(l.as_str()) - gap,
                    ).as_str(),
                );
            },
            None => {
                out.append(spaces(bl + half + 1).as_str());
            },
        }
        match &self.progress_label_right {
            Some(l) => {
                out.append(
                    spaces(
                        min_usize(self.progress_right + 1, half - ascii_len(l.as_str())),
                    ).as_str(),
                );
                out.append(l.as_str());
            },
            None => {},
        }
        proof {
            assert(out@ =~= self.caret_label_line());
        }
        out
    }

    /// The bar as text.
    #[verifier::rlimit(100)]
    pub fn render(&self) -> (r: String)
        requires
            self.wf(),
        ensures
            r@ == self.rendered(),
    {
        proof {
            reveal_strlit("\n");
        }
        let half = self.width / 2;
        let bl = ascii_len(self.bracket_left.as_str());
        let br = ascii_len(self.bracket_right.as_str());
        let mut out = String::new();
        let mut label_offset: usize = 0;
        match &self.label_left {
            Some(l) => {
                out.append(l.as_str());
                label_offset = ascii_len(l.as_str());
            },
            None => {},
        }
        match &self.label_right {
            Some(r) => {
                out.append(
                    spaces(
                        bl + self.width + br - label_offset - ascii_len(r.as_str()),
                    ).as_str(),
                );
                out.append(r.as_str());
                out.append("\n");
            },
            None => {},
        }
        out.append(self.bracket_left.as_str());
        out.append(repeat_one(&self.blank, half - self.progress_left).as_str());
        out.append(repeat_one(&self.fill, self.progress_left).as_str());
        out.append(self.separator.as_str());
        out.append(repeat_one(&self.fill, self.progress_right).as_str());
        out.append(repeat_one(&self.blank, half - self.progress_right).as_str());
        out.append(self.bracket_right.as_str());
        out.append("\n");
        out.append(self.render_caret_line().as_str());
        out.append(self.render_caret_label_line().as_str());
        proof {
            assert(out@ =~= self.rendered());
        }
        out
    }
}

} // verus!
