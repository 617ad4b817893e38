//! The front matter block of a Markdown note: where `gray_matter` finds one, and which
//! blocks its YAML reader can take without exhausting the stack.
use vstd::prelude::*;

use crate::strings::is_white_space;

verus! {

/// The lines of `s`: the runs of characters between line breaks, in order; the last
/// run is empty when `s` ends with a line break.
pub open spec fn lines_of(s: Seq<char>) -> Seq<Seq<char>>
    decreases s.len(),
{
    if s.len() == 0 {
        seq![Seq::empty()]
    } else {
        let before = lines_of(s.drop_last());
        if s.last() == '\n' {
            before.push(Seq::empty())
        } else {
            before.update(before.len() - 1, before.last().push(s.last()))
        }
    }
}

/// Whether line `l` is a front matter delimiter: `---`, then only white space.
pub open spec fn is_delimiter_line(l: Seq<char>) -> bool {
    &&& l.len() >= 3
    &&& l[0] == '-' && l[1] == '-' && l[2] == '-'
    &&& forall|i: int| 3 <= i < l.len() ==> is_white_space(#[trigger] l[i])
}

/// Whether line `l` holds nothing but white space.
pub open spec fn is_blank_line(l: Seq<char>) -> bool {
    forall|i: int| 0 <= i < l.len() ==> is_white_space(#[trigger] l[i])
}

/// Whether line `j` (after the first) of `lines` is the first delimiter after the first line.
pub open spec fn closes_at(lines: Seq<Seq<char>>, j: int) -> bool {
    &&& 1 <= j < lines.len()
    &&& is_delimiter_line(lines[j])
    &&& forall|k: int| 1 <= k < j ==> !is_delimiter_line(#[trigger] lines[k])
}

/// Whether the note opens a front matter block: its first line is a delimiter and a line
/// break ends it.
pub open spec fn opens_front_matter(s: Seq<char>) -> bool {
    lines_of(s).len() >= 2 && is_delimiter_line(lines_of(s)[0])
}

/// Whether note `s` has front matter: it opens a block, a later delimiter line closes
/// it, and some line in between holds more than white space.
pub open spec fn has_front_matter(s: Seq<char>) -> bool {
    let lines = lines_of(s);
    &&& opens_front_matter(s)
    &&& exists|j: int|
        #[trigger] closes_at(lines, j) && exists|k: int| 1 <= k < j && !is_blank_line(#[trigger] lines[k])
}

/// Whether line `k` of `lines` belongs to a block opened by the first line: it comes after
/// the first line, and no line between them is a delimiter (it may be the closing one).
pub open spec fn in_block(lines: Seq<Seq<char>>, k: int) -> bool {
    &&& 1 <= k < lines.len()
    &&& forall|m: int| 1 <= m < k ==> !is_delimiter_line(#[trigger] lines[m])
}

/// The longest front matter line that is handed to the YAML reader.
pub open spec fn max_front_matter_line() -> int {
    512
}

/// Whether line `l` of a front matter block can go to the YAML reader: it is at most
/// `max_front_matter_line()` long and holds no `*`, the mark of an alias.
pub open spec fn line_is_readable(l: Seq<char>) -> bool {
    l.len() <= max_front_matter_line() && !l.contains('*')
}

/// Whether the front matter block that note `s` opens, if it opens one, can go to the
/// YAML reader: every line of it, up to its closing delimiter (or to the end, when none
/// closes it), is readable.
///
/// The reader recurses once per level of nesting of the value it builds. Flow nesting
/// is capped at 255 by the scanner; a level of block nesting needs a deeper indentation
/// (or a further compact indicator) on its line, so short lines bound it; and only an
/// alias can copy an earlier value into a deeper place. Without aliases and with short
/// lines the nesting stays under about 1,300 levels.
pub open spec fn front_matter_is_readable(s: Seq<char>) -> bool {
    let lines = lines_of(s);
    opens_front_matter(s) ==> forall|k: int| #[trigger] in_block(lines, k) ==> line_is_readable(lines[k])
}

/// How far line `l` goes towards being a delimiter: the number of its dashes while it is
/// a run of fewer than three; 3 while it is `---` and white space; 4 once it cannot be one.
pub open spec fn delimiter_progress(l: Seq<char>) -> int
    decreases l.len(),
{
    if l.len() == 0 {
        0
    } else {
        let d = delimiter_progress(l.drop_last());
        let c = l.last();
        if d < 3 {
            if c == '-' {
                d + 1
            } else {
                4
            }
        } else if d == 3 {
            if is_white_space(c) {
                3
            } else {
                4
            }
        } else {
            4
        }
    }
}

proof fn lemma_delimiter_progress(l: Seq<char>)
    ensures
        delimiter_progress(l) == if is_delimiter_line(l) {
            3
        } else if l.len() < 3 && (forall|i: int| 0 <= i < l.len() ==> l[i] == '-') {
            l.len() as int
        } else {
            4
        },
    decreases l.len(),
{
    if l.len() > 0 {
        let init = l.drop_last();
        lemma_delimiter_progress(init);
        let c = l.last();
        assert(forall|i: int| 0 <= i < init.len() ==> init[i] == l[i]);
        if is_delimiter_line(init) {
            if is_white_space(c) {
                assert(is_delimiter_line(l));
            } else {
                assert(!is_white_space(l[l.len() - 1]));
            }
        } else if init.len() < 3 && (forall|i: int| 0 <= i < init.len() ==> init[i] == '-') {
            if c == '-' {
                assert(forall|i: int| 0 <= i < l.len() ==> l[i] == '-');
                if l.len() == 3 {
                    assert(is_delimiter_line(l));
                }
            } else {
                assert(l[l.len() - 1] != '-');
                assert(!is_delimiter_line(l));
            }
        } else {
            if is_delimiter_line(l) {
                if l.len() > 3 {
                    assert(is_delimiter_line(init));
                } else {
                    assert(forall|i: int| 0 <= i < init.len() ==> init[i] == '-');
                }
            }
            if l.len() < 3 && (forall|i: int| 0 <= i < l.len() ==> l[i] == '-') {
                assert(forall|i: int| 0 <= i < init.len() ==> init[i] == '-');
            }
        }
    }
}

proof fn lemma_lines_nonempty(s: Seq<char>)
    ensures
        lines_of(s).len() >= 1,
    decreases s.len(),
{
    if s.len() > 0 {
        lemma_lines_nonempty(s.drop_last());
    }
}

/// The characters of `s`, in order: `s.chars().collect()`.
#[verifier::external_body]
fn chars_of(s: &str) -> (r: Vec<char>)
    ensures
        r@ == s@,
{
    s.chars().collect()
}

/// Decides `front_matter_is_readable`.
pub fn front_matter_readable(content: &str) -> (r: bool)
    ensures
        r == front_matter_is_readable(content@),
{
    let cs = chars_of(content);
    let n = cs.len();
    let mut i: usize = 0;
    let mut line_no: usize = 0;
    let mut cur_len: usize = 0;
    let mut cur_star = false;
    let mut progress: u8 = 0;
    let mut first_delim = false;
    let mut closed = false;
    let mut ok = true;
    proof {
        assert(cs@.subrange(0, 0) =~= Seq::<char>::empty());
    }
    while i < n
        invariant
            n == cs@.len(),
            i <= n,
            ({
                let l = lines_of(cs@.subrange(0, i as int));
                &&& line_no == l.len() - 1
                &&& line_no <= i
                &&& cur_len == l.last().len()
                &&& cur_len <= i
                &&& cur_star == l.last().contains('*')
                &&& progress == delimiter_progress(l.last())
                &&& line_no >= 1 ==> first_delim == is_delimiter_line(l[0])
                &&& closed == exists|m: int| 1 <= m < line_no && is_delimiter_line(#[trigger] l[m])
                &&& ok == forall|k: int| k < line_no && #[trigger] in_block(l, k) ==> line_is_readable(l[k])
            }),
        decreases n - i,
    {
        let c = cs[i];
        let ghost p = cs@.subrange(0, i as int);
        let ghost l = lines_of(p);
        let ghost q = cs@.subrange(0, i + 1);
        proof {
            assert(q.drop_last() =~= p);
            assert(q.last() == c);
            lemma_lines_nonempty(p);
            lemma_delimiter_progress(l.last());
        }
        if c == '\n' {
            proof {
                let l2 = lines_of(q);
                assert(l2 == l.push(Seq::<char>::empty()));
                assert(l2.len() == l.len() + 1);
                assert(in_block(l2, line_no as int) == (line_no >= 1 && !closed)) by {
                    if line_no >= 1 && !closed {
                        assert forall|m: int| 1 <= m < line_no implies !is_delimiter_line(#[trigger] l2[m]) by {
                            assert(l2[m] == l[m]);
                        }
                    }
                    if in_block(l2, line_no as int) && closed {
                        let m = choose|m: int| 1 <= m < line_no && is_delimiter_line(#[trigger] l[m]);
                        assert(l2[m] == l[m]);
                    }
                }
            }
            let delim = progress == 3;
            if line_no == 0 {
                first_delim = delim;
            } else if !closed {
                ok = ok && cur_len <= 512 && !cur_star;
                if delim {
                    closed = true;
                }
            }
            line_no = line_no + 1;
            cur_len = 0;
            cur_star = false;
            progress = 0;
            proof {
                let l2 = lines_of(q);
                assert forall|k: int| 0 <= k < l.len() implies l2[k] == l[k] by {}
                assert(closed == exists|m: int| 1 <= m < line_no && is_delimiter_line(#[trigger] l2[m])) by {
                    if exists|m: int| 1 <= m < line_no && is_delimiter_line(#[trigger] l2[m]) {
                        let m = choose|m: int| 1 <= m < line_no && is_delimiter_line(#[trigger] l2[m]);
                        assert(l2[m] == l[m]);
                        if m < line_no - 1 {
                            assert(1 <= m < line_no - 1 && is_delimiter_line(l[m]));
                        }
                    }
                }
                assert forall|k: int| k < line_no && #[trigger] in_block(l2, k) implies in_block(l, k) || k == line_no - 1 by {
                    if k < line_no - 1 {
                        assert forall|m: int| 1 <= m < k implies !is_delimiter_line(#[trigger] l[m]) by {
                            assert(l2[m] == l[m]);
                        }
                    }
                }
                assert forall|k: int| k < line_no - 1 && #[trigger] in_block(l, k) implies in_block(l2, k) by {
                    assert forall|m: int| 1 <= m < k implies !is_delimiter_line(#[trigger] l2[m]) by {
                        assert(l2[m] == l[m]);
                    }
                }
                assert(ok == forall|k: int| k < line_no && #[trigger] in_block(l2, k) ==> line_is_readable(l2[k]));
            }
        } else {
            cur_len = cur_len + 1;
            cur_star = cur_star || c == '*';
            progress = if progress < 3 {
                if c == '-' {
                    progress + 1
                } else {
                    4
                }
            } else if progress == 3 {
                if crate::strings::white_space(c) {
                    3
                } else {
                    4
                }
            } else {
                4
            };
            proof {
                let l2 = lines_of(q);
                let last = l.last().push(c);
                assert(l2 == l.update(l.len() - 1, last));
                assert(l2.last() == last);
                assert(last.drop_last() =~= l.last());
                assert(last.contains('*') == (l.last().contains('*') || c == '*')) by {
                    if last.contains('*') && c != '*' {
                        let j = choose|j: int| 0 <= j < last.len() && last[j] == '*';
                        assert(l.last()[j] == '*');
                    }
                    if l.last().contains('*') {
                        let j = choose|j: int| 0 <= j < l.last().len() && l.last()[j] == '*';
                        assert(last[j] == '*');
                    }
                    if c == '*' {
                        assert(last[last.len() - 1] == '*');
                    }
                }
                assert forall|k: int| 0 <= k < line_no implies l2[k] == l[k] by {}
                assert(closed == exists|m: int| 1 <= m < line_no && is_delimiter_line(#[trigger] l2[m])) by {
                    if exists|m: int| 1 <= m < line_no && is_delimiter_line(#[trigger] l2[m]) {
                        let m = choose|m: int| 1 <= m < line_no && is_delimiter_line(#[trigger] l2[m]);
                        assert(l2[m] == l[m]);
                    }
                    if closed {
                        let m = choose|m: int| 1 <= m < line_no && is_delimiter_line(#[trigger] l[m]);
                        assert(l2[m] == l[m]);
                    }
                }
                assert forall|k: int| k < line_no implies #[trigger] in_block(l2, k) == in_block(l, k) by {
                    if 1 <= k {
                        assert forall|m: int| 1 <= m < k implies l2[m] == l[m] by {}
                    }
                }
                assert forall|k: int| k < line_no && #[trigger] in_block(l2, k) implies (line_is_readable(l2[k])
                    == line_is_readable(l[k]) && in_block(l, k)) by {
                    assert(l2[k] == l[k]);
                }
                assert forall|k: int| k < line_no && #[trigger] in_block(l, k) implies in_block(l2, k) by {}
                assert(ok == forall|k: int| k < line_no && #[trigger] in_block(l2, k) ==> line_is_readable(l2[k]));
                if line_no >= 1 {
                    assert(l2[0] == l[0]);
                }
            }
        }
        i = i + 1;
    }
    proof {
        assert(cs@.subrange(0, n as int) =~= content@);
        let l = lines_of(content@);
        lemma_lines_nonempty(content@);
        if line_no >= 1 && first_delim && !closed {
            assert(in_block(l, line_no as int)) by {
                assert forall|m: int| 1 <= m < line_no implies !is_delimiter_line(#[trigger] l[m]) by {}
            }
        }
        if line_no >= 1 && first_delim && closed {
            let m = choose|m: int| 1 <= m < line_no && is_delimiter_line(#[trigger] l[m]);
            assert(!in_block(l, line_no as int));
        }
    }
    if line_no == 0 || !first_delim {
        true
    } else if closed {
        ok
    } else {
        ok && cur_len <= 512 && !cur_star
    }
}

} // verus!
