//! The log filter: a chunk of log text is split into lines, the lines are tested against a
//! pattern, and those that pass are collected, in order, up to a limit.

use crate::text::{chars_of, contains_in_range, is_substring, string_of_range};
use vstd::prelude::*;

verus! {

/// The most lines that one answer may hold.
pub const MAX_LIMIT: usize = 20000;

/// The number of lines that an answer holds where none was asked for.
pub const DEFAULT_LIMIT: usize = 1000;

/// The limit in force for a requested limit: a request is raised to 1 and cut to
/// `MAX_LIMIT`; without a request, `DEFAULT_LIMIT`.
pub open spec fn clamped_limit(requested: Option<usize>) -> usize {
    match requested {
        None => DEFAULT_LIMIT,
        Some(wanted) => if wanted < 1 {
            1
        } else if wanted > MAX_LIMIT {
            MAX_LIMIT
        } else {
            wanted
        },
    }
}

/// Computes the limit in force for a requested limit.
pub fn effective_limit(requested: Option<usize>) -> (limit: usize)
    ensures
        limit == clamped_limit(requested),
        1 <= limit <= MAX_LIMIT,
        requested is None ==> limit == 1000,
        requested matches Some(wanted) ==> limit == vstd::math::min(
            vstd::math::max(wanted as int, 1),
            20000,
        ),
{
    match requested {
        None => DEFAULT_LIMIT,
        Some(wanted) => if wanted < 1 {
            1
        } else if wanted > MAX_LIMIT {
            MAX_LIMIT
        } else {
            wanted
        },
    }
}

/// The first position at or after `from` that holds a newline, or the length of `text` where
/// there is none.
pub open spec fn line_end(text: Seq<char>, from: int) -> int
    decreases text.len() - from,
{
    if from >= text.len() || text[from] == '\n' {
        from
    } else {
        line_end(text, from + 1)
    }
}

/// The fragments between newlines of `text` from position `from` on. A text that ends in a
/// newline has an empty last fragment.
pub open spec fn lines_from(text: Seq<char>, from: int) -> Seq<Seq<char>>
    decreases text.len() - from,
{
    let end = line_end(text, from);
    let line = text.subrange(from, end);
    if from <= end < text.len() {
        seq![line] + lines_from(text, end + 1)
    } else {
        seq![line]
    }
}

/// The fragments between newlines of `text`.
pub open spec fn lines_of(text: Seq<char>) -> Seq<Seq<char>> {
    lines_from(text, 0)
}

/// A line is kept where it is not empty and holds `needle`; the empty needle is held by
/// every line.
pub open spec fn wanted(line: Seq<char>, needle: Seq<char>) -> bool {
    line.len() > 0 && (needle.len() == 0 || is_substring(line, needle))
}

/// The lines among `lines` that are kept for `needle`, in order.
pub open spec fn kept(lines: Seq<Seq<char>>, needle: Seq<char>) -> Seq<Seq<char>> {
    lines.filter(|line: Seq<char>| wanted(line, needle))
}

/// The lines of `text` that are kept for `needle`, in order.
pub open spec fn selected(text: Seq<char>, needle: Seq<char>) -> Seq<Seq<char>> {
    kept(lines_of(text), needle)
}

/// `lines` with as many of `more` behind it, from the front, as `limit` leaves room for.
pub open spec fn capped(lines: Seq<Seq<char>>, more: Seq<Seq<char>>, limit: int) -> Seq<Seq<char>> {
    let room = limit - lines.len();
    if room <= 0 {
        lines
    } else if more.len() <= room {
        lines + more
    } else {
        lines + more.take(room)
    }
}

/// Every line is kept for `needle`.
pub open spec fn all_wanted(lines: Seq<Seq<char>>, needle: Seq<char>) -> bool {
    forall|i: int| 0 <= i < lines.len() ==> wanted(#[trigger] lines[i], needle)
}

/// The end of a line lies between its start and the end of the text, and no newline stands
/// before it.
pub proof fn lemma_line_end(text: Seq<char>, from: int)
    requires
        0 <= from <= text.len(),
    ensures
        from <= line_end(text, from) <= text.len(),
        line_end(text, from) < text.len() ==> text[line_end(text, from)] == '\n',
        forall|i: int| from <= i < line_end(text, from) ==> text[i] != '\n',
    decreases text.len() - from,
{
    if from < text.len() && text[from] != '\n' {
        lemma_line_end(text, from + 1);
    }
}

/// The kept lines from `from` on are the line that starts at `from`, where it is kept,
/// followed by the kept lines behind its newline.
pub proof fn lemma_kept_unfold(text: Seq<char>, needle: Seq<char>, from: int)
    requires
        0 <= from <= text.len(),
    ensures
        ({
            let end = line_end(text, from);
            let line = text.subrange(from, end);
            let head = if wanted(line, needle) {
                seq![line]
            } else {
                Seq::empty()
            };
            kept(lines_from(text, from), needle) == if end < text.len() {
                head + kept(lines_from(text, end + 1), needle)
            } else {
                head
            }
        }),
{
    lemma_line_end(text, from);
    let end = line_end(text, from);
    let line = text.subrange(from, end);
    let pred = |line: Seq<char>| wanted(line, needle);
    assert(seq![line].filter(pred) == if wanted(line, needle) {
        seq![line]
    } else {
        Seq::empty()
    }) by {
        reveal_with_fuel(Seq::filter, 2);
        assert(seq![line].drop_last() =~= Seq::<Seq<char>>::empty());
    }
    if end < text.len() {
        Seq::filter_distributes_over_add(seq![line], lines_from(text, end + 1), pred);
    }
}

/// Kept lines are all kept.
pub proof fn lemma_kept_all_wanted(lines: Seq<Seq<char>>, needle: Seq<char>)
    ensures
        all_wanted(kept(lines, needle), needle),
{
    broadcast use vstd::seq_lib::group_filter_ensures;

}

/// Taking the first of the lines to come into the collection, while there is room, leaves
/// the capped whole as it was.
pub proof fn lemma_capped_push(
    lines: Seq<Seq<char>>,
    line: Seq<char>,
    rest: Seq<Seq<char>>,
    limit: int,
)
    requires
        lines.len() < limit,
    ensures
        capped(lines.push(line), rest, limit) == capped(lines, seq![line] + rest, limit),
{
    let room = limit - lines.len();
    let more = seq![line] + rest;
    if more.len() <= room {
        assert(lines.push(line) + rest =~= lines + more);
    } else {
        assert(lines.push(line) + rest.take(room - 1) =~= lines + more.take(room));
    }
}

/// What a collector holds: the pattern, the limit and the lines collected so far.
pub struct CollectorView {
    pub needle: Seq<char>,
    pub limit: usize,
    pub lines: Seq<Seq<char>>,
}

/// The collector after it was fed `text`.
pub open spec fn fed(collector: CollectorView, text: Seq<char>) -> CollectorView {
    CollectorView {
        lines: capped(collector.lines, selected(text, collector.needle), collector.limit as int),
        ..collector
    }
}

/// What always holds of a collector: the limit is in range, no more lines are held than
/// the limit allows, and every line held is not empty and holds the pattern.
pub open spec fn collector_inv(collector: CollectorView) -> bool {
    &&& 1 <= collector.limit <= MAX_LIMIT
    &&& collector.lines.len() <= collector.limit
    &&& all_wanted(collector.lines, collector.needle)
}

/// Collects the lines of a log stream that hold a pattern, in stream order, up to a limit.
#[derive(Debug, PartialEq, Eq)]
pub struct LogCollector {
    needle: Vec<char>,
    limit: usize,
    lines: Vec<String>,
}

impl View for LogCollector {
    type V = CollectorView;

    closed spec fn view(&self) -> CollectorView {
        CollectorView {
            needle: self.needle@,
            limit: self.limit,
            lines: self.lines.deep_view(),
        }
    }
}

/// The position at which the line that starts at `from` ends.
fn find_line_end(chars: &Vec<char>, from: usize) -> (end: usize)
    requires
        from <= chars.len(),
    ensures
        end == line_end(chars@, from as int),
        from <= end <= chars.len(),
{
    let mut end: usize = from;
    while end < chars.len() && chars[end] != '\n'
        invariant
            from <= end <= chars.len(),
            line_end(chars@, from as int) == line_end(chars@, end as int),
        decreases chars.len() - end,
    {
        end = end + 1;
    }
    end
}

impl LogCollector {
    #[verifier::type_invariant]
    spec fn inv(self) -> bool {
        collector_inv(self@)
    }

    /// A collector without lines, for the pattern `pattern` (none, or the empty one, lets
    /// every line pass) and the limit in force for `requested`.
    pub fn new(pattern: Option<&str>, requested: Option<usize>) -> (collector: LogCollector)
        ensures
            collector@ == (CollectorView {
                needle: match pattern {
                    Some(needle) => needle@,
                    None => Seq::empty(),
                },
                limit: clamped_limit(requested),
                lines: Seq::empty(),
            }),
            collector_inv(collector@),
    {
        let needle = match pattern {
            Some(needle) => chars_of(needle),
            None => Vec::new(),
        };
        let lines: Vec<String> = Vec::new();
        assert(lines.deep_view() =~= Seq::<Seq<char>>::empty());
        LogCollector { needle, limit: effective_limit(requested), lines }
    }

    /// Whether the collector holds as many lines as its limit allows.
    pub fn is_full(&self) -> (full: bool)
        ensures
            full == (self@.lines.len() >= self@.limit),
            collector_inv(self@),
    {
        proof {
            use_type_invariant(self);
        }
        self.lines.len() >= self.limit
    }

    /// The number of lines collected so far.
    pub fn count(&self) -> (count: usize)
        ensures
            count == self@.lines.len(),
            count <= self@.limit,
            collector_inv(self@),
    {
        proof {
            use_type_invariant(self);
        }
        self.lines.len()
    }

    /// Splits `text` at its newlines and takes in, in order, the fragments that are not empty
    /// and hold the pattern, until the limit is reached.
    pub fn feed_text(&mut self, text: &str)
        ensures
            final(self)@ == fed(old(self)@, text@),
            collector_inv(final(self)@),
    {
        proof {
            use_type_invariant(&*self);
        }
        let chars = chars_of(text);
        let ghost needle = self.needle@;
        let ghost limit = self.limit;
        let ghost target = fed(self@, text@).lines;
        let mut lines: Vec<String> = Vec::new();
        assert(lines.deep_view() =~= Seq::<Seq<char>>::empty());
        core::mem::swap(&mut self.lines, &mut lines);
        let mut start: usize = 0;
        let mut done = false;
        while !done && lines.len() < self.limit
            invariant
                chars@ == text@,
                start <= chars.len(),
                self.needle@ == needle,
                self.limit == limit,
                1 <= limit <= MAX_LIMIT,
                lines.len() <= limit,
                all_wanted(lines.deep_view(), needle),
                !done ==> capped(
                    lines.deep_view(),
                    kept(lines_from(chars@, start as int), needle),
                    limit as int,
                ) == target,
                done ==> lines.deep_view() == target,
            decreases
                    (if done {
                        0
                    } else {
                        chars.len() - start + 1
                    }),
        {
            let end = find_line_end(&chars, start);
            let ghost line = chars@.subrange(start as int, end as int);
            proof {
                lemma_kept_unfold(chars@, needle, start as int);
            }
            if end > start && (self.needle.len() == 0 || contains_in_range(
                &chars,
                start,
                end,
                &self.needle,
            )) {
                let ghost before = lines.deep_view();
                let ghost rest = if end < chars.len() {
                    kept(lines_from(chars@, end + 1), needle)
                } else {
                    Seq::empty()
                };
                proof {
                    lemma_capped_push(before, line, rest, limit as int);
                    assert(seq![line] + Seq::<Seq<char>>::empty() =~= seq![line]);
                }
                let taken = string_of_range(&chars, start, end);
                lines.push(taken);
                assert(lines.deep_view() =~= before.push(line));
            } else {
                assert(Seq::<Seq<char>>::empty() + kept(lines_from(chars@, end + 1), needle)
                    =~= kept(lines_from(chars@, end + 1), needle));
            }
            if end >= chars.len() {
                done = true;
                assert(lines.deep_view() + Seq::<Seq<char>>::empty() =~= lines.deep_view());
            } else {
                start = end + 1;
            }
        }
        self.lines = lines;
    }

    /// The lines collected, in stream order.
    pub fn into_lines(self) -> (lines: Vec<String>)
        ensures
            lines.deep_view() == self@.lines,
            lines.len() <= self@.limit,
            all_wanted(lines.deep_view(), self@.needle),
    {
        proof {
            use_type_invariant(&self);
        }
        self.lines
    }
}

} // verus!
