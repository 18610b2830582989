//! Joining texts with a separator, and where the parts stand afterwards.

use vstd::prelude::*;
use vstd::string::*;

verus! {

/// The parts, with the separator between each two neighbours.
pub open spec fn joined(parts: Seq<Seq<char>>, separator: Seq<char>) -> Seq<char>
    decreases parts.len(),
{
    if parts.len() == 0 {
        Seq::empty()
    } else if parts.len() == 1 {
        parts[0]
    } else {
        joined(parts.drop_last(), separator) + separator + parts.last()
    }
}

/// The texts of a list of strings.
pub open spec fn texts(strings: Seq<String>) -> Seq<Seq<char>> {
    strings.map_values(|string: String| string@)
}

/// `pattern` stands in `text` at the place `at`.
pub open spec fn occurs_at(pattern: Seq<char>, text: Seq<char>, at: int) -> bool {
    &&& 0 <= at
    &&& at + pattern.len() <= text.len()
    &&& text.subrange(at, at + pattern.len()) == pattern
}

/// `pattern` stands somewhere in `text`.
pub open spec fn occurs_in(pattern: Seq<char>, text: Seq<char>) -> bool {
    exists|at: int| occurs_at(pattern, text, at)
}

/// The place in the joined text at which part `i` starts.
pub open spec fn part_start(parts: Seq<Seq<char>>, separator: Seq<char>, i: int) -> int
    decreases i,
{
    if i <= 0 {
        0
    } else {
        part_start(parts, separator, i - 1) + parts[i - 1].len() + separator.len()
    }
}

/// Joins the parts, putting the separator between each two neighbours.
pub fn join(parts: &Vec<String>, separator: &str) -> (text: String)
    ensures
        text@ == joined(texts(parts@), separator@),
{
    let mut text = String::new();
    let mut i: usize = 0;
    while i < parts.len()
        invariant
            i <= parts.len(),
            text@ == joined(texts(parts@).take(i as int), separator@),
        decreases parts.len() - i,
    {
        assert(texts(parts@).take(i + 1).drop_last() =~= texts(parts@).take(i as int));
        if i > 0 {
            text.append(separator);
        }
        text.append(parts[i].as_str());
        i += 1;
    }
    assert(texts(parts@).take(parts.len() as int) =~= texts(parts@));
    text
}

/// Where a part starts does not depend on the parts that follow it.
proof fn lemma_part_start_drop_last(parts: Seq<Seq<char>>, separator: Seq<char>, i: int)
    requires
        0 <= i < parts.len(),
    ensures
        part_start(parts.drop_last(), separator, i) == part_start(parts, separator, i),
    decreases i,
{
    if i > 0 {
        lemma_part_start_drop_last(parts, separator, i - 1);
    }
}

/// What holds of part `i` in the joined text: it stands at its start, and
/// unless it is the first, the separator stands right before it.
spec fn part_in_place(parts: Seq<Seq<char>>, separator: Seq<char>, i: int) -> bool {
    let start = part_start(parts, separator, i);
    &&& occurs_at(parts[i], joined(parts, separator), start)
    &&& i >= 1 ==> occurs_at(separator, joined(parts, separator), start - separator.len())
}

/// The layout of a joined text: its length, and each part in its place.
proof fn lemma_joined_layout(parts: Seq<Seq<char>>, separator: Seq<char>)
    requires
        parts.len() >= 1,
    ensures
        joined(parts, separator).len() == part_start(parts, separator, parts.len() - 1)
            + parts.last().len(),
        forall|i: int| 0 <= i < parts.len() ==> #[trigger] part_in_place(parts, separator, i),
    decreases parts.len(),
{
    let whole = joined(parts, separator);
    let last = parts.len() - 1;
    if parts.len() == 1 {
        assert(whole.subrange(0, parts[0].len() as int) =~= parts[0]);
    } else {
        let front_parts = parts.drop_last();
        let front = joined(front_parts, separator);
        lemma_joined_layout(front_parts, separator);
        lemma_part_start_drop_last(parts, separator, last - 1);
        assert forall|i: int| 0 <= i < parts.len() implies #[trigger] part_in_place(
            parts,
            separator,
            i,
        ) by {
            let start = part_start(parts, separator, i);
            if i < last {
                lemma_part_start_drop_last(parts, separator, i);
                assert(part_in_place(front_parts, separator, i));
                assert(whole.subrange(start, start + parts[i].len()) =~= front.subrange(
                    start,
                    start + parts[i].len(),
                ));
                if i >= 1 {
                    assert(whole.subrange(start - separator.len(), start) =~= front.subrange(
                        start - separator.len(),
                        start,
                    ));
                }
            } else {
                assert(whole.subrange(start, start + parts[i].len()) =~= parts[i]);
                assert(whole.subrange(start - separator.len(), start) =~= separator);
            }
        }
    }
}

/// In a joined text each part stands at its start, whole and unchanged, and
/// each part but the first has the separator right before it.
pub proof fn lemma_joined_part(parts: Seq<Seq<char>>, separator: Seq<char>, i: int)
    requires
        0 <= i < parts.len(),
    ensures
        occurs_at(parts[i], joined(parts, separator), part_start(parts, separator, i)),
        i >= 1 ==> occurs_at(
            separator,
            joined(parts, separator),
            part_start(parts, separator, i) - separator.len(),
        ),
{
    lemma_joined_layout(parts, separator);
    assert(part_in_place(parts, separator, i));
}

/// Every place of a joined text lies in one of the parts or in the separator
/// before one. Returns the number of that part.
pub proof fn lemma_joined_place(parts: Seq<Seq<char>>, separator: Seq<char>, place: int) -> (i:
    int)
    requires
        0 <= place < joined(parts, separator).len(),
    ensures
        0 <= i < parts.len(),
        ({
            let start = part_start(parts, separator, i);
            ||| start <= place < start + parts[i].len()
            ||| i >= 1 && start - separator.len() <= place < start
        }),
    decreases parts.len(),
{
    if parts.len() == 1 {
        0
    } else {
        let last = parts.len() - 1;
        let front_parts = parts.drop_last();
        let front = joined(front_parts, separator);
        lemma_joined_layout(front_parts, separator);
        lemma_part_start_drop_last(parts, separator, last - 1);
        if place < front.len() {
            let i = lemma_joined_place(front_parts, separator, place);
            lemma_part_start_drop_last(parts, separator, i);
            i
        } else {
            last
        }
    }
}

/// A later part starts after an earlier part and the separator that follows
/// it.
pub proof fn lemma_part_start_increases(
    parts: Seq<Seq<char>>,
    separator: Seq<char>,
    i: int,
    j: int,
)
    requires
        0 <= i < j,
    ensures
        part_start(parts, separator, i) + parts[i].len() + separator.len() <= part_start(
            parts,
            separator,
            j,
        ),
    decreases j,
{
    if i < j - 1 {
        lemma_part_start_increases(parts, separator, i, j - 1);
    }
}

} // verus!
