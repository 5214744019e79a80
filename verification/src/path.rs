//! POSIX paths as text: what makes one absolute, and how two are joined.

use vstd::prelude::*;

verus! {

/// The character between the segments of a path.
pub open spec fn separator() -> char {
    '/'
}

/// A path is absolute when it starts at the root.
pub open spec fn absolute(path: Seq<char>) -> bool {
    path.len() > 0 && path[0] == separator()
}

/// `segment` adjoined to `base`.
///
/// An absolute `segment` replaces `base`. Otherwise the two are put together,
/// with one separator between them unless `base` is empty or already ends in
/// one.
pub open spec fn joined(base: Seq<char>, segment: Seq<char>) -> Seq<char> {
    if absolute(segment) {
        segment
    } else if base.len() == 0 || base.last() == separator() {
        base + segment
    } else {
        base + seq![separator()] + segment
    }
}

/// Whether `path` is absolute.
pub fn is_absolute(path: &str) -> (yes: bool)
    ensures
        yes == absolute(path@),
{
    if path.unicode_len() == 0 {
        false
    } else {
        path.get_char(0) == '/'
    }
}

/// Adjoins `segment` to `base`.
pub fn join(base: &str, segment: &str) -> (path: String)
    ensures
        path@ == joined(base@, segment@),
{
    if is_absolute(segment) {
        return segment.to_owned();
    }
    let mut path = base.to_owned();
    let len = base.unicode_len();
    if len > 0 && base.get_char(len - 1) != '/' {
        proof {
            reveal_strlit("/");
            assert("/"@ =~= seq![separator()]);
        }
        path.append("/");
    }
    path.append(segment);
    path
}

/// A join is absolute exactly when one of its two parts is.
pub proof fn joined_is_absolute(base: Seq<char>, segment: Seq<char>)
    ensures
        absolute(joined(base, segment)) <==> absolute(base) || absolute(segment),
{
}

/// A segment that is not absolute is kept whole at the end of the join, and
/// the base is kept whole at its start.
pub proof fn joined_keeps_both(base: Seq<char>, segment: Seq<char>)
    requires
        !absolute(segment),
    ensures
        base.is_prefix_of(joined(base, segment)),
        segment.is_suffix_of(joined(base, segment)),
{
    let whole = joined(base, segment);
    assert(whole.subrange(0, base.len() as int) =~= base);
    assert(whole.subrange(whole.len() - segment.len(), whole.len() as int) =~= segment);
}

/// The pieces of `text` between the occurrences of `sep`, in order.
///
/// A text without `sep` is one piece, the empty text included; two
/// occurrences side by side, and one at either end, give an empty piece.
pub open spec fn pieces(text: Seq<char>, sep: char) -> Seq<Seq<char>>
    decreases text.len(),
{
    if text.len() == 0 {
        seq![Seq::empty()]
    } else {
        let before = pieces(text.drop_last(), sep);
        if text.last() == sep {
            before.push(Seq::empty())
        } else {
            before.drop_last().push(before.last().push(text.last()))
        }
    }
}

/// The texts of `parts` put together with `sep` between them.
pub open spec fn glued(parts: Seq<Seq<char>>, sep: char) -> Seq<char>
    decreases parts.len(),
{
    if parts.len() == 0 {
        Seq::empty()
    } else if parts.len() == 1 {
        parts[0]
    } else {
        glued(parts.drop_last(), sep) + seq![sep] + parts.last()
    }
}

/// Cuts `text` at every occurrence of `sep`.
pub fn split(text: &str, sep: char) -> (parts: Vec<String>)
    ensures
        parts.deep_view() == pieces(text@, sep),
{
    let len = text.unicode_len();
    let mut parts: Vec<String> = Vec::new();
    let mut start: usize = 0;
    let mut i: usize = 0;
    proof {
        assert(text@.take(0) =~= Seq::<char>::empty());
        assert(parts.deep_view().push(text@.subrange(0, 0)) =~= seq![Seq::<char>::empty()]);
    }
    while i < len
        invariant
            start <= i <= len,
            len == text@.len(),
            pieces(text@.take(i as int), sep) == parts.deep_view().push(
                text@.subrange(start as int, i as int),
            ),
        decreases len - i,
    {
        let c = text.get_char(i);
        let ghost done = parts.deep_view();
        let ghost open = text@.subrange(start as int, i as int);
        proof {
            let next = text@.take(i + 1);
            assert(next.drop_last() =~= text@.take(i as int));
            assert(next.last() == c);
            assert(done.push(open).drop_last() =~= done);
        }
        if c == sep {
            let piece = text.substring_char(start, i).to_owned();
            parts.push(piece);
            start = i + 1;
            proof {
                assert(parts.deep_view() =~= done.push(open));
                assert(text@.subrange(start as int, i + 1) =~= Seq::<char>::empty());
            }
        } else {
            proof {
                assert(open.push(c) =~= text@.subrange(start as int, i + 1));
            }
        }
        i += 1;
    }
    let ghost done = parts.deep_view();
    let piece = text.substring_char(start, len).to_owned();
    parts.push(piece);
    proof {
        assert(text@.take(len as int) =~= text@);
        assert(parts.deep_view() =~= done.push(text@.subrange(start as int, len as int)));
    }
    parts
}

/// Cutting a text never gives an empty list.
pub proof fn pieces_are_some(text: Seq<char>, sep: char)
    ensures
        pieces(text, sep).len() >= 1,
    decreases text.len(),
{
    if text.len() > 0 {
        pieces_are_some(text.drop_last(), sep);
    }
}

/// No piece of a cut text holds the separator.
pub proof fn pieces_hold_no_separator(text: Seq<char>, sep: char)
    ensures
        forall|k: int|
            0 <= k < pieces(text, sep).len() ==> !(#[trigger] pieces(text, sep)[k]).contains(sep),
    decreases text.len(),
{
    if text.len() > 0 {
        pieces_are_some(text.drop_last(), sep);
        pieces_hold_no_separator(text.drop_last(), sep);
        let before = pieces(text.drop_last(), sep);
        assert(forall|k: int| 0 <= k < before.len() ==> !(#[trigger] before[k]).contains(sep));
    }
}

/// The pieces of a text, glued with the separator, are the text again.
pub proof fn pieces_glue_back(text: Seq<char>, sep: char)
    ensures
        glued(pieces(text, sep), sep) == text,
    decreases text.len(),
{
    if text.len() == 0 {
        assert(glued(seq![Seq::<char>::empty()], sep) =~= text);
    } else {
        let shorter = text.drop_last();
        let before = pieces(shorter, sep);
        pieces_are_some(shorter, sep);
        pieces_glue_back(shorter, sep);
        if text.last() == sep {
            let now = before.push(Seq::empty());
            assert(now.drop_last() =~= before);
            assert(glued(now, sep) =~= shorter + seq![sep]);
            assert(shorter + seq![sep] =~= text);
        } else {
            let grown = before.last().push(text.last());
            let now = before.drop_last().push(grown);
            assert(now.drop_last() =~= before.drop_last());
            if before.len() == 1 {
                assert(glued(now, sep) =~= shorter.push(text.last()));
            } else {
                assert(glued(now, sep) =~= glued(before, sep).push(text.last()));
            }
            assert(shorter.push(text.last()) =~= text);
        }
    }
}

/// Cutting is the only way back from gluing: texts that hold no separator,
/// at least one of them, are what their gluing is cut into.
pub proof fn pieces_of_glued(parts: Seq<Seq<char>>, sep: char)
    requires
        parts.len() >= 1,
        forall|k: int| 0 <= k < parts.len() ==> !(#[trigger] parts[k]).contains(sep),
    ensures
        pieces(glued(parts, sep), sep) == parts,
    decreases parts.len(), parts.last().len(),
{
    let last = parts.last();
    let text = glued(parts, sep);
    if last.len() > 0 {
        let shorter = parts.drop_last().push(last.drop_last());
        assert(shorter.last() == last.drop_last());
        assert(shorter.drop_last() =~= parts.drop_last());
        assert forall|k: int| 0 <= k < shorter.len() implies !(#[trigger] shorter[k]).contains(
            sep,
        ) by {
            if k == shorter.len() - 1 {
                if shorter[k].contains(sep) {
                    let j = choose|j: int| 0 <= j < shorter[k].len() && shorter[k][j] == sep;
                    assert(last[j] == sep);
                    assert(parts[k].contains(sep));
                }
            } else {
                assert(shorter[k] == parts[k]);
            }
        }
        pieces_of_glued(shorter, sep);
        assert(text.drop_last() =~= glued(shorter, sep));
        assert(last[last.len() - 1] == text.last());
        assert(last.contains(text.last()));
        assert(text.last() != sep);
        assert(last.drop_last().push(text.last()) =~= last);
        assert(shorter.drop_last().push(shorter.last().push(text.last())) =~= parts);
    } else if parts.len() == 1 {
        assert(text =~= Seq::<char>::empty());
        assert(parts =~= seq![Seq::<char>::empty()]);
    } else {
        let shorter = parts.drop_last();
        assert forall|k: int| 0 <= k < shorter.len() implies !(#[trigger] shorter[k]).contains(
            sep,
        ) by {
            assert(shorter[k] == parts[k]);
        }
        pieces_of_glued(shorter, sep);
        assert(text =~= glued(shorter, sep).push(sep));
        assert(text.drop_last() =~= glued(shorter, sep));
        assert(last =~= Seq::<char>::empty());
        assert(shorter.push(Seq::empty()) =~= parts);
    }
}

} // verus!
