//! The directories of one application, below the base directories.

use crate::path::glued;
use vstd::prelude::*;

pub mod xdg;

pub use xdg::Xdg;

verus! {

/// The characters that count as white space: those with the Unicode property
/// `White_Space`.
pub open spec fn whitespace(c: char) -> bool {
    let code = c as u32;
    ||| 0x09 <= code <= 0x0D
    ||| code == 0x20
    ||| code == 0x85
    ||| code == 0xA0
    ||| code == 0x1680
    ||| 0x2000 <= code <= 0x200A
    ||| code == 0x2028
    ||| code == 0x2029
    ||| code == 0x202F
    ||| code == 0x205F
    ||| code == 0x3000
}

/// Whether `text` holds a character that is not white space.
pub open spec fn has_visible(text: Seq<char>) -> bool {
    exists|i: int| 0 <= i < text.len() && !whitespace(#[trigger] text[i])
}

/// The words of `text`: its longest runs of characters that are not white
/// space, in order.
pub open spec fn words(text: Seq<char>) -> Seq<Seq<char>>
    decreases text.len(),
{
    if text.len() == 0 {
        Seq::empty()
    } else {
        let before = words(text.drop_last());
        let c = text.last();
        if whitespace(c) {
            before
        } else if text.len() >= 2 && !whitespace(text[text.len() - 2]) {
            before.drop_last().push(before.last().push(c))
        } else {
            before.push(seq![c])
        }
    }
}

/// The words of `text` with one hyphen between each two: white space at
/// either end is gone, and every run of it inside has become one hyphen.
pub open spec fn hyphenated(text: Seq<char>) -> Seq<char> {
    glued(words(text), '-')
}

/// Whether `c` is white space.
pub fn is_whitespace(c: char) -> (yes: bool)
    ensures
        yes == whitespace(c),
{
    let code = c as u32;
    (0x09 <= code && code <= 0x0D) || code == 0x20 || code == 0x85 || code == 0xA0 || code
        == 0x1680 || (0x2000 <= code && code <= 0x200A) || code == 0x2028 || code == 0x2029 || code
        == 0x202F || code == 0x205F || code == 0x3000
}

/// Puts the words of `text` together with hyphens.
pub fn hyphenate(text: &str) -> (joined: String)
    ensures
        joined@ == hyphenated(text@),
{
    let len = text.unicode_len();
    let mut joined = String::new();
    let mut first = true;
    let mut i: usize = 0;
    proof {
        assert(text@.take(0) =~= Seq::<char>::empty());
    }
    while i < len
        invariant
            i <= len,
            len == text@.len(),
            first == (words(text@.take(i as int)).len() == 0),
            joined@ == glued(words(text@.take(i as int)), '-'),
            0 < i < len && !whitespace(text@[i - 1]) ==> whitespace(text@[i as int]),
        decreases len - i,
    {
        let ghost found = words(text@.take(i as int));
        proof {
            assert(text@.take(i + 1).drop_last() =~= text@.take(i as int));
        }
        if is_whitespace(text.get_char(i)) {
            i += 1;
        } else {
            let start = i;
            i += 1;
            proof {
                assert(text@.subrange(start as int, i as int) =~= seq![text@[start as int]]);
            }
            while i < len && !is_whitespace(text.get_char(i))
                invariant
                    start < i <= len,
                    len == text@.len(),
                    !whitespace(text@[i - 1]),
                    words(text@.take(i as int)) == found.push(
                        text@.subrange(start as int, i as int),
                    ),
                decreases len - i,
            {
                proof {
                    let word = text@.subrange(start as int, i as int);
                    assert(text@.take(i + 1).drop_last() =~= text@.take(i as int));
                    assert(found.push(word).drop_last() =~= found);
                    assert(word.push(text@[i as int]) =~= text@.subrange(start as int, i + 1));
                }
                i += 1;
            }
            let ghost word = text@.subrange(start as int, i as int);
            proof {
                assert(found.push(word).drop_last() =~= found);
            }
            if first {
                first = false;
            } else {
                proof {
                    reveal_strlit("-");
                    assert("-"@ =~= seq!['-']);
                }
                joined.append("-");
            }
            joined.append(text.substring_char(start, i));
        }
    }
    proof {
        assert(text@.take(len as int) =~= text@);
    }
    joined
}

/// The lowercase mapping of one character, as Unicode gives it: one
/// character or several.
pub uninterp spec fn lowercase_of(c: char) -> Seq<char>;

/// `text` with each of its characters replaced by its lowercase mapping.
pub open spec fn lowered(text: Seq<char>) -> Seq<char>
    decreases text.len(),
{
    if text.len() == 0 {
        Seq::empty()
    } else {
        lowered(text.drop_last()) + lowercase_of(text.last())
    }
}

/// The name that an application called `name` has in a path: its words in
/// lowercase, with hyphens between them.
pub open spec fn unixy(name: Seq<char>) -> Seq<char> {
    lowered(hyphenated(name))
}

/// The lowercase mapping of `c`, from `char::to_lowercase` of the standard
/// library. Nothing is proved of it: that the mapping depends on the
/// character alone, and that it holds at least one character, is what the
/// documentation of `char::to_lowercase` says.
#[verifier::external_body]
fn lowercase_char(c: char) -> (lower: String)
    ensures
        lower@ == lowercase_of(c),
        lower@.len() >= 1,
{
    c.to_lowercase().collect()
}

/// Maps every character of `text` to lowercase. The result is no shorter
/// than `text`.
pub fn lowercase(text: &str) -> (lower: String)
    ensures
        lower@ == lowered(text@),
        lower@.len() >= text@.len(),
{
    let len = text.unicode_len();
    let mut lower = String::new();
    let mut i: usize = 0;
    proof {
        assert(text@.take(0) =~= Seq::<char>::empty());
    }
    while i < len
        invariant
            i <= len,
            len == text@.len(),
            lower@ == lowered(text@.take(i as int)),
            lower@.len() >= i,
        decreases len - i,
    {
        proof {
            assert(text@.take(i + 1).drop_last() =~= text@.take(i as int));
        }
        let mapped = lowercase_char(text.get_char(i));
        lower.append(mapped.as_str());
        i += 1;
    }
    proof {
        assert(text@.take(len as int) =~= text@);
    }
    lower
}

/// The words of a text are not empty and hold no white space, and there is a
/// word exactly when the text holds anything but white space.
pub proof fn words_are_visible(text: Seq<char>)
    ensures
        forall|k: int|
            0 <= k < words(text).len() ==> (#[trigger] words(text)[k]).len() > 0 && forall|j: int|
                0 <= j < words(text)[k].len() ==> !whitespace(#[trigger] words(text)[k][j]),
        words(text).len() > 0 <==> has_visible(text),
        text.len() > 0 && !whitespace(text.last()) ==> words(text).len() > 0,
    decreases text.len(),
{
    if text.len() > 0 {
        let shorter = text.drop_last();
        let before = words(shorter);
        let c = text.last();
        words_are_visible(shorter);
        if whitespace(c) {
            if has_visible(text) {
                let i = choose|i: int| 0 <= i < text.len() && !whitespace(#[trigger] text[i]);
                assert(!whitespace(shorter[i]));
            }
            if has_visible(shorter) {
                let i = choose|i: int| 0 <= i < shorter.len() && !whitespace(#[trigger] shorter[i]);
                assert(!whitespace(text[i]));
            }
        } else {
            assert(!whitespace(text[text.len() - 1]));
            if text.len() >= 2 && !whitespace(text[text.len() - 2]) {
                assert(shorter.last() == text[text.len() - 2]);
                let grown = before.last().push(c);
                let now = before.drop_last().push(grown);
                assert forall|k: int| 0 <= k < now.len() implies (#[trigger] now[k]).len() > 0
                    && forall|j: int| 0 <= j < now[k].len() ==> !whitespace(#[trigger] now[k][j]) by {
                    if k < now.len() - 1 {
                        assert(now[k] == before[k]);
                    }
                }
            } else {
                let now = before.push(seq![c]);
                assert forall|k: int| 0 <= k < now.len() implies (#[trigger] now[k]).len() > 0
                    && forall|j: int| 0 <= j < now[k].len() ==> !whitespace(#[trigger] now[k][j]) by {
                    if k < now.len() - 1 {
                        assert(now[k] == before[k]);
                    }
                }
            }
        }
    }
}

/// Gluing texts that are not empty gives an empty text only of an empty list.
pub proof fn glued_of_filled(parts: Seq<Seq<char>>, sep: char)
    requires
        forall|k: int| 0 <= k < parts.len() ==> (#[trigger] parts[k]).len() > 0,
    ensures
        glued(parts, sep).len() > 0 <==> parts.len() > 0,
    decreases parts.len(),
{
    if parts.len() == 1 {
        assert(parts[0].len() > 0);
    }
}

/// The hyphenated form of a text is empty exactly when the text holds
/// nothing but white space.
pub proof fn hyphenated_is_empty_of_blank(text: Seq<char>)
    ensures
        hyphenated(text).len() > 0 <==> has_visible(text),
{
    words_are_visible(text);
    glued_of_filled(words(text), '-');
}

/// The hyphenated form of a text holds no white space.
pub proof fn hyphenated_holds_no_whitespace(text: Seq<char>)
    ensures
        forall|i: int| 0 <= i < hyphenated(text).len() ==> !whitespace(#[trigger] hyphenated(text)[i]),
{
    words_are_visible(text);
    glued_words_hold_no_whitespace(words(text));
}

/// Gluing words that hold no white space with hyphens gives a text that
/// holds none.
proof fn glued_words_hold_no_whitespace(parts: Seq<Seq<char>>)
    requires
        forall|k: int, j: int|
            0 <= k < parts.len() && 0 <= j < parts[k].len() ==> !whitespace(#[trigger] parts[k][j]),
    ensures
        forall|i: int|
            0 <= i < glued(parts, '-').len() ==> !whitespace(#[trigger] glued(parts, '-')[i]),
    decreases parts.len(),
{
    if parts.len() == 1 {
        assert forall|i: int| 0 <= i < parts[0].len() implies !whitespace(#[trigger] parts[0][i]) by {}
    } else if parts.len() > 1 {
        let shorter = parts.drop_last();
        assert forall|k: int, j: int|
            0 <= k < shorter.len() && 0 <= j < shorter[k].len() implies !whitespace(
            #[trigger] shorter[k][j],
        ) by {
            assert(shorter[k] == parts[k]);
        }
        glued_words_hold_no_whitespace(shorter);
        let head = glued(shorter, '-');
        let whole = glued(parts, '-');
        assert forall|i: int| 0 <= i < whole.len() implies !whitespace(#[trigger] whole[i]) by {
            if i < head.len() {
                assert(whole[i] == head[i]);
            } else if i == head.len() {
                assert(whole[i] == '-');
            } else {
                assert(whole[i] == parts.last()[i - head.len() - 1]);
                assert(!whitespace(parts[parts.len() - 1][i - head.len() - 1]));
            }
        }
    }
}

/// What names an application: the domain of its maker, the maker, and the
/// application itself.
#[derive(Debug, PartialEq, Eq, Hash)]
pub struct AppStrategyArgs {
    /// The top level domain of the maker, such as `com` or `org`.
    pub top_level_domain: String,
    /// The person or organisation that made the application.
    pub author: String,
    /// The name of the application, as a reader would write it.
    pub app_name: String,
}

impl Clone for AppStrategyArgs {
    fn clone(&self) -> (copy: AppStrategyArgs)
        ensures
            copy == *self,
    {
        AppStrategyArgs {
            top_level_domain: self.top_level_domain.clone(),
            author: self.author.clone(),
            app_name: self.app_name.clone(),
        }
    }
}

impl Default for AppStrategyArgs {
    fn default() -> (args: AppStrategyArgs)
        ensures
            args.top_level_domain@.len() == 0,
            args.author@.len() == 0,
            args.app_name@.len() == 0,
    {
        AppStrategyArgs {
            top_level_domain: String::new(),
            author: String::new(),
            app_name: String::new(),
        }
    }
}

impl AppStrategyArgs {
    /// The name of the application as it stands in a path: the words of
    /// `app_name` in lowercase, with a hyphen between each two. It is empty
    /// only where `app_name` holds nothing but white space.
    pub fn unixy_name(&self) -> (name: String)
        ensures
            name@ == unixy(self.app_name@),
            name@.len() > 0 <==> has_visible(self.app_name@),
    {
        let joined = hyphenate(self.app_name.as_str());
        proof {
            hyphenated_is_empty_of_blank(self.app_name@);
        }
        let name = lowercase(joined.as_str());
        proof {
            if joined@.len() == 0 {
                assert(joined@.take(0) =~= joined@);
            }
        }
        name
    }
}

} // verus!
