//! Discovery of a packaged application's icon file.
//!
//! A packaged application names its windows with an application user-model
//! id whose prefix, up to the first `!`, is the package family name; the
//! package's manifest then names a logo path. When the literal logo file
//! is absent on disk, its directory usually holds sibling files that share
//! the logo's stem and carry a numeric size suffix, such as
//! `targetsize-256` or `scale-200`; the sibling with the largest parsed
//! suffix value is the one to decode.

use vstd::prelude::*;
use vstd::string::*;

use crate::text::ends_with;
use crate::text::ends_with_spec;
use crate::text::find_from;
use crate::text::find_from_spec;
use crate::text::lemma_find_from_spec;
use crate::text::starts_with;
use crate::text::starts_with_spec;

verus! {

/// The package family name of an application user-model id: the part
/// before the first `!`, or the whole id when it has none.
pub open spec fn family_name_spec(id: Seq<char>) -> Seq<char> {
    match find_from_spec(id, "!"@, 0) {
        Some(i) => id.subrange(0, i),
        None => id,
    }
}

/// Extracts the package family name from an application user-model id.
pub fn family_name_from_app_id(id: &str) -> (r: String)
    ensures
        r@ == family_name_spec(id@),
{
    match find_from(id, "!", 0) {
        Some(i) => {
            proof {
                lemma_find_from_spec(id@, "!"@, 0);
            }
            id.substring_char(0, i).to_owned()
        },
        None => id.to_owned(),
    }
}

/// The file name carries an image extension the icon decoder accepts.
pub open spec fn is_image_name(name: Seq<char>) -> bool {
    ||| ends_with_spec(name, ".png"@)
    ||| ends_with_spec(name, ".jpg"@)
    ||| ends_with_spec(name, ".ico"@)
}

/// The file name without its image extension.
pub open spec fn stem_spec(name: Seq<char>) -> Seq<char>
    recommends
        is_image_name(name),
{
    name.subrange(0, name.len() - 4)
}

/// The position of the last `-` in `s`, if any.
pub open spec fn last_dash_spec(s: Seq<char>) -> Option<int>
    decreases s.len(),
{
    if s.len() == 0 {
        None
    } else if s[s.len() - 1] == '-' {
        Some(s.len() - 1)
    } else {
        last_dash_spec(s.drop_last())
    }
}

/// `s` with every leading repetition of the word `w` removed.
pub open spec fn strip_prefix_word(s: Seq<char>, w: Seq<char>) -> Seq<char>
    decreases s.len(),
{
    if w.len() > 0 && starts_with_spec(s, w) {
        strip_prefix_word(s.subrange(w.len() as int, s.len() as int), w)
    } else {
        s
    }
}

/// Every character of `s` is a decimal digit.
pub open spec fn all_digits(s: Seq<char>) -> bool {
    forall|i: int| 0 <= i < s.len() ==> 48 <= #[trigger] s[i] as int <= 57
}

/// The number the decimal digits of `s` spell.
pub open spec fn digits_val(s: Seq<char>) -> int
    decreases s.len(),
{
    if s.len() == 0 {
        0
    } else {
        digits_val(s.drop_last()) * 10 + (s.last() as int - 48)
    }
}

/// What parsing `s` as a decimal number yields: its value when `s` is one
/// or more digits and the value is representable, nothing otherwise.
pub open spec fn parse_u32_spec(s: Seq<char>) -> Option<u32> {
    if s.len() > 0 && all_digits(s) && digits_val(s) <= u32::MAX {
        Some(digits_val(s) as u32)
    } else {
        None
    }
}

/// The numeric size a file stem's suffix carries: the text after the last
/// `-`, the words `targetsize` and `scale` removed, parsed as a decimal
/// number.
pub open spec fn size_suffix_spec(stem: Seq<char>) -> Option<u32> {
    match last_dash_spec(stem) {
        None => None,
        Some(d) => {
            let raw = stem.subrange(d + 1, stem.len() as int);
            parse_u32_spec(strip_prefix_word(strip_prefix_word(raw, "targetsize"@), "scale"@))
        },
    }
}

/// The size a candidate file offers for the wanted icon: a file counts
/// when its name begins with the icon's stem, carries an image extension,
/// and its own stem ends in a parsable size suffix.
pub open spec fn candidate_size_spec(name: Seq<char>, stem: Seq<char>) -> Option<u32> {
    if starts_with_spec(name, stem) && is_image_name(name) {
        size_suffix_spec(stem_spec(name))
    } else {
        None
    }
}

/// The chosen sibling among the directory's file names, with its size: the
/// candidate with the largest parsed size suffix, the earliest listed one
/// on a tie.
pub open spec fn select_icon_spec(names: Seq<Seq<char>>, stem: Seq<char>) -> Option<
    (Seq<char>, u32),
>
    decreases names.len(),
{
    if names.len() == 0 {
        None
    } else {
        let prior = select_icon_spec(names.drop_last(), stem);
        match candidate_size_spec(names.last(), stem) {
            None => prior,
            Some(sz) => match prior {
                None => Some((names.last(), sz)),
                Some(best) => if sz > best.1 {
                    Some((names.last(), sz))
                } else {
                    prior
                },
            },
        }
    }
}

/// The views of a list of file names.
pub open spec fn name_views(ss: Seq<String>) -> Seq<Seq<char>> {
    ss.map_values(|s: String| s@)
}

/// Among the candidate files, the one with the largest parsed size suffix
/// wins: the selection is one of the listed names, it carries the size its
/// own suffix spells, and no candidate offers a larger one; and nothing is
/// selected exactly when no file qualifies.
pub proof fn lemma_select_picks_the_largest(names: Seq<Seq<char>>, stem: Seq<char>)
    ensures
        select_icon_spec(names, stem) matches Some(best) ==> {
            &&& exists|i: int| 0 <= i < names.len() && names[i] == best.0
            &&& candidate_size_spec(best.0, stem) == Some(best.1)
            &&& forall|i: int|
                0 <= i < names.len() ==> (#[trigger] candidate_size_spec(names[i], stem) matches
                    Some(sz) ==> sz <= best.1)
        },
        select_icon_spec(names, stem) is None ==> forall|i: int|
            0 <= i < names.len() ==> #[trigger] candidate_size_spec(names[i], stem) is None,
    decreases names.len(),
{
    if names.len() == 0 {
    } else {
        lemma_select_picks_the_largest(names.drop_last(), stem);
        assert(forall|i: int|
            0 <= i < names.len() - 1 ==> names.drop_last()[i] == #[trigger] names[i]);
        assert(names.last() == names[names.len() - 1]);
        match select_icon_spec(names, stem) {
            None => {},
            Some(best) => {
                if names[names.len() - 1] == best.0 {
                    assert(exists|i: int| 0 <= i < names.len() && names[i] == best.0);
                }
            },
        }
    }
}

/// The stem of an image file name: the name without its `.png`, `.jpg` or
/// `.ico` extension, or `None` for any other name.
fn image_stem<'a>(name: &'a str) -> (r: Option<&'a str>)
    ensures
        r matches Some(st) ==> is_image_name(name@) && st@ == stem_spec(name@),
        r is None ==> !is_image_name(name@),
{
    if ends_with(name, ".png") || ends_with(name, ".jpg") || ends_with(name, ".ico") {
        proof {
            reveal_strlit(".png");
            reveal_strlit(".jpg");
            reveal_strlit(".ico");
        }
        let len = name.unicode_len();
        Some(name.substring_char(0, len - 4))
    } else {
        None
    }
}

/// The position of the last `-` in `s`, if any.
fn last_dash(s: &str) -> (r: Option<usize>)
    ensures
        r matches Some(d) ==> last_dash_spec(s@) == Some(d as int) && (d as int) < s@.len(),
        r is None ==> last_dash_spec(s@) is None,
{
    let len = s.unicode_len();
    let mut i = len;
    proof {
        assert(s@.subrange(0, len as int) =~= s@);
    }
    while i > 0
        invariant
            i <= len,
            len == s@.len(),
            last_dash_spec(s@) == last_dash_spec(s@.subrange(0, i as int)),
        decreases i,
    {
        let c = s.get_char(i - 1);
        proof {
            assert(s@.subrange(0, i as int).drop_last() =~= s@.subrange(0, i - 1));
            assert(s@.subrange(0, i as int).last() == s@[i - 1]);
        }
        if c == '-' {
            return Some(i - 1);
        }
        i -= 1;
    }
    proof {
        assert(s@.subrange(0, 0) =~= Seq::<char>::empty());
    }
    None
}

/// `s` with every leading repetition of the word `w` removed.
fn strip_word<'a>(s: &'a str, w: &str) -> (r: &'a str)
    ensures
        r@ == strip_prefix_word(s@, w@),
{
    let wlen = w.unicode_len();
    let mut cur = s;
    let mut curlen = s.unicode_len();
    while wlen > 0 && starts_with(cur, w)
        invariant
            curlen == cur@.len(),
            wlen == w@.len(),
            strip_prefix_word(s@, w@) == strip_prefix_word(cur@, w@),
        decreases curlen,
    {
        cur = cur.substring_char(wlen, curlen);
        curlen = curlen - wlen;
    }
    cur
}

/// A prefix of an all-digit text spells a number that is not negative.
proof fn lemma_digits_val_nonneg(s: Seq<char>, i: int)
    requires
        all_digits(s),
        0 <= i <= s.len(),
    ensures
        digits_val(s.subrange(0, i)) >= 0,
    decreases i,
{
    if i == 0 {
        assert(s.subrange(0, 0) =~= Seq::<char>::empty());
    } else {
        lemma_digits_val_nonneg(s, i - 1);
        assert(s.subrange(0, i).drop_last() =~= s.subrange(0, i - 1));
        assert(s.subrange(0, i).last() == s[i - 1]);
    }
}

/// Whenever `s` is a prefix of digits of a longer all-digit text, the
/// longer text spells at least as large a number.
proof fn lemma_digits_val_monotonic(s: Seq<char>, i: int, j: int)
    requires
        all_digits(s),
        0 <= i <= j <= s.len(),
    ensures
        0 <= digits_val(s.subrange(0, i)) <= digits_val(s.subrange(0, j)),
    decreases j - i,
{
    lemma_digits_val_nonneg(s, i);
    if i < j {
        lemma_digits_val_monotonic(s, i, j - 1);
        lemma_digits_val_nonneg(s, j - 1);
        assert(s.subrange(0, j).drop_last() =~= s.subrange(0, j - 1));
        assert(s.subrange(0, j).last() == s[j - 1]);
    }
}

/// Parses a decimal number: its value when `s` is one or more digits and
/// the value fits, `None` otherwise.
fn parse_u32_digits(s: &str) -> (r: Option<u32>)
    ensures
        r == parse_u32_spec(s@),
{
    let len = s.unicode_len();
    if len == 0 {
        return None;
    }
    let mut i: usize = 0;
    let mut val: u32 = 0;
    while i < len
        invariant
            i <= len,
            len == s@.len(),
            all_digits(s@.subrange(0, i as int)),
            val == digits_val(s@.subrange(0, i as int)),
        decreases len - i,
    {
        let c = s.get_char(i);
        let cv = c as u32;
        proof {
            assert(s@.subrange(0, i + 1).drop_last() =~= s@.subrange(0, i as int));
            assert(s@.subrange(0, i + 1).last() == s@[i as int]);
        }
        if cv < 48 || cv > 57 {
            proof {
                assert(!all_digits(s@));
            }
            return None;
        }
        let d = cv - 48;
        let next = match val.checked_mul(10) {
            Some(v10) => v10.checked_add(d),
            None => None,
        };
        match next {
            Some(v) => {
                val = v;
            },
            None => {
                proof {
                    if all_digits(s@) {
                        lemma_digits_val_monotonic(s@, i + 1, len as int);
                        assert(s@.subrange(0, len as int) =~= s@);
                    }
                }
                return None;
            },
        }
        i += 1;
    }
    proof {
        assert(s@.subrange(0, len as int) =~= s@);
    }
    Some(val)
}

/// The numeric size the stem's suffix carries, if the text after the last
/// `-` — the words `targetsize` and `scale` removed — parses as a decimal
/// number.
fn size_suffix(stem: &str) -> (r: Option<u32>)
    ensures
        r == size_suffix_spec(stem@),
{
    match last_dash(stem) {
        None => None,
        Some(d) => {
            let len = stem.unicode_len();
            let raw = stem.substring_char(d + 1, len);
            let trimmed = strip_word(strip_word(raw, "targetsize"), "scale");
            parse_u32_digits(trimmed)
        },
    }
}

/// The size a candidate file name offers for the wanted icon stem.
fn candidate_size(name: &str, stem: &str) -> (r: Option<u32>)
    ensures
        r == candidate_size_spec(name@, stem@),
{
    if !starts_with(name, stem) {
        return None;
    }
    match image_stem(name) {
        None => None,
        Some(st) => size_suffix(st),
    }
}

/// Picks the icon file to decode among the directory's file names: of the
/// files that begin with the wanted stem, carry an image extension and end
/// in a parsable size suffix, the one with the largest suffix value — the
/// earliest listed on a tie. `None` when no file qualifies.
pub fn select_icon_candidate(names: &Vec<String>, stem: &str) -> (r: Option<String>)
    ensures
        r matches Some(n) ==> (select_icon_spec(name_views(names@), stem@) matches Some(best)
            && n@ == best.0),
        r is None ==> select_icon_spec(name_views(names@), stem@) is None,
{
    let ghost views = name_views(names@);
    let mut best: Option<(usize, u32)> = None;
    let mut i: usize = 0;
    proof {
        assert(views.subrange(0, 0) =~= Seq::<Seq<char>>::empty());
    }
    while i < names.len()
        invariant
            i <= names.len(),
            views == name_views(names@),
            best matches Some(b) ==> (b.0 as int) < names@.len() && (select_icon_spec(
                views.subrange(0, i as int),
                stem@,
            ) matches Some(sb)
                && sb.0 == names@[b.0 as int]@
                && sb.1 == b.1),
            best is None ==> select_icon_spec(views.subrange(0, i as int), stem@) is None,
        decreases names.len() - i,
    {
        proof {
            assert(views.subrange(0, i + 1).drop_last() =~= views.subrange(0, i as int));
            assert(views.subrange(0, i + 1).last() == names@[i as int]@);
        }
        match candidate_size(names[i].as_str(), stem) {
            None => {},
            Some(sz) => {
                match best {
                    None => {
                        best = Some((i, sz));
                    },
                    Some((_, bsz)) => {
                        if sz > bsz {
                            best = Some((i, sz));
                        }
                    },
                }
            },
        }
        i += 1;
    }
    proof {
        assert(views.subrange(0, names@.len() as int) =~= views);
    }
    match best {
        None => None,
        Some((k, _)) => Some(names[k].clone()),
    }
}

} // verus!
