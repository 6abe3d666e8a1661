//! White space, and the `str` operations that the library takes from std.

use vstd::prelude::*;

verus! {

/// The characters with the Unicode property `White_Space`.
pub open spec fn is_white_space(c: char) -> bool {
    ||| 0x09 <= c as int <= 0x0d
    ||| c == ' '
    ||| c as int == 0x85
    ||| c as int == 0xa0
    ||| c as int == 0x1680
    ||| 0x2000 <= c as int <= 0x200a
    ||| c as int == 0x2028
    ||| c as int == 0x2029
    ||| c as int == 0x202f
    ||| c as int == 0x205f
    ||| c as int == 0x3000
}

/// `s` without the white space that it begins with.
pub open spec fn trim_start(s: Seq<char>) -> Seq<char>
    decreases s.len(),
{
    if s.len() > 0 && is_white_space(s.first()) {
        trim_start(s.drop_first())
    } else {
        s
    }
}

/// `s` without the white space that it ends with.
pub open spec fn trim_end(s: Seq<char>) -> Seq<char>
    decreases s.len(),
{
    if s.len() > 0 && is_white_space(s.last()) {
        trim_end(s.drop_last())
    } else {
        s
    }
}

/// `s` without the white space around it.
pub open spec fn trimmed(s: Seq<char>) -> Seq<char> {
    trim_end(trim_start(s))
}

/// Whether `s` neither begins nor ends with white space.
pub open spec fn is_trimmed(s: Seq<char>) -> bool {
    s.len() > 0 ==> !is_white_space(s.first()) && !is_white_space(s.last())
}

proof fn lemma_trim_start(s: Seq<char>)
    ensures
        trim_start(s).len() <= s.len(),
        trim_start(s) == s.skip(s.len() - trim_start(s).len()),
        forall|i: int| 0 <= i < s.len() - trim_start(s).len() ==> is_white_space(#[trigger] s[i]),
        trim_start(s).len() > 0 ==> !is_white_space(trim_start(s).first()),
    decreases s.len(),
{
    if s.len() > 0 && is_white_space(s.first()) {
        let rest = s.drop_first();
        lemma_trim_start(rest);
        assert forall|i: int| 0 <= i < s.len() - trim_start(s).len() implies is_white_space(
            #[trigger] s[i],
        ) by {
            if i > 0 {
                assert(s[i] == rest[i - 1]);
            }
        }
    }
}

proof fn lemma_trim_end(s: Seq<char>)
    ensures
        trim_end(s).len() <= s.len(),
        trim_end(s) == s.take(trim_end(s).len() as int),
        forall|i: int| trim_end(s).len() <= i < s.len() ==> is_white_space(#[trigger] s[i]),
        trim_end(s).len() > 0 ==> !is_white_space(trim_end(s).last()),
    decreases s.len(),
{
    if s.len() > 0 && is_white_space(s.last()) {
        let rest = s.drop_last();
        lemma_trim_end(rest);
        assert forall|i: int| trim_end(s).len() <= i < s.len() implies is_white_space(
            #[trigger] s[i],
        ) by {
            if i < s.len() - 1 {
                assert(s[i] == rest[i]);
            }
        }
    }
}

/// Trimming cuts `s` down to the part between two positions: everything cut off is white space,
/// and what is left neither begins nor ends with white space.
pub proof fn trimmed_is_the_middle(s: Seq<char>) -> (ends: (int, int))
    ensures
        0 <= ends.0 <= ends.1 <= s.len(),
        trimmed(s) == s.subrange(ends.0, ends.1),
        forall|i: int| 0 <= i < ends.0 ==> is_white_space(#[trigger] s[i]),
        forall|i: int| ends.1 <= i < s.len() ==> is_white_space(#[trigger] s[i]),
        is_trimmed(trimmed(s)),
        ends.0 < ends.1 ==> !is_white_space(s[ends.0]) && !is_white_space(s[ends.1 - 1]),
{
    let front = trim_start(s);
    lemma_trim_start(s);
    lemma_trim_end(front);
    let start = s.len() - front.len();
    let end = start + trimmed(s).len();
    assert(trimmed(s) == s.subrange(start, end));
    assert forall|i: int| end <= i < s.len() implies is_white_space(#[trigger] s[i]) by {
        assert(s[i] == front[i - start]);
    }
    if trimmed(s).len() > 0 {
        assert(trimmed(s).first() == front.first());
    }
    (start, end)
}

/// Text without white space around it is left as it is by trimming; trimming twice is trimming
/// once.
pub proof fn trimming_is_idempotent(s: Seq<char>)
    ensures
        is_trimmed(s) <==> trimmed(s) == s,
        trimmed(trimmed(s)) == trimmed(s),
{
    let ends = trimmed_is_the_middle(s);
    let t = trimmed(s);
    assert(trim_start(t) == t);
    assert(trim_end(t) == t);
    if is_trimmed(s) {
        assert(trim_start(s) == s);
        assert(trim_end(s) == s);
    }
}

/// White space around a text makes no difference to what trimming leaves of it.
pub proof fn trimming_drops_padding(before: Seq<char>, s: Seq<char>, after: Seq<char>)
    requires
        forall|i: int| 0 <= i < before.len() ==> is_white_space(#[trigger] before[i]),
        forall|i: int| 0 <= i < after.len() ==> is_white_space(#[trigger] after[i]),
    ensures
        trimmed(before + s + after) == trimmed(s),
    decreases before.len() + after.len(),
{
    if before.len() > 0 {
        let rest = before.drop_first();
        trimming_drops_padding(rest, s, after);
        assert((before + s + after).first() == before[0]);
        assert((before + s + after).drop_first() == rest + s + after);
        assert forall|i: int| 0 <= i < rest.len() implies is_white_space(#[trigger] rest[i]) by {
            assert(rest[i] == before[i + 1]);
        }
    } else if after.len() > 0 {
        trimming_drops_padding(before, s, after.drop_last());
        assert(before + s + after == (s + after.drop_last()).push(after.last()));
        assert(before + s + after.drop_last() == s + after.drop_last());
        lemma_trim_last(s + after.drop_last(), after.last());
    } else {
        assert(before + s + after == s);
    }
}

proof fn lemma_trim_last(s: Seq<char>, c: char)
    requires
        is_white_space(c),
    ensures
        trimmed(s.push(c)) == trimmed(s),
    decreases s.len(),
{
    let t = s.push(c);
    if s.len() > 0 && is_white_space(s.first()) {
        assert(t.first() == s.first());
        assert(t.drop_first() == s.drop_first().push(c));
        lemma_trim_last(s.drop_first(), c);
    } else if s.len() > 0 {
        assert(t.first() == s.first());
        assert(t.drop_last() == s);
    } else {
        assert(t.drop_first() == s);
    }
}

/// `char::is_whitespace` tells exactly the characters with the Unicode property `White_Space`.
pub assume_specification[ char::is_whitespace ](c: char) -> (white: bool)
    ensures
        white == is_white_space(c),
;

/// `str::trim` takes off all white space at both ends, and nothing else.
pub assume_specification[ str::trim ](s: &str) -> (rest: &str)
    ensures
        rest@ == trimmed(s@),
;

/// `String::from` on a `&str` copies the text.
pub assume_specification<'_0>[ <String as From<&str>>::from ](s: &str) -> (owned: String)
    ensures
        owned@ == s@,
;

/// `From::from` of a type into itself hands its argument back unchanged.
pub assume_specification<Any>[ <Any as core::convert::From<Any>>::from ](value: Any) -> (same: Any)
    ensures
        same == value,
;

/// Calls `str::strip_prefix`: what follows `prefix` in a text that begins with it, and `None` for
/// any other text.
#[verifier::external_body]
pub(crate) fn strip_prefix<'a>(s: &'a str, prefix: &str) -> (rest: Option<&'a str>)
    ensures
        match rest {
            Some(rest) => s@ == prefix@ + rest@,
            None => !prefix@.is_prefix_of(s@),
        },
{
    s.strip_prefix(prefix)
}

} // verus!
