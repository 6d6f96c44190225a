//! Values inside directory search filters.
//!
//! A value that goes into a filter is matched as it is written only if the
//! characters that a filter gives a meaning to are escaped: the asterisk, the
//! two parentheses, the backslash and the NUL character each become a
//! backslash and their two hexadecimal digits.

use vstd::prelude::*;
use vstd::string::*;

verus! {

/// Whether a filter gives a character a meaning of its own.
pub open spec fn is_filter_special(c: char) -> bool {
    c == '*' || c == '(' || c == ')' || c == '\\' || c == '\0'
}

/// What stands for one character of a value inside a filter.
pub open spec fn escaped_char(c: char) -> Seq<char> {
    if c == '*' {
        seq!['\\', '2', 'a']
    } else if c == '(' {
        seq!['\\', '2', '8']
    } else if c == ')' {
        seq!['\\', '2', '9']
    } else if c == '\\' {
        seq!['\\', '5', 'c']
    } else if c == '\0' {
        seq!['\\', '0', '0']
    } else {
        seq![c]
    }
}

/// A value as it stands inside a filter: every character escaped in turn.
pub open spec fn filter_escaped(value: Seq<char>) -> Seq<char>
    decreases value.len(),
{
    if value.len() == 0 {
        Seq::empty()
    } else {
        filter_escaped(value.drop_last()) + escaped_char(value.last())
    }
}

/// An escaped value holds no asterisk, no parenthesis and no NUL, so it can
/// neither widen the filter it stands in nor end it early.
pub proof fn law_escaped_value_is_inert(value: Seq<char>)
    ensures
        forall|i: int|
            0 <= i < filter_escaped(value).len() ==> {
                let c = #[trigger] filter_escaped(value)[i];
                c != '*' && c != '(' && c != ')' && c != '\0'
            },
    decreases value.len(),
{
    if value.len() > 0 {
        law_escaped_value_is_inert(value.drop_last());
        let head = filter_escaped(value.drop_last());
        let tail = escaped_char(value.last());
        assert forall|i: int| 0 <= i < filter_escaped(value).len() implies {
            let c = #[trigger] filter_escaped(value)[i];
            c != '*' && c != '(' && c != ')' && c != '\0'
        } by {
            if i < head.len() {
                assert(filter_escaped(value)[i] == head[i]);
            } else {
                assert(filter_escaped(value)[i] == tail[i - head.len()]);
            }
        }
    }
}

/// A value without special characters stands in a filter unchanged.
pub proof fn law_plain_value_is_kept(value: Seq<char>)
    requires
        forall|i: int| 0 <= i < value.len() ==> !is_filter_special(#[trigger] value[i]),
    ensures
        filter_escaped(value) == value,
    decreases value.len(),
{
    if value.len() > 0 {
        law_plain_value_is_kept(value.drop_last());
        assert(!is_filter_special(value.last()));
        assert(value.drop_last() + seq![value.last()] =~= value);
    }
}

/// Escapes a value for use inside a filter.
pub fn escape_filter_value(value: &str) -> (escaped: String)
    ensures
        escaped@ == filter_escaped(value@),
{
    let n: usize = value.unicode_len();
    let mut escaped = String::new();
    let mut i: usize = 0;
    proof {
        reveal_strlit("\\2a");
        reveal_strlit("\\28");
        reveal_strlit("\\29");
        reveal_strlit("\\5c");
        reveal_strlit("\\00");
        assert(value@.take(0) =~= Seq::<char>::empty());
    }
    while i < n
        invariant
            0 <= i <= n,
            n == value@.len(),
            escaped@ == filter_escaped(value@.take(i as int)),
            "\\2a"@ == seq!['\\', '2', 'a'],
            "\\28"@ == seq!['\\', '2', '8'],
            "\\29"@ == seq!['\\', '2', '9'],
            "\\5c"@ == seq!['\\', '5', 'c'],
            "\\00"@ == seq!['\\', '0', '0'],
        decreases n - i,
    {
        let c = value.get_char(i);
        proof {
            let next = value@.take(i + 1);
            assert(next.drop_last() =~= value@.take(i as int));
            assert(next.last() == c);
        }
        if c == '*' {
            escaped.append("\\2a");
        } else if c == '(' {
            escaped.append("\\28");
        } else if c == ')' {
            escaped.append("\\29");
        } else if c == '\\' {
            escaped.append("\\5c");
        } else if c == '\0' {
            escaped.append("\\00");
        } else {
            let one = value.substring_char(i, i + 1);
            assert(one@ =~= seq![c]);
            escaped.append(one);
        }
        i = i + 1;
    }
    assert(value@.take(n as int) =~= value@);
    escaped
}

} // verus!
