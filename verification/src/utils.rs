//! HTML escaping for the text sent to chats.

use crate::text::{chars_of, push_char};
use std::borrow::Cow;
use vstd::prelude::*;
use vstd::string::StringExecFns;

verus! {

/// Whether `c` is one of the five characters that HTML escaping rewrites.
pub open spec fn is_html_special(c: char) -> bool {
    c == '&' || c == '<' || c == '>' || c == '"' || c == '\''
}

/// The characters that stand for `c` in HTML text and attribute values.
pub open spec fn escape_char(c: char) -> Seq<char> {
    if c == '&' {
        seq!['&', 'a', 'm', 'p', ';']
    } else if c == '<' {
        seq!['&', 'l', 't', ';']
    } else if c == '>' {
        seq!['&', 'g', 't', ';']
    } else if c == '"' {
        seq!['&', 'q', 'u', 'o', 't', ';']
    } else if c == '\'' {
        seq!['&', '#', '3', '9', ';']
    } else {
        seq![c]
    }
}

/// `s` with every special character replaced by its entity.
pub open spec fn html_escaped(s: Seq<char>) -> Seq<char>
    decreases s.len(),
{
    if s.len() == 0 {
        Seq::empty()
    } else {
        html_escaped(s.drop_last()) + escape_char(s.last())
    }
}

/// Whether `s` holds a character that escaping rewrites.
pub open spec fn needs_escaping(s: Seq<char>) -> bool {
    exists|i: int| 0 <= i < s.len() && is_html_special(#[trigger] s[i])
}

/// Text without special characters is its own escaped form.
pub proof fn lemma_escape_plain(s: Seq<char>)
    requires
        !needs_escaping(s),
    ensures
        html_escaped(s) == s,
    decreases s.len(),
{
    if s.len() > 0 {
        let init = s.drop_last();
        assert forall|i: int| 0 <= i < init.len() implies !is_html_special(#[trigger] init[i]) by {
            assert(init[i] == s[i]);
        }
        lemma_escape_plain(init);
        assert(!is_html_special(s[s.len() - 1]));
        assert(init + seq![s.last()] =~= s);
    }
}

/// Escapes `input` for use in HTML text and in quoted attribute values: `&`,
/// `<`, `>`, `"` and `'` become `&amp;`, `&lt;`, `&gt;`, `&quot;` and `&#39;`.
/// Input without any of them is handed back borrowed.
pub fn html_escape(input: &str) -> (res: Cow<'_, str>)
    ensures
        res@ == html_escaped(input@),
        res is Owned <==> needs_escaping(input@),
{
    let chars = chars_of(input);
    let mut needs: bool = false;
    let mut i: usize = 0;
    while i < chars.len()
        invariant_except_break
            i <= chars.len(),
            !needs,
            forall|j: int| 0 <= j < i ==> !is_html_special(#[trigger] chars@[j]),
        ensures
            needs <==> needs_escaping(chars@),
        decreases chars.len() - i,
    {
        let ch = chars[i];
        if ch == '&' || ch == '<' || ch == '>' || ch == '"' || ch == '\'' {
            needs = true;
            break ;
        }
        i += 1;
    }
    if !needs {
        proof {
            lemma_escape_plain(input@);
        }
        return Cow::Borrowed(input);
    }
    let mut escaped = String::new();
    let mut k: usize = 0;
    while k < chars.len()
        invariant
            k <= chars.len(),
            escaped@ == html_escaped(chars@.take(k as int)),
        decreases chars.len() - k,
    {
        let ch = chars[k];
        proof {
            reveal_strlit("&amp;");
            reveal_strlit("&lt;");
            reveal_strlit("&gt;");
            reveal_strlit("&quot;");
            reveal_strlit("&#39;");
            assert(chars@.take(k + 1).drop_last() =~= chars@.take(k as int));
        }
        let ghost before = escaped@;
        if ch == '&' {
            escaped.append("&amp;");
            assert(escaped@ =~= before + escape_char(ch));
        } else if ch == '<' {
            escaped.append("&lt;");
            assert(escaped@ =~= before + escape_char(ch));
        } else if ch == '>' {
            escaped.append("&gt;");
            assert(escaped@ =~= before + escape_char(ch));
        } else if ch == '"' {
            escaped.append("&quot;");
            assert(escaped@ =~= before + escape_char(ch));
        } else if ch == '\'' {
            escaped.append("&#39;");
            assert(escaped@ =~= before + escape_char(ch));
        } else {
            push_char(&mut escaped, ch);
            assert(escaped@ =~= before + escape_char(ch));
        }
        k += 1;
    }
    assert(chars@.take(chars@.len() as int) =~= chars@);
    Cow::Owned(escaped)
}

/// The escaped form of `input` as an owned string.
pub fn html_escape_owned(input: &str) -> (r: String)
    ensures
        r@ == html_escaped(input@),
{
    match html_escape(input) {
        Cow::Borrowed(b) => String::from_str(b),
        Cow::Owned(o) => o,
    }
}

} // verus!
