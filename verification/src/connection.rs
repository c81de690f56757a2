//! Lines on the wire: what one read from a peer's socket means.

use vstd::prelude::*;
use vstd::std_specs::iter::IteratorSpec;
use vstd::string::*;

verus! {

/// `std::io::Error`, carried through unread.
#[verifier::external_type_specification]
#[verifier::external_body]
pub struct ExIoError(std::io::Error);

/// One line of chat text, without its line terminator.
#[derive(Clone, Debug, PartialEq, Eq)]
pub struct Message {
    pub content: String,
}

impl View for Message {
    type V = Seq<char>;

    open spec fn view(&self) -> Seq<char> {
        self.content@
    }
}

/// Why a read from the peer gave no message.
pub enum ConnectionError {
    /// The read itself failed.
    IoError(std::io::Error),
    /// The stream has ended.
    Eof,
}

impl From<std::io::Error> for ConnectionError {
    fn from(err: std::io::Error) -> (e: ConnectionError) {
        ConnectionError::IoError(err)
    }
}

impl vstd::std_specs::convert::FromSpecImpl<std::io::Error> for ConnectionError {
    open spec fn obeys_from_spec() -> bool {
        true
    }

    open spec fn from_spec(err: std::io::Error) -> ConnectionError {
        ConnectionError::IoError(err)
    }
}

/// The white space characters of Unicode (`White_Space`).
pub open spec fn is_whitespace(c: char) -> bool {
    let n = c as u32;
    ||| 0x09 <= n <= 0x0d
    ||| n == 0x20
    ||| n == 0x85
    ||| n == 0xa0
    ||| n == 0x1680
    ||| 0x2000 <= n <= 0x200a
    ||| n == 0x2028
    ||| n == 0x2029
    ||| n == 0x202f
    ||| n == 0x205f
    ||| n == 0x3000
}

/// `s` without its leading whitespace.
pub open spec fn trim_start(s: Seq<char>) -> Seq<char>
    decreases s.len(),
{
    if s.len() > 0 && is_whitespace(s.first()) {
        trim_start(s.drop_first())
    } else {
        s
    }
}

/// `s` without its trailing whitespace.
pub open spec fn trim_end(s: Seq<char>) -> Seq<char>
    decreases s.len(),
{
    if s.len() > 0 && is_whitespace(s.last()) {
        trim_end(s.drop_last())
    } else {
        s
    }
}

/// `s` without its leading and trailing whitespace.
pub open spec fn trimmed(s: Seq<char>) -> Seq<char> {
    trim_end(trim_start(s))
}

/// What one successful read means: nothing read is the end of the stream,
/// anything else is a message, the text that was read without the
/// whitespace around it.
pub open spec fn decoded(raw: Seq<char>) -> Option<Seq<char>> {
    if raw.len() == 0 {
        None
    } else {
        Some(trimmed(raw))
    }
}

/// Whether `c` is a white space character of Unicode.
pub fn char_is_whitespace(c: char) -> (b: bool)
    ensures
        b == is_whitespace(c),
{
    let n: u32 = c as u32;
    (0x09 <= n && n <= 0x0d) || n == 0x20 || n == 0x85 || n == 0xa0 || n == 0x1680 || (0x2000 <= n
        && n <= 0x200a) || n == 0x2028 || n == 0x2029 || n == 0x202f || n == 0x205f || n == 0x3000
}

/// Leading whitespace is what `trim_start` removes: where the first `i`
/// characters are whitespace and the next one is not, the rest stays.
pub proof fn trim_start_skips_whitespace(s: Seq<char>, i: int)
    requires
        0 <= i <= s.len(),
        forall|k: int| 0 <= k < i ==> is_whitespace(s[k]),
        i < s.len() ==> !is_whitespace(s[i]),
    ensures
        trim_start(s) == s.subrange(i, s.len() as int),
    decreases i,
{
    if i == 0 {
        assert(s.subrange(0, s.len() as int) =~= s);
    } else {
        let rest = s.drop_first();
        assert forall|k: int| 0 <= k < i - 1 implies is_whitespace(rest[k]) by {
            assert(rest[k] == s[k + 1]);
        }
        trim_start_skips_whitespace(rest, i - 1);
        assert(rest.subrange(i - 1, rest.len() as int) =~= s.subrange(i, s.len() as int));
    }
}

/// Trailing whitespace is what `trim_end` removes: where everything from
/// `j` on is whitespace and the character before `j` is not, the first `j`
/// characters stay.
pub proof fn trim_end_drops_whitespace(s: Seq<char>, j: int)
    requires
        0 <= j <= s.len(),
        forall|k: int| j <= k < s.len() ==> is_whitespace(s[k]),
        0 < j ==> !is_whitespace(s[j - 1]),
    ensures
        trim_end(s) == s.subrange(0, j),
    decreases s.len() - j,
{
    if j == s.len() {
        assert(s.subrange(0, j) =~= s);
    } else {
        let rest = s.drop_last();
        trim_end_drops_whitespace(rest, j);
        assert(rest.subrange(0, j) =~= s.subrange(0, j));
    }
}

/// Trimmed text neither starts nor ends with whitespace.
pub proof fn trimmed_has_no_outer_whitespace(s: Seq<char>)
    ensures
        trimmed(s).len() > 0 ==> !is_whitespace(trimmed(s).first()) && !is_whitespace(
            trimmed(s).last(),
        ),
        trimmed(s).len() <= s.len(),
{
    trim_start_is_a_suffix(s);
    let t = trim_start(s);
    trim_end_is_a_prefix(t);
    let u = trim_end(t);
    if u.len() > 0 {
        assert(u.first() == t.first());
    }
}

/// `trim_start` keeps a suffix of its argument, one that does not start
/// with whitespace.
pub proof fn trim_start_is_a_suffix(s: Seq<char>)
    ensures
        trim_start(s).len() <= s.len(),
        trim_start(s) == s.subrange(s.len() - trim_start(s).len(), s.len() as int),
        trim_start(s).len() > 0 ==> !is_whitespace(trim_start(s).first()),
    decreases s.len(),
{
    if s.len() > 0 && is_whitespace(s.first()) {
        let rest = s.drop_first();
        trim_start_is_a_suffix(rest);
        let n = trim_start(rest).len();
        assert(rest.subrange(rest.len() - n, rest.len() as int) =~= s.subrange(
            s.len() - n,
            s.len() as int,
        ));
    } else {
        assert(s.subrange(0, s.len() as int) =~= s);
    }
}

/// `trim_end` keeps a prefix of its argument, one that does not end with
/// whitespace.
pub proof fn trim_end_is_a_prefix(s: Seq<char>)
    ensures
        trim_end(s).len() <= s.len(),
        trim_end(s) == s.subrange(0, trim_end(s).len() as int),
        trim_end(s).len() > 0 ==> !is_whitespace(trim_end(s).last()),
    decreases s.len(),
{
    if s.len() > 0 && is_whitespace(s.last()) {
        let rest = s.drop_last();
        trim_end_is_a_prefix(rest);
        let n = trim_end(rest).len() as int;
        assert(rest.subrange(0, n) =~= s.subrange(0, n));
    } else {
        assert(s.subrange(0, s.len() as int) =~= s);
    }
}

/// `text` without the whitespace at its two ends.
pub fn trim(text: &str) -> (out: &str)
    ensures
        out@ == trimmed(text@),
{
    let len = text.unicode_len();
    let mut start: usize = 0;
    let mut end: usize = 0;
    let mut seen: usize = 0;
    for c in it: text.chars()
        invariant
            it.seq() == text@,
            len == text@.len(),
            seen == it.index(),
            start <= end <= seen,
            forall|k: int| 0 <= k < start ==> is_whitespace(text@[k]),
            forall|k: int| end <= k < seen ==> is_whitespace(text@[k]),
            start == end ==> start == seen,
            start < end ==> !is_whitespace(text@[start as int]) && !is_whitespace(
                text@[end - 1],
            ),
    {
        if char_is_whitespace(c) {
            if start == end {
                start = seen + 1;
                end = seen + 1;
            }
        } else {
            if start == end {
                start = seen;
            }
            end = seen + 1;
        }
        seen = seen + 1;
    }
    proof {
        let s = text@;
        trim_start_skips_whitespace(s, start as int);
        let t = s.subrange(start as int, s.len() as int);
        assert forall|k: int| end - start <= k < t.len() implies is_whitespace(t[k]) by {
            assert(t[k] == s[k + start]);
        }
        if start < end {
            assert(t[end - start - 1] == s[end - 1]);
        }
        trim_end_drops_whitespace(t, end - start);
        assert(t.subrange(0, end - start) =~= s.subrange(start as int, end as int));
    }
    text.substring_char(start, end)
}

impl Message {
    /// The text of the message.
    pub fn to_string(&self) -> (text: String)
        ensures
            text@ == self@,
    {
        self.content.clone()
    }

    /// Whether the message holds no text at all.
    pub fn is_empty(&self) -> (b: bool)
        ensures
            b == (self@.len() == 0),
    {
        self.content.as_str().is_empty()
    }

    /// What one read of a line means. `raw` is what the read appended to an
    /// empty buffer, terminator included: nothing at all where the stream
    /// has ended.
    pub fn from_line(raw: &str) -> (read: Result<Message, ConnectionError>)
        ensures
            match read {
                Ok(message) => decoded(raw@) == Some(message@),
                Err(err) => decoded(raw@) is None && err is Eof,
            },
    {
        if raw.is_empty() {
            Err(ConnectionError::Eof)
        } else {
            Ok(Message { content: String::from_str(trim(raw)) })
        }
    }
}

} // verus!
