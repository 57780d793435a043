//! Relaying of streamed completions: the server-sent events of an upstream
//! chunk are forwarded as events that carry the payload of each `data: ` line.

use vstd::prelude::*;
use vstd::utf8::{decode_utf8, valid_utf8};

use crate::text::{chars_of, seq_starts_with, string_of};

verus! {

/// The number of characters before the first line feed of `s`, or its
/// length when it has none.
pub open spec fn first_newline(s: Seq<char>) -> nat
    decreases s.len(),
{
    if s.len() == 0 {
        0
    } else if s[0] == '\n' {
        0
    } else {
        1 + first_newline(s.skip(1))
    }
}

/// A line without the carriage return that ended it.
pub open spec fn strip_cr(line: Seq<char>) -> Seq<char> {
    if line.len() > 0 && line.last() == '\r' {
        line.drop_last()
    } else {
        line
    }
}

/// The lines of `s`, as `str::lines` gives them: split at each line feed,
/// a carriage return before the line feed removed, and no empty last line
/// after a final line feed.
pub open spec fn lines_of(s: Seq<char>) -> Seq<Seq<char>>
    decreases s.len(),
{
    if s.len() == 0 {
        Seq::empty()
    } else {
        let k = first_newline(s);
        if k < s.len() {
            seq![strip_cr(s.take(k as int))] + lines_of(s.skip(k + 1 as int))
        } else {
            seq![s]
        }
    }
}

/// The marker of a data line of a server-sent event stream.
pub open spec fn data_prefix() -> Seq<char> {
    seq!['d', 'a', 't', 'a', ':', ' ']
}

/// The payloads of the data lines among `lines`, in order.
pub open spec fn data_payloads(lines: Seq<Seq<char>>) -> Seq<Seq<char>>
    decreases lines.len(),
{
    if lines.len() == 0 {
        Seq::empty()
    } else {
        let here: Seq<Seq<char>> = if seq_starts_with(lines[0], data_prefix()) {
            seq![lines[0].skip(6)]
        } else {
            Seq::empty()
        };
        here + data_payloads(lines.skip(1))
    }
}

/// The views of a list of strings.
pub open spec fn string_views(v: Seq<String>) -> Seq<Seq<char>> {
    v.map_values(|s: String| s@)
}

/// `first_newline` is the position of the first line feed.
proof fn lemma_first_newline(s: Seq<char>, k: int)
    requires
        0 <= k <= s.len(),
        forall|j: int| 0 <= j < k ==> s[j] != '\n',
        k < s.len() ==> s[k] == '\n',
    ensures
        first_newline(s) == k,
    decreases k,
{
    if k > 0 {
        let t = s.skip(1);
        assert forall|j: int| 0 <= j < k - 1 implies t[j] != '\n' by {
            assert(t[j] == s[j + 1]);
        }
        if k < s.len() {
            assert(t[k - 1] == s[k]);
        }
        lemma_first_newline(t, k - 1);
    }
}

/// The payloads of the `data: ` lines of `text`, in order: what is relayed
/// of one chunk of an upstream event stream.
pub fn sse_data_lines(text: &str) -> (r: Vec<String>)
    ensures
        string_views(r@) == data_payloads(lines_of(text@)),
{
    let s = chars_of(text);
    let n = s.len();
    let mut out: Vec<String> = Vec::new();
    let mut start: usize = 0;
    assert(s@.skip(0) =~= s@);
    assert(string_views(out@) + data_payloads(lines_of(text@)) =~= data_payloads(lines_of(text@)));
    while start < n
        invariant
            n == s@.len(),
            s@ == text@,
            start <= n,
            string_views(out@) + data_payloads(lines_of(s@.skip(start as int))) == data_payloads(
                lines_of(text@),
            ),
        decreases n - start,
    {
        let ghost rest = s@.skip(start as int);
        let mut k: usize = start;
        while k < n && s[k] != '\n'
            invariant
                start <= k <= n,
                n == s@.len(),
                rest == s@.skip(start as int),
                forall|j: int| start <= j < k ==> s@[j] != '\n',
            decreases n - k,
        {
            k = k + 1;
        }
        proof {
            assert forall|j: int| 0 <= j < k - start implies rest[j] != '\n' by {
                assert(rest[j] == s@[start + j]);
            }
            if k < n {
                assert(rest[k - start] == s@[k as int]);
            }
            lemma_first_newline(rest, k - start);
        }
        // the line, without a carriage return before the line feed
        let mut end = k;
        if k < n && end > start && s[end - 1] == '\r' {
            end = end - 1;
        }
        let mut line: Vec<char> = Vec::new();
        let mut j: usize = start;
        while j < end
            invariant
                start <= j <= end,
                end <= n,
                n == s@.len(),
                line@ == s@.subrange(start as int, j as int),
            decreases end - j,
        {
            line.push(s[j]);
            assert(line@ =~= s@.subrange(start as int, j + 1));
            j = j + 1;
        }
        let ghost the_line = if k < n {
            strip_cr(rest.take(k - start))
        } else {
            rest
        };
        proof {
            if k < n {
                let raw = rest.take(k - start);
                if end < k {
                    assert(raw.last() == s@[k - 1]);
                    assert(line@ =~= raw.drop_last());
                } else {
                    assert(line@ =~= raw);
                }
            } else {
                assert(line@ =~= rest);
            }
        }
        let is_data = line.len() >= 6 && line[0] == 'd' && line[1] == 'a' && line[2] == 't'
            && line[3] == 'a' && line[4] == ':' && line[5] == ' ';
        proof {
            if line@.len() >= 6 {
                assert(line@.subrange(0, 6) == data_prefix() <==> (line@[0] == 'd' && line@[1]
                    == 'a' && line@[2] == 't' && line@[3] == 'a' && line@[4] == ':' && line@[5]
                    == ' ')) by {
                    if line@[0] == 'd' && line@[1] == 'a' && line@[2] == 't' && line@[3] == 'a'
                        && line@[4] == ':' && line@[5] == ' ' {
                        assert(line@.subrange(0, 6) =~= data_prefix());
                    }
                    if line@.subrange(0, 6) == data_prefix() {
                        assert(line@.subrange(0, 6)[0] == 'd');
                        assert(line@.subrange(0, 6)[1] == 'a');
                        assert(line@.subrange(0, 6)[2] == 't');
                        assert(line@.subrange(0, 6)[3] == 'a');
                        assert(line@.subrange(0, 6)[4] == ':');
                        assert(line@.subrange(0, 6)[5] == ' ');
                    }
                }
            }
        }
        let ghost before = out@;
        if is_data {
            let mut payload: Vec<char> = Vec::new();
            let mut m: usize = 6;
            while m < line.len()
                invariant
                    6 <= m <= line.len(),
                    payload@ == line@.subrange(6, m as int),
                decreases line.len() - m,
            {
                payload.push(line[m]);
                assert(payload@ =~= line@.subrange(6, m + 1));
                m = m + 1;
            }
            assert(payload@ =~= line@.skip(6));
            out.push(string_of(&payload));
        }
        let next = if k < n {
            k + 1
        } else {
            n
        };
        proof {
            let lines_here: Seq<Seq<char>> = if k < n {
                seq![the_line] + lines_of(s@.skip(next as int))
            } else {
                seq![the_line]
            };
            assert(rest.len() > 0);
            assert(lines_of(rest) == lines_here) by {
                if k < n {
                    assert(rest.skip(k - start + 1) =~= s@.skip(next as int));
                }
            }
            assert(lines_here[0] == the_line);
            let tail = lines_here.skip(1);
            assert(tail =~= lines_of(s@.skip(next as int))) by {
                if k >= n {
                    assert(s@.skip(next as int) =~= Seq::<char>::empty());
                }
            }
            let here: Seq<Seq<char>> = if seq_starts_with(the_line, data_prefix()) {
                seq![the_line.skip(6)]
            } else {
                Seq::empty()
            };
            assert(data_payloads(lines_here) == here + data_payloads(tail));
            if is_data {
                assert(string_views(out@) =~= string_views(before) + here);
            } else {
                assert(string_views(out@) =~= string_views(before) + here);
            }
            assert(string_views(out@) + data_payloads(lines_of(s@.skip(next as int)))
                =~= string_views(before) + data_payloads(lines_of(rest)));
        }
        start = next;
    }
    assert(s@.skip(n as int) =~= Seq::<char>::empty());
    assert(string_views(out@) + Seq::<Seq<char>>::empty() =~= string_views(out@));
    out
}

/// What `String::from_utf8_lossy` makes of `bytes`.
pub uninterp spec fn utf8_lossy(bytes: Seq<u8>) -> Seq<char>;

/// `String::from_utf8_lossy`: the text of `bytes`, with each invalid UTF-8
/// sequence replaced by U+FFFD. Stated: the result is named by `utf8_lossy`,
/// and for valid UTF-8 it is the decoded text. How invalid sequences are
/// replaced is not stated.
#[verifier::external_body]
fn from_utf8_lossy(bytes: &[u8]) -> (s: String)
    ensures
        s@ == utf8_lossy(bytes@),
        valid_utf8(bytes@) ==> s@ == decode_utf8(bytes@),
{
    String::from_utf8_lossy(bytes).into_owned()
}

/// The payloads of the `data: ` lines of one chunk of an upstream event
/// stream, read as UTF-8 with invalid sequences replaced.
pub fn chunk_data_lines(bytes: &[u8]) -> (r: Vec<String>)
    ensures
        string_views(r@) == data_payloads(lines_of(utf8_lossy(bytes@))),
        valid_utf8(bytes@) ==> string_views(r@) == data_payloads(lines_of(decode_utf8(bytes@))),
{
    let text = from_utf8_lossy(bytes);
    sse_data_lines(text.as_str())
}

} // verus!
