//! Accepted public keys, read from lines in the `authorized_keys` style:
//! an optional key type, the base64 key, and an optional comment.

use vstd::prelude::*;

verus! {

/// Whether `c` has the Unicode `White_Space` property, the test that
/// separates words.
pub open spec fn is_blank(c: char) -> bool {
    ||| '\u{9}' <= c && c <= '\u{d}'
    ||| c == ' '
    ||| c == '\u{85}'
    ||| c == '\u{a0}'
    ||| c == '\u{1680}'
    ||| '\u{2000}' <= c && c <= '\u{200a}'
    ||| c == '\u{2028}'
    ||| c == '\u{2029}'
    ||| c == '\u{202f}'
    ||| c == '\u{205f}'
    ||| c == '\u{3000}'
}

/// The words of `s`: its maximal runs of non-blank characters, in order.
pub open spec fn words(s: Seq<char>) -> Seq<Seq<char>>
    decreases s.len(),
{
    if s.len() == 0 {
        Seq::empty()
    } else {
        let w = words(s.drop_last());
        let c = s.last();
        if is_blank(c) {
            w
        } else if s.len() >= 2 && !is_blank(s[s.len() - 2]) {
            w.drop_last().push(w.last().push(c))
        } else {
            w.push(seq![c])
        }
    }
}

/// The word of a key line that holds the key: the second word where there
/// are two or more (the first names the key type), else the only one.
pub open spec fn key_word(line: Seq<char>) -> Option<Seq<char>> {
    let w = words(line);
    if w.len() >= 2 {
        Some(w[1])
    } else if w.len() == 1 {
        Some(w[0])
    } else {
        None
    }
}

/// The wire encoding of the public key that a base64 text decodes to, when it
/// decodes to a key of a supported type.
pub uninterp spec fn key_blob_of(text: Seq<char>) -> Option<Seq<u8>>;

/// Why a key line was not taken.
#[derive(PartialEq, Eq, Structural, Clone, Copy, Debug)]
pub enum KeyError {
    /// The line holds no word at all.
    Empty,
    /// The key word is not a base64 public key of a supported type.
    Malformed,
}

/// Relies on `russh_keys::parse_public_key_base64`, and hands the parsed key
/// out as its wire encoding (`PublicKeyBase64::public_key_bytes`); the result
/// depends on the text alone.
#[verifier::external_body]
fn decode_public_key(text: &str) -> (r: Option<Vec<u8>>)
    ensures
        match r {
            Some(b) => key_blob_of(text@) == Some(b@),
            None => key_blob_of(text@) is None,
        },
{
    russh_keys::parse_public_key_base64(text).ok().map(
        |k| russh_keys::PublicKeyBase64::public_key_bytes(&k),
    )
}

fn blank(c: char) -> (r: bool)
    ensures
        r == is_blank(c),
{
    ('\u{9}' <= c && c <= '\u{d}') || c == ' ' || c == '\u{85}' || c == '\u{a0}' || c
        == '\u{1680}' || ('\u{2000}' <= c && c <= '\u{200a}') || c == '\u{2028}' || c == '\u{2029}'
        || c == '\u{202f}' || c == '\u{205f}' || c == '\u{3000}'
}

/// The views of a list of strings.
pub open spec fn views(v: Seq<String>) -> Seq<Seq<char>> {
    v.map_values(|s: String| s@)
}

/// Splits a line into its words.
pub fn split_words(s: &str) -> (r: Vec<String>)
    ensures
        views(r@) == words(s@),
{
    let len = s.unicode_len();
    let mut out: Vec<String> = Vec::new();
    let mut start: usize = 0;
    let mut in_word = false;
    let mut i: usize = 0;
    while i < len
        invariant
            len == s@.len(),
            0 <= start <= i <= len,
            in_word ==> start < i && !is_blank(s@[i - 1]),
            !in_word ==> (i == 0 || is_blank(s@[i - 1])),
            words(s@.take(i as int)) == (if in_word {
                views(out@).push(s@.subrange(start as int, i as int))
            } else {
                views(out@)
            }),
        decreases len - i,
    {
        let c = s.get_char(i);
        let ghost t = s@.take(i + 1);
        let ghost before = views(out@);
        assert(t.drop_last() =~= s@.take(i as int));
        assert(t.last() == c);
        if blank(c) {
            if in_word {
                let w = s.substring_char(start, i);
                out.push(w.to_owned());
                assert(views(out@) =~= before.push(s@.subrange(start as int, i as int)));
            }
            in_word = false;
        } else {
            if !in_word {
                start = i;
                in_word = true;
                assert(s@.subrange(i as int, i + 1) =~= seq![c]);
            } else {
                assert(t[t.len() - 2] == s@[i - 1]);
                assert(s@.subrange(start as int, i + 1) =~= s@.subrange(start as int, i as int).push(c));
            }
        }
        i = i + 1;
    }
    if in_word {
        let ghost before = views(out@);
        let w = s.substring_char(start, len);
        out.push(w.to_owned());
        assert(views(out@) =~= before.push(s@.subrange(start as int, len as int)));
    }
    assert(s@.take(len as int) =~= s@);
    out
}

/// Reads the key of one key line, as its wire encoding.
pub fn parse_key(full_key: &str) -> (r: Result<Vec<u8>, KeyError>)
    ensures
        match key_word(full_key@) {
            None => r == Err::<Vec<u8>, KeyError>(KeyError::Empty),
            Some(w) => match key_blob_of(w) {
                Some(b) => r matches Ok(v) && v@ == b,
                None => r == Err::<Vec<u8>, KeyError>(KeyError::Malformed),
            },
        },
{
    let words = split_words(full_key);
    let word = if words.len() >= 2 {
        &words[1]
    } else if words.len() == 1 {
        &words[0]
    } else {
        return Err(KeyError::Empty);
    };
    match decode_public_key(word.as_str()) {
        Some(b) => Ok(b),
        None => Err(KeyError::Malformed),
    }
}

/// The keys of those lines that hold one, in the order of the lines.
pub open spec fn keys_of(lines: Seq<Seq<char>>) -> Seq<Seq<u8>>
    decreases lines.len(),
{
    if lines.len() == 0 {
        Seq::empty()
    } else {
        let earlier = keys_of(lines.drop_last());
        match key_word(lines.last()) {
            Some(w) => match key_blob_of(w) {
                Some(b) => earlier.push(b),
                None => earlier,
            },
            None => earlier,
        }
    }
}

/// The views of a list of byte vectors.
pub open spec fn blob_views(v: Seq<Vec<u8>>) -> Seq<Seq<u8>> {
    v.map_values(|b: Vec<u8>| b@)
}

/// The keys of a list of key lines; a line without a readable key is
/// skipped.
pub fn accepted_keys(lines: &Vec<String>) -> (r: Vec<Vec<u8>>)
    ensures
        blob_views(r@) == keys_of(views(lines@)),
{
    let mut out: Vec<Vec<u8>> = Vec::new();
    let mut i: usize = 0;
    while i < lines.len()
        invariant
            0 <= i <= lines@.len(),
            blob_views(out@) == keys_of(views(lines@.take(i as int))),
        decreases lines@.len() - i,
    {
        let ghost before = blob_views(out@);
        let ghost t = views(lines@.take(i + 1));
        assert(t.drop_last() =~= views(lines@.take(i as int)));
        assert(t.last() == lines@[i as int]@);
        match parse_key(lines[i].as_str()) {
            Ok(b) => {
                out.push(b);
                assert(blob_views(out@) =~= before.push(out@.last()@));
            },
            Err(_) => {},
        }
        i = i + 1;
    }
    assert(lines@.take(lines@.len() as int) =~= lines@);
    out
}

/// A line without the carriage return of a `\r\n` ending.
pub open spec fn strip_cr(l: Seq<char>) -> Seq<char> {
    if l.len() > 0 && l.last() == '\r' {
        l.drop_last()
    } else {
        l
    }
}

/// Reading `s` from the start: the lines ended so far, and the line still
/// open.
pub open spec fn scan_lines(s: Seq<char>) -> (Seq<Seq<char>>, Seq<char>)
    decreases s.len(),
{
    if s.len() == 0 {
        (Seq::empty(), Seq::empty())
    } else {
        let (done, open) = scan_lines(s.drop_last());
        if s.last() == '\n' {
            (done.push(strip_cr(open)), Seq::empty())
        } else {
            (done, open.push(s.last()))
        }
    }
}

/// The lines of a text: each ends at a `\n` or `\r\n`, and the last one may
/// end with the text instead.
pub open spec fn lines_of(s: Seq<char>) -> Seq<Seq<char>> {
    let (done, open) = scan_lines(s);
    if open.len() > 0 {
        done.push(open)
    } else {
        done
    }
}

fn line_text(text: &str, start: usize, end: usize) -> (r: String)
    requires
        start <= end <= text@.len(),
    ensures
        r@ == strip_cr(text@.subrange(start as int, end as int)),
{
    if end > start && text.get_char(end - 1) == '\r' {
        text.substring_char(start, end - 1).to_owned()
    } else {
        text.substring_char(start, end).to_owned()
    }
}

/// Splits a text into its lines.
pub fn split_lines(text: &str) -> (r: Vec<String>)
    ensures
        views(r@) == lines_of(text@),
{
    let len = text.unicode_len();
    let mut out: Vec<String> = Vec::new();
    let mut start: usize = 0;
    let mut i: usize = 0;
    while i < len
        invariant
            len == text@.len(),
            0 <= start <= i <= len,
            scan_lines(text@.take(i as int)) == (views(out@), text@.subrange(start as int, i as int)),
        decreases len - i,
    {
        let c = text.get_char(i);
        let ghost t = text@.take(i + 1);
        let ghost before = views(out@);
        assert(t.drop_last() =~= text@.take(i as int));
        assert(t.last() == c);
        if c == '\n' {
            let line = line_text(text, start, i);
            out.push(line);
            assert(views(out@) =~= before.push(strip_cr(text@.subrange(start as int, i as int))));
            start = i + 1;
            assert(text@.subrange(start as int, i + 1) =~= Seq::<char>::empty());
        } else {
            assert(text@.subrange(start as int, i + 1) =~= text@.subrange(start as int, i as int).push(c));
        }
        i = i + 1;
    }
    assert(text@.take(len as int) =~= text@);
    if start < len {
        let ghost before = views(out@);
        out.push(text.substring_char(start, len).to_owned());
        assert(views(out@) =~= before.push(text@.subrange(start as int, len as int)));
    }
    out
}

/// The keys of an `authorized_keys` text, one key line per line; a line
/// without a readable key is skipped.
pub fn authorized_keys(text: &str) -> (r: Vec<Vec<u8>>)
    ensures
        blob_views(r@) == keys_of(lines_of(text@)),
{
    let lines = split_lines(text);
    accepted_keys(&lines)
}

} // verus!
