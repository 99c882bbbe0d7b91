//! Key-set handling: parsing a fetched response body into the ordered
//! key set, rendering a key set into `authorized_keys` file content, and
//! building the request URL and target path.

use vstd::prelude::*;
use vstd::string::*;

verus! {

/// Index of the first newline in `s`, or `s.len()` when there is none.
pub open spec fn line_break(s: Seq<char>) -> nat
    decreases s.len(),
{
    if s.len() == 0 {
        0
    } else if s[0] == '\n' {
        0
    } else {
        (1 + line_break(s.skip(1))) as nat
    }
}

/// A line with one trailing carriage return removed, as standard
/// line-splitting does for a `\r\n` ending.
pub open spec fn strip_cr(line: Seq<char>) -> Seq<char> {
    if line.len() > 0 && line.last() == '\r' {
        line.drop_last()
    } else {
        line
    }
}

/// Standard line-splitting semantics: the segments between newlines, a
/// `\r\n` ending treated as one line break, and no empty final element
/// when the text ends with a newline.
pub open spec fn lines_of(s: Seq<char>) -> Seq<Seq<char>>
    decreases s.len(),
{
    if s.len() == 0 {
        Seq::empty()
    } else {
        let k = line_break(s) as int;
        if k >= s.len() {
            seq![s]
        } else {
            seq![strip_cr(s.take(k))] + lines_of(s.skip(k + 1))
        }
    }
}

proof fn lemma_line_break_at(s: Seq<char>, k: int)
    requires
        0 <= k <= s.len(),
        forall|j: int| 0 <= j < k ==> s[j] != '\n',
        k < s.len() ==> s[k] == '\n',
    ensures
        line_break(s) == k,
    decreases k,
{
    if k == 0 {
    } else {
        assert(s[0] != '\n');
        assert forall|j: int| 0 <= j < k - 1 implies s.skip(1)[j] != '\n' by {
            assert(s.skip(1)[j] == s[j + 1]);
        }
        if k - 1 < s.skip(1).len() {
            assert(s.skip(1)[k - 1] == s[k]);
        }
        lemma_line_break_at(s.skip(1), k - 1);
    }
}

/// Splitting at the first newline peels off one line.
proof fn lemma_lines_of_step(s: Seq<char>, k: int)
    requires
        0 <= k < s.len(),
        s[k] == '\n',
        forall|j: int| 0 <= j < k ==> s[j] != '\n',
    ensures
        lines_of(s) == seq![strip_cr(s.take(k))] + lines_of(s.skip(k + 1)),
{
    lemma_line_break_at(s, k);
}

/// Text without any newline is one single line, kept as it stands.
proof fn lemma_lines_of_whole(s: Seq<char>)
    requires
        s.len() > 0,
        forall|j: int| 0 <= j < s.len() ==> s[j] != '\n',
    ensures
        lines_of(s) == seq![s],
{
    lemma_line_break_at(s, s.len() as int);
}

/// Parses a fetched response body into the ordered key set, one entry
/// per line, in source order, with no validation and no deduplication.
pub fn parse_keys(body: &str) -> (keys: Vec<String>)
    ensures
        keys.deep_view() == lines_of(body@),
{
    let n = body.unicode_len();
    let mut keys: Vec<String> = Vec::new();
    let mut start: usize = 0;
    let mut i: usize = 0;
    proof {
        assert(body@.skip(0) =~= body@);
        assert(keys.deep_view() =~= Seq::<Seq<char>>::empty());
        assert(keys.deep_view() + lines_of(body@) =~= lines_of(body@));
    }
    while i < n
        invariant
            n == body@.len(),
            0 <= start <= i <= n,
            forall|j: int| start <= j < i ==> body@[j] != '\n',
            lines_of(body@) == keys.deep_view() + lines_of(body@.skip(start as int)),
        decreases n - i,
    {
        if body.get_char(i) == '\n' {
            let line_end: usize = if i > start && body.get_char(i - 1) == '\r' {
                i - 1
            } else {
                i
            };
            let line = body.substring_char(start, line_end).to_owned();
            let ghost old_dv = keys.deep_view();
            proof {
                let suffix = body@.skip(start as int);
                assert forall|j: int| 0 <= j < i - start implies suffix[j] != '\n' by {
                    assert(suffix[j] == body@[start + j]);
                }
                assert(suffix[i - start] == body@[i as int]);
                lemma_lines_of_step(suffix, i - start);
                assert(suffix.take(i - start) =~= body@.subrange(start as int, i as int));
                assert(strip_cr(suffix.take(i - start)) =~= body@.subrange(
                    start as int,
                    line_end as int,
                ));
                assert(suffix.skip(i - start + 1) =~= body@.skip(i as int + 1));
            }
            keys.push(line);
            proof {
                assert(keys.deep_view() =~= old_dv.push(line@));
                assert(old_dv.push(line@) + lines_of(body@.skip(i as int + 1)) =~= old_dv + (seq![
                    line@,
                ] + lines_of(body@.skip(i as int + 1))));
            }
            start = i + 1;
        }
        i += 1;
    }
    if start < n {
        let line = body.substring_char(start, n).to_owned();
        let ghost old_dv = keys.deep_view();
        proof {
            let suffix = body@.skip(start as int);
            assert forall|j: int| 0 <= j < suffix.len() implies suffix[j] != '\n' by {
                assert(suffix[j] == body@[start + j]);
            }
            lemma_lines_of_whole(suffix);
        }
        keys.push(line);
        proof {
            assert(keys.deep_view() =~= old_dv.push(line@));
            assert(old_dv.push(line@) =~= old_dv + seq![body@.skip(start as int)]);
        }
    } else {
        proof {
            assert(body@.skip(start as int) =~= Seq::<char>::empty());
            assert(keys.deep_view() + lines_of(Seq::<char>::empty()) =~= keys.deep_view());
        }
    }
    keys
}

/// The file content for a key set: every key followed by one newline,
/// in the given order, nothing else.
pub open spec fn rendered(keys: Seq<Seq<char>>) -> Seq<char>
    decreases keys.len(),
{
    if keys.len() == 0 {
        Seq::empty()
    } else {
        keys[0] + seq!['\n'] + rendered(keys.skip(1))
    }
}

proof fn lemma_rendered_push(keys: Seq<Seq<char>>, key: Seq<char>)
    ensures
        rendered(keys.push(key)) == rendered(keys) + key + seq!['\n'],
    decreases keys.len(),
{
    if keys.len() == 0 {
        assert(keys.push(key).skip(1) =~= Seq::<Seq<char>>::empty());
        assert(rendered(Seq::<Seq<char>>::empty()) == Seq::<char>::empty());
        assert(keys.push(key)[0] == key);
        assert(rendered(keys.push(key)) == key + seq!['\n'] + Seq::<char>::empty());
        assert(rendered(keys) == Seq::<char>::empty());
        assert(key + seq!['\n'] + Seq::<char>::empty() =~= Seq::<char>::empty() + key + seq![
            '\n',
        ]);
    } else {
        assert(keys.push(key).skip(1) =~= keys.skip(1).push(key));
        lemma_rendered_push(keys.skip(1), key);
        assert(keys.push(key)[0] == keys[0]);
        assert(rendered(keys.push(key)) == keys[0] + seq!['\n'] + (rendered(keys.skip(1)) + key
            + seq!['\n']));
        assert(rendered(keys) == keys[0] + seq!['\n'] + rendered(keys.skip(1)));
        assert(keys[0] + seq!['\n'] + (rendered(keys.skip(1)) + key + seq!['\n']) =~= (keys[0]
            + seq!['\n'] + rendered(keys.skip(1))) + key + seq!['\n']);
    }
}

/// Renders a key set into the exact bytes written to `authorized_keys`.
pub fn render_keys(keys: &Vec<String>) -> (content: String)
    ensures
        content@ == rendered(keys.deep_view()),
{
    let mut content = String::new();
    let mut i: usize = 0;
    while i < keys.len()
        invariant
            0 <= i <= keys@.len(),
            content@ == rendered(keys.deep_view().take(i as int)),
        decreases keys@.len() - i,
    {
        content.append(keys[i].as_str());
        content.append("\n");
        proof {
            reveal_strlit("\n");
            assert(("\n")@ =~= seq!['\n']);
            let dv = keys.deep_view();
            assert(dv.take(i as int).push(dv[i as int]) =~= dv.take(i as int + 1));
            lemma_rendered_push(dv.take(i as int), dv[i as int]);
        }
        i += 1;
    }
    proof {
        assert(keys.deep_view().take(keys@.len() as int) =~= keys.deep_view());
    }
    content
}

/// The request URL for one remote identity: `{base}/{identity}.keys`.
pub open spec fn keys_url_spec(base: Seq<char>, identity: Seq<char>) -> Seq<char> {
    base + "/"@ + identity + ".keys"@
}

pub fn keys_url(base: &str, identity: &str) -> (url: String)
    ensures
        url@ == keys_url_spec(base@, identity@),
{
    let mut url = base.to_owned();
    url.append("/");
    url.append(identity);
    url.append(".keys");
    url
}

/// The target path under one user's home: `{home}/.ssh/authorized_keys`.
pub open spec fn authorized_keys_path_spec(home: Seq<char>) -> Seq<char> {
    home + "/.ssh/authorized_keys"@
}

pub fn authorized_keys_path(home: &str) -> (path: String)
    ensures
        path@ == authorized_keys_path_spec(home@),
{
    let mut path = home.to_owned();
    path.append("/.ssh/authorized_keys");
    path
}

} // verus!
