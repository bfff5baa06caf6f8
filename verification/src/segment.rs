use vstd::prelude::*;
use vstd::string::StrSliceExecFns;

verus! {

/// The three line-separation display modes: render the text as one block,
/// render every newline-terminated segment as its own block, or render only
/// the segments that carry content.
#[derive(PartialEq, Eq, Structural, Clone, Copy, Debug)]
pub enum LineSeparation {
    Off,
    AlphaNumeric,
    All,
}

/// Whether a segment carries any content of its own, that is, any character
/// besides newlines. This is the test of the content-sensitive separation mode:
/// the bare segment between two adjacent newlines is dropped, a segment with
/// any other character is kept.
pub open spec fn spec_has_alphanumeric(buffer: Seq<char>) -> bool {
    exists|i: int| 0 <= i < buffer.len() && buffer[i] != '\n'
}

/// The content test as a function value, for filtering segment sequences.
pub open spec fn content_test() -> spec_fn(Seq<char>) -> bool {
    |s: Seq<char>| spec_has_alphanumeric(s)
}

/// Whether the buffered segment carries any character besides newlines.
pub fn has_alphanumeric(buffer: &Vec<char>) -> (r: bool)
    ensures
        r == spec_has_alphanumeric(buffer@),
{
    let n = buffer.len();
    let mut i: usize = 0;
    while i < n
        invariant
            0 <= i <= n,
            n == buffer@.len(),
            forall|j: int| 0 <= j < i ==> buffer@[j] == '\n',
        decreases n - i,
    {
        if buffer[i] != '\n' {
            return true;
        }
        i = i + 1;
    }
    false
}

/// The newline-terminated segments of `text`, given the characters `buf`
/// already read of the current segment: each '\n' closes the segment built so
/// far (the '\n' included); characters after the last '\n' belong to no
/// segment.
pub open spec fn segments_from(text: Seq<char>, buf: Seq<char>) -> Seq<Seq<char>>
    decreases text.len(),
{
    if text.len() == 0 {
        Seq::empty()
    } else if text[0] == '\n' {
        seq![buf.push('\n')] + segments_from(text.drop_first(), Seq::empty())
    } else {
        segments_from(text.drop_first(), buf.push(text[0]))
    }
}

/// The newline-terminated segments of `text`.
pub open spec fn spec_segments(text: Seq<char>) -> Seq<Seq<char>> {
    segments_from(text, Seq::empty())
}

proof fn lemma_segments_from_shape(text: Seq<char>, buf: Seq<char>)
    requires
        forall|j: int| 0 <= j < buf.len() ==> buf[j] != '\n',
    ensures
        forall|k: int|
            #![trigger segments_from(text, buf)[k]]
            0 <= k < segments_from(text, buf).len() ==> {
                let s = segments_from(text, buf)[k];
                &&& s.len() > 0
                &&& s[s.len() - 1] == '\n'
                &&& forall|j: int| 0 <= j < s.len() - 1 ==> s[j] != '\n'
            },
    decreases text.len(),
{
    if text.len() > 0 {
        if text[0] == '\n' {
            lemma_segments_from_shape(text.drop_first(), Seq::empty());
            assert forall|k: int|
                0 <= k < segments_from(text, buf).len() implies {
                let s = #[trigger] segments_from(text, buf)[k];
                &&& s.len() > 0
                &&& s[s.len() - 1] == '\n'
                &&& forall|j: int| 0 <= j < s.len() - 1 ==> s[j] != '\n'
            } by {
                if k == 0 {
                    assert(segments_from(text, buf)[0] == buf.push('\n'));
                    assert(forall|j: int|
                        0 <= j < buf.push('\n').len() - 1 ==> buf.push('\n')[j] == buf[j]);
                } else {
                    assert(segments_from(text, buf)[k] == segments_from(
                        text.drop_first(),
                        Seq::empty(),
                    )[k - 1]);
                }
            }
        } else {
            lemma_segments_from_shape(text.drop_first(), buf.push(text[0]));
            assert(segments_from(text, buf) == segments_from(
                text.drop_first(),
                buf.push(text[0]),
            ));
        }
    }
}

/// Law: every segment ends with the newline that closed it and holds no
/// newline anywhere else, so splitting a snapshot never splits mid-character
/// runs nor merges two lines.
pub proof fn lemma_segments_shape(text: Seq<char>)
    ensures
        forall|k: int|
            #![trigger spec_segments(text)[k]]
            0 <= k < spec_segments(text).len() ==> {
                let s = spec_segments(text)[k];
                &&& s.len() > 0
                &&& s[s.len() - 1] == '\n'
                &&& forall|j: int| 0 <= j < s.len() - 1 ==> s[j] != '\n'
            },
{
    lemma_segments_from_shape(text, Seq::empty());
}

/// The segments a separation mode renders: none when separation is off, every
/// segment in the all-lines mode, and only those with content otherwise.
pub open spec fn spec_separated(text: Seq<char>, mode: LineSeparation) -> Seq<Seq<char>> {
    match mode {
        LineSeparation::Off => Seq::empty(),
        LineSeparation::All => spec_segments(text),
        LineSeparation::AlphaNumeric => spec_segments(text).filter(content_test()),
    }
}

/// Relies on String::push: it appends the one character to the string.
#[verifier::external_body]
fn push_char(s: &mut String, c: char)
    ensures
        final(s)@ == old(s)@.push(c),
{
    s.push(c);
}

/// The characters of `s`, as a vector.
fn text_chars(s: &String) -> (v: Vec<char>)
    ensures
        v@ == s@,
{
    let st = s.as_str();
    let n = st.unicode_len();
    let mut v: Vec<char> = Vec::new();
    let mut i: usize = 0;
    while i < n
        invariant
            0 <= i <= n,
            n == st@.len(),
            st@ == s@,
            v@ == s@.take(i as int),
        decreases n - i,
    {
        let c = st.get_char(i);
        v.push(c);
        proof {
            assert(s@.take(i + 1 as int) =~= s@.take(i as int).push(s@[i as int]));
        }
        i = i + 1;
    }
    proof {
        assert(s@.take(n as int) =~= s@);
    }
    v
}

/// A string holding exactly the given characters.
fn chars_to_string(v: &Vec<char>) -> (s: String)
    ensures
        s@ == v@,
{
    let n = v.len();
    let mut s = String::new();
    let mut i: usize = 0;
    proof {
        assert(s@ =~= v@.take(0));
    }
    while i < n
        invariant
            0 <= i <= n,
            n == v@.len(),
            s@ == v@.take(i as int),
        decreases n - i,
    {
        push_char(&mut s, v[i]);
        proof {
            assert(v@.take(i + 1 as int) =~= v@.take(i as int).push(v@[i as int]));
        }
        i = i + 1;
    }
    proof {
        assert(v@.take(n as int) =~= v@);
    }
    s
}

/// Walks the text once, closing a segment at every newline; a closed segment
/// becomes a block either unconditionally or only when it carries content.
fn separate_lines(text: &String, content_only: bool) -> (out: Vec<String>)
    ensures
        content_only ==> out.deep_view() == spec_segments(text@).filter(content_test()),
        !content_only ==> out.deep_view() == spec_segments(text@),
{
    let chars = text_chars(text);
    let n = chars.len();
    let mut out: Vec<String> = Vec::new();
    let mut buf: Vec<char> = Vec::new();
    let mut i: usize = 0;
    let ghost mut gsegs: Seq<Seq<char>> = Seq::empty();
    proof {
        assert(chars@.skip(0) =~= chars@);
        assert(out.deep_view() =~= Seq::<Seq<char>>::empty());
        assert(Seq::<Seq<char>>::empty().filter(content_test()) =~= Seq::<Seq<char>>::empty());
    }
    while i < n
        invariant
            0 <= i <= n,
            n == chars@.len(),
            chars@ == text@,
            spec_segments(text@) == gsegs + segments_from(chars@.skip(i as int), buf@),
            content_only ==> out.deep_view() == gsegs.filter(content_test()),
            !content_only ==> out.deep_view() == gsegs,
        decreases n - i,
    {
        proof {
            assert(chars@.skip(i as int)[0] == chars@[i as int]);
            assert(chars@.skip(i as int).drop_first() =~= chars@.skip(i + 1 as int));
        }
        let c = chars[i];
        buf.push(c);
        if c == '\n' {
            let ghost closed = buf@;
            proof {
                assert(gsegs.push(closed) + segments_from(chars@.skip(i + 1 as int), Seq::empty())
                    =~= gsegs + (seq![closed] + segments_from(
                    chars@.skip(i + 1 as int),
                    Seq::empty(),
                )));
                gsegs.lemma_filter_push(closed, content_test());
            }
            let emit = if content_only {
                has_alphanumeric(&buf)
            } else {
                true
            };
            if emit {
                let ghost old_out = out.deep_view();
                let s = chars_to_string(&buf);
                out.push(s);
                proof {
                    assert(out.deep_view() =~= old_out.push(closed));
                }
            }
            buf = Vec::new();
            proof {
                gsegs = gsegs.push(closed);
            }
        }
        i = i + 1;
    }
    proof {
        assert(gsegs + segments_from(chars@.skip(n as int), buf@) =~= gsegs);
    }
    out
}

/// The blocks the chosen separation mode renders out of the current snapshot:
/// every newline-terminated segment in the all-lines mode, only the content-carrying
/// segments in the content-sensitive mode, and none when separation is off.
pub fn make_separate(text: &String, line_separation: LineSeparation) -> (out: Vec<String>)
    ensures
        out.deep_view() == spec_separated(text@, line_separation),
{
    match line_separation {
        LineSeparation::Off => {
            let out: Vec<String> = Vec::new();
            proof {
                assert(out.deep_view() =~= Seq::<Seq<char>>::empty());
            }
            out
        },
        LineSeparation::All => separate_lines(text, false),
        LineSeparation::AlphaNumeric => separate_lines(text, true),
    }
}

} // verus!
