//! Texts: comparison, lists in messages, bytes, and lines.
use vstd::prelude::*;
use vstd::utf8::{
    decode_utf8, encode_utf8, encode_utf8_decode_utf8, encode_utf8_valid_utf8, valid_utf8,
};

verus! {

/// A `Result` whose error is a message, by the content of either side.
pub open spec fn result_view<T: DeepView>(result: Result<T, String>) -> Result<T::V, Seq<char>> {
    match result {
        Ok(value) => Ok(value.deep_view()),
        Err(message) => Err(message@),
    }
}

/// Whether two texts are the same.
pub fn same_text(left: &str, right: &str) -> (same: bool)
    ensures
        same == (left@ == right@),
{
    left.to_string() == right.to_string()
}

/// A text between double quotes, with what cannot stand there escaped.
pub uninterp spec fn quoted(text: Seq<char>) -> Seq<char>;

/// `format!` with `{:?}` on a `String`: the text between double quotes, escaped as
/// `str`'s `Debug` does it. Which characters are escaped, and how, is left to its name.
#[verifier::external_body]
pub(crate) fn quote(text: &String) -> (result: String)
    ensures
        result@ == quoted(text@),
{
    format!("{:?}", text)
}

/// Texts, separated by commas.
pub open spec fn listed(texts: Seq<Seq<char>>) -> Seq<char>
    decreases texts.len(),
{
    if texts.len() == 0 {
        Seq::empty()
    } else if texts.len() == 1 {
        texts[0]
    } else {
        listed(texts.drop_last()) + ", "@ + texts.last()
    }
}

/// A list of texts as messages show it: separated by commas, in square brackets.
pub open spec fn bracketed(texts: Seq<Seq<char>>) -> Seq<char> {
    "["@ + listed(texts) + "]"@
}

/// A list of texts is shown in its order: nothing between the brackets for none, a text as it stands
/// for one, and what stands for two parts of the list with a comma and a space between them.
pub proof fn lists_are_shown_in_order(first: Seq<Seq<char>>, second: Seq<Seq<char>>, text: Seq<char>)
    ensures
        bracketed(seq![]) == "[]"@,
        bracketed(seq![text]) == "["@ + text + "]"@,
        listed(seq![text]) == text,
        first.len() > 0 && second.len() > 0 ==> bracketed(first + second) == "["@ + (listed(first)
            + ", "@ + listed(second)) + "]"@,
{
    reveal_strlit("[");
    reveal_strlit("]");
    reveal_strlit("[]");
    assert(bracketed(seq![]) =~= "[]"@);
    if first.len() > 0 && second.len() > 0 {
        lemma_listed(first, second);
    }
}

proof fn lemma_listed(first: Seq<Seq<char>>, second: Seq<Seq<char>>)
    requires
        first.len() > 0,
        second.len() > 0,
    ensures
        listed(first + second) == listed(first) + ", "@ + listed(second),
    decreases second.len(),
{
    let all = first + second;
    assert(all.drop_last() =~= first + second.drop_last());
    if second.len() == 1 {
        assert(first + second.drop_last() =~= first);
    } else {
        lemma_listed(first, second.drop_last());
        assert(listed(all) =~= listed(first) + ", "@ + listed(second));
    }
}

/// A list of texts as messages show it.
pub fn bracket_list(texts: &Vec<String>) -> (result: String)
    ensures
        result@ == bracketed(texts.deep_view()),
{
    let mut result = "[".to_string();
    let ghost all = texts.deep_view();
    for i in 0..texts.len()
        invariant
            all == texts.deep_view(),
            result@ == "["@ + listed(all.take(i as int)),
    {
        if i > 0 {
            result.append(", ");
        }
        result.append(texts[i].as_str());
        proof {
            let next = all.take(i + 1);
            assert(next.drop_last() =~= all.take(i as int));
            assert(next.last() == texts[i as int]@);
            assert(result@ =~= "["@ + listed(next));
        }
    }
    proof {
        assert(all.take(texts.len() as int) =~= all);
    }
    result.append("]");
    result
}

/// The text of bytes that are not UTF-8, with replacement characters where they are not.
pub uninterp spec fn lossy_text(bytes: Seq<u8>) -> Seq<char>;

/// The text of bytes: what they encode, if they are UTF-8.
pub open spec fn text_of_bytes(bytes: Seq<u8>) -> Seq<char> {
    if valid_utf8(bytes) {
        decode_utf8(bytes)
    } else {
        lossy_text(bytes)
    }
}

/// The bytes that encode a text are read as that text.
pub proof fn encoded_text_is_read_back(text: Seq<char>, bytes: Seq<u8>)
    ensures
        text_of_bytes(encode_utf8(text)) == text,
        !valid_utf8(bytes) ==> text_of_bytes(bytes) == lossy_text(bytes),
{
    encode_utf8_valid_utf8(text);
    encode_utf8_decode_utf8(text);
}

/// `String::from_utf8_lossy`: the text that UTF-8 bytes encode. How much of other bytes one
/// replacement character stands for is left to its name.
#[verifier::external_body]
pub(crate) fn decode_lossy(bytes: &Vec<u8>) -> (text: String)
    ensures
        valid_utf8(bytes@) ==> text@ == decode_utf8(bytes@),
        !valid_utf8(bytes@) ==> text@ == lossy_text(bytes@),
{
    String::from_utf8_lossy(bytes).into_owned()
}

/// A line without the carriage return that a line feed may follow.
pub open spec fn without_return(line: Seq<char>) -> Seq<char> {
    if line.len() > 0 && line.last() == '\r' {
        line.drop_last()
    } else {
        line
    }
}

/// The lines of a text. A line ends at a line feed, or at a carriage return that a line feed
/// follows; the last one may have no ending. A carriage return elsewhere belongs to its line.
pub open spec fn lines_of(text: Seq<char>) -> Seq<Seq<char>>
    decreases text.len(),
{
    if text.len() == 0 {
        Seq::empty()
    } else {
        proof {
            text.index_of_first_ensures('\n');
        }
        match text.index_of_first('\n') {
            Some(end) => seq![without_return(text.take(end))] + lines_of(text.skip(end + 1)),
            None => seq![text],
        }
    }
}

/// The lines of a text.
pub fn lines(text: &str) -> (result: Vec<String>)
    ensures
        result.deep_view() == lines_of(text@),
{
    let mut letters: Vec<char> = Vec::new();
    for letter in walk: text.chars()
        invariant
            letters@ == walk.seq().take(walk.index()),
            walk.seq() == text@,
    {
        letters.push(letter);
        proof {
            assert(walk.seq().take(walk.index() + 1) =~= walk.seq().take(walk.index()).push(
                letter,
            ));
        }
    }
    assert(letters@ =~= text@);
    let mut result: Vec<String> = Vec::new();
    let mut start: usize = 0;
    proof {
        assert(text@.skip(0) =~= text@);
        assert(result.deep_view() + lines_of(text@) =~= lines_of(text@));
    }
    for end in 0..letters.len()
        invariant
            letters@ == text@,
            start <= end,
            forall|k: int| start <= k < end ==> text@[k] != '\n',
            lines_of(text@) == result.deep_view() + lines_of(text@.skip(start as int)),
    {
        if letters[end] == '\n' {
            let stop: usize = if end > start && letters[end - 1] == '\r' {
                end - 1
            } else {
                end
            };
            let line = text.substring_char(start, stop).to_string();
            proof {
                lemma_first_line(text@, start as int, end as int);
                assert(line@ =~= without_return(text@.subrange(start as int, end as int)));
            }
            let ghost before = result.deep_view();
            result.push(line);
            proof {
                assert(result.deep_view() =~= before.push(line@));
                assert(before + (seq![line@] + lines_of(text@.skip(end + 1)))
                    =~= result.deep_view() + lines_of(text@.skip(end + 1)));
            }
            start = end + 1;
        }
    }
    if start < letters.len() {
        let line = text.substring_char(start, letters.len()).to_string();
        let ghost before = result.deep_view();
        result.push(line);
        proof {
            let rest = text@.skip(start as int);
            rest.index_of_first_ensures('\n');
            assert(line@ =~= rest);
            assert(lines_of(rest) =~= seq![line@]);
            assert(result.deep_view() =~= before + seq![line@]);
        }
    } else {
        assert(lines_of(text@.skip(start as int)) =~= Seq::empty());
        assert(result.deep_view() =~= lines_of(text@));
    }
    result
}

/// A line and the line feed after it are the first of the lines.
pub proof fn lines_end_at_feeds(line: Seq<char>, rest: Seq<char>)
    requires
        !line.contains('\n'),
    ensures
        lines_of(line + seq!['\n'] + rest) == seq![without_return(line)] + lines_of(rest),
{
    let text = line + seq!['\n'] + rest;
    let end = line.len() as int;
    assert forall|k: int| 0 <= k < end implies text[k] != '\n' by {
        assert(text[k] == line[k]);
        assert(line.contains(line[k]));
    }
    lemma_first_line(text, 0, end);
    assert(text.skip(0) =~= text);
    assert(text.subrange(0, end) =~= line);
    assert(text.skip(end + 1) =~= rest);
}

/// A text without a line feed is one line, as it stands, unless it is empty. Before a line feed one
/// carriage return, and no more, is left out of the line.
pub proof fn carriage_returns_end_lines(line: Seq<char>, rest: Seq<char>)
    requires
        !line.contains('\n'),
    ensures
        lines_of(seq![]) == Seq::<Seq<char>>::empty(),
        line.len() > 0 ==> lines_of(line) == seq![line],
        lines_of(line + seq!['\r', '\n'] + rest) == seq![line] + lines_of(rest),
        line.len() == 0 || line.last() != '\r' ==> lines_of(line + seq!['\n'] + rest) == seq![line]
            + lines_of(rest),
{
    line.index_of_first_ensures('\n');
    lines_end_at_feeds(line, rest);
    let longer = line.push('\r');
    assert forall|i: int| 0 <= i < longer.len() implies longer[i] != '\n' by {
        if i < line.len() {
            assert(line.contains(line[i]));
        }
    }
    lines_end_at_feeds(longer, rest);
    assert(longer.drop_last() =~= line);
    assert(line + seq!['\r', '\n'] + rest =~= longer + seq!['\n'] + rest);
}

/// Whether a text is made of whole lines: it is empty, or a line feed ends it.
pub open spec fn whole_lines(text: Seq<char>) -> bool {
    text.len() > 0 ==> text.last() == '\n'
}

/// The lines of two texts, the first made of whole lines, are those of the first and those of the
/// second.
pub proof fn lines_of_parts(first: Seq<char>, second: Seq<char>)
    requires
        whole_lines(first),
    ensures
        lines_of(first + second) == lines_of(first) + lines_of(second),
    decreases first.len(),
{
    if first.len() == 0 {
        assert(first + second =~= second);
        assert(lines_of(first) + lines_of(second) =~= lines_of(second));
    } else {
        first.index_of_first_ensures('\n');
        assert(first.contains(first.last()));
        let end = first.index_of_first('\n')->0;
        let line = first.take(end);
        let rest = first.skip(end + 1);
        assert(first =~= line + seq!['\n'] + rest);
        assert(first + second =~= line + seq!['\n'] + (rest + second));
        lines_end_at_feeds(line, rest);
        lines_end_at_feeds(line, rest + second);
        lines_of_parts(rest, second);
        let front = seq![without_return(line)];
        assert(front + (lines_of(rest) + lines_of(second)) =~= front + lines_of(rest) + lines_of(
            second,
        ));
    }
}

/// No line holds a line feed.
pub proof fn lines_hold_no_feed(text: Seq<char>, i: int)
    requires
        0 <= i < lines_of(text).len(),
    ensures
        !lines_of(text)[i].contains('\n'),
    decreases text.len(),
{
    text.index_of_first_ensures('\n');
    match text.index_of_first('\n') {
        Some(end) => {
            if i > 0 {
                lines_hold_no_feed(text.skip(end + 1), i - 1);
            } else {
                let line = without_return(text.take(end));
                assert forall|k: int| 0 <= k < line.len() implies line[k] != '\n' by {
                    assert(line[k] == text[k]);
                }
            }
        },
        None => {},
    }
}

/// The first line of what follows `start` ends at the first line feed there.
proof fn lemma_first_line(text: Seq<char>, start: int, end: int)
    requires
        0 <= start <= end < text.len(),
        text[end] == '\n',
        forall|k: int| start <= k < end ==> text[k] != '\n',
    ensures
        lines_of(text.skip(start)) == seq![without_return(text.subrange(start, end))] + lines_of(
            text.skip(end + 1),
        ),
{
    let rest = text.skip(start);
    rest.index_of_first_ensures('\n');
    assert(rest[end - start] == '\n');
    let first = rest.index_of_first('\n')->0;
    assert(first == end - start) by {
        assert(text[start + first] == '\n');
    }
    assert(rest.take(end - start) =~= text.subrange(start, end));
    assert(rest.skip(end - start + 1) =~= text.skip(end + 1));
}

} // verus!
