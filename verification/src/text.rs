//! Characters, lines and separators: the text operations the documents are
//! built from, each stated over sequences of characters.

use vstd::prelude::*;
use vstd::std_specs::iter::IteratorSpec;
use vstd::string::*;
use vstd::utf8::{decode_utf8, valid_utf8};

verus! {

/// Whether `c` is white space as Unicode defines it (the `White_Space` property).
pub open spec fn is_whitespace(c: char) -> bool {
    let u = c as u32;
    ||| 0x09 <= u <= 0x0D
    ||| u == 0x20
    ||| u == 0x85
    ||| u == 0xA0
    ||| u == 0x1680
    ||| 0x2000 <= u <= 0x200A
    ||| u == 0x2028
    ||| u == 0x2029
    ||| u == 0x202F
    ||| u == 0x205F
    ||| u == 0x3000
}

/// Tells white space from other characters.
pub fn is_whitespace_char(c: char) -> (r: bool)
    ensures
        r == is_whitespace(c),
{
    let u: u32 = c as u32;
    (0x09 <= u && u <= 0x0D) || u == 0x20 || u == 0x85 || u == 0xA0 || u == 0x1680 || (0x2000 <= u
        && u <= 0x200A) || u == 0x2028 || u == 0x2029 || u == 0x202F || u == 0x205F || u == 0x3000
}

/// The pieces of `s` between occurrences of `sep`, in order. There is one
/// piece more than there are separators, so a piece may be empty.
pub open spec fn split_on(s: Seq<char>, sep: char) -> Seq<Seq<char>>
    decreases s.len(),
{
    if s.len() == 0 {
        seq![Seq::<char>::empty()]
    } else {
        let head = split_on(s.drop_last(), sep);
        if s.last() == sep {
            head.push(Seq::<char>::empty())
        } else {
            head.drop_last().push(head.last().push(s.last()))
        }
    }
}

/// `parts` written one after another with `sep` between neighbours.
pub open spec fn join_with(parts: Seq<Seq<char>>, sep: Seq<char>) -> Seq<char>
    decreases parts.len(),
{
    if parts.len() == 0 {
        Seq::<char>::empty()
    } else if parts.len() == 1 {
        parts[0]
    } else {
        join_with(parts.drop_last(), sep) + sep + parts.last()
    }
}

/// A split always yields at least one piece.
pub proof fn lemma_split_nonempty(s: Seq<char>, sep: char)
    ensures
        split_on(s, sep).len() >= 1,
    decreases s.len(),
{
    if s.len() > 0 {
        lemma_split_nonempty(s.drop_last(), sep);
    }
}

/// No piece of a split holds the separator.
pub proof fn lemma_split_pieces_lack_sep(s: Seq<char>, sep: char)
    ensures
        forall|i: int, j: int|
            0 <= i < split_on(s, sep).len() && 0 <= j < split_on(s, sep)[i].len()
                ==> split_on(s, sep)[i][j] != sep,
    decreases s.len(),
{
    if s.len() > 0 {
        lemma_split_nonempty(s.drop_last(), sep);
        lemma_split_pieces_lack_sep(s.drop_last(), sep);
    }
}

/// Joining the pieces of a split with the separator gives the text back.
pub proof fn lemma_join_of_split(s: Seq<char>, sep: char)
    ensures
        join_with(split_on(s, sep), seq![sep]) == s,
    decreases s.len(),
{
    if s.len() > 0 {
        let t = s.drop_last();
        let head = split_on(t, sep);
        lemma_split_nonempty(t, sep);
        lemma_join_of_split(t, sep);
        if s.last() == sep {
            let all = head.push(Seq::<char>::empty());
            assert(all.drop_last() =~= head);
            assert(join_with(all, seq![sep]) =~= t + seq![sep]);
            assert(t + seq![sep] =~= s);
        } else {
            let grown = head.last().push(s.last());
            let all = head.drop_last().push(grown);
            assert(all.drop_last() =~= head.drop_last());
            if head.len() == 1 {
                assert(join_with(head, seq![sep]) == head[0]);
                assert(all[0] =~= t.push(s.last()));
                assert(t.push(s.last()) =~= s);
            } else {
                assert(join_with(head, seq![sep]) == join_with(head.drop_last(), seq![sep])
                    + seq![sep] + head.last());
                assert(join_with(all, seq![sep]) =~= join_with(head, seq![sep]).push(s.last()));
                assert(t.push(s.last()) =~= s);
            }
        }
    }
}

/// A text without the separator is its own single piece.
pub proof fn lemma_split_without_sep(s: Seq<char>, sep: char)
    requires
        forall|i: int| 0 <= i < s.len() ==> s[i] != sep,
    ensures
        split_on(s, sep) == seq![s],
    decreases s.len(),
{
    if s.len() == 0 {
        assert(seq![Seq::<char>::empty()] =~~= seq![s]);
    } else {
        let t = s.drop_last();
        lemma_split_without_sep(t, sep);
        assert(seq![t].drop_last().push(seq![t].last().push(s.last())) =~~= seq![s]);
    }
}

/// The pieces of two texts with a separator between them are the pieces of
/// the first and then those of the second.
pub proof fn lemma_split_of_joined(x: Seq<char>, y: Seq<char>, sep: char)
    ensures
        split_on(x + seq![sep] + y, sep) == split_on(x, sep) + split_on(y, sep),
    decreases y.len(),
{
    let whole = x + seq![sep] + y;
    let first = split_on(x, sep);
    if y.len() == 0 {
        assert(whole.drop_last() =~= x);
        assert(first.push(Seq::<char>::empty()) =~~= first + split_on(y, sep));
    } else {
        let before = split_on(y.drop_last(), sep);
        assert(whole.drop_last() =~= x + seq![sep] + y.drop_last());
        lemma_split_of_joined(x, y.drop_last(), sep);
        lemma_split_nonempty(y.drop_last(), sep);
        assert(whole.last() == y.last());
        if y.last() == sep {
            assert((first + before).push(Seq::<char>::empty()) =~~= first + before.push(
                Seq::<char>::empty(),
            ));
        } else {
            assert((first + before).drop_last().push((first + before).last().push(y.last()))
                =~~= first + before.drop_last().push(before.last().push(y.last())));
        }
    }
}

/// A character that a text lacks is in none of its pieces.
pub proof fn lemma_split_pieces_lack(s: Seq<char>, sep: char, c: char)
    requires
        forall|i: int| 0 <= i < s.len() ==> s[i] != c,
    ensures
        forall|i: int, j: int|
            0 <= i < split_on(s, sep).len() && 0 <= j < split_on(s, sep)[i].len()
                ==> split_on(s, sep)[i][j] != c,
    decreases s.len(),
{
    if s.len() > 0 {
        lemma_split_nonempty(s.drop_last(), sep);
        lemma_split_pieces_lack(s.drop_last(), sep, c);
    }
}

/// A character that is in no part and not in the separator is not in
/// what is joined of them.
pub proof fn lemma_join_lacks(parts: Seq<Seq<char>>, sep: Seq<char>, c: char)
    requires
        forall|i: int, j: int| 0 <= i < parts.len() && 0 <= j < parts[i].len() ==> parts[i][j] != c,
        forall|j: int| 0 <= j < sep.len() ==> sep[j] != c,
    ensures
        forall|k: int| 0 <= k < join_with(parts, sep).len() ==> join_with(parts, sep)[k] != c,
    decreases parts.len(),
{
    let joined = join_with(parts, sep);
    if parts.len() == 1 {
        assert forall|k: int| 0 <= k < joined.len() implies joined[k] != c by {
            assert(parts[0][k] != c);
        }
    } else if parts.len() > 1 {
        let before = parts.drop_last();
        let head = join_with(before, sep);
        assert forall|i: int, j: int|
            0 <= i < before.len() && 0 <= j < before[i].len() implies before[i][j] != c by {
            assert(before[i] == parts[i]);
            assert(parts[i][j] != c);
        }
        lemma_join_lacks(before, sep, c);
        assert forall|k: int| 0 <= k < joined.len() implies joined[k] != c by {
            if k < head.len() {
                assert(joined[k] == head[k]);
            } else if k < head.len() + sep.len() {
                assert(joined[k] == sep[k - head.len()]);
            } else {
                let last = parts.len() - 1;
                assert(joined[k] == parts[last][k - head.len() - sep.len()]);
                assert(parts[last][k - head.len() - sep.len()] != c);
            }
        }
    }
}

/// What is joined of two parts or more begins with the first part and the
/// separator, and goes on with what is joined of the other parts.
pub proof fn lemma_join_begins_with_first(parts: Seq<Seq<char>>, sep: Seq<char>)
    requires
        parts.len() >= 2,
    ensures
        join_with(parts, sep) == parts[0] + sep + join_with(parts.drop_first(), sep),
    decreases parts.len(),
{
    if parts.len() == 2 {
        assert(parts.drop_last() =~= seq![parts[0]]);
        assert(parts.drop_first() =~= seq![parts[1]]);
        assert(join_with(parts.drop_last(), sep) == parts[0]);
        assert(join_with(parts.drop_first(), sep) == parts[1]);
    } else {
        lemma_join_begins_with_first(parts.drop_last(), sep);
        assert(parts.drop_last().drop_first() =~= parts.drop_first().drop_last());
        assert(parts.drop_first().last() == parts.last());
        assert(join_with(parts, sep) =~= parts[0] + sep + join_with(parts.drop_first(), sep));
    }
}

/// Cuts `s` at every `sep`.
pub fn split(s: &str, sep: char) -> (out: Vec<String>)
    ensures
        out.deep_view() == split_on(s@, sep),
{
    let total = s.unicode_len();
    let mut out: Vec<String> = Vec::new();
    let mut it = s.chars();
    let mut start: usize = 0;
    let mut n: usize = 0;
    proof {
        assert(out.deep_view().push(s@.subrange(0, 0)) =~~= split_on(s@.take(0), sep));
    }
    while n < total
        invariant
            total == s@.len(),
            0 <= start <= n <= total,
            it.remaining() == s@.skip(n as int),
            out.deep_view().push(s@.subrange(start as int, n as int)) == split_on(
                s@.take(n as int),
                sep,
            ),
        decreases total - n,
    {
        let ghost before = out.deep_view().push(s@.subrange(start as int, n as int));
        let next = it.next();
        assert(next == Some(s@[n as int]));
        let c = next.unwrap();
        proof {
            assert(s@.take(n + 1).drop_last() =~= s@.take(n as int));
            assert(s@.take(n + 1).last() == c);
        }
        if c == sep {
            out.push(s.substring_char(start, n).to_owned());
            start = n + 1;
            assert(out.deep_view() =~= before);
            assert(out.deep_view().push(s@.subrange(start as int, n + 1)) =~~= before.push(
                Seq::<char>::empty(),
            ));
        } else {
            assert(out.deep_view().push(s@.subrange(start as int, n + 1))
                =~~= before.drop_last().push(before.last().push(c)));
        }
        n = n + 1;
    }
    let ghost before = out.deep_view().push(s@.subrange(start as int, n as int));
    out.push(s.substring_char(start, n).to_owned());
    proof {
        assert(out.deep_view() =~= before);
        assert(s@.take(n as int) =~= s@);
    }
    out
}

/// Writes `parts` one after another with `sep` between neighbours.
pub fn join(parts: &Vec<String>, sep: &str) -> (r: String)
    ensures
        r@ == join_with(parts.deep_view(), sep@),
{
    let mut r = String::new();
    let mut i: usize = 0;
    while i < parts.len()
        invariant
            0 <= i <= parts.len(),
            r@ == join_with(parts.deep_view().take(i as int), sep@),
        decreases parts.len() - i,
    {
        proof {
            let upto = parts.deep_view().take(i + 1);
            assert(upto.drop_last() =~= parts.deep_view().take(i as int));
            assert(upto.last() == parts[i as int]@);
        }
        if i > 0 {
            r.append(sep);
        }
        r.append(parts[i].as_str());
        i = i + 1;
    }
    proof {
        assert(parts.deep_view().take(i as int) =~= parts.deep_view());
    }
    r
}

/// `s` without the white space at its end.
pub open spec fn trim_end_of(s: Seq<char>) -> Seq<char>
    decreases s.len(),
{
    if s.len() > 0 && is_whitespace(s.last()) {
        trim_end_of(s.drop_last())
    } else {
        s
    }
}

/// The trimmed text is the shortest prefix after which only white space follows.
pub proof fn lemma_trim_end_is_prefix(s: Seq<char>, keep: int)
    requires
        0 <= keep <= s.len(),
        keep == 0 || !is_whitespace(s[keep - 1]),
        forall|j: int| keep <= j < s.len() ==> is_whitespace(#[trigger] s[j]),
    ensures
        trim_end_of(s) == s.take(keep),
    decreases s.len(),
{
    if keep == s.len() {
        assert(s.take(keep) =~= s);
    } else {
        lemma_trim_end_is_prefix(s.drop_last(), keep);
        assert(s.drop_last().take(keep) =~= s.take(keep));
    }
}

/// Trimmed text ends in a character that is not white space, if it has one.
pub proof fn lemma_trim_end_ends_dark(s: Seq<char>)
    ensures
        trim_end_of(s).len() <= s.len(),
        trim_end_of(s).len() > 0 ==> !is_whitespace(trim_end_of(s).last()),
    decreases s.len(),
{
    if s.len() > 0 && is_whitespace(s.last()) {
        lemma_trim_end_ends_dark(s.drop_last());
    }
}

/// Trimming keeps the text up to its last character that is not white space.
pub proof fn lemma_trim_end_keeps(s: Seq<char>, j: int)
    requires
        0 <= j < s.len(),
        !is_whitespace(s[j]),
    ensures
        j < trim_end_of(s).len() <= s.len(),
        trim_end_of(s) == s.take(trim_end_of(s).len() as int),
    decreases s.len(),
{
    if is_whitespace(s.last()) {
        lemma_trim_end_keeps(s.drop_last(), j);
        assert(s.drop_last().take(trim_end_of(s).len() as int) =~= s.take(
            trim_end_of(s).len() as int,
        ));
    } else {
        assert(s.take(s.len() as int) =~= s);
    }
}

/// What stands before a text is not touched when the text is trimmed, as
/// long as something of the text is left.
pub proof fn lemma_trim_end_after_prefix(p: Seq<char>, s: Seq<char>)
    requires
        trim_end_of(s).len() > 0,
    ensures
        trim_end_of(p + s) == p + trim_end_of(s),
    decreases s.len(),
{
    if s.len() > 0 && is_whitespace(s.last()) {
        assert((p + s).drop_last() =~= p + s.drop_last());
        lemma_trim_end_after_prefix(p, s.drop_last());
    }
}

/// Cuts the white space off the end of `s`.
pub fn trim_end(s: &str) -> (r: &str)
    ensures
        r@ == trim_end_of(s@),
{
    let total = s.unicode_len();
    let mut it = s.chars();
    let mut keep: usize = 0;
    let mut n: usize = 0;
    while n < total
        invariant
            total == s@.len(),
            0 <= keep <= n <= total,
            it.remaining() == s@.skip(n as int),
            keep == 0 || !is_whitespace(s@[keep - 1]),
            forall|j: int| keep <= j < n ==> is_whitespace(#[trigger] s@[j]),
        decreases total - n,
    {
        let next = it.next();
        assert(next == Some(s@[n as int]));
        let c = next.unwrap();
        n = n + 1;
        if !is_whitespace_char(c) {
            keep = n;
        }
    }
    proof {
        lemma_trim_end_is_prefix(s@, keep as int);
    }
    s.substring_char(0, keep)
}

/// How many blanks (U+0020) `s` begins with.
pub open spec fn leading_spaces(s: Seq<char>) -> nat
    decreases s.len(),
{
    if s.len() > 0 && s[0] == ' ' {
        1 + leading_spaces(s.drop_first())
    } else {
        0
    }
}

/// The count of leading blanks is where the first other character stands.
pub proof fn lemma_leading_spaces_is_run(s: Seq<char>, n: int)
    requires
        0 <= n <= s.len(),
        forall|j: int| 0 <= j < n ==> #[trigger] s[j] == ' ',
        n == s.len() || s[n] != ' ',
    ensures
        leading_spaces(s) == n,
    decreases s.len(),
{
    if n > 0 {
        assert(s[0] == ' ');
        let t = s.drop_first();
        assert forall|j: int| 0 <= j < n - 1 implies #[trigger] t[j] == ' ' by {
            assert(t[j] == s[j + 1]);
        }
        lemma_leading_spaces_is_run(t, n - 1);
    }
}

/// Counts the blanks `s` begins with.
pub fn count_leading_spaces(s: &str) -> (n: usize)
    ensures
        n == leading_spaces(s@),
{
    let total = s.unicode_len();
    let mut it = s.chars();
    let mut n: usize = 0;
    while n < total
        invariant_except_break
            it.remaining() == s@.skip(n as int),
        invariant
            total == s@.len(),
            0 <= n <= total,
            forall|j: int| 0 <= j < n ==> #[trigger] s@[j] == ' ',
        ensures
            0 <= n <= total,
            forall|j: int| 0 <= j < n ==> #[trigger] s@[j] == ' ',
            n == total || s@[n as int] != ' ',
        decreases total - n,
    {
        let next = it.next();
        assert(next == Some(s@[n as int]));
        if next.unwrap() != ' ' {
            break ;
        }
        n = n + 1;
    }
    proof {
        lemma_leading_spaces_is_run(s@, n as int);
    }
    n
}

/// `s` without its first `n` characters where these are all blanks, else `s` as it is.
pub open spec fn dedent(s: Seq<char>, n: nat) -> Seq<char> {
    if leading_spaces(s) >= n {
        s.skip(n as int)
    } else {
        s
    }
}

/// The count of leading blanks never exceeds the length.
pub proof fn lemma_leading_spaces_bound(s: Seq<char>)
    ensures
        leading_spaces(s) <= s.len(),
    decreases s.len(),
{
    if s.len() > 0 && s[0] == ' ' {
        lemma_leading_spaces_bound(s.drop_first());
    }
}

/// The leading blanks end before any character that is not a blank.
pub proof fn lemma_leading_spaces_stop(s: Seq<char>, j: int)
    requires
        0 <= j < s.len(),
        s[j] != ' ',
    ensures
        leading_spaces(s) <= j,
    decreases s.len(),
{
    if j > 0 && s[0] == ' ' {
        lemma_leading_spaces_stop(s.drop_first(), j - 1);
    }
}

/// Text that ends in a character that is not white space still does so
/// when its indentation is taken off.
pub proof fn lemma_dedent_keeps_the_end(s: Seq<char>, n: nat)
    requires
        s.len() > 0,
        !is_whitespace(s.last()),
    ensures
        dedent(s, n).len() > 0,
        dedent(s, n).last() == s.last(),
{
    lemma_leading_spaces_stop(s, s.len() - 1);
}

/// Takes an indentation of `n` blanks off `s`, if `s` has it.
pub fn strip_indent(s: &str, n: usize) -> (r: &str)
    ensures
        r@ == dedent(s@, n as nat),
{
    let have = count_leading_spaces(s);
    if have >= n {
        proof {
            lemma_leading_spaces_bound(s@);
        }
        let total = s.unicode_len();
        s.substring_char(n, total)
    } else {
        s
    }
}

/// Calls `String::from_utf8`. Trusted: bytes that are UTF-8 give the text
/// they encode, and any others give the error, of which only the message is
/// kept.
#[verifier::external_body]
pub(crate) fn string_from_utf8(bytes: Vec<u8>) -> (r: Result<String, String>)
    ensures
        r is Ok <==> valid_utf8(bytes@),
        r matches Ok(s) ==> s@ == decode_utf8(bytes@),
{
    String::from_utf8(bytes).map_err(|e| e.to_string())
}

/// The path of `child` under the directory `base`, where `/` parts directories:
/// a `child` that begins at the root stands for itself, and a `/` is put
/// between the two unless `base` is empty or ends in one.
pub open spec fn join_path_of(base: Seq<char>, child: Seq<char>) -> Seq<char> {
    if child.len() > 0 && child[0] == '/' {
        child
    } else if base.len() == 0 || base.last() == '/' {
        base + child
    } else {
        base + "/"@ + child
    }
}

/// Writes the path of `child` under the directory `base`.
pub fn join_path(base: &str, child: &str) -> (r: String)
    ensures
        r@ == join_path_of(base@, child@),
{
    if child.unicode_len() > 0 && child.get_char(0) == '/' {
        return child.to_owned();
    }
    let mut r = base.to_owned();
    let n = base.unicode_len();
    if n > 0 && base.get_char(n - 1) != '/' {
        r.append("/");
    }
    r.append(child);
    r
}

/// Copies a list of texts.
pub fn clone_strings(v: &Vec<String>) -> (r: Vec<String>)
    ensures
        r.deep_view() == v.deep_view(),
{
    let mut r: Vec<String> = Vec::new();
    let mut i: usize = 0;
    while i < v.len()
        invariant
            0 <= i <= v.len(),
            r.deep_view() == v.deep_view().take(i as int),
        decreases v.len() - i,
    {
        let ghost before = r.deep_view();
        r.push(v[i].clone());
        proof {
            assert(r.deep_view() =~= before.push(v[i as int]@));
            assert(before.push(v[i as int]@) =~= v.deep_view().take(i + 1));
        }
        i = i + 1;
    }
    proof {
        assert(v.deep_view().take(i as int) =~= v.deep_view());
    }
    r
}

/// Puts copies of the texts in `more` at the end of `v`.
pub fn extend_strings(v: &mut Vec<String>, more: &Vec<String>)
    ensures
        final(v).deep_view() == old(v).deep_view() + more.deep_view(),
{
    let mut i: usize = 0;
    while i < more.len()
        invariant
            0 <= i <= more.len(),
            v.deep_view() == old(v).deep_view() + more.deep_view().take(i as int),
        decreases more.len() - i,
    {
        let ghost before = v.deep_view();
        v.push(more[i].clone());
        proof {
            assert(v.deep_view() =~= before.push(more[i as int]@));
            assert(before.push(more[i as int]@) =~= old(v).deep_view() + more.deep_view().take(
                i + 1,
            ));
        }
        i = i + 1;
    }
    proof {
        assert(more.deep_view().take(i as int) =~= more.deep_view());
    }
}

/// The texts of `items` as a list.
pub fn strings_of(items: &[&str]) -> (r: Vec<String>)
    ensures
        r.deep_view() == items@.map_values(|s: &str| s@),
{
    let mut r: Vec<String> = Vec::new();
    let mut i: usize = 0;
    while i < items.len()
        invariant
            0 <= i <= items.len(),
            r.deep_view() == items@.map_values(|s: &str| s@).take(i as int),
        decreases items.len() - i,
    {
        let ghost before = r.deep_view();
        r.push(items[i].to_owned());
        proof {
            assert(r.deep_view() =~= before.push(items[i as int]@));
            assert(before.push(items[i as int]@) =~= items@.map_values(|s: &str| s@).take(i + 1));
        }
        i = i + 1;
    }
    proof {
        assert(items@.map_values(|s: &str| s@).take(i as int) =~= items@.map_values(
            |s: &str| s@,
        ));
    }
    r
}

/// Puts a copy of `s` at the end of `v`.
pub fn push_str(v: &mut Vec<String>, s: &str)
    ensures
        final(v).deep_view() == old(v).deep_view().push(s@),
{
    let ghost before = v.deep_view();
    v.push(s.to_owned());
    proof {
        assert(v.deep_view() =~= before.push(s@));
    }
}

} // verus!
