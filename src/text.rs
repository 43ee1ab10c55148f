//! Text operations on character sequences, and slicing by the byte offsets
//! that regular-expression searches report.
use vstd::prelude::*;
use vstd::string::*;
use vstd::utf8::*;

verus! {

broadcast use encode_utf8_valid_utf8, encode_utf8_decode_utf8;

/// The characters whose UTF-8 encoding is the byte range `start..end` of the
/// encoding of `text`.
pub open spec fn byte_slice(text: Seq<char>, start: int, end: int) -> Seq<char> {
    decode_utf8(encode_utf8(text).subrange(start, end))
}

/// `sub` occurs in `s` at character position `i`.
pub open spec fn occurs_at(s: Seq<char>, sub: Seq<char>, i: int) -> bool {
    0 <= i && i + sub.len() <= s.len() && s.subrange(i, i + sub.len()) == sub
}

/// `sub` occurs somewhere in `s`.
pub open spec fn has_substring(s: Seq<char>, sub: Seq<char>) -> bool {
    exists|i: int| occurs_at(s, sub, i)
}

/// `s` ends with `suffix`.
pub open spec fn has_suffix(s: Seq<char>, suffix: Seq<char>) -> bool {
    suffix.len() <= s.len() && s.subrange(s.len() - suffix.len(), s.len() as int) == suffix
}

/// `s` with every occurrence of `from`, scanned left to right without
/// overlap, replaced by `to`.
pub open spec fn replace_all_of(s: Seq<char>, from: Seq<char>, to: Seq<char>) -> Seq<char>
    decreases s.len(),
{
    if from.len() == 0 || s.len() < from.len() {
        s
    } else if s.subrange(0, from.len() as int) == from {
        to + replace_all_of(s.subrange(from.len() as int, s.len() as int), from, to)
    } else {
        seq![s[0]] + replace_all_of(s.drop_first(), from, to)
    }
}

proof fn lemma_boundary_in_prefix(bytes: Seq<u8>, cut: int, index: int)
    requires
        valid_utf8(bytes),
        0 <= index <= cut <= bytes.len(),
        is_char_boundary(bytes, cut),
        is_char_boundary(bytes, index),
    ensures
        valid_utf8(bytes.subrange(0, cut)),
        is_char_boundary(bytes.subrange(0, cut), index),
{
    valid_utf8_split(bytes, cut);
    let head = bytes.subrange(0, cut);
    if index == cut {
        is_char_boundary_start_end_of_seq(head);
    } else if index > 0 {
        is_char_boundary_iff_not_is_continuation_byte(bytes, index);
        is_char_boundary_iff_not_is_continuation_byte(head, index);
    }
}

/// The characters between two byte offsets of `text`.
pub fn slice_by_bytes(text: &str, start: usize, end: usize) -> (r: String)
    requires
        start <= end <= encode_utf8(text@).len(),
        is_char_boundary(encode_utf8(text@), start as int),
        is_char_boundary(encode_utf8(text@), end as int),
    ensures
        r@ == byte_slice(text@, start as int, end as int),
{
    let ghost bytes = encode_utf8(text@);
    proof {
        lemma_boundary_in_prefix(bytes, end as int, start as int);
    }
    let (head, _) = text.split_at(end);
    assert(head.spec_bytes() == bytes.subrange(0, end as int));
    let (_, mid) = head.split_at(start);
    assert(mid.spec_bytes() =~= bytes.subrange(start as int, end as int));
    assert(decode_utf8(encode_utf8(mid@)) == mid@);
    mid.to_owned()
}

/// The characters of `s`, one by one.
pub fn chars_of(s: &str) -> (r: Vec<char>)
    ensures
        r@ == s@,
{
    let n = s.unicode_len();
    let mut v: Vec<char> = Vec::new();
    let mut i: usize = 0;
    while i < n
        invariant
            n == s@.len(),
            i <= n,
            v@ == s@.subrange(0, i as int),
        decreases n - i,
    {
        v.push(s.get_char(i));
        i += 1;
        assert(v@ =~= s@.subrange(0, i as int));
    }
    assert(v@ =~= s@);
    v
}

/// Whether `sub` occurs in `s` at position `i`.
fn occurs_at_exec(s: &Vec<char>, sub: &Vec<char>, i: usize) -> (r: bool)
    ensures
        r == occurs_at(s@, sub@, i as int),
{
    if i > s.len() || sub.len() > s.len() - i {
        return false;
    }
    let mut j: usize = 0;
    while j < sub.len()
        invariant
            i + sub.len() <= s.len(),
            j <= sub@.len(),
            forall|k: int| 0 <= k < j ==> s@[i + k] == sub@[k],
        decreases sub.len() - j,
    {
        if s[i + j] != sub[j] {
            assert(s@.subrange(i as int, i + sub@.len())[j as int] != sub@[j as int]);
            return false;
        }
        j += 1;
    }
    assert(s@.subrange(i as int, i + sub@.len()) =~= sub@);
    true
}

/// Whether `sub` occurs in `s`.
pub fn contains(s: &str, sub: &str) -> (r: bool)
    ensures
        r == has_substring(s@, sub@),
{
    let sv = chars_of(s);
    let subv = chars_of(sub);
    if subv.len() > sv.len() {
        return false;
    }
    let last = sv.len() - subv.len();
    let mut i: usize = 0;
    loop
        invariant
            sv@ == s@,
            subv@ == sub@,
            last == s@.len() - sub@.len(),
            i <= last,
            forall|k: int| 0 <= k < i ==> !occurs_at(s@, sub@, k),
        ensures
            forall|k: int| 0 <= k <= last ==> !occurs_at(s@, sub@, k),
        decreases last - i,
    {
        if occurs_at_exec(&sv, &subv, i) {
            return true;
        }
        if i == last {
            break;
        }
        i += 1;
    }
    assert forall|k: int| !occurs_at(s@, sub@, k) by {
        if 0 <= k <= last {
        }
    }
    false
}

/// Whether two texts are equal.
pub fn same_text(a: &str, b: &str) -> (r: bool)
    ensures
        r == (a@ == b@),
{
    let av = chars_of(a);
    let bv = chars_of(b);
    if av.len() != bv.len() {
        return false;
    }
    let r = occurs_at_exec(&av, &bv, 0);
    assert(r ==> a@ =~= a@.subrange(0, b@.len() as int));
    assert(a@ == b@ ==> a@.subrange(0, b@.len() as int) =~= b@);
    r
}

/// The code of `c`, with ASCII upper case mapped to lower case.
pub open spec fn ascii_lower(c: char) -> u32 {
    if 65 <= (c as u32) <= 90 {
        (c as u32 + 32) as u32
    } else {
        c as u32
    }
}

/// `a` equals `b` when ASCII letters are compared without regard to case.
pub open spec fn eq_ignoring_ascii_case(a: Seq<char>, b: Seq<char>) -> bool {
    a.len() == b.len() && forall|i: int| 0 <= i < a.len() ==> ascii_lower(#[trigger] a[i]) == ascii_lower(b[i])
}

fn lower_char(c: char) -> (r: u32)
    ensures
        r == ascii_lower(c),
{
    let x = c as u32;
    if 65 <= x && x <= 90 {
        x + 32
    } else {
        x
    }
}

/// Whether `a` and `b` are equal up to the case of ASCII letters.
pub fn same_text_ignoring_ascii_case(a: &str, b: &str) -> (r: bool)
    ensures
        r == eq_ignoring_ascii_case(a@, b@),
{
    let av = chars_of(a);
    let bv = chars_of(b);
    if av.len() != bv.len() {
        return false;
    }
    let mut i: usize = 0;
    while i < av.len()
        invariant
            av@ == a@,
            bv@ == b@,
            av@.len() == bv@.len(),
            i <= av@.len(),
            forall|k: int| 0 <= k < i ==> ascii_lower(#[trigger] a@[k]) == ascii_lower(b@[k]),
        decreases av.len() - i,
    {
        if lower_char(av[i]) != lower_char(bv[i]) {
            return false;
        }
        i += 1;
    }
    true
}

/// Whether `s` ends with `suffix`.
pub fn ends_with(s: &str, suffix: &str) -> (r: bool)
    ensures
        r == has_suffix(s@, suffix@),
{
    let sv = chars_of(s);
    let sufv = chars_of(suffix);
    if sufv.len() > sv.len() {
        return false;
    }
    occurs_at_exec(&sv, &sufv, sv.len() - sufv.len())
}

proof fn lemma_replace_step_skip(s: Seq<char>, from: Seq<char>, to: Seq<char>, i: int)
    requires
        from.len() > 0,
        0 <= i < s.len(),
        !occurs_at(s, from, i),
    ensures
        replace_all_of(s.subrange(i, s.len() as int), from, to) == seq![s[i]] + replace_all_of(
            s.subrange(i + 1, s.len() as int),
            from,
            to,
        ),
{
    let t = s.subrange(i, s.len() as int);
    assert(t.drop_first() =~= s.subrange(i + 1, s.len() as int));
    if t.len() >= from.len() {
        assert(t.subrange(0, from.len() as int) =~= s.subrange(i, i + from.len()));
    } else {
        assert(s.subrange(i + 1, s.len() as int).len() < from.len());
    }
}

proof fn lemma_replace_step_match(s: Seq<char>, from: Seq<char>, to: Seq<char>, i: int)
    requires
        from.len() > 0,
        occurs_at(s, from, i),
    ensures
        replace_all_of(s.subrange(i, s.len() as int), from, to) == to + replace_all_of(
            s.subrange(i + from.len(), s.len() as int),
            from,
            to,
        ),
{
    let t = s.subrange(i, s.len() as int);
    assert(t.subrange(0, from.len() as int) =~= s.subrange(i, i + from.len()));
    assert(t.subrange(from.len() as int, t.len() as int) =~= s.subrange(
        i + from.len(),
        s.len() as int,
    ));
}

/// `s` with every occurrence of `from` replaced by `to`.
pub fn replace_all(s: &str, from: &str, to: &str) -> (r: String)
    requires
        from@.len() > 0,
    ensures
        r@ == replace_all_of(s@, from@, to@),
{
    let sv = chars_of(s);
    let fv = chars_of(from);
    let n = sv.len();
    let mut out = String::new();
    let mut last: usize = 0;
    let mut i: usize = 0;
    assert(s@.subrange(0, n as int) =~= s@);
    assert(out@ + s@.subrange(0, 0) =~= Seq::<char>::empty());
    while i < n
        invariant
            sv@ == s@,
            fv@ == from@,
            n == s@.len(),
            from@.len() > 0,
            last <= i <= n,
            out@ + s@.subrange(last as int, i as int) + replace_all_of(
                s@.subrange(i as int, n as int),
                from@,
                to@,
            ) == replace_all_of(s@, from@, to@),
        decreases n - i,
    {
        if occurs_at_exec(&sv, &fv, i) {
            proof {
                lemma_replace_step_match(s@, from@, to@, i as int);
            }
            let piece = s.substring_char(last, i);
            out.append(piece);
            out.append(to);
            i = i + fv.len();
            last = i;
            assert(s@.subrange(last as int, i as int) =~= Seq::<char>::empty());
        } else {
            proof {
                lemma_replace_step_skip(s@, from@, to@, i as int);
                assert(s@.subrange(last as int, i as int) + seq![s@[i as int]] =~= s@.subrange(
                    last as int,
                    i + 1,
                ));
            }
            i += 1;
        }
    }
    assert(s@.subrange(n as int, n as int) =~= Seq::<char>::empty());
    assert(replace_all_of(Seq::<char>::empty(), from@, to@) == Seq::<char>::empty());
    let piece = s.substring_char(last, n);
    out.append(piece);
    assert(out@ =~= replace_all_of(s@, from@, to@));
    out
}

} // verus!
