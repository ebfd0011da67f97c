//! Normalising a user-facing accelerator string such as `CmdOrCtrl+Shift+E`
//! into the canonical text that the platform's hotkey constructor reads.
//!
//! Everything here is a pure function of the characters of the input. The
//! model is `Seq<char>`; the executable functions work on `Vec<char>` and are
//! proved equal to the model.
use vstd::prelude::*;

verus! {

/// The portable alias for the primary modifier: `CmdOrCtrl`.
pub open spec fn portable_alias() -> Seq<char> {
    seq!['C', 'm', 'd', 'O', 'r', 'C', 't', 'r', 'l']
}

/// The platform's primary modifier, which stands in for the alias: `Cmd`.
pub open spec fn primary_modifier() -> Seq<char> {
    seq!['C', 'm', 'd']
}

/// The marker that a named key constant starts with: `Key`.
pub open spec fn key_marker() -> Seq<char> {
    seq!['K', 'e', 'y']
}

/// The character that separates the parts of an accelerator.
pub open spec fn separator() -> char {
    '+'
}

/// Whether `c` takes one byte in UTF-8, that is, whether it is ASCII.
pub open spec fn is_one_byte(c: char) -> bool {
    c <= '\u{7f}'
}

/// The upper-case form of a one-byte character: `a` to `z` move to `A` to
/// `Z`, every other character stays.
pub open spec fn upper_one_byte(c: char) -> char {
    if 'a' <= c && c <= 'z' {
        ((c as u8 - 32) as u8) as char
    } else {
        c
    }
}

/// The upper-case form of a text by the rules of Unicode, as the standard
/// library's `str::to_uppercase` gives it. One character may become several.
pub uninterp spec fn unicode_upper(text: Seq<char>) -> Seq<char>;

/// The upper-case form of one character: for a one-byte character the one
/// that `upper_one_byte` gives, for any other what Unicode makes of it.
pub open spec fn upper_of(c: char) -> Seq<char> {
    if is_one_byte(c) {
        seq![upper_one_byte(c)]
    } else {
        unicode_upper(seq![c])
    }
}

/// Whether the alias occurs in `s` at index `i`.
pub open spec fn alias_at(s: Seq<char>, i: int) -> bool {
    0 <= i && i + 9 <= s.len() && s.subrange(i, i + 9) == portable_alias()
}

/// Whether the alias occurs anywhere in `s`.
pub open spec fn has_alias(s: Seq<char>) -> bool {
    exists|i: int| alias_at(s, i)
}

/// `s` with every occurrence of the alias replaced by the primary modifier,
/// the occurrences taken from left to right without overlap.
pub open spec fn replace_alias(s: Seq<char>) -> Seq<char>
    decreases s.len(),
{
    if s.len() == 0 {
        s
    } else if alias_at(s, 0) {
        primary_modifier() + replace_alias(s.skip(9))
    } else {
        seq![s[0]] + replace_alias(s.skip(1))
    }
}

/// The part of `s` behind its last separator; all of `s` where it has none.
pub open spec fn final_part(s: Seq<char>) -> Seq<char>
    decreases s.len(),
{
    if s.len() == 0 || s.last() == separator() {
        Seq::empty()
    } else {
        final_part(s.drop_last()).push(s.last())
    }
}

/// Whether `s` has two or more parts and ends in a bare key: a final part of
/// exactly one character. Such a part is too short to carry the marker
/// already.
pub open spec fn ends_in_bare_key(s: Seq<char>) -> bool {
    &&& s.contains(separator())
    &&& final_part(s).len() == 1
}

/// `s` with a bare final key promoted to its named form: the final part `e`
/// becomes `KeyE`, the final part `é` becomes `KeyÉ`. Any other `s` is
/// returned as it is.
pub open spec fn promote_bare_key(s: Seq<char>) -> Seq<char> {
    if ends_in_bare_key(s) {
        s.drop_last() + key_marker() + upper_of(s.last())
    } else {
        s
    }
}

/// The canonical form of an accelerator: the alias replaced, then a bare
/// final key promoted.
pub open spec fn canonical_form(raw: Seq<char>) -> Seq<char> {
    promote_bare_key(replace_alias(raw))
}

/// A final part is empty exactly where the string is empty or ends in a
/// separator, and it never holds one.
pub proof fn lemma_final_part_shape(s: Seq<char>)
    ensures
        final_part(s).len() <= s.len(),
        final_part(s).len() == 0 <==> (s.len() == 0 || s.last() == separator()),
        final_part(s) == s.subrange(s.len() - final_part(s).len(), s.len() as int),
        !final_part(s).contains(separator()),
        final_part(s).len() < s.len() ==> s[s.len() - final_part(s).len() - 1] == separator(),
    decreases s.len(),
{
    if s.len() == 0 || s.last() == separator() {
        assert(final_part(s) =~= s.subrange(s.len() as int, s.len() as int));
    } else {
        let t = s.drop_last();
        lemma_final_part_shape(t);
        let f = final_part(t);
        assert(final_part(s) == f.push(s.last()));
        assert(f.push(s.last()) =~= s.subrange(s.len() - f.len() - 1, s.len() as int));
        assert forall|i: int| 0 <= i < final_part(s).len() implies final_part(s)[i]
            != separator() by {
            if i < f.len() {
                assert(f.contains(f[i]));
            }
        }
        if final_part(s).len() < s.len() {
            assert(s[s.len() - final_part(s).len() - 1] == t[t.len() - f.len() - 1]);
        }
    }
}

/// A string ends in a bare key exactly where its last character is no
/// separator and the character before it is one.
pub proof fn lemma_bare_key_by_last_two(s: Seq<char>)
    ensures
        ends_in_bare_key(s) <==> (s.len() >= 2 && s[s.len() - 2] == separator() && s.last()
            != separator()),
        ends_in_bare_key(s) ==> final_part(s) == seq![s.last()],
{
    lemma_final_part_shape(s);
    if s.len() >= 1 && s.last() != separator() {
        let t = s.drop_last();
        lemma_final_part_shape(t);
        assert(final_part(s) == final_part(t).push(s.last()));
        if s.len() >= 2 && s[s.len() - 2] == separator() {
            assert(t.last() == separator());
            assert(final_part(s) =~= seq![s.last()]);
            assert(s.contains(s[s.len() - 2]));
        }
        if final_part(s).len() == 1 && s.contains(separator()) {
            assert(final_part(t).len() == 0);
            if t.len() == 0 {
                assert(s =~= seq![s.last()]);
                assert(forall|i: int| 0 <= i < s.len() ==> s[i] != separator());
                assert(false);
            }
        }
    }
}

/// The characters of `s`, in order.
pub fn chars_of(s: &str) -> (out: Vec<char>)
    ensures
        out@ == s@,
{
    let mut out: Vec<char> = Vec::new();
    for c in it: s.chars()
        invariant
            out@ == it.seq().subrange(0, it.index() as int),
            it.seq() == s@,
    {
        out.push(c);
    }
    out
}

/// Whether the alias stands in `v` at index `i`.
pub fn alias_starts_at(v: &Vec<char>, i: usize) -> (found: bool)
    ensures
        found == alias_at(v@, i as int),
{
    let n: usize = v.len();
    if n < 9 || i > n - 9 {
        return false;
    }
    let found = v[i] == 'C' && v[i + 1] == 'm' && v[i + 2] == 'd' && v[i + 3] == 'O' && v[i + 4]
        == 'r' && v[i + 5] == 'C' && v[i + 6] == 't' && v[i + 7] == 'r' && v[i + 8] == 'l';
    proof {
        let w = v@.subrange(i as int, i + 9);
        if found {
            assert(w =~= portable_alias());
        } else {
            assert(w[0] == v[i as int] && w[1] == v[i + 1] && w[2] == v[i + 2] && w[3] == v[i
                + 3] && w[4] == v[i + 4] && w[5] == v[i + 5] && w[6] == v[i + 6] && w[7] == v[i
                + 7] && w[8] == v[i + 8]);
        }
    }
    found
}

/// Replaces the alias by the primary modifier throughout `v`.
pub fn replace_alias_chars(v: &Vec<char>) -> (out: Vec<char>)
    ensures
        out@ == replace_alias(v@),
{
    let n: usize = v.len();
    let mut out: Vec<char> = Vec::new();
    let mut i: usize = 0;
    proof {
        assert(v@.skip(0) =~= v@);
        assert(out@ + replace_alias(v@) =~= replace_alias(v@));
    }
    while i < n
        invariant
            n == v.len(),
            i <= n,
            out@ + replace_alias(v@.skip(i as int)) == replace_alias(v@),
        decreases n - i,
    {
        let ghost rest = v@.skip(i as int);
        let ghost before = out@;
        if alias_starts_at(v, i) {
            out.push('C');
            out.push('m');
            out.push('d');
            proof {
                assert(rest.subrange(0, 9) =~= v@.subrange(i as int, i + 9));
                assert(rest.skip(9) =~= v@.skip(i + 9));
                assert(out@ =~= before + primary_modifier());
                assert(out@ + replace_alias(v@.skip(i + 9)) =~= before + replace_alias(rest));
            }
            i = i + 9;
        } else {
            out.push(v[i]);
            proof {
                if rest.len() >= 9 {
                    assert(rest.subrange(0, 9) =~= v@.subrange(i as int, i + 9));
                }
                assert(rest.skip(1) =~= v@.skip(i + 1));
                assert(out@ =~= before + seq![rest[0]]);
                assert(out@ + replace_alias(v@.skip(i + 1)) =~= before + replace_alias(rest));
            }
            i = i + 1;
        }
    }
    proof {
        assert(v@.skip(n as int) =~= Seq::<char>::empty());
        assert(out@ =~= out@ + Seq::<char>::empty());
    }
    out
}

/// The upper-case form of `c` by the rule for one-byte characters, which
/// moves nothing but `a` to `z`. For any character see `upper_chars`.
pub fn to_upper_one_byte(c: char) -> (up: char)
    ensures
        up == upper_one_byte(c),
        is_one_byte(c) ==> is_one_byte(up),
{
    if 'a' <= c && c <= 'z' {
        let b: u8 = c as u8;
        (b - 32) as char
    } else {
        c
    }
}

/// `String::push` puts the given character at the end of the string and
/// leaves the characters before it as they were.
pub assume_specification[ String::push ](s: &mut String, ch: char)
    ensures
        final(s)@ == old(s)@.push(ch),
;

/// Calls `str::to_uppercase`, which returns the upper-case equivalent of the
/// text as a new string, by the Unicode rules that the standard library
/// carries. The contract claims only that the result is a function of the
/// text.
#[verifier::external_body]
fn upper_text(text: &str) -> (out: String)
    ensures
        out@ == unicode_upper(text@),
{
    text.to_uppercase()
}

/// The upper-case form of the character `c`.
pub fn upper_chars(c: char) -> (up: Vec<char>)
    ensures
        up@ == upper_of(c),
{
    if c <= '\u{7f}' {
        let mut up: Vec<char> = Vec::new();
        up.push(to_upper_one_byte(c));
        proof {
            assert(up@ =~= seq![upper_one_byte(c)]);
        }
        up
    } else {
        let mut text = String::new();
        text.push(c);
        proof {
            assert(text@ =~= seq![c]);
        }
        let upper = upper_text(text.as_str());
        chars_of(upper.as_str())
    }
}

/// Promotes a bare final key of `v` to its named form.
pub fn promote_bare_key_chars(v: Vec<char>) -> (out: Vec<char>)
    ensures
        out@ == promote_bare_key(v@),
{
    let n: usize = v.len();
    proof {
        lemma_bare_key_by_last_two(v@);
    }
    if n >= 2 && v[n - 2] == '+' && v[n - 1] != '+' {
        let mut out = v;
        let last = out.pop().unwrap();
        out.push('K');
        out.push('e');
        out.push('y');
        let mut upper = upper_chars(last);
        out.append(&mut upper);
        proof {
            assert(out@ =~= v@.drop_last() + key_marker() + upper_of(v@.last()));
        }
        out
    } else {
        v
    }
}

/// The string whose characters are those of `v`, in order.
pub fn string_of(v: &Vec<char>) -> (out: String)
    ensures
        out@ == v@,
{
    let mut out = String::new();
    let n: usize = v.len();
    let mut i: usize = 0;
    while i < n
        invariant
            n == v.len(),
            i <= n,
            out@ == v@.subrange(0, i as int),
        decreases n - i,
    {
        out.push(v[i]);
        i = i + 1;
        proof {
            assert(out@ =~= v@.subrange(0, i as int));
        }
    }
    proof {
        assert(v@.subrange(0, n as int) =~= v@);
    }
    out
}

/// The canonical form of the accelerator `raw`.
pub fn canonicalize(raw: &str) -> (out: String)
    ensures
        out@ == canonical_form(raw@),
{
    let chars = chars_of(raw);
    let replaced = replace_alias_chars(&chars);
    let promoted = promote_bare_key_chars(replaced);
    string_of(&promoted)
}

/// Replacing the alias never makes a string longer, and makes it shorter by
/// at least six characters where the alias occurs.
pub proof fn lemma_replace_alias_len(s: Seq<char>)
    ensures
        replace_alias(s).len() <= s.len(),
        has_alias(s) ==> replace_alias(s).len() + 6 <= s.len(),
        !has_alias(s) ==> replace_alias(s) == s,
    decreases s.len(),
{
    if s.len() == 0 {
    } else if alias_at(s, 0) {
        lemma_replace_alias_len(s.skip(9));
    } else {
        let t = s.skip(1);
        lemma_replace_alias_len(t);
        if has_alias(s) {
            let i = choose|i: int| alias_at(s, i);
            assert(t.subrange(i - 1, i + 8) =~= s.subrange(i, i + 9));
            assert(alias_at(t, i - 1));
        }
        if has_alias(t) {
            let j = choose|j: int| alias_at(t, j);
            assert(t.subrange(j, j + 9) =~= s.subrange(j + 1, j + 10));
            assert(alias_at(s, j + 1));
        }
        if !has_alias(s) {
            assert(seq![s[0]] + t =~= s);
        }
    }
}

/// What promotion returns ends in a bare key only where the upper-case form
/// of the promoted character does so by itself, which the form of a one-byte
/// character, being one character, never does.
pub proof fn lemma_promoted_bare_key(s: Seq<char>)
    ensures
        ends_in_bare_key(s) ==> (ends_in_bare_key(promote_bare_key(s)) <==> ends_in_bare_key(
            upper_of(s.last()),
        )),
        !ends_in_bare_key(s) || is_one_byte(s.last()) ==> !ends_in_bare_key(promote_bare_key(s)),
{
    if ends_in_bare_key(s) {
        let up = upper_of(s.last());
        let c = promote_bare_key(s);
        lemma_bare_key_by_last_two(s);
        lemma_bare_key_by_last_two(c);
        lemma_bare_key_by_last_two(up);
        assert(c.len() == s.len() + 2 + up.len());
        if up.len() >= 2 {
            assert(c[c.len() - 2] == up[up.len() - 2]);
            assert(c.last() == up.last());
        } else if up.len() == 1 {
            assert(c[c.len() - 2] == 'y');
        } else {
            assert(c.last() == 'y');
        }
    }
}

/// A string that holds no alias and does not end in a bare key is its own
/// canonical form: the transformation leaves named keys, such as the `KeyE`
/// of `Cmd+Shift+KeyE`, single-part strings and longer final parts alone.
pub proof fn lemma_canonical_form_keeps_canonical(s: Seq<char>)
    requires
        !has_alias(s),
        !ends_in_bare_key(s),
    ensures
        canonical_form(s) == s,
{
    lemma_replace_alias_len(s);
}

/// The canonical form of `raw` does not end in a bare key where the bare key
/// of `raw`, if it has one, is a one-byte character.
pub proof fn lemma_canonical_form_has_no_bare_key(raw: Seq<char>)
    requires
        ends_in_bare_key(replace_alias(raw)) ==> is_one_byte(replace_alias(raw).last()),
    ensures
        !ends_in_bare_key(canonical_form(raw)),
{
    lemma_promoted_bare_key(replace_alias(raw));
}

/// The transformation is idempotent on every input whose canonical form
/// holds no alias and no bare key any more: applying it to its own output
/// changes nothing.
pub proof fn lemma_canonical_form_idempotent(raw: Seq<char>)
    requires
        !has_alias(canonical_form(raw)),
        !ends_in_bare_key(canonical_form(raw)),
    ensures
        canonical_form(canonical_form(raw)) == canonical_form(raw),
{
    lemma_canonical_form_keeps_canonical(canonical_form(raw));
}

/// A string that ends in a bare key and holds no alias, or holds the alias
/// and ends in no bare key once the alias is replaced, is not its own
/// canonical form: on such an output a second application does change it.
pub proof fn lemma_unsettled_form_changes(s: Seq<char>)
    requires
        (!has_alias(s) && ends_in_bare_key(s)) || (has_alias(s) && !ends_in_bare_key(
            replace_alias(s),
        )),
    ensures
        canonical_form(s) != s,
{
    lemma_replace_alias_len(s);
    if !has_alias(s) {
        assert(canonical_form(s).len() == s.len() + 2 + upper_of(s.last()).len());
    }
}

} // verus!
