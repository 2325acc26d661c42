use vstd::prelude::*;

verus! {

/// `c` has the Unicode `White_Space` property: the ASCII space, the control
/// characters TAB through CR, NEL, NBSP, and the spacing characters of the
/// Ogham, General Punctuation and CJK blocks.
pub open spec fn is_space(c: char) -> bool {
    let u = c as u32;
    ||| u == 0x20
    ||| 0x09 <= u <= 0x0D
    ||| u == 0x85
    ||| u == 0xA0
    ||| u == 0x1680
    ||| 0x2000 <= u <= 0x200A
    ||| u == 0x2028
    ||| u == 0x2029
    ||| u == 0x202F
    ||| u == 0x205F
    ||| u == 0x3000
}

/// Decides `is_space`.
pub fn is_space_char(c: char) -> (r: bool)
    ensures
        r == is_space(c),
{
    let u = c as u32;
    u == 0x20 || (0x09 <= u && u <= 0x0D) || u == 0x85 || u == 0xA0 || u == 0x1680 || (0x2000
        <= u && u <= 0x200A) || u == 0x2028 || u == 0x2029 || u == 0x202F || u == 0x205F || u
        == 0x3000
}

/// The length of the leading run of non-whitespace characters.
pub open spec fn token_run(s: Seq<char>) -> nat
    decreases s.len(),
{
    if s.len() == 0 || is_space(s[0]) {
        0
    } else {
        1 + token_run(s.drop_first())
    }
}

/// The leading run never reaches past the end of the string.
pub proof fn lemma_token_run_le(s: Seq<char>)
    ensures
        token_run(s) <= s.len(),
    decreases s.len(),
{
    if s.len() != 0 && !is_space(s[0]) {
        lemma_token_run_le(s.drop_first());
    }
}

/// The maximal non-whitespace tokens of `s`, in order, with every run of
/// whitespace collapsed and leading and trailing whitespace ignored.
pub open spec fn split_ws(s: Seq<char>) -> Seq<Seq<char>>
    decreases s.len(),
    via split_ws_decreases
{
    if s.len() == 0 {
        Seq::empty()
    } else if is_space(s[0]) {
        split_ws(s.drop_first())
    } else {
        seq![s.take(token_run(s) as int)] + split_ws(s.skip(token_run(s) as int))
    }
}

#[via_fn]
proof fn split_ws_decreases(s: Seq<char>) {
    lemma_token_run_le(s);
}

/// A run of `j - i` non-whitespace characters at `i`, delimited on the right,
/// is exactly the leading token of the rest of the string.
proof fn lemma_token_run_at(s: Seq<char>, i: int, j: int)
    requires
        0 <= i < j <= s.len(),
        forall|k: int| i <= k < j ==> !is_space(#[trigger] s[k]),
        j == s.len() || is_space(s[j]),
    ensures
        token_run(s.skip(i)) == j - i,
    decreases j - i,
{
    assert(s.skip(i).drop_first() =~= s.skip(i + 1));
    assert(s.skip(i)[0] == s[i]);
    if i + 1 == j {
        if j == s.len() {
            assert(s.skip(j).len() == 0);
        } else {
            assert(s.skip(j)[0] == s[j]);
        }
        assert(token_run(s.skip(j)) == 0);
    } else {
        lemma_token_run_at(s, i + 1, j);
    }
}

/// Splits `s` at whitespace: the result views exactly as `split_ws(s@)`.
pub fn split_whitespace_tokens(s: &str) -> (toks: Vec<String>)
    ensures
        toks@.map_values(|t: String| t@) == split_ws(s@),
{
    let len = s.unicode_len();
    let mut toks: Vec<String> = Vec::new();
    let mut i: usize = 0;
    proof {
        assert(s@.skip(0) =~= s@);
        assert(toks@.map_values(|t: String| t@) =~= Seq::<Seq<char>>::empty());
        assert(toks@.map_values(|t: String| t@) + split_ws(s@) =~= split_ws(s@));
    }
    while i < len
        invariant
            len == s@.len(),
            i <= len,
            split_ws(s@) == toks@.map_values(|t: String| t@) + split_ws(s@.skip(i as int)),
        decreases len - i,
    {
        let c = s.get_char(i);
        if is_space_char(c) {
            proof {
                assert(s@.skip(i as int).drop_first() =~= s@.skip(i + 1));
            }
            i = i + 1;
        } else {
            let start = i;
            let mut j = i + 1;
            while j < len && !is_space_char(s.get_char(j))
                invariant
                    len == s@.len(),
                    i < j <= len,
                    forall|k: int| i <= k < j ==> !is_space(#[trigger] s@[k]),
                decreases len - j,
            {
                j = j + 1;
            }
            let tok = s.substring_char(start, j);
            let tok_string = String::from_str(tok);
            proof {
                let rest = s@.skip(i as int);
                assert(rest[0] == s@[i as int]);
                lemma_token_run_at(s@, i as int, j as int);
                assert(rest.take(token_run(rest) as int) =~= s@.subrange(i as int, j as int));
                assert(rest.skip(token_run(rest) as int) =~= s@.skip(j as int));
                assert(toks@.push(tok_string).map_values(|t: String| t@) =~= toks@.map_values(
                    |t: String| t@,
                ).push(tok_string@));
                assert(toks@.map_values(|t: String| t@).push(tok_string@) + split_ws(
                    s@.skip(j as int),
                ) =~= toks@.map_values(|t: String| t@) + (seq![tok_string@] + split_ws(
                    s@.skip(j as int),
                )));
            }
            toks.push(tok_string);
            i = j;
        }
    }
    proof {
        assert(s@.skip(len as int).len() == 0);
        assert(toks@.map_values(|t: String| t@) + split_ws(s@.skip(len as int)) =~= toks@
            .map_values(|t: String| t@));
    }
    toks
}

/// The character code after folding an ASCII capital letter to lower case.
pub open spec fn lower_code(c: char) -> u32 {
    if 65 <= c as u32 <= 90 {
        (c as u32 + 32) as u32
    } else {
        c as u32
    }
}

/// The codes of `s` after ASCII case folding.
pub open spec fn fold_codes(s: Seq<char>) -> Seq<u32> {
    s.map_values(|c: char| lower_code(c))
}

/// `a` and `b` are equal up to ASCII case.
pub open spec fn ieq(a: Seq<char>, b: Seq<char>) -> bool {
    fold_codes(a) == fold_codes(b)
}

/// Decides `lower_code`.
fn lower_code_of(c: char) -> (r: u32)
    ensures
        r == lower_code(c),
{
    let u = c as u32;
    if 65 <= u && u <= 90 {
        u + 32
    } else {
        u
    }
}

/// Decides `ieq`: equality of two strings up to ASCII case.
pub fn str_ieq(a: &str, b: &str) -> (r: bool)
    ensures
        r == ieq(a@, b@),
{
    let la = a.unicode_len();
    let lb = b.unicode_len();
    if la != lb {
        assert(fold_codes(a@).len() != fold_codes(b@).len());
        return false;
    }
    let mut i: usize = 0;
    while i < la
        invariant
            la == a@.len(),
            la == b@.len(),
            i <= la,
            forall|k: int| 0 <= k < i ==> lower_code(a@[k]) == lower_code(b@[k]),
        decreases la - i,
    {
        let ca = lower_code_of(a.get_char(i));
        let cb = lower_code_of(b.get_char(i));
        if ca != cb {
            assert(fold_codes(a@)[i as int] != fold_codes(b@)[i as int]);
            return false;
        }
        i = i + 1;
    }
    proof {
        assert(fold_codes(a@) =~= fold_codes(b@));
    }
    true
}

} // verus!
