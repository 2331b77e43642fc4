use vstd::prelude::*;
use vstd::string::StringSliceAdditionalSpecFns;
use vstd::utf8::encode_utf8;

verus! {

/// Whether `word` occurs in `text` as a run of consecutive bytes.
pub open spec fn has_infix(text: Seq<u8>, word: Seq<u8>) -> bool {
    exists|i: int| 0 <= i <= text.len() - word.len() && #[trigger] text.subrange(i, i + word.len()) == word
}

/// Whether `word` occurs in `text` starting at byte `at`.
fn matches_at(text: &[u8], word: &[u8], at: usize) -> (b: bool)
    requires
        at + word@.len() <= text@.len(),
    ensures
        b == (text@.subrange(at as int, at + word@.len()) == word@),
{
    let n = text.len();
    let mut k: usize = 0;
    while k < word.len()
        invariant
            n == text@.len(),
            k <= word@.len(),
            at + word@.len() <= text@.len(),
            text@.subrange(at as int, at + k) == word@.take(k as int),
        decreases word@.len() - k,
    {
        if text[at + k] != word[k] {
            assert(text@.subrange(at as int, at + word@.len())[k as int] != word@[k as int]);
            return false;
        }
        assert(text@.subrange(at as int, at + k + 1) =~= word@.take(k + 1));
        k = k + 1;
    }
    assert(word@.take(k as int) =~= word@);
    true
}

/// Whether `word` occurs anywhere in `name`, such as "swizzle" in an
/// extension's name.
pub fn mentions(name: &str, word: &str) -> (b: bool)
    ensures
        b == has_infix(name.spec_bytes(), word.spec_bytes()),
{
    let text = name.as_bytes();
    let w = word.as_bytes();
    if w.len() > text.len() {
        return false;
    }
    assert(text@ == name.spec_bytes() && w@ == word.spec_bytes());
    let last = text.len() - w.len();
    let mut i: usize = 0;
    loop
        invariant
            text@ == name.spec_bytes(),
            w@ == word.spec_bytes(),
            last + w@.len() == text@.len(),
            i <= last,
            forall|j: int| 0 <= j < i ==> #[trigger] text@.subrange(j, j + w@.len()) != w@,
        decreases last - i,
    {
        if matches_at(text, w, i) {
            assert(text@.subrange(i as int, i + w@.len()) == w@);
            assert(has_infix(text@, w@));
            return true;
        }
        assert(text@.subrange(i as int, i + w@.len()) != w@);
        if i == last {
            assert(!has_infix(text@, w@)) by {
                assert forall|j: int| 0 <= j <= text@.len() - w@.len() implies #[trigger] text@.subrange(
                    j,
                    j + w@.len(),
                ) != w@ by {
                    if j < i {
                    }
                }
            }
            return false;
        }
        i = i + 1;
    }
}

/// The positions, in order, of the extensions whose names mention `word`.
pub open spec fn mentioning(names: Seq<String>, word: Seq<u8>) -> Seq<int>
    decreases names.len(),
{
    if names.len() == 0 {
        seq![]
    } else {
        let rest = mentioning(names.drop_last(), word);
        if has_infix(encode_utf8(names.last()@), word) {
            rest.push(names.len() - 1)
        } else {
            rest
        }
    }
}

/// The positions of the extensions whose names mention `word`, in order.
pub fn positions_mentioning(names: &Vec<String>, word: &str) -> (v: Vec<usize>)
    ensures
        v@.map_values(|i: usize| i as int) == mentioning(names@, word.spec_bytes()),
{
    let mut v: Vec<usize> = Vec::new();
    let mut i: usize = 0;
    while i < names.len()
        invariant
            i <= names@.len(),
            v@.map_values(|k: usize| k as int) == mentioning(names@.take(i as int), word.spec_bytes()),
        decreases names@.len() - i,
    {
        let ghost before = v@;
        let hit = mentions(names[i].as_str(), word);
        assert(names@.take(i + 1).drop_last() =~= names@.take(i as int));
        if hit {
            v.push(i);
            assert(v@.map_values(|k: usize| k as int) =~= before.map_values(|k: usize| k as int).push(i as int));
        }
        i = i + 1;
    }
    assert(names@.take(i as int) =~= names@);
    v
}

/// Whether one of the extensions is named exactly `name`.
pub fn has_extension(names: &Vec<String>, name: &str) -> (b: bool)
    ensures
        b == exists|i: int| 0 <= i < names@.len() && encode_utf8(#[trigger] names@[i]@) == name.spec_bytes(),
{
    let want = name.as_bytes();
    let mut i: usize = 0;
    while i < names.len()
        invariant
            i <= names@.len(),
            want@ == name.spec_bytes(),
            forall|j: int| 0 <= j < i ==> encode_utf8(#[trigger] names@[j]@) != name.spec_bytes(),
        decreases names@.len() - i,
    {
        let have = names[i].as_str().as_bytes();
        if have.len() == want.len() && matches_at(have, want, 0) {
            assert(have@.subrange(0, have@.len() as int) =~= have@);
            return true;
        }
        proof {
            if have@.len() == want@.len() {
                assert(have@.subrange(0, have@.len() as int) =~= have@);
            }
        }
        i = i + 1;
    }
    false
}

} // verus!
