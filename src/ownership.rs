use vstd::prelude::*;
use vstd::string::StringSliceAdditionalSpecFns;
use vstd::utf8::*;

verus! {

/// The ASCII space, which ends the first word.
pub const SPACE: u8 = 0x20;

/// Length in bytes of the UTF-8 text `s`.
pub fn calc_length(s: &String) -> (r: usize)
    ensures
        r == encode_utf8(s@).len() as usize,
{
    s.as_str().len()
}

/// In well-formed UTF-8, every byte below 0x80 starts a character.
proof fn lemma_ascii_byte_is_boundary(bytes: Seq<u8>, i: int)
    requires
        valid_utf8(bytes),
        0 <= i < bytes.len(),
        bytes[i] <= 0x7f,
    ensures
        is_char_boundary(bytes, i),
    decreases bytes.len(),
{
    if i != 0 {
        let n = length_of_first_scalar(bytes);
        let rest = pop_first_scalar(bytes);
        assert(n <= i);
        assert(rest[i - n] == bytes[i]);
        lemma_ascii_byte_is_boundary(rest, i - n);
    }
}

/// The part of `s` before its first space, or all of `s` when it holds none.
pub fn first_word(s: &str) -> (r: &str)
    ensures
        r.spec_bytes().len() <= s.spec_bytes().len(),
        r.spec_bytes() == s.spec_bytes().subrange(0, r.spec_bytes().len() as int),
        forall|j: int| 0 <= j < r.spec_bytes().len() ==> s.spec_bytes()[j] != SPACE,
        r.spec_bytes().len() == s.spec_bytes().len()
            || s.spec_bytes()[r.spec_bytes().len() as int] == SPACE,
{
    let bytes = s.as_bytes();
    let mut i: usize = 0;
    while i < bytes.len()
        invariant
            bytes@ == s.spec_bytes(),
            i <= bytes@.len(),
            forall|j: int| 0 <= j < i ==> bytes@[j] != SPACE,
        decreases bytes@.len() - i,
    {
        if bytes[i] == SPACE {
            proof {
                broadcast use encode_utf8_valid_utf8;
                lemma_ascii_byte_is_boundary(s.spec_bytes(), i as int);
            }
            let (head, _) = s.split_at(i);
            return head;
        }
        i = i + 1;
    }
    proof {
        assert(s.spec_bytes().subrange(0, s.spec_bytes().len() as int) =~= s.spec_bytes());
    }
    s
}

} // verus!
