use vstd::prelude::*;

verus! {

/// Appending one character to a string: the string's characters gain `ch` at the end.
pub assume_specification[ String::push ](s: &mut String, ch: char)
    ensures
        final(s)@ == old(s)@.push(ch),
;

/// The characters denoted by a run of ASCII bytes.
pub open spec fn ascii_text(bytes: Seq<u8>) -> Seq<char> {
    bytes.map_values(|b: u8| b as char)
}

/// Builds the string whose characters are the given ASCII bytes.
pub fn ascii_string(bytes: &[u8], start: usize, end: usize) -> (s: String)
    requires
        start <= end <= bytes@.len(),
        forall|i: int| start <= i < end ==> bytes@[i] < 128,
    ensures
        s@ == ascii_text(bytes@.subrange(start as int, end as int)),
        s@.len() == end - start,
        forall|k: int| 0 <= k < end - start ==> #[trigger] s@[k] == bytes@[start + k] as char,
{
    let mut s = String::new();
    let mut i = start;
    while i < end
        invariant
            start <= i <= end <= bytes@.len(),
            s@ == ascii_text(bytes@.subrange(start as int, i as int)),
        decreases end - i,
    {
        let b = bytes[i];
        s.push(b as char);
        proof {
            assert(bytes@.subrange(start as int, i + 1) =~= bytes@.subrange(start as int, i as int).push(b));
        }
        i = i + 1;
    }
    proof {
        lemma_ascii_text_is_char_for_char(bytes@.subrange(start as int, end as int));
    }
    s
}

/// Reading ASCII bytes as text keeps every byte: the text is as long as the
/// bytes, and its `i`-th character is the `i`-th byte read as a character.
pub proof fn lemma_ascii_text_is_char_for_char(bytes: Seq<u8>)
    ensures
        ascii_text(bytes).len() == bytes.len(),
        forall|i: int| 0 <= i < bytes.len() ==> #[trigger] ascii_text(bytes)[i] == bytes[i] as char,
{
}

} // verus!
