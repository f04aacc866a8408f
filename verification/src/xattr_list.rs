//! Extended attribute name lists, as `listxattr` fills them: names, each
//! ended by a NUL byte.

use vstd::prelude::*;

verus! {

/// Index of the first NUL byte at or after `i`, or the length of `s`.
pub open spec fn next_nul(s: Seq<u8>, i: int) -> int
    decreases s.len() - i,
{
    if i < 0 || i >= s.len() {
        s.len() as int
    } else if s[i] == 0 {
        i
    } else {
        next_nul(s, i + 1)
    }
}

/// The first NUL byte at or after `i` lies between `i` and the end, and no
/// NUL byte comes before it.
pub proof fn lemma_next_nul(s: Seq<u8>, i: int)
    requires
        0 <= i <= s.len(),
    ensures
        i <= next_nul(s, i) <= s.len(),
        next_nul(s, i) < s.len() ==> s[next_nul(s, i)] == 0,
        forall|j: int| i <= j < next_nul(s, i) ==> s[j] != 0,
    decreases s.len() - i,
{
    if i < s.len() && s[i] != 0 {
        lemma_next_nul(s, i + 1);
    }
}

/// The names in `s` from position `i` on, in order: each piece that a NUL
/// byte ends, when it is not empty and is valid UTF-8. A last piece with no
/// NUL after it is no name.
pub open spec fn names_from(s: Seq<u8>, i: int) -> Seq<Seq<u8>>
    decreases s.len() - i,
{
    if i < 0 || i >= s.len() {
        Seq::empty()
    } else {
        let e = next_nul(s, i);
        proof {
            lemma_next_nul(s, i);
        }
        if e >= s.len() {
            Seq::empty()
        } else {
            let piece = s.subrange(i, e);
            let first = if e > i && vstd::utf8::valid_utf8(piece) {
                seq![piece]
            } else {
                Seq::empty()
            };
            first + names_from(s, e + 1)
        }
    }
}

/// `String::from_utf8`: the bytes become a string exactly when they are valid
/// UTF-8, and the string then holds the characters that the bytes encode.
#[verifier::external_body]
fn utf8_string(bytes: Vec<u8>) -> (r: Option<String>)
    ensures
        r is Some <==> vstd::utf8::valid_utf8(bytes@),
        r matches Some(text) ==> vstd::utf8::encode_utf8(text@) == bytes@,
{
    String::from_utf8(bytes).ok()
}

/// The attribute names in the list `list`, in order: the pieces that a NUL
/// byte ends, leaving out empty pieces and those that are not valid UTF-8.
/// Each name is given back as the string whose UTF-8 bytes the piece holds.
pub fn split_xattr_names(list: &Vec<u8>) -> (r: Vec<String>)
    ensures
        r@.len() == names_from(list@, 0).len(),
        forall|k: int| 0 <= k < r@.len() ==> vstd::utf8::encode_utf8((#[trigger] r@[k])@) == names_from(list@, 0)[k],
{
    let n = list.len();
    let mut out: Vec<String> = Vec::new();
    let mut pos: usize = 0;
    let ghost mut acc: Seq<Seq<u8>> = Seq::empty();
    assert(names_from(list@, 0) =~= acc + names_from(list@, 0));
    while pos < n
        invariant
            n == list@.len(),
            pos <= n,
            out@.len() == acc.len(),
            forall|k: int| 0 <= k < out@.len() ==> vstd::utf8::encode_utf8((#[trigger] out@[k])@) == acc[k],
            names_from(list@, 0) == acc + names_from(list@, pos as int),
        decreases n - pos,
    {
        let mut e = pos;
        let mut piece: Vec<u8> = Vec::new();
        while e < n && list[e] != 0
            invariant
                pos <= e <= n,
                n == list@.len(),
                forall|j: int| pos <= j < e ==> list@[j] != 0,
                piece@ == list@.subrange(pos as int, e as int),
            decreases n - e,
        {
            piece.push(list[e]);
            e = e + 1;
            assert(piece@ =~= list@.subrange(pos as int, e as int));
        }
        proof {
            lemma_next_nul(list@, pos as int);
            if next_nul(list@, pos as int) < e {
                assert(list@[next_nul(list@, pos as int)] == 0);
            }
            if e < n {
                assert(next_nul(list@, pos as int) <= e);
            }
            assert(next_nul(list@, pos as int) == e);
        }
        if e >= n {
            proof {
                assert(names_from(list@, pos as int) =~= Seq::<Seq<u8>>::empty());
            }
            pos = n;
        } else {
            let ghost before = acc;
            let ghost bytes = piece@;
            if e > pos {
                match utf8_string(piece) {
                    Some(text) => {
                        out.push(text);
                        proof {
                            acc = acc.push(bytes);
                        }
                    },
                    None => {},
                }
            }
            proof {
                let first = if e > pos && vstd::utf8::valid_utf8(bytes) {
                    seq![bytes]
                } else {
                    Seq::<Seq<u8>>::empty()
                };
                assert(names_from(list@, pos as int) =~= first + names_from(list@, e + 1));
                assert(acc =~= before + first);
            }
            pos = e + 1;
        }
        assert(names_from(list@, 0) =~= acc + names_from(list@, pos as int));
    }
    assert(names_from(list@, n as int) =~= Seq::<Seq<u8>>::empty());
    assert(names_from(list@, 0) =~= acc);
    out
}

} // verus!
