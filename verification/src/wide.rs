use vstd::prelude::*;

verus! {

/// The meaning of a fixed-capacity wide-character buffer used as a
/// null-terminated string: the characters strictly before the first null,
/// or nothing when no null terminator lies within the buffer (a malformed
/// name, reported rather than silently truncated).
pub open spec fn decoded_name(buf: Seq<u16>) -> Option<Seq<u16>>
    decreases buf.len(),
{
    if buf.len() == 0 {
        None
    } else if buf[0] == 0 {
        Some(Seq::empty())
    } else {
        match decoded_name(buf.drop_first()) {
            Some(rest) => Some(seq![buf[0]] + rest),
            None => None,
        }
    }
}

/// A buffer whose first null stands at position `i` decodes to the prefix
/// before `i`.
pub proof fn lemma_decoded_name_some(buf: Seq<u16>, i: int)
    requires
        0 <= i < buf.len(),
        buf[i] == 0,
        forall|k: int| 0 <= k < i ==> buf[k] != 0,
    ensures
        decoded_name(buf) == Some(buf.subrange(0, i)),
    decreases i,
{
    if i == 0 {
        assert(buf.subrange(0, 0) =~= Seq::<u16>::empty());
    } else {
        assert(forall|k: int| 0 <= k < i - 1 ==> buf.drop_first()[k] != 0);
        lemma_decoded_name_some(buf.drop_first(), i - 1);
        assert(buf.drop_first().subrange(0, i - 1) =~= buf.subrange(1, i));
        assert(seq![buf[0]] + buf.subrange(1, i) =~= buf.subrange(0, i));
    }
}

/// A buffer with no null anywhere in its capacity decodes to nothing.
pub proof fn lemma_decoded_name_none(buf: Seq<u16>)
    requires
        forall|k: int| 0 <= k < buf.len() ==> buf[k] != 0,
    ensures
        decoded_name(buf) is None,
    decreases buf.len(),
{
    if buf.len() > 0 {
        assert(forall|k: int| 0 <= k < buf.len() - 1 ==> buf.drop_first()[k] != 0);
        lemma_decoded_name_none(buf.drop_first());
    }
}

/// Decodes a fixed-capacity wide-character buffer up to its first null
/// terminator. `None` marks a malformed name: no terminator within the
/// buffer's capacity.
pub fn decode_name(buf: &Vec<u16>) -> (r: Option<Vec<u16>>)
    ensures
        match r {
            Some(name) => decoded_name(buf@) == Some(name@),
            None => decoded_name(buf@) is None,
        },
{
    let mut i: usize = 0;
    while i < buf.len()
        invariant
            i <= buf.len(),
            forall|k: int| 0 <= k < i ==> buf@[k] != 0,
        decreases buf.len() - i,
    {
        if buf[i] == 0 {
            let mut name: Vec<u16> = Vec::new();
            let mut j: usize = 0;
            while j < i
                invariant
                    j <= i,
                    i < buf.len(),
                    name@ == buf@.subrange(0, j as int),
                decreases i - j,
            {
                name.push(buf[j]);
                assert(name@ =~= buf@.subrange(0, j + 1));
                j += 1;
            }
            proof {
                lemma_decoded_name_some(buf@, i as int);
            }
            return Some(name);
        }
        i += 1;
    }
    proof {
        lemma_decoded_name_none(buf@);
    }
    None
}

/// Compares two wide-character strings element by element.
pub fn wide_eq(a: &Vec<u16>, b: &Vec<u16>) -> (r: bool)
    ensures
        r == (a@ == b@),
{
    if a.len() != b.len() {
        assert(a@ != b@);
        return false;
    }
    let mut i: usize = 0;
    while i < a.len()
        invariant
            i <= a.len(),
            a@.len() == b@.len(),
            forall|k: int| 0 <= k < i ==> a@[k] == b@[k],
        decreases a.len() - i,
    {
        if a[i] != b[i] {
            return false;
        }
        i += 1;
    }
    proof {
        assert(a@ =~= b@);
    }
    true
}

/// Copies a wide-character string.
pub fn wide_copy(a: &Vec<u16>) -> (r: Vec<u16>)
    ensures
        r@ == a@,
{
    let mut r: Vec<u16> = Vec::new();
    let mut i: usize = 0;
    while i < a.len()
        invariant
            i <= a.len(),
            r@ == a@.subrange(0, i as int),
        decreases a.len() - i,
    {
        r.push(a[i]);
        assert(r@ =~= a@.subrange(0, i + 1));
        i += 1;
    }
    proof {
        assert(r@ =~= a@);
    }
    r
}

} // verus!
