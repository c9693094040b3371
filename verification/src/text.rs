//! Byte-level text helpers shared by the contracts: literal text as UTF-8
//! bytes, decimal numbers, and concatenation.
use vstd::prelude::*;
use vstd::string::StringSliceAdditionalSpecFns;

verus! {

/// The decimal digits of `n`, in ASCII, without leading zeros.
pub open spec fn decimal_digits(n: nat) -> Seq<u8>
    decreases n,
{
    if n < 10 {
        seq![(48 + n) as u8]
    } else {
        decimal_digits(n / 10).push((48 + n % 10) as u8)
    }
}

/// The UTF-8 bytes of a text.
pub fn text_bytes(t: &str) -> (r: Vec<u8>)
    ensures
        r@ == t.spec_bytes(),
{
    let b = t.as_bytes();
    let mut r: Vec<u8> = Vec::new();
    let mut i: usize = 0;
    while i < b.len()
        invariant
            i <= b@.len(),
            r@ == b@.subrange(0, i as int),
        decreases b@.len() - i,
    {
        r.push(b[i]);
        i += 1;
        assert(r@ =~= b@.subrange(0, i as int));
    }
    assert(b@.subrange(0, b@.len() as int) =~= b@);
    r
}

/// The decimal form of `n`.
pub fn decimal_text(n: u64) -> (r: Vec<u8>)
    ensures
        r@ == decimal_digits(n as nat),
    decreases n,
{
    if n < 10 {
        let mut r: Vec<u8> = Vec::new();
        r.push((48 + n) as u8);
        assert(r@ =~= seq![(48 + n) as u8]);
        r
    } else {
        let mut r = decimal_text(n / 10);
        r.push((48 + n % 10) as u8);
        r
    }
}

/// Appends `tail` to `head`.
pub fn extend(head: &mut Vec<u8>, tail: &Vec<u8>)
    ensures
        final(head)@ == old(head)@ + tail@,
{
    let mut i: usize = 0;
    let ghost start = head@;
    while i < tail.len()
        invariant
            i <= tail@.len(),
            head@ == start + tail@.subrange(0, i as int),
        decreases tail@.len() - i,
    {
        head.push(tail[i]);
        i += 1;
        assert(head@ =~= start + tail@.subrange(0, i as int));
    }
    assert(tail@.subrange(0, tail@.len() as int) =~= tail@);
}

/// The bytes of `prefix` followed by the decimal form of `n`.
pub fn labelled(prefix: &str, n: u64) -> (r: Vec<u8>)
    ensures
        r@ == prefix.spec_bytes() + decimal_digits(n as nat),
{
    let mut r = text_bytes(prefix);
    let d = decimal_text(n);
    extend(&mut r, &d);
    r
}

/// Whether `a` holds exactly the UTF-8 bytes of `t`.
pub fn same_text(a: &Vec<u8>, t: &str) -> (r: bool)
    ensures
        r == (a@ == t.spec_bytes()),
{
    let b = t.as_bytes();
    if a.len() != b.len() {
        return false;
    }
    let mut i: usize = 0;
    while i < a.len()
        invariant
            i <= a@.len(),
            a@.len() == b@.len(),
            b@ == t.spec_bytes(),
            forall|k: int| 0 <= k < i ==> a@[k] == b@[k],
        decreases a@.len() - i,
    {
        if a[i] != b[i] {
            return false;
        }
        i += 1;
    }
    assert(a@ =~= b@);
    true
}

/// A copy of a byte list.
pub fn copy_bytes(b: &Vec<u8>) -> (r: Vec<u8>)
    ensures
        r@ == b@,
{
    let mut r: Vec<u8> = Vec::new();
    extend(&mut r, b);
    assert(r@ =~= b@);
    r
}

/// The contents of a list of texts.
pub open spec fn texts(v: Seq<Vec<u8>>) -> Seq<Seq<u8>> {
    v.map_values(|t: Vec<u8>| t@)
}

/// A copy of a list of texts.
pub fn copy_texts(v: &Vec<Vec<u8>>) -> (r: Vec<Vec<u8>>)
    ensures
        texts(r@) == texts(v@),
{
    let mut r: Vec<Vec<u8>> = Vec::new();
    let mut i: usize = 0;
    while i < v.len()
        invariant
            i <= v@.len(),
            r@.len() == i,
            forall|k: int| 0 <= k < i ==> (#[trigger] r@[k])@ == v@[k]@,
        decreases v@.len() - i,
    {
        r.push(copy_bytes(&v[i]));
        i += 1;
    }
    assert(texts(r@) =~= texts(v@));
    r
}

/// A list of one text.
pub fn text_list1(a: &str) -> (r: Vec<Vec<u8>>)
    ensures
        texts(r@) == seq![a.spec_bytes()],
{
    let mut r: Vec<Vec<u8>> = Vec::new();
    r.push(text_bytes(a));
    assert(texts(r@) =~= seq![a.spec_bytes()]);
    r
}

/// A list of two texts.
pub fn text_list2(a: &str, b: &str) -> (r: Vec<Vec<u8>>)
    ensures
        texts(r@) == seq![a.spec_bytes(), b.spec_bytes()],
{
    let mut r: Vec<Vec<u8>> = Vec::new();
    r.push(text_bytes(a));
    r.push(text_bytes(b));
    assert(texts(r@) =~= seq![a.spec_bytes(), b.spec_bytes()]);
    r
}

/// A list of three texts.
pub fn text_list3(a: &str, b: &str, c: &str) -> (r: Vec<Vec<u8>>)
    ensures
        texts(r@) == seq![a.spec_bytes(), b.spec_bytes(), c.spec_bytes()],
{
    let mut r: Vec<Vec<u8>> = Vec::new();
    r.push(text_bytes(a));
    r.push(text_bytes(b));
    r.push(text_bytes(c));
    assert(texts(r@) =~= seq![a.spec_bytes(), b.spec_bytes(), c.spec_bytes()]);
    r
}

/// `head`, the decimal form of `n`, then `tail`.
pub fn with_number(head: &str, n: u64, tail: &str) -> (r: Vec<u8>)
    ensures
        r@ == head.spec_bytes() + decimal_digits(n as nat) + tail.spec_bytes(),
{
    let mut r = labelled(head, n);
    let t = text_bytes(tail);
    extend(&mut r, &t);
    r
}

/// `a`, the decimal form of `m`, `b`, the decimal form of `n`, then `c`.
pub fn with_two_numbers(a: &str, m: u64, b: &str, n: u64, c: &str) -> (r: Vec<u8>)
    ensures
        r@ == a.spec_bytes() + decimal_digits(m as nat) + b.spec_bytes() + decimal_digits(n as nat) + c.spec_bytes(),
{
    let mut r = labelled(a, m);
    let t = with_number(b, n, c);
    extend(&mut r, &t);
    assert(r@ =~= a.spec_bytes() + decimal_digits(m as nat) + b.spec_bytes() + decimal_digits(n as nat) + c.spec_bytes());
    r
}

} // verus!
