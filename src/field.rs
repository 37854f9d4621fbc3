//! Bit fields inside a 16-bit register word.
//!
//! A field is given by its width in bits (1 to 4) and the offset of its
//! lowest bit; it always lies within the eleven data bits of a frame.
use vstd::prelude::*;

verus! {

/// The low-bit mask of a field of width `w`.
pub open spec fn field_mask(w: u16) -> u16 {
    if w == 1 {
        1
    } else if w == 2 {
        3
    } else if w == 3 {
        7
    } else {
        15
    }
}

/// A field of width `w` at offset `o` lies within the data bits.
pub open spec fn valid_field(w: u16, o: u16) -> bool {
    1 <= w <= 4 && o + w <= 11
}

/// Two fields share no bit.
pub open spec fn disjoint(w1: u16, o1: u16, w2: u16, o2: u16) -> bool {
    o1 + w1 <= o2 || o2 + w2 <= o1
}

/// The value held by the field: `(raw & (mask << o)) >> o`.
pub open spec fn get_field(raw: u16, w: u16, o: u16) -> u16 {
    (raw & (field_mask(w) << o)) >> o
}

/// `raw` with the field cleared and `v`, cut to the field's width, put in its place.
pub open spec fn put_field(raw: u16, w: u16, o: u16, v: u16) -> u16 {
    (raw & !(field_mask(w) << o)) | ((v & field_mask(w)) << o)
}

/// The bits outside the field agree in `a` and `b`.
pub open spec fn same_outside(a: u16, b: u16, w: u16, o: u16) -> bool {
    a & !(field_mask(w) << o) == b & !(field_mask(w) << o)
}

proof fn lemma_mask_values(w: u16)
    requires
        1 <= w <= 4,
    ensures
        field_mask(w) == 1 || field_mask(w) == 3 || field_mask(w) == 7 || field_mask(w) == 15,
        field_mask(w) == 1 <==> w == 1,
        field_mask(w) == 3 <==> w == 2,
        field_mask(w) == 7 <==> w == 3,
        field_mask(w) == 15 <==> w == 4,
{
}

proof fn lemma_get_bound_bv(raw: u16, m: u16, o: u16)
    by (bit_vector)
    requires
        m == 1 || m == 3 || m == 7 || m == 15,
        o <= 10,
    ensures
        (raw & (m << o)) >> o <= m,
{
}

/// A field's value never exceeds its mask.
pub broadcast proof fn lemma_get_bound(raw: u16, w: u16, o: u16)
    requires
        valid_field(w, o),
    ensures
        #[trigger] get_field(raw, w, o) <= field_mask(w),
{
    lemma_mask_values(w);
    lemma_get_bound_bv(raw, field_mask(w), o);
}

proof fn lemma_put_bv(raw: u16, m: u16, o: u16, v: u16)
    by (bit_vector)
    requires
        m == 1 || m == 3 || m == 7 || m == 15,
        o <= 10,
    ensures
        ((((raw & !(m << o)) | ((v & m) << o)) & (m << o)) >> o) == v & m,
        ((raw & !(m << o)) | ((v & m) << o)) & !(m << o) == raw & !(m << o),
        (raw & !(m << o)) | ((((raw & (m << o)) >> o) & m) << o) == raw,
{
}

/// Writing a field and reading it back gives the value cut to the field's
/// width.
pub broadcast proof fn lemma_put_field(raw: u16, w: u16, o: u16, v: u16)
    requires
        valid_field(w, o),
    ensures
        #[trigger] get_field(put_field(raw, w, o, v), w, o) == v & field_mask(w),
{
    lemma_mask_values(w);
    lemma_put_bv(raw, field_mask(w), o, v);
}

/// Writing a field leaves every bit outside it as it was.
pub broadcast proof fn lemma_put_outside(raw: u16, w: u16, o: u16, v: u16)
    requires
        valid_field(w, o),
    ensures
        #[trigger] same_outside(put_field(raw, w, o, v), raw, w, o),
{
    lemma_mask_values(w);
    lemma_put_bv(raw, field_mask(w), o, v);
}

/// Writing back the value a field already holds changes nothing.
pub broadcast proof fn lemma_put_same(raw: u16, w: u16, o: u16)
    requires
        valid_field(w, o),
    ensures
        #[trigger] put_field(raw, w, o, get_field(raw, w, o)) == raw,
{
    lemma_mask_values(w);
    lemma_put_bv(raw, field_mask(w), o, 0);
}

proof fn lemma_disjoint_bv(raw: u16, m1: u16, w1: u16, o1: u16, v: u16, m2: u16, w2: u16, o2: u16)
    by (bit_vector)
    requires
        (m1 == 1 && w1 == 1) || (m1 == 3 && w1 == 2) || (m1 == 7 && w1 == 3) || (m1 == 15 && w1 == 4),
        (m2 == 1 && w2 == 1) || (m2 == 3 && w2 == 2) || (m2 == 7 && w2 == 3) || (m2 == 15 && w2 == 4),
        o1 <= 10,
        o2 <= 10,
        o1 + w1 <= o2 || o2 + w2 <= o1,
    ensures
        ({
            let p = (raw & !(m1 << o1)) | ((v & m1) << o1);
            (p & !(m2 << o2)) | ((((raw & (m2 << o2)) >> o2) & m2) << o2) == p
        }),
        ({
            let p = (raw & !(m1 << o1)) | ((v & m1) << o1);
            (p & (m2 << o2)) >> o2 == (raw & (m2 << o2)) >> o2
        }),
{
}

/// Writing a field and then writing a disjoint field's old value back
/// gives the first write alone.
pub broadcast proof fn lemma_put_disjoint(raw: u16, w1: u16, o1: u16, v: u16, w2: u16, o2: u16)
    requires
        valid_field(w1, o1),
        valid_field(w2, o2),
        disjoint(w1, o1, w2, o2),
    ensures
        #[trigger] put_field(put_field(raw, w1, o1, v), w2, o2, get_field(raw, w2, o2))
            == put_field(raw, w1, o1, v),
{
    lemma_mask_values(w1);
    lemma_mask_values(w2);
    lemma_disjoint_bv(raw, field_mask(w1), w1, o1, v, field_mask(w2), w2, o2);
}

/// Writing a field leaves a disjoint field's value as it was.
pub broadcast proof fn lemma_get_disjoint(raw: u16, w1: u16, o1: u16, v: u16, w2: u16, o2: u16)
    requires
        valid_field(w1, o1),
        valid_field(w2, o2),
        disjoint(w1, o1, w2, o2),
    ensures
        #[trigger] get_field(put_field(raw, w1, o1, v), w2, o2) == get_field(raw, w2, o2),
{
    lemma_mask_values(w1);
    lemma_mask_values(w2);
    lemma_disjoint_bv(raw, field_mask(w1), w1, o1, v, field_mask(w2), w2, o2);
}

pub broadcast group group_field {
    lemma_get_bound,
    lemma_put_field,
    lemma_put_outside,
    lemma_put_same,
    lemma_put_disjoint,
    lemma_get_disjoint,
}

/// Reads the field of width `w` at offset `o`.
pub fn get_bits(raw: u16, w: u16, o: u16) -> (r: u16)
    requires
        valid_field(w, o),
    ensures
        r == get_field(raw, w, o),
        r <= field_mask(w),
{
    proof {
        lemma_get_bound(raw, w, o);
    }
    let m = mask_of(w);
    (raw & (m << o)) >> o
}

/// Writes `v`, cut to the field's width, into the field of width `w` at offset `o`.
pub fn put_bits(raw: u16, w: u16, o: u16, v: u16) -> (r: u16)
    requires
        valid_field(w, o),
    ensures
        r == put_field(raw, w, o, v),
{
    let m = mask_of(w);
    (raw & !(m << o)) | ((v & m) << o)
}

fn mask_of(w: u16) -> (m: u16)
    requires
        1 <= w <= 4,
    ensures
        m == field_mask(w),
{
    if w == 1 {
        1
    } else if w == 2 {
        3
    } else if w == 3 {
        7
    } else {
        15
    }
}

} // verus!
