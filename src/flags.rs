//! The engine's bit layout for option flags, and the laws of composing them.
//!
//! Every option axis (symmetry, duplicate policy, zero discarding, major order) owns a
//! mask of its own; the masks are pairwise disjoint, so OR-ing the codes of any
//! choice of options keeps each axis recoverable.
use vstd::prelude::*;

use crate::discard_zero::DiscardZero;
use crate::duplicates::Duplicates;
use crate::major_order::MajorOrder;
use crate::symmetry::Symmetry;

verus! {

/// No flag set.
pub const FLAG_NOFLAGS: i32 = 0x0;
/// Keep the flags of the matrix being copied.
pub const FLAG_IDENTICAL_FLAGS: i32 = 0x0;
/// Indices handed to the engine start at zero.
pub const FLAG_C_INDICES_INTERFACE: i32 = 0x0;
/// The matrix is triangular.
pub const FLAG_TRIANGULAR: i32 = 0x8;
/// Only the lower triangle is stored.
pub const FLAG_LOWER: i32 = 0x10;
/// Only the upper triangle is stored.
pub const FLAG_UPPER: i32 = 0x20;
/// Coordinate-list leaves are allowed.
pub const FLAG_WANT_COO_STORAGE: i32 = 0x100;
/// Repeated coordinates keep the last value given.
pub const FLAG_DUPLICATES_KEEP_LAST: i32 = 0x0;
/// Repeated coordinates are summed.
pub const FLAG_DUPLICATES_SUM: i32 = 0x200;
/// Explicit zero values are dropped.
pub const FLAG_DISCARD_ZEROS: i32 = 0x400;
/// Compressed-row leaves are allowed.
pub const FLAG_WANT_BCSS_STORAGE: i32 = 0x4000;
/// The matrix is symmetric.
pub const FLAG_SYMMETRIC: i32 = 0x400000;
/// The matrix is Hermitian.
pub const FLAG_HERMITIAN: i32 = 0x800000;
/// Dense operands are stored row by row.
pub const FLAG_WANT_ROW_MAJOR_ORDER: i32 = 0x0;
/// Dense operands are stored column by column.
pub const FLAG_WANT_COLUMN_MAJOR_ORDER: i32 = 0x4000000;

/// `FLAG_SYMMETRIC | FLAG_LOWER`.
pub const FLAG_LOWER_SYMMETRIC: i32 = 0x400010;
/// `FLAG_SYMMETRIC | FLAG_UPPER`.
pub const FLAG_UPPER_SYMMETRIC: i32 = 0x400020;
/// `FLAG_HERMITIAN | FLAG_LOWER`.
pub const FLAG_LOWER_HERMITIAN: i32 = 0x800010;
/// `FLAG_HERMITIAN | FLAG_UPPER`.
pub const FLAG_UPPER_HERMITIAN: i32 = 0x800020;
/// `FLAG_TRIANGULAR | FLAG_LOWER`.
pub const FLAG_LOWER_TRIANGULAR: i32 = 0x18;
/// `FLAG_TRIANGULAR | FLAG_UPPER`.
pub const FLAG_UPPER_TRIANGULAR: i32 = 0x28;
/// `FLAG_WANT_BCSS_STORAGE | FLAG_WANT_COO_STORAGE`: the storage flags used when loading.
pub const FLAG_DEFAULT_STORAGE_FLAGS: i32 = 0x4100;

/// The bits that the symmetry axis may set.
pub const SYMMETRY_MASK: i32 = 0xc00038;
/// The bits that the duplicate policy may set.
pub const DUPLICATES_MASK: i32 = 0x200;
/// The bits that the zero-discarding policy may set.
pub const DISCARD_ZERO_MASK: i32 = 0x400;
/// The bits that the major order may set.
pub const MAJOR_ORDER_MASK: i32 = 0x4000000;

/// The named combinations are the OR of their parts.
pub proof fn lemma_combined_flags()
    ensures
        FLAG_LOWER_SYMMETRIC == FLAG_SYMMETRIC | FLAG_LOWER,
        FLAG_UPPER_SYMMETRIC == FLAG_SYMMETRIC | FLAG_UPPER,
        FLAG_LOWER_HERMITIAN == FLAG_HERMITIAN | FLAG_LOWER,
        FLAG_UPPER_HERMITIAN == FLAG_HERMITIAN | FLAG_UPPER,
        FLAG_LOWER_TRIANGULAR == FLAG_TRIANGULAR | FLAG_LOWER,
        FLAG_UPPER_TRIANGULAR == FLAG_TRIANGULAR | FLAG_UPPER,
        FLAG_DEFAULT_STORAGE_FLAGS == FLAG_WANT_BCSS_STORAGE | FLAG_WANT_COO_STORAGE,
        SYMMETRY_MASK == FLAG_TRIANGULAR | FLAG_LOWER | FLAG_UPPER | FLAG_SYMMETRIC
            | FLAG_HERMITIAN,
{
    assert(FLAG_LOWER_SYMMETRIC == FLAG_SYMMETRIC | FLAG_LOWER) by (bit_vector);
    assert(FLAG_UPPER_SYMMETRIC == FLAG_SYMMETRIC | FLAG_UPPER) by (bit_vector);
    assert(FLAG_LOWER_HERMITIAN == FLAG_HERMITIAN | FLAG_LOWER) by (bit_vector);
    assert(FLAG_UPPER_HERMITIAN == FLAG_HERMITIAN | FLAG_UPPER) by (bit_vector);
    assert(FLAG_LOWER_TRIANGULAR == FLAG_TRIANGULAR | FLAG_LOWER) by (bit_vector);
    assert(FLAG_UPPER_TRIANGULAR == FLAG_TRIANGULAR | FLAG_UPPER) by (bit_vector);
    assert(FLAG_DEFAULT_STORAGE_FLAGS == FLAG_WANT_BCSS_STORAGE | FLAG_WANT_COO_STORAGE)
        by (bit_vector);
    assert(SYMMETRY_MASK == FLAG_TRIANGULAR | FLAG_LOWER | FLAG_UPPER | FLAG_SYMMETRIC
        | FLAG_HERMITIAN) by (bit_vector);
}

/// The masks of the option axes share no bit.
pub proof fn lemma_masks_disjoint()
    ensures
        SYMMETRY_MASK & DUPLICATES_MASK == 0,
        SYMMETRY_MASK & DISCARD_ZERO_MASK == 0,
        SYMMETRY_MASK & MAJOR_ORDER_MASK == 0,
        DUPLICATES_MASK & DISCARD_ZERO_MASK == 0,
        DUPLICATES_MASK & MAJOR_ORDER_MASK == 0,
        DISCARD_ZERO_MASK & MAJOR_ORDER_MASK == 0,
{
    assert(SYMMETRY_MASK & DUPLICATES_MASK == 0) by (bit_vector);
    assert(SYMMETRY_MASK & DISCARD_ZERO_MASK == 0) by (bit_vector);
    assert(SYMMETRY_MASK & MAJOR_ORDER_MASK == 0) by (bit_vector);
    assert(DUPLICATES_MASK & DISCARD_ZERO_MASK == 0) by (bit_vector);
    assert(DUPLICATES_MASK & MAJOR_ORDER_MASK == 0) by (bit_vector);
    assert(DISCARD_ZERO_MASK & MAJOR_ORDER_MASK == 0) by (bit_vector);
}


/// The flags word that carries a choice of every option axis.
pub open spec fn compose_flags(
    symmetry: Symmetry,
    duplicates: Duplicates,
    discard_zero: DiscardZero,
    order: MajorOrder,
) -> i32 {
    symmetry.spec_code() | duplicates.spec_code() | discard_zero.spec_code() | order.spec_code()
}

proof fn lemma_codes_in_masks()
    by (bit_vector)
    ensures
        FLAG_NOFLAGS & !SYMMETRY_MASK == 0,
        FLAG_SYMMETRIC & !SYMMETRY_MASK == 0,
        FLAG_LOWER_SYMMETRIC & !SYMMETRY_MASK == 0,
        FLAG_UPPER_SYMMETRIC & !SYMMETRY_MASK == 0,
        FLAG_LOWER_HERMITIAN & !SYMMETRY_MASK == 0,
        FLAG_UPPER_HERMITIAN & !SYMMETRY_MASK == 0,
        FLAG_LOWER_TRIANGULAR & !SYMMETRY_MASK == 0,
        FLAG_UPPER_TRIANGULAR & !SYMMETRY_MASK == 0,
        FLAG_DUPLICATES_SUM & !DUPLICATES_MASK == 0,
        FLAG_DUPLICATES_KEEP_LAST & !DUPLICATES_MASK == 0,
        FLAG_DISCARD_ZEROS & !DISCARD_ZERO_MASK == 0,
        FLAG_NOFLAGS & !DISCARD_ZERO_MASK == 0,
        FLAG_WANT_COLUMN_MAJOR_ORDER & !MAJOR_ORDER_MASK == 0,
        FLAG_WANT_ROW_MAJOR_ORDER & !MAJOR_ORDER_MASK == 0,
{
}

/// Every option sets bits of its own axis only.
pub proof fn lemma_option_codes_in_masks(
    symmetry: Symmetry,
    duplicates: Duplicates,
    discard_zero: DiscardZero,
    order: MajorOrder,
)
    ensures
        symmetry.spec_code() & !SYMMETRY_MASK == 0,
        duplicates.spec_code() & !DUPLICATES_MASK == 0,
        discard_zero.spec_code() & !DISCARD_ZERO_MASK == 0,
        order.spec_code() & !MAJOR_ORDER_MASK == 0,
{
    lemma_codes_in_masks();
}

proof fn lemma_or_of_disjoint_parts(a: i32, b: i32, c: i32, d: i32)
    by (bit_vector)
    requires
        a & !SYMMETRY_MASK == 0,
        b & !DUPLICATES_MASK == 0,
        c & !DISCARD_ZERO_MASK == 0,
        d & !MAJOR_ORDER_MASK == 0,
    ensures
        (a | b | c | d) & SYMMETRY_MASK == a,
        (a | b | c | d) & DUPLICATES_MASK == b,
        (a | b | c | d) & DISCARD_ZERO_MASK == c,
        (a | b | c | d) & MAJOR_ORDER_MASK == d,
        a | b | c | d == d | c | b | a,
        a | b == b | a,
{
}

/// Composing options never clears the bits of another: each axis reads back from the
/// composed word exactly the code that was put in, and the order of composition does
/// not matter.
pub proof fn lemma_compose_keeps_each_option(
    symmetry: Symmetry,
    duplicates: Duplicates,
    discard_zero: DiscardZero,
    order: MajorOrder,
)
    ensures
        compose_flags(symmetry, duplicates, discard_zero, order) & SYMMETRY_MASK
            == symmetry.spec_code(),
        compose_flags(symmetry, duplicates, discard_zero, order) & DUPLICATES_MASK
            == duplicates.spec_code(),
        compose_flags(symmetry, duplicates, discard_zero, order) & DISCARD_ZERO_MASK
            == discard_zero.spec_code(),
        compose_flags(symmetry, duplicates, discard_zero, order) & MAJOR_ORDER_MASK
            == order.spec_code(),
        compose_flags(symmetry, duplicates, discard_zero, order) == order.spec_code()
            | discard_zero.spec_code() | duplicates.spec_code() | symmetry.spec_code(),
{
    lemma_option_codes_in_masks(symmetry, duplicates, discard_zero, order);
    lemma_or_of_disjoint_parts(
        symmetry.spec_code(),
        duplicates.spec_code(),
        discard_zero.spec_code(),
        order.spec_code(),
    );
}

/// The composed word determines every option: two choices that compose to the same
/// word are the same choice.
pub proof fn lemma_compose_injective(
    s1: Symmetry,
    d1: Duplicates,
    z1: DiscardZero,
    o1: MajorOrder,
    s2: Symmetry,
    d2: Duplicates,
    z2: DiscardZero,
    o2: MajorOrder,
)
    requires
        compose_flags(s1, d1, z1, o1) == compose_flags(s2, d2, z2, o2),
    ensures
        s1 == s2,
        d1 == d2,
        z1.spec_enabled() == z2.spec_enabled(),
        o1 == o2,
{
    lemma_compose_keeps_each_option(s1, d1, z1, o1);
    lemma_compose_keeps_each_option(s2, d2, z2, o2);
}


proof fn lemma_or_of_two_parts(a: i32, b: i32)
    by (bit_vector)
    requires
        a & !SYMMETRY_MASK == 0,
        b & !DUPLICATES_MASK == 0,
    ensures
        (b | a) & SYMMETRY_MASK == a,
        (b | a) & DUPLICATES_MASK == b,
        b | a == a | b,
{
}

/// The flags word of a new matrix keeps both its symmetry and its duplicate policy,
/// whichever is put in first.
pub proof fn lemma_symmetry_and_duplicates_kept(symmetry: Symmetry, duplicates: Duplicates)
    ensures
        (duplicates.spec_code() | symmetry.spec_code()) & SYMMETRY_MASK == symmetry.spec_code(),
        (duplicates.spec_code() | symmetry.spec_code()) & DUPLICATES_MASK
            == duplicates.spec_code(),
        duplicates.spec_code() | symmetry.spec_code() == symmetry.spec_code()
            | duplicates.spec_code(),
{
    lemma_codes_in_masks();
    lemma_or_of_two_parts(symmetry.spec_code(), duplicates.spec_code());
}

} // verus!
