//! What holds of every field and every word: the shape of the masks, and
//! how reading a field relates to the two ways of writing one.

use vstd::prelude::*;
use vstd::arithmetic::power2::lemma2_to64;
use vstd::std_specs::convert::TryFromSpec;
use vstd::std_specs::convert::TryIntoSpec;
use crate::accessor::CSR;
use crate::field::lemma_one_shifted;
use crate::field::mask_of_width;
use crate::field::Field;
use crate::field::MAX_WIDTH;

verus! {

/// The mask of a supported width is `(1 << width) - 1`: bit `bit` of it is
/// set exactly when `bit` is below the width. The mask of width 0 is zero.
pub proof fn lemma_mask_is_low_bits(width: usize, bit: usize)
    requires
        width <= MAX_WIDTH,
        bit < usize::BITS,
    ensures
        mask_of_width(width) == (1usize << width) - 1,
        (mask_of_width(width) >> bit) & 1 == 1 <==> bit < width,
        mask_of_width(0) == 0,
{
    lemma_one_shifted(width);
    lemma2_to64();
    let mask = mask_of_width(width);
    assert(((mask >> bit) & 1 == 1) <==> bit < width) by (bit_vector)
        requires
            width <= 31,
            bit < usize::BITS,
            mask == ((1usize << width) - 1) as usize,
    ;
}

/// Reading a field after an update of it gives what was put in, whatever
/// the register held before: for a field of a supported width that lies
/// within the word, and a raw value that fits in the field's width.
pub proof fn lemma_extract_after_merge(field: Field, width: usize, word: usize, raw: usize)
    requires
        width <= MAX_WIDTH,
        field.mask() == mask_of_width(width),
        field.offset() + width <= usize::BITS,
        raw <= field.mask(),
    ensures
        field.extract(field.merge(word, raw)) == raw,
{
    lemma_one_shifted(width);
    let mask = field.mask();
    let offset = field.offset();
    let shift = field.shift();
    assert(((((word & !(mask << shift)) | (raw << shift)) >> shift) & mask) == raw) by (bit_vector)
        requires
            width <= 31,
            offset + width <= usize::BITS,
            mask == ((1usize << width) - 1) as usize,
            raw <= mask,
            shift == offset % (usize::BITS as usize),
    ;
}

/// On a register that held zero, reading a field after an update of it
/// gives what was put in exactly when the raw value has no bit outside the
/// field's mask and the shift pushes none of its bits beyond the word.
pub proof fn lemma_extract_after_merge_into_zero(field: Field, raw: usize)
    ensures
        field.extract(field.merge(0, raw)) == raw <==> (raw & !field.mask()) == 0
            && (field.place(raw) >> field.shift()) == raw,
{
    let mask = field.mask();
    let offset = field.offset();
    let shift = field.shift();
    assert((((((0usize & !(mask << shift)) | (raw << shift)) >> shift) & mask) == raw) <==> (raw
        & !mask == 0 && (raw << shift) >> shift == raw)) by (bit_vector)
        requires
            shift == offset % (usize::BITS as usize),
    ;
}

/// An update of a field leaves the bits outside the field's mask as they
/// were exactly when the raw value, moved into position, sets no bit there
/// that the register did not hold already. That is so for every raw value
/// that has no bit outside the field's mask, and so for every raw value up
/// to the mask of a well-formed field.
pub proof fn lemma_merge_keeps_other_bits(field: Field, word: usize, raw: usize)
    ensures
        (field.merge(word, raw) & !field.mask_in_place()) == (word & !field.mask_in_place())
            <==> (field.place(raw) & !field.mask_in_place() & !word) == 0,
        raw & !field.mask() == 0 ==> (field.merge(word, raw) & !field.mask_in_place()) == (word
            & !field.mask_in_place()),
        field.well_formed() && raw <= field.mask() ==> (field.merge(word, raw)
            & !field.mask_in_place()) == (word & !field.mask_in_place()),
{
    let mask = field.mask();
    let offset = field.offset();
    let shift = field.shift();
    assert((((word & !(mask << shift)) | (raw << shift)) & !(mask << shift) == word & !(mask
        << shift)) <==> ((raw << shift) & !(mask << shift) & !word == 0)) by (bit_vector)
        requires
            shift == offset % (usize::BITS as usize),
    ;
    assert(raw & !mask == 0 ==> ((word & !(mask << shift)) | (raw << shift)) & !(mask << shift)
        == word & !(mask << shift)) by (bit_vector)
        requires
            shift == offset % (usize::BITS as usize),
    ;
    if field.well_formed() && raw <= mask {
        lemma_low_bits_hold(field, raw);
    }
}

/// A write of a field without a read leaves no bit set outside the field's
/// mask exactly when the raw value has no bit outside the mask that the
/// shift keeps within the word. That is so for every raw value that has no
/// bit outside the field's mask, and so for every raw value up to the mask
/// of a well-formed field.
pub proof fn lemma_place_clears_other_bits(field: Field, raw: usize)
    ensures
        (field.place(raw) & !field.mask_in_place()) == 0 <==> ((raw & !field.mask())
            << field.shift()) == 0,
        raw & !field.mask() == 0 ==> (field.place(raw) & !field.mask_in_place()) == 0,
        field.well_formed() && raw <= field.mask() ==> (field.place(raw)
            & !field.mask_in_place()) == 0,
{
    let mask = field.mask();
    let offset = field.offset();
    let shift = field.shift();
    assert(((raw << shift) & !(mask << shift) == 0) <==> ((raw & !mask) << shift == 0))
        by (bit_vector)
        requires
            shift == offset % (usize::BITS as usize),
    ;
    assert(raw & !mask == 0 ==> (raw << shift) & !(mask << shift) == 0) by (bit_vector)
        requires
            shift == offset % (usize::BITS as usize),
    ;
    if field.well_formed() && raw <= mask {
        lemma_low_bits_hold(field, raw);
    }
}

/// A raw value up to the mask of a well-formed field has no bit outside
/// the mask.
pub proof fn lemma_low_bits_hold(field: Field, raw: usize)
    requires
        field.well_formed(),
        raw <= field.mask(),
    ensures
        raw & !field.mask() == 0,
{
    let mask = field.mask();
    let width = choose|width: usize| width <= MAX_WIDTH && field.mask() == mask_of_width(width);
    lemma_one_shifted(width);
    assert(raw & !mask == 0) by (bit_vector)
        requires
            width <= 31,
            mask == ((1usize << width) - 1) as usize,
            raw <= mask,
    ;
}

/// Where `T` keeps to its specification of `try_from`, a register reads as
/// the value that the specification gives for its word, and as a default of
/// `T` where the specification gives none.
pub proof fn lemma_decodes_by_specification<T>(raw: usize, value: T) where
    T: TryFrom<usize> + TryInto<usize> + Default,

    requires
        T::obeys_try_from_spec(),
        CSR::<T>::decodes(raw, value),
    ensures
        (match T::try_from_spec(raw) {
            Ok(v) => value == v,
            Err(_) => call_ensures(T::default, (), value),
        }),
{
}

/// Where `T` keeps to its specification of `try_into`, a value is written
/// as the word that the specification gives for it, and as zero where the
/// specification gives none.
pub proof fn lemma_encodes_by_specification<T>(value: T, raw: usize) where
    T: TryFrom<usize> + TryInto<usize> + Default,

    requires
        T::obeys_try_into_spec(),
        CSR::<T>::encodes(value, raw),
    ensures
        (match value.try_into_spec() {
            Ok(word) => raw == word,
            Err(_) => raw == 0,
        }),
{
}

/// A read of a field after a read-modify-write of it gives the value that
/// was written, whatever the register held before: for a field of a
/// supported width that lies within the word, and a value that fits in the
/// field's width and on which the conversions of `T` agree.
pub proof fn lemma_rmwf_then_rf<T>(
    field: Field,
    width: usize,
    value: T,
    word: usize,
    next: usize,
    read_back: T,
) where T: TryFrom<usize> + TryInto<usize> + Default
    requires
        width <= MAX_WIDTH,
        field.mask() == mask_of_width(width),
        field.offset() + width <= usize::BITS,
        CSR::<T>::fits(value, field),
        CSR::<T>::faithful(value),
        CSR::<T>::updates(field, value, word, next),
        CSR::<T>::decodes(field.extract(next), read_back),
    ensures
        read_back == value,
{
    let raw = choose|raw: usize| #[trigger]
        CSR::<T>::encodes(value, raw) && next == field.merge(word, raw);
    lemma_extract_after_merge(field, width, word, raw);
}

/// A read-modify-write of a field leaves every bit outside the field's
/// mask as the register held it, for a value that fits in the field's
/// width.
pub proof fn lemma_rmwf_keeps_other_bits<T>(field: Field, value: T, word: usize, next: usize) where
    T: TryFrom<usize> + TryInto<usize> + Default,

    requires
        field.well_formed(),
        CSR::<T>::fits(value, field),
        CSR::<T>::updates(field, value, word, next),
    ensures
        (next & !field.mask_in_place()) == (word & !field.mask_in_place()),
{
    let raw = choose|raw: usize| #[trigger]
        CSR::<T>::encodes(value, raw) && next == field.merge(word, raw);
    lemma_merge_keeps_other_bits(field, word, raw);
}

/// A write of a field without a read leaves every bit outside the field's
/// mask zero, whatever the register held, for a value that fits in the
/// field's width.
pub proof fn lemma_wf_clears_other_bits<T>(field: Field, value: T, next: usize) where
    T: TryFrom<usize> + TryInto<usize> + Default,

    requires
        field.well_formed(),
        CSR::<T>::fits(value, field),
        CSR::<T>::overwrites(field, value, next),
    ensures
        (next & !field.mask_in_place()) == 0,
{
    let raw = choose|raw: usize| #[trigger]
        CSR::<T>::encodes(value, raw) && next == field.place(raw);
    lemma_place_clears_other_bits(field, raw);
}

/// The conversions of `u8` agree on every value, and a `u8` is written as
/// itself.
pub proof fn lemma_u8_is_faithful(value: u8)
    ensures
        CSR::<u8>::faithful(value),
        forall|raw: usize| #[trigger] CSR::<u8>::encodes(value, raw) ==> raw == value,
{
}

/// The conversions of `u16` agree on every value, and a `u16` is written
/// as itself.
pub proof fn lemma_u16_is_faithful(value: u16)
    ensures
        CSR::<u16>::faithful(value),
        forall|raw: usize| #[trigger] CSR::<u16>::encodes(value, raw) ==> raw == value,
{
}

/// The conversions of `u32` agree on every value, and a `u32` is written
/// as itself.
pub proof fn lemma_u32_is_faithful(value: u32)
    ensures
        CSR::<u32>::faithful(value),
        forall|raw: usize| #[trigger] CSR::<u32>::encodes(value, raw) ==> raw == value,
{
}

} // verus!
