use csr::field::MAX_WIDTH;
use csr::{Field, Register};

#[test]
fn register_keeps_its_offset() {
    let reg = Register::new(0x0c);
    assert_eq!(reg.offset(), 0x0c);
    assert_eq!(Register::new(0).offset(), 0);
    assert_eq!(Register::new(usize::MAX).offset(), usize::MAX);
}

#[test]
fn field_keeps_offset_and_register() {
    let field = Field::new(3, 5, Register::new(7));
    assert_eq!(field.offset(), 5);
    assert_eq!(field.register().offset(), 7);
    assert_eq!(field.mask(), 0b111);
}

#[test]
fn mask_of_every_supported_width() {
    let table: [usize; 32] = [
        0, 1, 3, 7, 15, 31, 63, 127, 255, 511, 1023, 2047, 4095, 8191, 16383, 32767, 65535,
        131071, 262143, 524287, 1048575, 2097151, 4194303, 8388607, 16777215, 33554431,
        67108863, 134217727, 268435455, 536870911, 1073741823, 2147483647,
    ];
    let mut width: usize = 0;
    while width < 32 {
        let field = Field::new(width, 0, Register::new(0));
        assert_eq!(field.mask(), table[width], "width {}", width);
        width += 1;
    }
}

#[test]
fn mask_is_one_shifted_less_one() {
    let mut width: usize = 0;
    while width <= MAX_WIDTH {
        let field = Field::new(width, 0, Register::new(0));
        assert_eq!(field.mask(), (1usize << width) - 1);
        width += 1;
    }
}

#[test]
fn mask_has_exactly_width_low_bits_set() {
    let mut width: usize = 0;
    while width <= MAX_WIDTH {
        let mask: usize = Field::new(width, 9, Register::new(2)).mask();
        let mut bit: u32 = 0;
        while bit < usize::BITS {
            let set = (mask >> bit) & 1 == 1;
            assert_eq!(set, (bit as usize) < width, "width {} bit {}", width, bit);
            bit += 1;
        }
        assert_eq!(mask.count_ones() as usize, width);
        width += 1;
    }
}

#[test]
fn mask_of_width_zero_is_zero() {
    assert_eq!(Field::new(0, 0, Register::new(0)).mask(), 0);
}

#[test]
fn mask_of_widest_field() {
    assert_eq!(MAX_WIDTH, 31);
    assert_eq!(Field::new(31, 0, Register::new(0)).mask(), 0x7fff_ffff);
}

#[test]
fn mask_of_unsupported_width_is_zero() {
    assert_eq!(Field::new(32, 0, Register::new(0)).mask(), 0);
    assert_eq!(Field::new(33, 4, Register::new(1)).mask(), 0);
    assert_eq!(Field::new(64, 0, Register::new(0)).mask(), 0);
    assert_eq!(Field::new(usize::MAX, 0, Register::new(0)).mask(), 0);
}

#[test]
fn mask_does_not_depend_on_offset() {
    let low = Field::new(4, 0, Register::new(0));
    let high = Field::new(4, 28, Register::new(0));
    let beyond = Field::new(4, 1000, Register::new(0));
    assert_eq!(low.mask(), 15);
    assert_eq!(high.mask(), 15);
    assert_eq!(beyond.mask(), 15);
}

#[test]
fn shift_is_offset_within_the_word() {
    let mut offset: usize = 0;
    while offset < usize::BITS as usize {
        assert_eq!(Field::new(1, offset, Register::new(0)).shift(), offset);
        offset += 1;
    }
}

#[test]
fn shift_wraps_round_beyond_the_word() {
    let bits: usize = usize::BITS as usize;
    assert_eq!(Field::new(1, bits, Register::new(0)).shift(), 0);
    assert_eq!(Field::new(1, bits + 1, Register::new(0)).shift(), 1);
    assert_eq!(Field::new(1, 3 * bits + 5, Register::new(0)).shift(), 5);
    assert_eq!(Field::new(1, usize::MAX, Register::new(0)).shift(), bits - 1);
}

#[test]
fn descriptors_are_copied() {
    let reg = Register::new(4);
    let first = Field::new(1, 0, reg);
    let second = Field::new(1, 1, reg);
    let again = first;
    assert_eq!(first.register().offset(), second.register().offset());
    assert_eq!(again.mask(), first.mask());
    assert_eq!(format!("{:?}", reg), "Register { offset: 4 }");
}
