use block_samples::u256::U256;

fn outside(x: &U256) -> ckb_types::U256 {
    ckb_types::U256(x.limbs)
}

fn samples() -> Vec<U256> {
    let words: [u64; 5] = [0, 1, 2, u64::MAX - 1, u64::MAX];
    let mut values = Vec::new();
    for a in words.iter() {
        for b in words.iter() {
            for c in [0u64, 1, u64::MAX].iter() {
                values.push(U256 { limbs: [*a, *c, *b, 0] });
                values.push(U256 { limbs: [*c, *a, 0, *b] });
            }
        }
    }
    values
}

#[test]
fn constructors() {
    assert_eq!(outside(&U256::zero()), ckb_types::U256::zero());
    assert_eq!(outside(&U256::max_value()), ckb_types::U256::max_value());
    assert_eq!(outside(&U256::from_u64(0)), ckb_types::U256::zero());
    assert_eq!(outside(&U256::from_u64(77)), ckb_types::U256::from(77u64));
    assert_eq!(outside(&U256::from_u64(u64::MAX)), ckb_types::U256::from(u64::MAX));
}

#[test]
fn comparison_is_that_of_the_numbers() {
    let values = samples();
    for x in values.iter() {
        for y in values.iter() {
            let (a, b) = (outside(x), outside(y));
            assert_eq!(x.lt(y), a < b);
            assert_eq!(x.le(y), a <= b);
            assert_eq!(x.gt(y), a > b);
            assert_eq!(x.ge(y), a >= b);
            assert_eq!(x.equals(y), a == b);
            assert_eq!(x == y, a == b);
        }
    }
}

#[test]
fn limbs_are_ordered_from_the_low_end() {
    let low = U256 { limbs: [5, 0, 0, 0] };
    let high = U256 { limbs: [0, 0, 0, 5] };
    assert!(low.lt(&high));
    assert_eq!(outside(&low), ckb_types::U256::from(5u64));
    assert_eq!(outside(&high), ckb_types::U256::from(5u64) << 192u8);
}
