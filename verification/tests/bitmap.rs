use skylanders::bitmap::bool_arr_to_u8_bitmap;
use skylanders::bitmap::u8_bitmap_to_bool_arr;

#[test]
fn test_bool_arr_to_u8_bitmap() {
    let arr1 = [false; 8];
    let map1 = bool_arr_to_u8_bitmap(&arr1);
    assert_eq!(map1, 0);

    let arr2 = [true; 8];
    let map2 = bool_arr_to_u8_bitmap(&arr2);
    assert_eq!(map2, 0xFFu8);
}

#[test]
fn the_first_flag_is_the_highest_bit() {
    let mut arr = [false; 8];
    arr[0] = true;
    assert_eq!(bool_arr_to_u8_bitmap(&arr), 0x80);
    arr[7] = true;
    assert_eq!(bool_arr_to_u8_bitmap(&arr), 0x81);
    assert_eq!(
        u8_bitmap_to_bool_arr(0b1010_0001),
        [true, false, true, false, false, false, false, true]
    );
    assert_eq!(u8_bitmap_to_bool_arr(0), [false; 8]);
    assert_eq!(u8_bitmap_to_bool_arr(0xFF), [true; 8]);
}

#[test]
fn flags_and_byte_round_trip() {
    for bitmap in 0..=255u8 {
        assert_eq!(bool_arr_to_u8_bitmap(&u8_bitmap_to_bool_arr(bitmap)), bitmap);
    }
}
