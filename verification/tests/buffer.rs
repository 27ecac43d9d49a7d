use nx::ipc::rc::ResultInvalidBufferPointer;
use nx::ipc::sf::{
    Buffer, InMapAliasBuffer, InOutAutoSelectBuffer, InPointerBuffer, OutMapAliasBuffer,
    OutPointerBuffer,
};
use nx::result::ResultBase;

type InOutBytes = InOutAutoSelectBuffer<u8>;

#[test]
fn stored_element_is_read_back() {
    let mut x: u32 = 1;
    let mut buffer = InOutAutoSelectBuffer::<u32>::from_mut_var(0x1000, &mut x);
    buffer.set_var(0xDEADBEEF);
    assert_eq!(buffer.get_var(), Ok(&0xDEADBEEF));
    *buffer.get_mut_var() = 7;
    assert_eq!(buffer.get_var(), Ok(&7));
    assert_eq!(buffer.get_maybe_unaligned(), vec![7]);
}

#[test]
fn stored_slice_is_read_back() {
    let mut data = [1u16, 2, 3];
    let mut buffer = InOutAutoSelectBuffer::<u16>::from_mut_array(0x2000, &mut data);
    {
        let slice = buffer.as_slice_mut().unwrap();
        slice[1] = 20;
        slice[2] = 30;
    }
    assert_eq!(buffer.as_slice().unwrap(), &[1, 20, 30]);
    assert_eq!(buffer.get_count(), 3);
    assert_eq!(buffer.get_size(), 6);
    assert_eq!(buffer.get_address(), 0x2000);
}

#[test]
fn null_buffer_has_no_view() {
    let buffer = InMapAliasBuffer::<u32>::from_ptr(0, vec![1]);
    assert_eq!(buffer.get_var(), Err(ResultInvalidBufferPointer::make()));
    assert_eq!(buffer.as_slice(), Err(ResultInvalidBufferPointer::make()));
    let mut both = InOutAutoSelectBuffer::<u32>::from_ptr(0, vec![1]);
    assert!(both.as_slice_mut().is_err());
    let mut out = OutMapAliasBuffer::<u32>::from_ptr(0, vec![1]);
    assert_eq!(out.as_maybeuninit_mut().err(), Some(ResultInvalidBufferPointer::make()));
}

#[test]
fn misaligned_buffer_has_no_view_but_is_read_element_by_element() {
    let buffer = InPointerBuffer::<u32>::from_ptr(0x1001, vec![5, 6]);
    assert_eq!(buffer.as_slice(), Err(ResultInvalidBufferPointer::make()));
    assert_eq!(buffer.get_var(), Err(ResultInvalidBufferPointer::make()));
    assert_eq!(buffer.get_maybe_unaligned(), vec![5, 6]);
    let half = InPointerBuffer::<u32>::from_ptr(0x1002, vec![5, 6]);
    assert_eq!(half.get_var(), Err(ResultInvalidBufferPointer::make()));
    let aligned = InPointerBuffer::<u32>::from_ptr(0x1004, vec![5, 6]);
    assert_eq!(aligned.as_slice().unwrap(), &[5, 6]);
    assert_eq!(aligned.get_var(), Ok(&5));
    let bytes = InPointerBuffer::<u8>::from_ptr(0x1001, vec![7]);
    assert_eq!(bytes.get_var(), Ok(&7));
}

#[test]
fn from_other_reads_the_same_bytes_under_another_element_type() {
    let words = InMapAliasBuffer::<u32>::from_ptr(0x1000, vec![0x0403_0201, 0x0807_0605]);
    let bytes = OutPointerBuffer::<u8>::from_other(&words);
    assert_eq!(bytes.get_address(), 0x1000);
    assert_eq!(bytes.get_count(), 8);
    assert_eq!(bytes.get_size(), words.get_size());
    assert_eq!(bytes.get_maybe_unaligned(), vec![1, 2, 3, 4, 5, 6, 7, 8]);
    let halves = InPointerBuffer::<u16>::from_other(&words);
    assert_eq!(halves.get_count(), 4);
    assert_eq!(halves.get_size(), 8);
    assert_eq!(halves.get_maybe_unaligned(), vec![0x0201, 0x0403, 0x0605, 0x0807]);
    let wide = InPointerBuffer::<u64>::from_other(&bytes);
    assert_eq!(wide.get_count(), 1);
    assert_eq!(wide.get_maybe_unaligned(), vec![0x0807_0605_0403_0201]);
    let signed = InPointerBuffer::<i32>::from_other(&InMapAliasBuffer::<u8>::from_ptr(8, vec![0xFF; 4]));
    assert_eq!(signed.get_maybe_unaligned(), vec![-1]);
    let same = InOutAutoSelectBuffer::<u32>::from_other(&words);
    assert_eq!(same.get_address(), 0x1000);
    assert_eq!(same.get_maybe_unaligned(), vec![0x0403_0201, 0x0807_0605]);
    let none = InPointerBuffer::<u32>::from_other(&InMapAliasBuffer::<u8>::from_ptr(0, vec![]));
    assert_eq!(none.get_count(), 0);
    assert_eq!(none.get_address(), 0);
}

#[test]
fn output_only_buffer_is_filled_through_its_view() {
    let mut out = OutPointerBuffer::<u8>::from_ptr(0x3000, vec![0; 4]);
    {
        let slice = out.as_maybeuninit_mut().unwrap();
        assert_eq!(slice.len(), 4);
        slice[0] = 9;
    }
    assert_eq!(out.get_maybe_unaligned(), vec![9, 0, 0, 0]);
}

#[test]
fn new_counts_elements_by_their_size() {
    let buffer = InMapAliasBuffer::<u32>::new(0x4000, 8, vec![1, 2]);
    assert_eq!(buffer.get_count(), 2);
    assert_eq!(buffer.get_size(), 8);
    assert_eq!(buffer.get_address(), 0x4000);
    let bytes = InMapAliasBuffer::<u8>::new(0x4000, 3, vec![1, 2, 3]);
    assert_eq!(bytes.get_size(), 3);
}

#[test]
fn constructors_view_what_they_are_given() {
    let x: u64 = 0x0102_0304_0506_0708;
    let var = InMapAliasBuffer::<u64>::from_var(0x10, &x);
    assert_eq!(var.get_var(), Ok(&x));
    assert_eq!(var.get_count(), 1);
    let arr = InMapAliasBuffer::<u8>::from_array(0x20, &[1, 2, 3]);
    assert_eq!(arr.as_slice().unwrap(), &[1, 2, 3]);
    let bytes = InMapAliasBuffer::<u8>::from_other_var(0x30, &x);
    assert_eq!(bytes.as_slice().unwrap(), &[8, 7, 6, 5, 4, 3, 2, 1]);
    let mut y: u16 = 0x0A0B;
    let out_bytes = OutMapAliasBuffer::<u8>::from_other_mut_var(0x40, &mut y);
    assert_eq!(out_bytes.get_maybe_unaligned(), vec![0x0B, 0x0A]);
    assert_eq!(y, 0x0A0B);
    let other = OutPointerBuffer::<u8>::from_other(&arr);
    assert_eq!(other.get_address(), 0x20);
    assert_eq!(other.get_maybe_unaligned(), vec![1, 2, 3]);
    let from_mut = Buffer::<true, true, true, false, false, false, false, false, u8>::from_mut_ptr(0x50, vec![4]);
    assert_eq!(from_mut.get_var(), Ok(&4));
}

#[test]
fn capabilities_follow_the_type() {
    let buffer = InMapAliasBuffer::<u8>::from_array(0x20, &[1]);
    let caps = buffer.capabilities();
    assert!(caps.is_in && !caps.is_out && caps.map_alias);
    assert!(!caps.pointer && !caps.fixed_size && !caps.auto_select);
    assert!(!caps.allow_non_secure && !caps.allow_non_device);
}

#[test]
fn long_string_is_cut_to_leave_a_terminator() {
    let mut buffer = InOutBytes::from_ptr(0x1000, vec![0xFF; 4]);
    buffer.set_string(String::from("hello"));
    assert_eq!(buffer.as_slice().unwrap(), b"hel\0");
    let mut exact = InOutBytes::from_ptr(0x1000, vec![0xFF; 5]);
    exact.set_string(String::from("hello"));
    assert_eq!(exact.as_slice().unwrap(), b"hell\0");
}

#[test]
fn short_string_is_followed_by_zeros() {
    let mut buffer = InOutBytes::from_ptr(0x1000, vec![0xFF; 8]);
    buffer.set_string(String::from("hi"));
    assert_eq!(buffer.as_slice().unwrap(), b"hi\0\0\0\0\0\0");
    let mut one = InOutBytes::from_ptr(0x1000, vec![0xFF; 1]);
    one.set_string(String::from("hi"));
    assert_eq!(one.as_slice().unwrap(), b"\0");
}

#[test]
fn empty_string_zeroes_the_buffer() {
    let mut buffer = InOutBytes::from_ptr(0x1000, vec![0xAB; 6]);
    buffer.set_string(String::new());
    assert_eq!(buffer.as_slice().unwrap(), &[0u8; 6]);
}

#[test]
fn string_is_read_with_its_zero_bytes() {
    let mut buffer = InOutBytes::from_ptr(0x1000, vec![0xFF; 6]);
    buffer.set_string(String::from("abc"));
    assert_eq!(buffer.get_string(), "abc\0\0\0");
    let text = InMapAliasBuffer::<u8>::from_array(0x20, "grüß".as_bytes());
    assert_eq!(text.get_string(), "grüß");
}

#[test]
fn malformed_bytes_are_read_as_replacement_characters() {
    let buffer = InMapAliasBuffer::<u8>::from_array(0x20, &[b'a', 0xFF, b'b']);
    assert_eq!(buffer.get_string(), "a\u{FFFD}b");
}

#[test]
fn absent_buffer_has_no_var() {
    let absent = InMapAliasBuffer::<u32>::from_ptr(0, Vec::new());
    assert_eq!(absent.get_var(), Err(ResultInvalidBufferPointer::make()));
    assert_eq!(absent.get_count(), 0);
    let misaligned = InMapAliasBuffer::<u32>::from_ptr(0x1001, Vec::new());
    assert_eq!(misaligned.get_var(), Err(ResultInvalidBufferPointer::make()));
}

#[test]
fn elements_are_written_back_to_where_they_came_from() {
    let mut x: u32 = 1;
    let mut buffer = InOutAutoSelectBuffer::<u32>::from_mut_var(0x1000, &mut x);
    buffer.set_var(9);
    assert_eq!(x, 1);
    buffer.write_back_var(&mut x);
    assert_eq!(x, 9);

    let mut data = [1u16, 2, 3];
    let mut array = InOutAutoSelectBuffer::<u16>::from_mut_array(0x2000, &mut data);
    array.as_slice_mut().unwrap()[2] = 30;
    assert_eq!(data, [1, 2, 3]);
    array.write_back_array(&mut data);
    assert_eq!(data, [1, 2, 30]);

    let mut y: u32 = 0x0102_0304;
    let mut bytes = Buffer::<true, true, true, false, false, false, false, false, u8>::from_other_mut_var(0x3000, &mut y);
    bytes.as_slice_mut().unwrap()[0] = 0xFF;
    bytes.write_back_other_var(&mut y);
    assert_eq!(y, 0x0102_03FF);
}
