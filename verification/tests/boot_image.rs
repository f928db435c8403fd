use zcore::boot_image::{package, split, KernelHeader, SignedImage, HEADER_SIZE};

#[test]
fn header_bytes() {
    let header = KernelHeader { pk_size: 0x0102, sign_size: 3 };
    let bytes = header.to_bytes();
    assert_eq!(bytes, vec![2, 1, 0, 0, 0, 0, 0, 0, 3, 0, 0, 0, 0, 0, 0, 0]);
    assert_eq!(bytes.len(), HEADER_SIZE);
    assert_eq!(KernelHeader::from_bytes(&bytes), Some(header));
    assert_eq!(KernelHeader::from_bytes(&bytes[..15]), None);
    assert_eq!(KernelHeader::from_bytes(&[]), None);
}

#[test]
fn package_then_split() {
    let image = package(&[1, 2, 3], &[4, 5], &[6, 7, 8, 9]);
    assert_eq!(
        image,
        vec![3, 0, 0, 0, 0, 0, 0, 0, 2, 0, 0, 0, 0, 0, 0, 0, 1, 2, 3, 4, 5, 6, 7, 8, 9]
    );
    assert_eq!(
        split(&image),
        Some(SignedImage { pk: &[1, 2, 3], sign: &[4, 5], kernel: &[6, 7, 8, 9] })
    );
}

#[test]
fn split_of_empty_parts() {
    let image = package(&[], &[], &[]);
    assert_eq!(image.len(), HEADER_SIZE);
    assert_eq!(split(&image), Some(SignedImage { pk: &[], sign: &[], kernel: &[] }));
}

#[test]
fn split_refuses_what_is_too_short() {
    let image = package(&[1, 2, 3], &[4, 5], &[]);
    assert!(split(&image).is_some());
    assert_eq!(split(&image[..image.len() - 1]), None);
    assert_eq!(split(&image[..HEADER_SIZE]), None);
    assert_eq!(split(&image[..HEADER_SIZE - 1]), None);
    let mut huge = vec![0xffu8; HEADER_SIZE];
    huge.extend_from_slice(&[0; 8]);
    assert_eq!(split(&huge), None);
    let mut sum_too_large = KernelHeader { pk_size: usize::MAX - 8, sign_size: 16 }.to_bytes();
    sum_too_large.extend_from_slice(&[0; 32]);
    assert_eq!(split(&sum_too_large), None);
}
