//! The signed kernel image that the boot loader takes: a header, then the
//! public key, the signature and the kernel itself.

use vstd::prelude::*;
use vstd::bytes::{
    lemma_auto_spec_u64_to_from_le_bytes, spec_u64_from_le_bytes, spec_u64_to_le_bytes,
    u64_from_le_bytes, u64_to_le_bytes,
};
use vstd::slice::slice_subrange;

verus! {

/// The number of bytes of the header: two numbers of eight bytes each, the
/// lowest byte first.
pub const HEADER_SIZE: usize = 16;

/// The header of a signed kernel image.
#[derive(Clone, Copy, Debug, PartialEq, Eq, Structural)]
pub struct KernelHeader {
    /// The number of bytes of the public key.
    pub pk_size: usize,
    /// The number of bytes of the signature.
    pub sign_size: usize,
}

/// The parts of a signed kernel image.
#[derive(Clone, Copy, Debug, PartialEq, Eq)]
pub struct SignedImage<'a> {
    pub pk: &'a [u8],
    pub sign: &'a [u8],
    pub kernel: &'a [u8],
}

impl KernelHeader {
    /// The bytes of the header: the size of the key, then that of the
    /// signature.
    pub open spec fn spec_to_bytes(self) -> Seq<u8> {
        spec_u64_to_le_bytes(self.pk_size as u64) + spec_u64_to_le_bytes(self.sign_size as u64)
    }

    /// Where the kernel begins in an image with this header.
    pub open spec fn kernel_start(self) -> int {
        HEADER_SIZE + self.pk_size + self.sign_size
    }

    /// The header that `data` begins with, if `data` is long enough for one
    /// and both sizes are numbers that this machine can hold.
    pub open spec fn spec_from_bytes(data: Seq<u8>) -> Option<KernelHeader> {
        if data.len() < HEADER_SIZE {
            None
        } else {
            let pk_size = spec_u64_from_le_bytes(data.subrange(0, 8));
            let sign_size = spec_u64_from_le_bytes(data.subrange(8, 16));
            if pk_size > usize::MAX || sign_size > usize::MAX {
                None
            } else {
                Some(KernelHeader { pk_size: pk_size as usize, sign_size: sign_size as usize })
            }
        }
    }

    /// The bytes of the header.
    pub fn to_bytes(&self) -> (bytes: Vec<u8>)
        ensures
            bytes@ == self.spec_to_bytes(),
            bytes@.len() == HEADER_SIZE,
    {
        let mut bytes = u64_to_le_bytes(self.pk_size as u64);
        let mut sign_size = u64_to_le_bytes(self.sign_size as u64);
        bytes.append(&mut sign_size);
        bytes
    }

    /// The header that `data` begins with.
    pub fn from_bytes(data: &[u8]) -> (header: Option<KernelHeader>)
        ensures
            header == Self::spec_from_bytes(data@),
    {
        if data.len() < HEADER_SIZE {
            return None;
        }
        let pk_size = u64_from_le_bytes(slice_subrange(data, 0, 8));
        let sign_size = u64_from_le_bytes(slice_subrange(data, 8, 16));
        if pk_size > usize::MAX as u64 || sign_size > usize::MAX as u64 {
            return None;
        }
        Some(KernelHeader { pk_size: pk_size as usize, sign_size: sign_size as usize })
    }
}

/// The image made of a key, a signature and a kernel: the header with the
/// sizes of the first two, then the three, one after the other.
pub open spec fn spec_package(pk: Seq<u8>, sign: Seq<u8>, kernel: Seq<u8>) -> Seq<u8> {
    (KernelHeader { pk_size: pk.len() as usize, sign_size: sign.len() as usize }).spec_to_bytes()
        + pk + sign + kernel
}

/// The key, the signature and the kernel of the image `data`, if its
/// header's sizes leave room for them.
pub open spec fn spec_split(data: Seq<u8>) -> Option<(Seq<u8>, Seq<u8>, Seq<u8>)> {
    match KernelHeader::spec_from_bytes(data) {
        Some(header) => if header.kernel_start() <= data.len() {
            let pk_end = HEADER_SIZE + header.pk_size;
            Some(
                (
                    data.subrange(HEADER_SIZE as int, pk_end),
                    data.subrange(pk_end, header.kernel_start()),
                    data.subrange(header.kernel_start(), data.len() as int),
                ),
            )
        } else {
            None
        },
        None => None,
    }
}

/// Makes the signed image of a key, a signature and a kernel.
pub fn package(pk: &[u8], sign: &[u8], kernel: &[u8]) -> (image: Vec<u8>)
    ensures
        image@ == spec_package(pk@, sign@, kernel@),
{
    let header = KernelHeader { pk_size: pk.len(), sign_size: sign.len() };
    let mut image = header.to_bytes();
    image.extend_from_slice(pk);
    assert(image@ =~= header.spec_to_bytes() + pk@);
    image.extend_from_slice(sign);
    assert(image@ =~= header.spec_to_bytes() + pk@ + sign@);
    image.extend_from_slice(kernel);
    assert(image@ =~= header.spec_to_bytes() + pk@ + sign@ + kernel@);
    image
}

/// Takes a signed image apart. There is none where the image is too short
/// for its header, or for the key and the signature that the header
/// announces.
pub fn split<'a>(data: &'a [u8]) -> (parts: Option<SignedImage<'a>>)
    ensures
        match parts {
            Some(parts) => spec_split(data@) == Some((parts.pk@, parts.sign@, parts.kernel@)),
            None => spec_split(data@) is None,
        },
{
    let header = match KernelHeader::from_bytes(data) {
        Some(header) => header,
        None => {
            return None;
        },
    };
    let rest = data.len() - HEADER_SIZE;
    if header.pk_size > rest || header.sign_size > rest - header.pk_size {
        return None;
    }
    let pk_end = HEADER_SIZE + header.pk_size;
    let sign_end = pk_end + header.sign_size;
    Some(
        SignedImage {
            pk: slice_subrange(data, HEADER_SIZE, pk_end),
            sign: slice_subrange(data, pk_end, sign_end),
            kernel: slice_subrange(data, sign_end, data.len()),
        },
    )
}

/// What was put together comes apart again: the image of a key, a signature
/// and a kernel splits into these three.
pub proof fn lemma_split_of_package(pk: Seq<u8>, sign: Seq<u8>, kernel: Seq<u8>)
    requires
        HEADER_SIZE + pk.len() + sign.len() + kernel.len() <= usize::MAX,
    ensures
        spec_split(spec_package(pk, sign, kernel)) == Some((pk, sign, kernel)),
{
    lemma_auto_spec_u64_to_from_le_bytes();
    let header = KernelHeader { pk_size: pk.len() as usize, sign_size: sign.len() as usize };
    let image = spec_package(pk, sign, kernel);
    let first = spec_u64_to_le_bytes(header.pk_size as u64);
    let second = spec_u64_to_le_bytes(header.sign_size as u64);
    assert(image.subrange(0, 8) =~= first);
    assert(image.subrange(8, 16) =~= second);
    assert(KernelHeader::spec_from_bytes(image) == Some(header));
    let pk_end = HEADER_SIZE + header.pk_size;
    assert(image.subrange(HEADER_SIZE as int, pk_end) =~= pk);
    assert(image.subrange(pk_end, header.kernel_start()) =~= sign);
    assert(image.subrange(header.kernel_start(), image.len() as int) =~= kernel);
}

} // verus!
