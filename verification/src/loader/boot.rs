//! The loader's download protocol: after the handshake, the host sends the
//! image size as four bytes, least significant first, then the image; each
//! image byte is stored at the load address plus its index, and the kernel
//! is entered 0x8000 bytes past the load address.
use vstd::prelude::*;

verus! {

/// Where the image is stored.
pub const KERNEL_LOAD_ADDR: u64 = 0x208_0000;
/// Offset of the kernel's entry point in the image.
pub const KERNEL_ENTRY_OFFSET: u64 = 0x8000;
/// The byte the loader sends, six times, to ask for an image.
pub const HANDSHAKE_BYTE: u8 = 6;
/// How many handshake bytes the loader sends.
pub const HANDSHAKE_COUNT: usize = 6;

/// The receiver's state: how many size bytes came in, the size they
/// assemble so far, and how many image bytes were stored.
#[derive(Clone, Copy, Debug, PartialEq, Eq, Structural)]
pub struct KernelLoader {
    pub size_bytes: u32,
    pub size: u32,
    pub loaded: u32,
}

/// What the receiver does with a byte.
#[derive(Clone, Copy, Debug, PartialEq, Eq, Structural)]
pub enum LoaderAction {
    /// The byte was part of the size.
    SizeByte,
    /// Store the byte at the address.
    StoreByte { addr: u64, byte: u8 },
    /// The image is complete: the byte is not for it.
    Ignore,
}

/// The state and action after one received byte.
pub open spec fn receive_spec(s: KernelLoader, byte: u8) -> (KernelLoader, LoaderAction) {
    if s.size_bytes < 4 {
        (
            KernelLoader {
                size_bytes: (s.size_bytes + 1) as u32,
                size: s.size | ((byte as u32) << (8 * s.size_bytes) as u32),
                ..s
            },
            LoaderAction::SizeByte,
        )
    } else if s.loaded < s.size {
        (
            KernelLoader { loaded: (s.loaded + 1) as u32, ..s },
            LoaderAction::StoreByte { addr: (KERNEL_LOAD_ADDR + s.loaded) as u64, byte },
        )
    } else {
        (s, LoaderAction::Ignore)
    }
}

/// The receiver's states are those it can reach: at most four size bytes,
/// the size assembled from them only, and no image byte before the size.
pub open spec fn reachable(s: KernelLoader) -> bool {
    &&& s.size_bytes <= 4
    &&& s.size_bytes < 4 ==> s.loaded == 0 && s.size < size_bound(s.size_bytes)
    &&& s.loaded <= s.size
}

/// One more than the largest size `k` size bytes can spell.
pub open spec fn size_bound(k: u32) -> int {
    if k == 0 {
        1
    } else if k == 1 {
        0x100
    } else if k == 2 {
        0x1_0000
    } else {
        0x100_0000
    }
}

/// The state and the actions after a sequence of received bytes.
pub open spec fn receive_all(s: KernelLoader, bytes: Seq<u8>) -> (KernelLoader, Seq<LoaderAction>)
    decreases bytes.len(),
{
    if bytes.len() == 0 {
        (s, Seq::empty())
    } else {
        let (s1, a) = receive_spec(s, bytes[0]);
        let (s2, rest) = receive_all(s1, bytes.subrange(1, bytes.len() as int));
        (s2, seq![a] + rest)
    }
}

impl KernelLoader {
    /// A receiver that has seen nothing yet.
    pub fn new() -> (r: KernelLoader)
        ensures
            r == (KernelLoader { size_bytes: 0, size: 0, loaded: 0 }),
            reachable(r),
    {
        KernelLoader { size_bytes: 0, size: 0, loaded: 0 }
    }

    /// Take one received byte: the first four assemble the size, least
    /// significant first; the next `size` are stored at consecutive
    /// addresses from the load address; any more are not for the image.
    pub fn receive(&mut self, byte: u8) -> (r: LoaderAction)
        requires
            reachable(*old(self)),
        ensures
            (*final(self), r) == receive_spec(*old(self), byte),
            reachable(*final(self)),
    {
        if self.size_bytes < 4 {
            let shift: u32 = 8 * self.size_bytes;
            let old_size = self.size;
            let sb = self.size_bytes;
            self.size = self.size | ((byte as u32) << shift);
            self.size_bytes = self.size_bytes + 1;
            proof {
                let b = byte as u32;
                assert(b < 256 ==> ((old_size < 1 ==> (old_size | (b << 0u32)) < 0x100) && (old_size
                    < 0x100 ==> (old_size | (b << 8u32)) < 0x1_0000) && (old_size < 0x1_0000 ==> (
                old_size | (b << 16u32)) < 0x100_0000))) by (bit_vector);
            }
            LoaderAction::SizeByte
        } else if self.loaded < self.size {
            let addr = KERNEL_LOAD_ADDR + self.loaded as u64;
            self.loaded = self.loaded + 1;
            LoaderAction::StoreByte { addr, byte }
        } else {
            LoaderAction::Ignore
        }
    }

    /// Whether the size is known and every image byte was stored.
    pub fn is_done(&self) -> (r: bool)
        ensures
            r == (self.size_bytes == 4 && self.loaded == self.size),
    {
        self.size_bytes == 4 && self.loaded == self.size
    }

    /// The address at which the loaded kernel is entered.
    pub fn entry_point(&self) -> (r: u64)
        ensures
            r == KERNEL_LOAD_ADDR + KERNEL_ENTRY_OFFSET,
    {
        KERNEL_LOAD_ADDR + KERNEL_ENTRY_OFFSET
    }
}

/// The size the four size bytes spell, least significant first.
pub open spec fn le_size(b: Seq<u8>) -> int {
    b[0] + 0x100 * b[1] + 0x1_0000 * b[2] + 0x100_0000 * b[3]
}

/// Four bytes into a fresh receiver, the size is their little-endian value.
pub proof fn lemma_size_is_little_endian(b: Seq<u8>)
    requires
        b.len() == 4,
    ensures
        receive_all(KernelLoader { size_bytes: 0, size: 0, loaded: 0 }, b).0 == (KernelLoader {
            size_bytes: 4,
            size: le_size(b) as u32,
            loaded: 0,
        }),
        receive_all(KernelLoader { size_bytes: 0, size: 0, loaded: 0 }, b).1 == seq![
            LoaderAction::SizeByte,
            LoaderAction::SizeByte,
            LoaderAction::SizeByte,
            LoaderAction::SizeByte,
        ],
{
    let s0 = KernelLoader { size_bytes: 0, size: 0, loaded: 0 };
    let (b0, b1, b2, b3) = (b[0] as u32, b[1] as u32, b[2] as u32, b[3] as u32);
    let t1 = b.subrange(1, 4);
    let t2 = t1.subrange(1, 3);
    let t3 = t2.subrange(1, 2);
    let t4 = t3.subrange(1, 1);
    assert(t1[0] == b[1] && t2[0] == b[2] && t3[0] == b[3]);
    assert(t4.len() == 0);
    let v: u32 = ((((0u32 | (b0 << 0u32)) | (b1 << 8u32)) | (b2 << 16u32)) | (b3 << 24u32));
    assert(b0 < 256 && b1 < 256 && b2 < 256 && b3 < 256 ==> ((((0u32 | (b0 << 0u32)) | (b1 << 8u32))
        | (b2 << 16u32)) | (b3 << 24u32)) == b0 + 0x100 * b1 + 0x1_0000 * b2 + 0x100_0000 * b3)
        by (bit_vector);
    assert(v == le_size(b));
    reveal_with_fuel(receive_all, 5);
}

/// After the size, image byte `i` (counted from 0) is stored at the load
/// address plus `i`, for every `i` below the size; the receiver is then done.
pub proof fn lemma_image_bytes_in_order(s: KernelLoader, bytes: Seq<u8>)
    requires
        reachable(s),
        s.size_bytes == 4,
        s.loaded == 0,
        bytes.len() == s.size,
    ensures
        receive_all(s, bytes).0 == (KernelLoader { loaded: s.size, ..s }),
        receive_all(s, bytes).1.len() == bytes.len(),
        forall|i: int| 0 <= i < bytes.len() ==> #[trigger] receive_all(s, bytes).1[i]
            == (LoaderAction::StoreByte { addr: (KERNEL_LOAD_ADDR + i) as u64, byte: bytes[i] }),
{
    lemma_image_bytes_from(s, bytes);
}

/// The image stage from any point: byte `i` of what comes goes to the load
/// address plus the count stored so far plus `i`.
proof fn lemma_image_bytes_from(s: KernelLoader, bytes: Seq<u8>)
    requires
        reachable(s),
        s.size_bytes == 4,
        s.loaded + bytes.len() == s.size,
    ensures
        receive_all(s, bytes).0 == (KernelLoader { loaded: s.size, ..s }),
        receive_all(s, bytes).1.len() == bytes.len(),
        forall|i: int| 0 <= i < bytes.len() ==> #[trigger] receive_all(s, bytes).1[i]
            == (LoaderAction::StoreByte { addr: (KERNEL_LOAD_ADDR + s.loaded + i) as u64, byte: bytes[i] }),
    decreases bytes.len(),
{
    if bytes.len() > 0 {
        let (s1, a) = receive_spec(s, bytes[0]);
        let rest = bytes.subrange(1, bytes.len() as int);
        lemma_image_bytes_from(s1, rest);
        let acts = receive_all(s, bytes).1;
        assert forall|i: int| 0 <= i < bytes.len() implies #[trigger] acts[i]
            == (LoaderAction::StoreByte { addr: (KERNEL_LOAD_ADDR + s.loaded + i) as u64, byte: bytes[i] }) by {
            if i > 0 {
                assert(acts[i] == receive_all(s1, rest).1[i - 1]);
                assert(rest[i - 1] == bytes[i]);
            }
        }
    }
}

} // verus!

verus! {

/// Receiving two stretches of bytes one after the other is receiving their
/// concatenation.
pub proof fn lemma_receive_all_concat(s: KernelLoader, a: Seq<u8>, b: Seq<u8>)
    ensures
        receive_all(s, a + b).0 == receive_all(receive_all(s, a).0, b).0,
        receive_all(s, a + b).1 == receive_all(s, a).1 + receive_all(receive_all(s, a).0, b).1,
    decreases a.len(),
{
    if a.len() == 0 {
        assert(a + b =~= b);
    } else {
        let (s1, act) = receive_spec(s, a[0]);
        let a1 = a.subrange(1, a.len() as int);
        assert((a + b).subrange(1, (a + b).len() as int) =~= a1 + b);
        assert((a + b)[0] == a[0]);
        lemma_receive_all_concat(s1, a1, b);
        assert(seq![act] + (receive_all(s1, a1).1 + receive_all(receive_all(s1, a1).0, b).1) =~= (
        seq![act] + receive_all(s1, a1).1) + receive_all(receive_all(s1, a1).0, b).1);
    }
}

/// The whole download: a fresh receiver given the four size bytes of `size`
/// (least significant first) and then `size` image bytes stores image byte
/// `i` at the load address plus `i`, and is then done.
pub proof fn lemma_download(size_bytes: Seq<u8>, image: Seq<u8>)
    requires
        size_bytes.len() == 4,
        image.len() == le_size(size_bytes),
    ensures
        ({
            let (s, acts) = receive_all(KernelLoader { size_bytes: 0, size: 0, loaded: 0 }, size_bytes + image);
            &&& s.size_bytes == 4
            &&& s.size == image.len()
            &&& s.loaded == s.size
            &&& acts.len() == 4 + image.len()
            &&& forall|i: int| 0 <= i < image.len() ==> #[trigger] acts[4 + i]
                == (LoaderAction::StoreByte { addr: (KERNEL_LOAD_ADDR + i) as u64, byte: image[i] })
        }),
{
    let s0 = KernelLoader { size_bytes: 0, size: 0, loaded: 0 };
    lemma_size_is_little_endian(size_bytes);
    lemma_receive_all_concat(s0, size_bytes, image);
    let s1 = receive_all(s0, size_bytes).0;
    assert(le_size(size_bytes) <= 0xFFFF_FFFF) by {
        assert(size_bytes[0] <= 255 && size_bytes[1] <= 255 && size_bytes[2] <= 255 && size_bytes[3] <= 255);
    }
    assert(reachable(s1));
    lemma_image_bytes_in_order(s1, image);
    let acts = receive_all(s0, size_bytes + image).1;
    assert forall|i: int| 0 <= i < image.len() implies #[trigger] acts[4 + i]
        == (LoaderAction::StoreByte { addr: (KERNEL_LOAD_ADDR + i) as u64, byte: image[i] }) by {
        assert(acts[4 + i] == receive_all(s1, image).1[i]);
    }
}

} // verus!
