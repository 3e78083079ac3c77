//! The Multiboot2 contract: the header record that the loader looks for, and
//! the check of the values that the loader hands over at entry.

use vstd::prelude::*;

use crate::console::{hex_text, line, lemma_write_str_concat, lemma_write_str_single, screen_write_str, VgaState};
use crate::error::BootError;

verus! {

/// The value that a Multiboot2 loader leaves in `eax` at entry.
pub const MULTIBOOT2_MAGIC_EAX: u32 = 0x36d76289;

/// The magic number that opens the header.
pub const MB2_MAGIC: u32 = 0xE85250D6;

/// 0 = i386 architecture. Multiboot2 defines no separate x86-64 value, and
/// loaders accept 0 for 64-bit kernels.
pub const MB2_ARCH_I386: u32 = 0;

/// The size of the header record in bytes.
pub const MB2_HEADER_LEN: u32 = 24;

/// The END tag: type 0, flags 0, size 8.
pub const MB2_END_TAG_TYPE: u16 = 0;

pub const MB2_END_TAG_FLAGS: u16 = 0;

pub const MB2_END_TAG_SIZE: u32 = 8;

/// The header must start within this many bytes of the image.
pub const MB2_SEARCH_LIMIT: usize = 32768;

/// The header must start at a multiple of this many bytes.
pub const MB2_HEADER_ALIGN: usize = 8;

/// The 24-byte Multiboot2 header: the fixed part and one END tag.
#[derive(Clone, Copy, Debug, PartialEq, Eq, Structural)]
pub struct Multiboot2Header {
    pub magic: u32,
    pub architecture: u32,
    pub header_length: u32,
    pub checksum: u32,
    pub end_tag_type: u16,
    pub end_tag_flags: u16,
    pub end_tag_size: u32,
}

/// The four words of the fixed part sum to zero modulo 2^32.
pub open spec fn checksum_holds(magic: u32, architecture: u32, header_length: u32, checksum: u32) -> bool {
    (magic + architecture + header_length + checksum) % 0x1_0000_0000 == 0
}

/// Zero minus the sum of the other three words, modulo 2^32.
pub open spec fn spec_header_checksum(magic: u32, architecture: u32, header_length: u32) -> u32 {
    ((0x4_0000_0000 - (magic + architecture + header_length)) % 0x1_0000_0000) as u32
}

/// Checksum law: whatever the other three words, the computed checksum makes
/// the four words of the fixed part sum to zero modulo 2^32.
pub proof fn lemma_header_checksum(magic: u32, architecture: u32, header_length: u32)
    ensures
        checksum_holds(magic, architecture, header_length, spec_header_checksum(magic, architecture, header_length)),
{
    let sum: int = magic + architecture + header_length;
    let r: int = (0x4_0000_0000 - sum) % 0x1_0000_0000;
    assert((sum + r) % 0x1_0000_0000 == 0) by (nonlinear_arith)
        requires
            r == (0x4_0000_0000 - sum) % 0x1_0000_0000,
            0 <= sum < 0x3_0000_0000,
    ;
}

/// The checksum that makes the fixed part sum to zero modulo 2^32.
pub fn header_checksum(magic: u32, architecture: u32, header_length: u32) -> (r: u32)
    ensures
        r == spec_header_checksum(magic, architecture, header_length),
        checksum_holds(magic, architecture, header_length, r),
{
    proof {
        lemma_header_checksum(magic, architecture, header_length);
    }
    let sum: u64 = magic as u64 + architecture as u64 + header_length as u64;
    let r = ((0x4_0000_0000u64 - sum) % 0x1_0000_0000u64) as u32;
    r
}

impl Multiboot2Header {
    pub open spec fn is_valid(&self) -> bool {
        checksum_holds(self.magic, self.architecture, self.header_length, self.checksum)
    }

    /// The header that this kernel carries.
    pub fn new() -> (r: Self)
        ensures
            r.magic == MB2_MAGIC,
            r.architecture == MB2_ARCH_I386,
            r.header_length == MB2_HEADER_LEN,
            r.checksum == spec_header_checksum(MB2_MAGIC, MB2_ARCH_I386, MB2_HEADER_LEN),
            r.end_tag_type == MB2_END_TAG_TYPE,
            r.end_tag_flags == MB2_END_TAG_FLAGS,
            r.end_tag_size == MB2_END_TAG_SIZE,
            r.is_valid(),
    {
        Multiboot2Header {
            magic: MB2_MAGIC,
            architecture: MB2_ARCH_I386,
            header_length: MB2_HEADER_LEN,
            checksum: header_checksum(MB2_MAGIC, MB2_ARCH_I386, MB2_HEADER_LEN),
            end_tag_type: MB2_END_TAG_TYPE,
            end_tag_flags: MB2_END_TAG_FLAGS,
            end_tag_size: MB2_END_TAG_SIZE,
        }
    }
}

/// Whether a header placed `offset` bytes into the image is where a loader
/// looks for it: within the first 32 KiB, at a multiple of 8.
pub fn is_valid_header_offset(offset: usize) -> (r: bool)
    ensures
        r == (offset < MB2_SEARCH_LIMIT && offset % MB2_HEADER_ALIGN == 0),
{
    offset < MB2_SEARCH_LIMIT && offset % MB2_HEADER_ALIGN == 0
}

/// What the handoff check writes to the console.
pub open spec fn handoff_report(eax: u32, ebx: u32) -> Seq<char> {
    line("=== Multiboot2 Information ==="@) + "EAX value: "@ + line(hex_text(eax as nat)) + "EBX value: "@
        + line(hex_text(ebx as nat)) + if eax == MULTIBOOT2_MAGIC_EAX {
        line("Multiboot2 magic number verified."@) + line(Seq::empty())
    } else {
        line("EAX value is not the multiboot2 magic number! Impossible to boot..."@)
    }
}

/// Checks the values that the loader handed over: `eax` must be the
/// Multiboot2 magic echo; `ebx`, the address of the loader's information,
/// is reported but not read. Both are written to the console with the
/// verdict.
pub fn check_multiboot2_header(eax: u32, ebx: u32, console: &mut VgaState) -> (r: Result<(), BootError>)
    requires
        old(console).wf(),
    ensures
        final(console).wf(),
        r is Ok <==> eax == MULTIBOOT2_MAGIC_EAX,
        r is Err ==> r == Err::<(), BootError>(BootError::HandoffMismatch),
        final(console)@ == screen_write_str(old(console)@, handoff_report(eax, ebx)),
{
    let ghost start = console@;
    console.write_line("=== Multiboot2 Information ===");
    console.write_labeled_hex("EAX value: ", eax as u64);
    console.write_labeled_hex("EBX value: ", ebx as u64);
    let ghost acc = line("=== Multiboot2 Information ==="@) + ("EAX value: "@ + line(hex_text(eax as nat)));
    proof {
        lemma_write_str_concat(start, line("=== Multiboot2 Information ==="@), "EAX value: "@ + line(hex_text(eax as nat)));
        lemma_write_str_concat(start, acc, "EBX value: "@ + line(hex_text(ebx as nat)));
        acc = acc + ("EBX value: "@ + line(hex_text(ebx as nat)));
        assert(acc =~= line("=== Multiboot2 Information ==="@) + "EAX value: "@ + line(hex_text(eax as nat))
            + "EBX value: "@ + line(hex_text(ebx as nat)));
    }
    if eax != MULTIBOOT2_MAGIC_EAX {
        console.write_line("EAX value is not the multiboot2 magic number! Impossible to boot...");
        proof {
            lemma_write_str_concat(start, acc, line("EAX value is not the multiboot2 magic number! Impossible to boot..."@));
            assert(acc + line("EAX value is not the multiboot2 magic number! Impossible to boot..."@) =~= handoff_report(eax, ebx));
        }
        return Err(BootError::HandoffMismatch);
    }
    console.write_line("Multiboot2 magic number verified.");
    let ghost mid = console@;
    console.write_char('\n');
    proof {
        lemma_write_str_single(mid, '\n');
        lemma_write_str_concat(start, acc, line("Multiboot2 magic number verified."@));
        acc = acc + line("Multiboot2 magic number verified."@);
        lemma_write_str_concat(start, acc, seq!['\n']);
        assert(seq!['\n'] =~= line(Seq::empty()));
        assert(acc + line(Seq::empty()) =~= handoff_report(eax, ebx));
    }
    Ok(())
}

} // verus!
