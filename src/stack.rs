//! The boot stack: a fixed region whose top, rounded down to 16 bytes,
//! becomes the stack pointer before any call is made.

use vstd::prelude::*;

use crate::console::{hex_text, line, lemma_write_str_concat, screen_write_str, VgaState};

verus! {

/// The size of the boot stack in bytes.
pub const STACK_SIZE: usize = 4096;

/// The stack pointer is kept at a multiple of this many bytes.
pub const STACK_ALIGN: usize = 16;

/// The initial stack pointer for a stack region that starts at `base`: its
/// end, rounded down to a multiple of 16.
pub open spec fn spec_stack_top(base: usize) -> int {
    (base + STACK_SIZE) - (base + STACK_SIZE) % (STACK_ALIGN as int)
}

/// The stack pointer to load for a stack region that starts at `base`.
pub fn get_stack_top(base: usize) -> (r: usize)
    requires
        base + STACK_SIZE <= usize::MAX,
    ensures
        r == spec_stack_top(base),
        r % STACK_ALIGN == 0,
        base < r <= base + STACK_SIZE,
{
    let end = base + STACK_SIZE;
    end - end % STACK_ALIGN
}

/// What the stack check writes to the console.
pub open spec fn stack_report(base: usize, esp: usize) -> Seq<char> {
    line("=== Stack Verification ==="@) + ("Expected stack top: 0x"@ + line(hex_text(spec_stack_top(base) as nat)))
        + ("Current ESP: 0x"@ + line(hex_text(esp as nat))) + if base <= esp <= base + STACK_SIZE {
        line("Stack setup successful - ESP is within our allocated stack!"@)
    } else {
        line("Stack setup failed - ESP is outside our allocated stack!"@)
    }
}

/// Compares the live stack pointer `esp` with the stack region that starts
/// at `base`, and reports on the console. Returns whether `esp` lies within
/// the region, its end included.
///
/// The check only reports: a caller that wants a mismatch to be fatal halts
/// on `false`.
pub fn check_stack(base: usize, esp: usize, console: &mut VgaState) -> (r: bool)
    requires
        base + STACK_SIZE <= usize::MAX,
        old(console).wf(),
    ensures
        final(console).wf(),
        r == (base <= esp <= base + STACK_SIZE),
        final(console)@ == screen_write_str(old(console)@, stack_report(base, esp)),
{
    let ghost start = console@;
    let expected = get_stack_top(base);
    console.write_line("=== Stack Verification ===");
    console.write_labeled_hex("Expected stack top: 0x", expected as u64);
    console.write_labeled_hex("Current ESP: 0x", esp as u64);
    let ghost a = line("=== Stack Verification ==="@);
    let ghost b = "Expected stack top: 0x"@ + line(hex_text(spec_stack_top(base) as nat));
    let ghost c = "Current ESP: 0x"@ + line(hex_text(esp as nat));
    proof {
        lemma_write_str_concat(start, a, b);
        lemma_write_str_concat(start, a + b, c);
    }
    let within = base <= esp && esp <= base + STACK_SIZE;
    if within {
        console.write_line("Stack setup successful - ESP is within our allocated stack!");
        proof {
            lemma_write_str_concat(start, a + b + c, line("Stack setup successful - ESP is within our allocated stack!"@));
        }
    } else {
        console.write_line("Stack setup failed - ESP is outside our allocated stack!");
        proof {
            lemma_write_str_concat(start, a + b + c, line("Stack setup failed - ESP is outside our allocated stack!"@));
        }
    }
    within
}

} // verus!
