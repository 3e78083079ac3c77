use pelu_boot::boot::{entrypoint, enable_long_mode, BootContext, BootLayout};
use pelu_boot::console::{Char, Color, VgaState, VGA_CELLS};
use pelu_boot::error::BootError;
use pelu_boot::gdt::{Gdt, GdtPtr, LONG_MODE_CODE_DESCRIPTOR};
use pelu_boot::long_mode::{
    advance, check_extended_leaf, check_long_mode_bit, enter_long_mode, support_cpuid,
    transition_sequence, ModeState, Regs, SimCpu, TransitionWrite, CR0_PAGING, CR4_PAE,
    EFER_LONG_MODE_ENABLE,
};
use pelu_boot::multiboot::{
    check_multiboot2_header, header_checksum, is_valid_header_offset, Multiboot2Header,
    MB2_MAGIC, MULTIBOOT2_MAGIC_EAX,
};
use pelu_boot::paging::{setup_identity_paging, IdentityPaging, PageTable};
use pelu_boot::sequence::{event_fits, long_mode_step, Action, Event, Stage};
use pelu_boot::stack::{check_stack, get_stack_top};

const LONG_MODE_EDX: u32 = 1 << 29;

fn screen_text(console: &VgaState) -> String {
    console
        .vga_buffer
        .iter()
        .map(|c| c.character as char)
        .collect::<String>()
}

fn layout() -> BootLayout {
    BootLayout {
        stack_base: 0x0010_0000,
        level_4_addr: 0x0020_0000,
        level_3_addr: 0x0020_1000,
        level_2_addr: 0x0020_2000,
        gdt_addr: 0x0030_0000,
    }
}

#[test]
fn header_checksum_sums_to_zero() {
    let h = Multiboot2Header::new();
    assert_eq!(h.magic, 0xE85250D6);
    assert_eq!(h.architecture, 0);
    assert_eq!(h.header_length, 24);
    assert_eq!(h.checksum, 0x17ADAF12);
    let sum = h.magic as u64 + h.architecture as u64 + h.header_length as u64 + h.checksum as u64;
    assert_eq!(sum % (1u64 << 32), 0);
    assert_eq!((h.end_tag_type, h.end_tag_flags, h.end_tag_size), (0, 0, 8));
}

#[test]
fn header_checksum_of_other_values() {
    let c = header_checksum(0xFFFF_FFFF, 0xFFFF_FFFF, 0xFFFF_FFFF);
    assert_eq!(c, 3);
    assert_eq!(header_checksum(0, 0, 0), 0);
    assert_eq!(header_checksum(MB2_MAGIC, 4, 24), 0x17ADAF0E);
}

#[test]
fn header_placement() {
    assert!(is_valid_header_offset(0));
    assert!(is_valid_header_offset(8));
    assert!(is_valid_header_offset(32760));
    assert!(!is_valid_header_offset(32768));
    assert!(!is_valid_header_offset(4));
    assert!(!is_valid_header_offset(32767));
}

#[test]
fn handoff_accepts_magic_with_any_ebx() {
    for ebx in [0u32, 1, 0x10000, 0xFFFF_FFFF] {
        let mut console = VgaState::new();
        assert_eq!(check_multiboot2_header(MULTIBOOT2_MAGIC_EAX, ebx, &mut console), Ok(()));
    }
}

#[test]
fn handoff_rejects_other_magic() {
    for eax in [0u32, 0x36d7_6288, 0x36d7_628A, 0xFFFF_FFFF, MB2_MAGIC] {
        let mut console = VgaState::new();
        assert_eq!(
            check_multiboot2_header(eax, 0x1234, &mut console),
            Err(BootError::HandoffMismatch)
        );
    }
}

#[test]
fn handoff_report_on_console() {
    let mut console = VgaState::new();
    check_multiboot2_header(MULTIBOOT2_MAGIC_EAX, 0xABC, &mut console).unwrap();
    let text = screen_text(&console);
    assert!(text.starts_with("=== Multiboot2 Information ==="));
    assert_eq!(&text[80..80 + 19], "EAX value: 36D76289");
    assert_eq!(&text[160..160 + 14], "EBX value: ABC");
    assert_eq!(&text[240..240 + 33], "Multiboot2 magic number verified.");
    assert_eq!((console.curr_coord.row, console.curr_coord.column), (5, 0));
}

#[test]
fn map_page_boundary() {
    let mut t = PageTable::new();
    assert_eq!(t.map_page(3, 0xFFFF_F000, 0xFFF), Ok(()));
    assert_eq!(t.entries[3], 0xFFFF_FFFF);
    assert_eq!(
        t.map_page(4, 0x1_0000_0000, 0),
        Err(BootError::PhysicalAddressOverflow)
    );
    assert_eq!(t.entries[4], 0);
    assert_eq!(
        t.map_page(5, 0x1000, 1 << 63),
        Err(BootError::PhysicalAddressOverflow)
    );
    assert_eq!(t.entries[5], 0);
    assert_eq!(t.map_page(511, 0x20_0000, 0x83), Ok(()));
    assert_eq!(t.entries[511], 0x20_0083);
}

#[test]
fn map_entries_fills_every_entry() {
    let mut t = PageTable::new();
    assert_eq!(t.map_entries(|i| (i as u64 * 0x1000, 0x3)), Ok(()));
    assert_eq!(t.entries[0], 0x3);
    assert_eq!(t.entries[1], 0x1003);
    assert_eq!(t.entries[511], 511 * 0x1000 + 3);
}

#[test]
fn map_entries_stops_on_overflow() {
    let mut t = PageTable::new();
    let r = t.map_entries(|i| (if i == 7 { 0x1_0000_0000 } else { 0x1000 }, 0x1));
    assert_eq!(r, Err(BootError::PhysicalAddressOverflow));
    assert_eq!(t.entries[6], 0x1001);
    assert_eq!(t.entries[7], 0);
}

fn resolve(p: &IdentityPaging, addr: u64) -> Option<u64> {
    let e4 = p.level_4.entries[((addr >> 39) & 511) as usize];
    let e3 = p.level_3.entries[((addr >> 30) & 511) as usize];
    let e2 = p.level_2.entries[((addr >> 21) & 511) as usize];
    if e4 & 1 == 1 && e3 & 1 == 1 && e2 & 1 == 1 {
        Some(e2)
    } else {
        None
    }
}

#[test]
fn identity_paging_coverage() {
    let mut p = IdentityPaging::new();
    assert_eq!(setup_identity_paging(&mut p, 0x20_1000, 0x20_2000), Ok(()));
    assert_eq!(p.level_4.entries[0], 0x20_1003);
    assert_eq!(p.level_3.entries[0], 0x20_2003);
    assert_eq!(p.level_2.entries[0], 0x83);
    assert_eq!(p.level_2.entries[1], 0x20_0083);
    assert_eq!(p.level_2.entries[511], 0x3FE0_0083);
    for addr in [0u64, 1, 0x1F_FFFF, 0x20_0000, 0x1234_5678, 0x3FFF_FFFF] {
        let e = resolve(&p, addr).unwrap();
        assert_eq!(e & 0x83, 0x83);
        assert_eq!(e & 0x000F_FFFF_FFE0_0000, addr & !0x1F_FFFF);
    }
    for addr in [0x4000_0000u64, 0x4000_0001, 0x80_0000_0000, 0xFFFF_FFFF_FFFF] {
        assert_eq!(resolve(&p, addr), None);
    }
}

#[test]
fn identity_paging_rejects_high_tables() {
    let mut p = IdentityPaging::new();
    assert_eq!(
        setup_identity_paging(&mut p, 0x1_0000_0000, 0x2000),
        Err(BootError::PhysicalAddressOverflow)
    );
    assert_eq!(p.level_4.entries[0], 0);
    let mut p = IdentityPaging::new();
    assert_eq!(
        setup_identity_paging(&mut p, 0x1000, 0x1_0000_2000),
        Err(BootError::PhysicalAddressOverflow)
    );
}

#[test]
fn probe_without_cpuid() {
    let cpu = SimCpu::new(false, 0x8000_0008, LONG_MODE_EDX);
    assert_eq!(support_cpuid(&cpu), Err(BootError::CpuidUnsupported));
}

#[test]
fn probe_without_extended_leaf() {
    let cpu = SimCpu::new(true, 0x8000_0000, LONG_MODE_EDX);
    assert_eq!(support_cpuid(&cpu), Err(BootError::ExtendedModeUnsupported));
}

#[test]
fn probe_without_long_mode() {
    let cpu = SimCpu::new(true, 0x8000_0008, !LONG_MODE_EDX);
    assert_eq!(support_cpuid(&cpu), Err(BootError::LongModeUnsupported));
}

#[test]
fn probe_supported() {
    let cpu = SimCpu::new(true, 0x8000_0001, LONG_MODE_EDX);
    assert_eq!(support_cpuid(&cpu), Ok(()));
}

#[test]
fn probe_steps() {
    let regs = |eax: u32, edx: u32| Regs { eax, ebx: 0, ecx: 0, edx };
    assert_eq!(
        check_extended_leaf(regs(0x8000_0000, 0)),
        Err(BootError::ExtendedModeUnsupported)
    );
    assert_eq!(check_extended_leaf(regs(0x8000_0001, 0)), Ok(()));
    assert_eq!(check_long_mode_bit(regs(0, 1 << 28)), Err(BootError::LongModeUnsupported));
    assert_eq!(check_long_mode_bit(regs(0, 1 << 29)), Ok(()));
}

#[test]
fn end_to_end_boot() {
    let mut ctx = BootContext::new(SimCpu::new(true, 0x8000_0008, LONG_MODE_EDX));
    let l = layout();
    let r = entrypoint(&mut ctx, &l, MULTIBOOT2_MAGIC_EAX, 0x9000, 0x0010_0F00);
    assert_eq!(r, Ok(()));
    assert_eq!(ctx.cpu.mode, ModeState::LongMode);
    assert_eq!(ctx.cpu.cr0 & CR0_PAGING, CR0_PAGING);
    assert_eq!(ctx.cpu.cr4 & CR4_PAE, CR4_PAE);
    assert_eq!(ctx.cpu.efer & EFER_LONG_MODE_ENABLE, EFER_LONG_MODE_ENABLE);
    assert_eq!(ctx.cpu.cr3, 0x0020_0000);
    assert_eq!(ctx.cpu.code_descriptor, LONG_MODE_CODE_DESCRIPTOR);
    assert_eq!(ctx.cpu.gdtr, Some(GdtPtr { len: 15, ptr: 0x0030_0000 }));
    assert_eq!(ctx.paging.level_4.entries[0], 0x20_1003);
    assert_eq!(ctx.paging.level_2.entries[2], 0x40_0083);
}

#[test]
fn end_to_end_stops_on_bad_handoff() {
    let mut ctx = BootContext::new(SimCpu::new(true, 0x8000_0008, LONG_MODE_EDX));
    let r = entrypoint(&mut ctx, &layout(), 0, 0, 0);
    assert_eq!(r, Err(BootError::HandoffMismatch));
    assert_eq!(ctx.cpu.mode, ModeState::ProtectedMode32);
    assert_eq!(ctx.cpu.cr0 & CR0_PAGING, 0);
}

#[test]
fn end_to_end_stops_without_long_mode() {
    let mut ctx = BootContext::new(SimCpu::new(true, 0x8000_0008, 0));
    let r = entrypoint(&mut ctx, &layout(), MULTIBOOT2_MAGIC_EAX, 0, 0x0010_0F00);
    assert_eq!(r, Err(BootError::LongModeUnsupported));
    assert_eq!(ctx.cpu.mode, ModeState::ProtectedMode32);
    assert_eq!(ctx.cpu.cr3, 0);
}

#[test]
fn enable_long_mode_overflowing_tables() {
    let mut ctx = BootContext::new(SimCpu::new(true, 0x8000_0008, LONG_MODE_EDX));
    let mut l = layout();
    l.level_2_addr = 0x1_0000_0000;
    assert_eq!(
        enable_long_mode(&mut ctx, &l),
        Err(BootError::PhysicalAddressOverflow)
    );
    assert_eq!(ctx.cpu.mode, ModeState::ProtectedMode32);
}

#[test]
fn transition_in_order() {
    let plan = transition_sequence();
    assert_eq!(
        plan,
        [
            TransitionWrite::LoadPagingRoot,
            TransitionWrite::EnablePae,
            TransitionWrite::SetLongModeBit,
            TransitionWrite::EnablePaging
        ]
    );
    let mut cpu = SimCpu::new(true, 0x8000_0008, LONG_MODE_EDX);
    enter_long_mode(&mut cpu, 0x5000);
    assert_eq!(cpu.mode, ModeState::LongMode);
    assert_eq!(cpu.cr3, 0x5000);
    assert_eq!(cpu.cr0, 0x8000_0001);
    assert_eq!(cpu.cr4, 0x20);
    assert_eq!(cpu.efer, 0x100);
}

#[test]
fn transition_reordering_detected() {
    let mut cpu = SimCpu::new(true, 0x8000_0008, LONG_MODE_EDX);
    cpu.apply(TransitionWrite::LoadPagingRoot, 0x5000);
    assert_eq!(cpu.mode, ModeState::PagingRootLoaded);
    cpu.apply(TransitionWrite::EnablePaging, 0x5000);
    assert_eq!(cpu.mode, ModeState::OutOfOrder);
    cpu.apply(TransitionWrite::EnablePae, 0x5000);
    cpu.apply(TransitionWrite::SetLongModeBit, 0x5000);
    assert_eq!(cpu.mode, ModeState::OutOfOrder);
    assert_eq!(
        advance(ModeState::ProtectedMode32, TransitionWrite::EnablePae),
        ModeState::OutOfOrder
    );
    assert_eq!(
        advance(ModeState::LongMode, TransitionWrite::LoadPagingRoot),
        ModeState::OutOfOrder
    );
}

#[test]
fn gdt_layout() {
    let gdt = Gdt::new();
    assert_eq!(gdt.entries, [0, 0x0020_9800_0000_0000]);
    assert_eq!(gdt.pointer(0x1234), GdtPtr { len: 15, ptr: 0x1234 });
    let mut cpu = SimCpu::new(true, 0, 0);
    let mut console = VgaState::new();
    gdt.load_gdt(0x8000, &mut cpu, &mut console);
    assert_eq!(cpu.gdtr, Some(GdtPtr { len: 15, ptr: 0x8000 }));
    assert_eq!(cpu.code_descriptor, LONG_MODE_CODE_DESCRIPTOR);
}

#[test]
fn stack_top_and_check() {
    assert_eq!(get_stack_top(0x1000), 0x2000);
    assert_eq!(get_stack_top(0x1001), 0x2000);
    assert_eq!(get_stack_top(0x100F), 0x2000);
    assert_eq!(get_stack_top(0x1010), 0x2010);
    let mut console = VgaState::new();
    assert!(check_stack(0x1000, 0x1F00, &mut console));
    assert!(check_stack(0x1000, 0x2000, &mut console));
    assert!(check_stack(0x1000, 0x1000, &mut console));
    assert!(!check_stack(0x1000, 0x2001, &mut console));
    assert!(!check_stack(0x1000, 0xFFF, &mut console));
}

#[test]
fn error_messages() {
    assert_eq!(
        BootError::CpuidUnsupported.message(),
        "CPUID is not supported! Impossible to boot..."
    );
    assert_eq!(
        BootError::LongModeUnsupported.message(),
        "Long mode is not supported! Impossible to boot..."
    );
}

#[test]
fn console_writes_and_wraps() {
    let mut c = VgaState::new();
    assert_eq!(c.vga_buffer.len(), VGA_CELLS);
    c.write_str("Hi\n\tx\ry");
    assert_eq!(c.vga_buffer[0], Char::new(b'H', Color::White));
    assert_eq!(c.vga_buffer[1].character, b'i');
    assert_eq!(c.vga_buffer[80].character, b'y');
    assert_eq!(c.vga_buffer[84].character, b'x');
    assert_eq!((c.curr_coord.row, c.curr_coord.column), (1, 1));
    c.write_char('\u{e9}');
    assert_eq!(c.vga_buffer[81].character, 0xFE);
    c.write_char('\0');
    assert_eq!((c.curr_coord.row, c.curr_coord.column), (1, 2));
}

#[test]
fn console_line_wrap_and_scroll_reset() {
    let mut c = VgaState::new();
    for _ in 0..81 {
        c.write_char('a');
    }
    assert_eq!(c.vga_buffer[80].character, b'a');
    assert_eq!((c.curr_coord.row, c.curr_coord.column), (1, 1));
    let mut c = VgaState::new();
    for _ in 0..25 {
        c.write_char('\n');
    }
    assert_eq!(c.curr_coord.row, 25);
    c.write_char('z');
    assert_eq!(c.vga_buffer[0].character, b'z');
    assert_eq!((c.curr_coord.row, c.curr_coord.column), (0, 1));
}

#[test]
fn console_hex() {
    let mut c = VgaState::new();
    c.write_hex(0);
    c.write_char(' ');
    c.write_hex(0xDEAD_BEEF);
    assert_eq!(&screen_text(&c)[..10], "0 DEADBEEF");
    c.clear_screen();
    assert_eq!(c.vga_buffer[0].character, b' ');
    assert_eq!((c.curr_coord.row, c.curr_coord.column), (0, 0));
}


#[test]
fn console_tab_near_right_edge() {
    let mut c = VgaState::new();
    for _ in 0..78 {
        c.write_char('a');
    }
    assert_eq!(c.curr_coord.column, 78);
    c.write_char('\t');
    assert_eq!((c.curr_coord.row, c.curr_coord.column), (0, 82));
    c.write_char('b');
    assert_eq!(c.vga_buffer[80].character, b'b');
    assert_eq!((c.curr_coord.row, c.curr_coord.column), (1, 1));
}

#[test]
fn console_new_line_below_grid() {
    let mut c = VgaState::new();
    for _ in 0..30 {
        c.new_line();
    }
    assert_eq!((c.curr_coord.row, c.curr_coord.column), (30, 0));
    c.write_char('q');
    assert_eq!(c.vga_buffer[0].character, b'q');
}

#[test]
fn map_entries_leaves_rest_on_overflow() {
    let mut t = PageTable::new();
    t.entries[300] = 0x55;
    let r = t.map_entries(|i| (if i == 200 { 0x1_0000_0000 } else { 0x2000 }, 0x1));
    assert_eq!(r, Err(BootError::PhysicalAddressOverflow));
    assert_eq!(t.entries[199], 0x2001);
    assert_eq!(t.entries[200], 0);
    assert_eq!(t.entries[300], 0x55);
}

#[test]
fn end_to_end_bad_handoff_leaves_machine() {
    let mut ctx = BootContext::new(SimCpu::new(true, 0x8000_0008, LONG_MODE_EDX));
    let r = entrypoint(&mut ctx, &layout(), 0x1234, 0, 0x0010_0F00);
    assert_eq!(r, Err(BootError::HandoffMismatch));
    assert_eq!((ctx.cpu.cr0, ctx.cpu.cr3, ctx.cpu.cr4, ctx.cpu.efer), (1, 0, 0, 0));
    assert_eq!(ctx.cpu.gdtr, None);
    assert!(ctx.paging.level_4.entries.iter().all(|&e| e == 0));
    assert!(ctx.paging.level_2.entries.iter().all(|&e| e == 0));
}

#[test]
fn step_function_order() {
    let regs = |eax: u32, edx: u32| Regs { eax, ebx: 0, ecx: 0, edx };
    let (s, a) = long_mode_step(Stage::Start, Event::Begin);
    assert!(s == Stage::ProbeIdFlag && matches!(a, Action::ToggleIdFlag));
    let (s, a) = long_mode_step(s, Event::IdFlag(true));
    assert!(s == Stage::ProbeMaxLeaf && matches!(a, Action::QueryCpuid(0x8000_0000)));
    let (s, a) = long_mode_step(s, Event::Cpuid(regs(0x8000_0008, 0)));
    assert!(s == Stage::ProbeFeatures && matches!(a, Action::QueryCpuid(0x8000_0001)));
    let (s, a) = long_mode_step(s, Event::Cpuid(regs(0, LONG_MODE_EDX)));
    assert!(s == Stage::BuildPaging && matches!(a, Action::BuildPaging));
    let (s, a) = long_mode_step(s, Event::PagingBuilt(Ok(())));
    assert!(s == Stage::LoadGdt && matches!(a, Action::LoadGdt));
    let (s, a) = long_mode_step(s, Event::GdtLoaded);
    assert!(matches!(a, Action::Write(TransitionWrite::LoadPagingRoot)));
    let (s, a) = long_mode_step(s, Event::Written);
    assert!(matches!(a, Action::Write(TransitionWrite::EnablePae)));
    let (s, a) = long_mode_step(s, Event::Written);
    assert!(matches!(a, Action::Write(TransitionWrite::SetLongModeBit)));
    let (s, a) = long_mode_step(s, Event::Written);
    assert!(matches!(a, Action::Write(TransitionWrite::EnablePaging)));
    let (s, a) = long_mode_step(s, Event::Written);
    assert!(s == Stage::Finished && matches!(a, Action::Finish(Ok(()))));
}

#[test]
fn step_function_failures() {
    let regs = |eax: u32, edx: u32| Regs { eax, ebx: 0, ecx: 0, edx };
    let (_, a) = long_mode_step(Stage::ProbeIdFlag, Event::IdFlag(false));
    assert!(matches!(a, Action::Finish(Err(BootError::CpuidUnsupported))));
    let (_, a) = long_mode_step(Stage::ProbeMaxLeaf, Event::Cpuid(regs(0x8000_0000, 0)));
    assert!(matches!(a, Action::Finish(Err(BootError::ExtendedModeUnsupported))));
    let (_, a) = long_mode_step(Stage::ProbeFeatures, Event::Cpuid(regs(0, 0)));
    assert!(matches!(a, Action::Finish(Err(BootError::LongModeUnsupported))));
    let (_, a) = long_mode_step(
        Stage::BuildPaging,
        Event::PagingBuilt(Err(BootError::PhysicalAddressOverflow)),
    );
    assert!(matches!(a, Action::Finish(Err(BootError::PhysicalAddressOverflow))));
    assert!(event_fits(Stage::Transition(3), Event::Written));
    assert!(!event_fits(Stage::Transition(4), Event::Written));
    assert!(!event_fits(Stage::LoadGdt, Event::Written));
    assert!(!event_fits(Stage::Finished, Event::Begin));
}

#[test]
fn boot_context_starts_blank() {
    let ctx = BootContext::new(SimCpu::new(true, 0, 0));
    assert!(ctx.console.vga_buffer.iter().all(|c| *c == Char::new(b' ', Color::White)));
    assert_eq!(ctx.gdt.entries, [0, LONG_MODE_CODE_DESCRIPTOR]);
}
