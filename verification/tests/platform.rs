use zcore::aarch64;
use zcore::arch::{is_so_name, join_path, Arch, ArchArg, LinuxRootfs, XError};
use zcore::logger::{level_to_color_code, Level};
use zcore::riscv::{self, KernelMemInfo};

#[test]
fn timer_vectors() {
    assert_eq!(aarch64::timer_interrupt_vector(), 30);
    assert_eq!(riscv::timer_interrupt_vector(), 5);
    assert_eq!(riscv::STACK_PAGES_PER_HART, 32);
    assert_eq!(riscv::MAX_HART_NUM, 5);
}

#[test]
fn first_saved_offset_stays() {
    let mut place = aarch64::SavedOffset::new();
    assert!(!place.is_saved());
    aarch64::save_offset(&mut place, 0x4000);
    assert!(place.is_saved());
    assert_eq!(aarch64::phys_to_virt_offset(&place), 0x4000);
    aarch64::save_offset(&mut place, 0x8000);
    assert_eq!(aarch64::phys_to_virt_offset(&place), 0x4000);
}

#[test]
fn kernel_offset() {
    let info = KernelMemInfo { paddr_base: 0x8020_0000, vaddr_base: 0xc020_0000, size: 0x10_0000 };
    assert_eq!(info.offset(), 0x4000_0000);
    assert_eq!(riscv::phys_to_virt_offset(&info), 0x4000_0000);
    let flat = KernelMemInfo { paddr_base: 7, vaddr_base: 7, size: 0 };
    assert_eq!(flat.offset(), 0);
}

#[test]
fn arch_names() {
    assert_eq!(Arch::Riscv64.name(), "riscv64");
    assert_eq!(Arch::X86_64.name(), "x86_64");
    assert_eq!(Arch::Aarch64.name(), "aarch64");
}

#[test]
fn paths_join_with_one_slash() {
    assert_eq!(join_path("/work", "zCore"), "/work/zCore");
    assert_eq!(join_path("/work/", "zCore"), "/work/zCore");
    assert_eq!(join_path("", "zCore"), "zCore");
    assert_eq!(join_path("/", "zCore"), "/zCore");
    assert_eq!(join_path("work", ""), "work/");
}

#[test]
fn arch_paths() {
    assert_eq!(Arch::Riscv64.origin("/work"), "/work/ignored/origin/archs/riscv64");
    assert_eq!(Arch::Aarch64.target("/work"), "/work/ignored/target/aarch64");
    assert_eq!(Arch::X86_64.target("/work/"), "/work/ignored/target/x86_64");
    let arg = ArchArg { arch: Arch::X86_64 };
    let rootfs = arg.linux_rootfs();
    assert_eq!(rootfs, LinuxRootfs::new(Arch::X86_64));
    assert_eq!(rootfs.path("/work"), "/work/rootfs/x86_64");
    assert_eq!(LinuxRootfs::new(Arch::Riscv64).path(""), "rootfs/riscv64");
}

#[test]
fn log_colours() {
    assert_eq!(level_to_color_code(Level::Error), 31);
    assert_eq!(level_to_color_code(Level::Warn), 93);
    assert_eq!(level_to_color_code(Level::Info), 34);
    assert_eq!(level_to_color_code(Level::Debug), 32);
    assert_eq!(level_to_color_code(Level::Trace), 90);
}

#[test]
fn arch_from_str() {
    assert_eq!(Arch::from_str("riscv64"), Ok(Arch::Riscv64));
    assert_eq!(Arch::from_str("X86_64"), Ok(Arch::X86_64));
    assert_eq!(Arch::from_str("AArch64"), Ok(Arch::Aarch64));
    assert_eq!(
        Arch::from_str("Mips"),
        Err(XError::EnumParse { kind: "Arch", value: String::from("Mips") })
    );
    assert_eq!(
        Arch::from_str(""),
        Err(XError::EnumParse { kind: "Arch", value: String::new() })
    );
}

#[test]
fn toolchain_names() {
    assert_eq!(Arch::Riscv64.musl_cross_name(), "riscv64-linux-musl-cross");
    assert_eq!(Arch::X86_64.musl_cross_name(), "x86_64-linux-musl-cross");
    assert_eq!(
        LinuxRootfs::new(Arch::Aarch64).strip("/opt/musl"),
        "/opt/musl/bin/aarch64-linux-musl-strip"
    );
}

#[test]
fn dynamic_library_names() {
    assert!(is_so_name("libc.so"));
    assert!(is_so_name("libz.so.1"));
    assert!(is_so_name("libz.so.1.2.11"));
    assert!(is_so_name("a.so."));
    assert!(is_so_name("a.so..7"));
    assert!(!is_so_name(""));
    assert!(!is_so_name("libc"));
    assert!(!is_so_name(".so"));
    assert!(!is_so_name(".hidden.so"));
    assert!(!is_so_name("libc.a"));
    assert!(!is_so_name("libc.so1"));
    assert!(!is_so_name("libc.son"));
    assert!(!is_so_name("libc.so.1a"));
    assert!(!is_so_name("libc.so.x"));
    assert!(!is_so_name("libc.s"));
    assert!(!is_so_name("lib.tar.so"));
}
