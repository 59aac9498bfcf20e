use kernel::interrupts::{
    checked_double_fault_stack_end, double_fault_stack_end, is_canonical_address, DOUBLE_FAULT_IST, STACK_SIZE,
};
use kernel::keyboard::{apply_key, unicode_of, DecodedKey, KeyReader, LineEdit};
use kernel::qemu::{qemu_args, wants_bios};
use kernel::qemu_exit::{QemuExitCode, EXIT_PORT};
use kernel::runtime::eh_personality;

#[test]
fn canonical_addresses() {
    assert!(is_canonical_address(0));
    assert!(is_canonical_address(0x0000_7fff_ffff_ffff));
    assert!(!is_canonical_address(0x0000_8000_0000_0000));
    assert!(!is_canonical_address(0x1234_0000_0000_0000));
    assert!(is_canonical_address(0xffff_8000_0000_0000));
    assert!(is_canonical_address(u64::MAX));
}

#[test]
fn double_fault_stack() {
    assert_eq!(DOUBLE_FAULT_IST, 0);
    assert_eq!(STACK_SIZE, 5120);
    assert_eq!(double_fault_stack_end(0x1000), 0x1000 + 5120);
    assert_eq!(checked_double_fault_stack_end(0x20_0000), Some(0x20_1400));
    assert_eq!(checked_double_fault_stack_end(0x0000_7fff_ffff_f000), None);
    assert_eq!(checked_double_fault_stack_end(0x0000_9000_0000_0000), None);
    assert_eq!(checked_double_fault_stack_end(u64::MAX - 100), None);
}

#[test]
fn line_editing() {
    let mut line = String::new();
    for k in ['a', 'b', '\x08', 'c'] {
        assert_eq!(apply_key(&mut line, k), LineEdit::Echo(k));
    }
    assert_eq!(apply_key(&mut line, '\n'), LineEdit::Done);
    assert_eq!(line, "ac");
}

#[test]
fn backspace_on_empty_line() {
    let mut line = String::new();
    assert_eq!(apply_key(&mut line, '\x08'), LineEdit::Echo('\x08'));
    assert_eq!(line, "");
}

#[test]
fn backspace_undoes_a_key() {
    let mut line = String::from("kernel");
    apply_key(&mut line, 'x');
    apply_key(&mut line, '\x08');
    assert_eq!(line, "kernel");
}

#[test]
fn decoded_keys() {
    assert_eq!(unicode_of(Some(DecodedKey::Unicode('q'))), Some('q'));
    assert_eq!(unicode_of(None), None);
}

#[test]
fn scancodes_decode_to_characters() {
    let mut r = KeyReader::new();
    // make code of the A key in scancode set 1
    assert_eq!(r.feed(0x1E), Some('a'));
    // its break code yields no character
    assert_eq!(r.feed(0x9E), None);
    // left shift held, then A
    assert_eq!(r.feed(0x2A), None);
    assert_eq!(r.feed(0x1E), Some('A'));
    assert_eq!(r.feed(0xAA), None);
    // Enter
    assert_eq!(r.feed(0x1C), Some('\n'));
    // Backspace
    assert_eq!(r.feed(0x0E), Some('\x08'));
}

#[test]
fn qemu_arguments_uefi() {
    let args = qemu_args(false, false, "/out", "/ovmf/OVMF.fd");
    assert_eq!(
        args,
        vec![
            "-accel", "kvm", "-serial", "stdio", "-bios", "/ovmf/OVMF.fd", "-drive",
            "format=raw,file=/out/uefi.img",
        ]
    );
}

#[test]
fn qemu_arguments_bios_on_windows() {
    let args = qemu_args(true, true, "C:/out", "unused");
    assert_eq!(args, vec!["-accel", "tcg", "-serial", "stdio", "-drive", "format=raw,file=C:/out/bios.img"]);
}

#[test]
fn bios_flag_detection() {
    let args: Vec<String> = vec!["qemu".into(), "--bios".into()];
    assert!(wants_bios(&args));
    let args: Vec<String> = vec!["qemu".into(), "--bios=1".into(), "bios".into()];
    assert!(!wants_bios(&args));
    assert!(!wants_bios(&Vec::new()));
}

#[test]
fn exit_codes() {
    assert_eq!(QemuExitCode::Success.code(), 0x10);
    assert_eq!(QemuExitCode::Failed.code(), 0x11);
    assert_eq!(EXIT_PORT, 0xf4);
    eh_personality();
}
