use vstd::prelude::*;
use vstd::string::*;

verus! {

/// The command-line option that selects booting the BIOS disk image.
pub open spec fn bios_flag() -> Seq<char> {
    "--bios"@
}

/// The arguments given to `qemu-system-x86_64`: hardware acceleration (TCG
/// on Windows, KVM elsewhere), the serial port on standard I/O, then either
/// the BIOS disk image, or the UEFI firmware and the UEFI disk image, both
/// images taken from `out_dir`.
pub open spec fn qemu_arg_list(windows: bool, bios: bool, out_dir: Seq<char>, ovmf: Seq<char>) -> Seq<
    Seq<char>,
> {
    let accel = if windows {
        "tcg"@
    } else {
        "kvm"@
    };
    let common = seq!["-accel"@, accel, "-serial"@, "stdio"@];
    if bios {
        common + seq!["-drive"@, "format=raw,file="@ + out_dir + "/bios.img"@]
    } else {
        common + seq!["-bios"@, ovmf, "-drive"@, "format=raw,file="@ + out_dir + "/uefi.img"@]
    }
}

/// The boot image follows the `--bios` choice alone. With it, the last
/// argument boots `<out_dir>/bios.img` and no `-bios` firmware option is
/// given; without it, the firmware `ovmf` is given with `-bios` and the last
/// argument boots `<out_dir>/uefi.img`. The host only picks the accelerator,
/// the second argument: every other argument is the same on every host.
pub proof fn lemma_image_follows_bios_flag(windows: bool, bios: bool, out_dir: Seq<char>, ovmf: Seq<char>)
    ensures
        ({
            let a = qemu_arg_list(windows, bios, out_dir, ovmf);
            let other = qemu_arg_list(!windows, bios, out_dir, ovmf);
            &&& bios ==> a.len() == 6 && a[5] == "format=raw,file="@ + out_dir + "/bios.img"@ && forall|i: int|
                0 <= i < a.len() ==> a[i] != "-bios"@
            &&& !bios ==> a.len() == 8 && a[4] == "-bios"@ && a[5] == ovmf && a[7] == "format=raw,file="@
                + out_dir + "/uefi.img"@
            &&& a[1] == (if windows {
                "tcg"@
            } else {
                "kvm"@
            })
            &&& a.len() == other.len()
            &&& forall|i: int| 0 <= i < a.len() && i != 1 ==> a[i] == other[i]
        }),
{
    reveal_strlit("-accel");
    reveal_strlit("tcg");
    reveal_strlit("kvm");
    reveal_strlit("-serial");
    reveal_strlit("stdio");
    reveal_strlit("-drive");
    reveal_strlit("-bios");
    reveal_strlit("format=raw,file=");
    reveal_strlit("/bios.img");
    let a = qemu_arg_list(windows, bios, out_dir, ovmf);
    if bios {
        assert(a[0][1] != "-bios"@[1]);
        assert(a[1][0] != "-bios"@[0]);
        assert(a[2][2] != "-bios"@[2]);
        assert(a[3][0] != "-bios"@[0]);
        assert(a[4][1] != "-bios"@[1]);
        assert(a[5].len() != "-bios"@.len());
    }
}

/// Whether the runner was asked to boot the BIOS image: some argument is
/// exactly `--bios`.
pub fn wants_bios(args: &Vec<String>) -> (b: bool)
    ensures
        b == exists|i: int| 0 <= i < args@.len() && #[trigger] args@[i]@ == bios_flag(),
{
    proof {
        reveal_strlit("--bios");
    }
    let flag = String::from_str("--bios");
    let mut i: usize = 0;
    while i < args.len()
        invariant
            i <= args@.len(),
            flag@ == bios_flag(),
            forall|j: int| 0 <= j < i ==> #[trigger] args@[j]@ != bios_flag(),
        decreases args@.len() - i,
    {
        if args[i] == flag {
            return true;
        }
        i = i + 1;
    }
    false
}

/// The arguments for `qemu-system-x86_64` that boot the kernel's disk image
/// from `out_dir`; `ovmf` is the path of the UEFI firmware.
pub fn qemu_args(windows: bool, bios: bool, out_dir: &str, ovmf: &str) -> (v: Vec<String>)
    ensures
        v@.len() == qemu_arg_list(windows, bios, out_dir@, ovmf@).len(),
        forall|i: int|
            0 <= i < v@.len() ==> #[trigger] v@[i]@ == qemu_arg_list(windows, bios, out_dir@, ovmf@)[i],
{
    proof {
        reveal_strlit("-accel");
        reveal_strlit("tcg");
        reveal_strlit("kvm");
        reveal_strlit("-serial");
        reveal_strlit("stdio");
        reveal_strlit("-drive");
        reveal_strlit("-bios");
        reveal_strlit("format=raw,file=");
        reveal_strlit("/bios.img");
        reveal_strlit("/uefi.img");
    }
    let mut v: Vec<String> = Vec::new();
    v.push(String::from_str("-accel"));
    if windows {
        v.push(String::from_str("tcg"));
    } else {
        v.push(String::from_str("kvm"));
    }
    v.push(String::from_str("-serial"));
    v.push(String::from_str("stdio"));
    if bios {
        v.push(String::from_str("-drive"));
        let mut drive = String::from_str("format=raw,file=");
        drive.append(out_dir);
        drive.append("/bios.img");
        v.push(drive);
    } else {
        v.push(String::from_str("-bios"));
        v.push(String::from_str(ovmf));
        v.push(String::from_str("-drive"));
        let mut drive = String::from_str("format=raw,file=");
        drive.append(out_dir);
        drive.append("/uefi.img");
        v.push(drive);
    }
    v
}

} // verus!
