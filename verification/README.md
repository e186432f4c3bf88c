# reciso

Create bootable UEFI ISOs from kernel + initramfs + rootfs.

Builds ISOs with systemd-boot and UKI support. Outputs a single bootable ISO that works on UEFI
systems.

## Layout

- `src/` is the library. It decides what is to be done, and Verus proves that it decides as its
  contracts say: which inputs have to exist, which UKIs go into the boot menu and with which
  command lines, and the steps from an empty directory to the ISO. `src/laws.rs` states what holds
  of all of it together.
- `app/` is the command line tool. It answers the library's questions about the file system and
  performs the steps.
- `tests/` runs the library on examples.

## Usage

```bash
# Basic ISO with auto-generated UKI
reciso -k vmlinuz -i initramfs.img -r rootfs.erofs -l MYISO -o output.iso

# With prebuilt UKIs
reciso -k vmlinuz -i initramfs.img -r rootfs.erofs -l MYISO \
       --uki myos-live.efi --uki myos-emergency.efi -o output.iso

# Build UKIs inline (format: name:extra_cmdline:filename)
reciso -k vmlinuz -i initramfs.img -r rootfs.erofs -l MYISO \
       --build-uki 'Normal::myos.efi' \
       --build-uki 'Emergency:emergency:myos-emergency.efi' \
       --os-name MyOS --os-id myos --os-version 1.0 \
       -o output.iso

# With live overlay image (EROFS)
reciso -k vmlinuz -i initramfs.img -r rootfs.erofs -l MYISO \
       --overlay-image live-overlay.erofs -o output.iso
```

The app needs the crates `distro-builder`, `distro-spec` and `recuki`, and at run time
systemd-boot, xorriso, mtools and, for building UKIs, ukify.

## License

MIT OR Apache-2.0
