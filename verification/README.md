# nanovm

A minimal KVM virtual machine monitor whose logic is verified with Verus.

- `src/` is the verified library: the guest image (`loader`: page tables that
  identity-map 16 MiB, the GDT, a guest program that prints a message on COM1
  and halts), x86-64 address translation (`paging`), the KVM interface as plain
  values (`kvm`: ioctl request numbers, structure layouts, decoding of the
  `kvm_run` page, the decisions on ioctl results), the long-mode register
  state the vCPU starts in (`long_mode`), the guest programs' behaviour
  (`guest_program`: the printing guest and the echo guest) and the decisions
  of the vCPU run loop (`vcpu`).
- `app/` is the program around it: it opens `/dev/kvm`, makes the ioctl and
  mmap system calls through `libc`, and runs the loop, printing the guest's
  serial output and, with the `echo` argument, feeding it standard input.
