# aster_nic

Verified driver logic for three gigabit Ethernet controllers of the
Asterinas kernel: the Intel 82540EM (`e1000`, and the smaller
`e1000_basic` driver of the same chip), the Intel 82574L (`e1000e`) and the
Realtek RTL8168g (`r8169`), plus the kernel's table of network interfaces
(`iface`).

`src/` is the library, checked by Verus. It holds the register values the
drivers write, the memory images of their descriptors, the bookkeeping of
their descriptor rings and the decision taken on each completed descriptor,
each with a contract. Register and DMA access stay with the caller: a
function that would read a register takes the value read, and one that would
write returns the writes to make.

`app/` is the run-time side: the loops that read the hardware, call the
library and perform the writes it returns, written against small traits for
MMIO, descriptor memory and buffer pools.

`tests/` exercises the library on concrete values.
