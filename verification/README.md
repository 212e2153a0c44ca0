# spike_hub

Firmware logic for the LEGO SPIKE Prime hub (STM32F413), proved with Verus.

The library in `src/` touches no hardware. A routine returns a plan: the bus
accesses, delays, jumps and messages it asks for, in order. Where a routine has to
know what a register holds, its plan ends in a load, and the next step takes the
loaded value as an argument. Contracts say which plan is returned; laws, stated as
public proof functions, say what performing the plans does to the registers, to the
LED driver and to the text that the host sees.

| Modules | What they hold |
| --- | --- |
| `plan`, `regs` | plans, what they do, and the register map |
| `hex`, `decimal`, `words` | numbers and words as text |
| `clock`, `power`, `usb`, `button`, `motor`, `freeze`, `tlc5955`, `matrix` | the hub's hardware |
| `debug`, `breakpoint`, `memory`, `report`, `ports`, `upload`, `protect`, `command`, `shell`, `serial`, `console` | the resident monitor |
| `boot`, `hub`, `bare`, `ledtest`, `motortest`, `rng`, `sim` | the programs |
| `hold` | that no program loses its power before it means to |

`app/` performs plans on the hub: volatile accesses, the exception handlers, the USB
serial port, and the loops that hand loaded values back. `HUB_PROGRAM` selects, at
build time, the program that is started; `HUB_PROTECT` makes the monitor protect its
flash from being written.

`tests/` runs the library against plain models of the registers and of the LED
driver.
