# sx1262-mesh-rs

Firmware for a LoRa mesh of Seeed Wio-E5 modules (STM32WLE5JC, integrated
SX1262): nodes with a solar charger, sensors, GPS and an SD card log, and a base
station that bridges the mesh to a host. Firmware updates travel over the mesh.

- `src/` is the logic, verified with Verus. It touches no hardware: each driver is
  a state machine that says what to do next and takes what came of it. Contracts
  relate every step to a mathematical model of the state; laws over these models
  are public proof functions beside them.
- `app/` is the firmware around it: peripherals, interrupts, floating-point
  sensor compensation.
- `tests/` runs the library on a host.

| Area                      | Modules                                                         |
|---------------------------|-----------------------------------------------------------------|
| Radio                     | `radio`, `radio_send`, `subghz`, `config`, `rh_radio`, `driver` |
| Updates over the mesh     | `ota_protocol`, `ota`, `ota_sender`, `ota_transfer`             |
| Base station              | `uart_proto`, `basestation`, `upload`                           |
| Node main loop            | `node`, `platform`, `timer`                                     |
| Charger board, SD card    | `board`                                                         |
| GPS and radio log         | `gpslog`                                                        |
| Sensors, RS-422 field bus | `sensors`, `rs422`, `rs422_exchange`                            |
| RadioHead stack           | `mesh`                                                          |
| Bytes, checksums and text | `bytes`, `crc`, `text`                                          |
