# nrf_gestalt

GPIO, TWI and UART driver logic for the nRF52840, verified with Verus.

- `src/` holds the verified library: pin, instance, frequency and baud-rate
  encodings, and every register word that the driver stores or decodes
  (OUT/DIR updates for one pin, PIN_CNF words, event flags, DMA counts), with
  contracts and the laws that relate the operations.
- `app/` holds the register access: handles that read the peripheral
  registers through the `nrf52840` crate, pass the readings to the library and
  write back the words it computes.
- `tests/` runs the library on concrete register values.
