# esp32c3_tutorials

The decision logic of a set of ESP32-C3 firmware examples (LED and button
state machines, a UART command shell, ADC-to-PWM scaling, the NeoPixel bit
stream, a DHT11 frame decoder, Wi-Fi network selection and MQTT helpers),
written in Verus and proved against its contracts.

- `src/` — the verified library, one module per concern (`cli`, `hsm`,
  `led_fsm`, `fsm`, `wifi_blinky`, `button_fsm`, `neopixel`, `dht11`, `adc`,
  `tasks`, `cloud`, `sd_log`, `uart_echo`, `response`).
- `tests/` — tests on concrete values for the library.
- `app/` — the firmware around it: peripherals, threads, `statig` machines,
  Wi-Fi, MQTT, and the floating-point parts (HSV conversion, sensor values).
