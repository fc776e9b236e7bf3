//! Decision logic of the ESP32-C3 tutorial firmware: LED and button state
//! machines, the UART command shell, ADC and PWM arithmetic, the NeoPixel
//! bit stream, the DHT11 frame decoder and the MQTT helpers. Hardware access
//! stays with the caller; every function here is a pure step with a contract.

pub mod adc;
pub mod button_fsm;
pub mod cli;
pub mod cloud;
pub mod dht11;
pub mod fsm;
pub mod hsm;
pub mod led_fsm;
pub mod neopixel;
pub mod response;
pub mod sd_log;
pub mod tasks;
pub mod uart_echo;
pub mod wifi_blinky;
