# thum

Firmware for a battery-powered temperature and humidity sensor (ESP32-C3 with an
SHT3x) that reports to Home Assistant over MQTT. The device wakes, measures, joins
the WiFi network, publishes, stores how that went, and sleeps for half an hour.

- `src/` holds every decision, verified with Verus:
  - `wake`: one wake, from boot to sleep; what is stored of a run and told by the next
  - `run`: one run, step by step, and the words in front of each error
  - `wifi`: joining the network, step by step
  - `publication`, `entity`, `discovery`: the messages, their topics and records
  - `voltage`, `text`: numbers as text
  - `json`: JSON objects over `serde_json`
  - `config`: the settings and the address of the broker
- `app/` holds the firmware around it, which talks to the hardware and the network.
  It takes its settings from `cfg.toml` and the identifier of the device, the
  constant `UUID`, from `_uuid.rs` beside `Cargo.toml`, both when it is built.
- `tests/` runs the library.
