# vedirect2mqtt

Reads the text protocol that Victron Energy chargers and battery monitors send
over their serial line, and publishes what they report to an MQTT broker at a
fixed interval (every 60 seconds unless configured otherwise), averaging the
measurements over each interval and integrating the battery current into the
charge drawn.

The library under `src/` is verified with Verus:

- `field`, `message`: the fields of a frame, their labels and kinds, and the
  message that a frame decodes to (`Message::set_field`).
- `number`: decimal integers as `str::parse::<isize>` reads them, and the
  grammar of floating-point literals.
- `decoder`: the frame state machine, one byte at a time (`step`, `run`), and
  the decoder that reads frames from buffers of the serial stream.
- `frame_laws`: what whole frames decode to, checksum refusal, and hex records.
- `collector`, `json`: collecting messages over a period and the entries of
  the message to publish.
- `mqtt`: what to do about each event of the broker connection.
- `config`: the configuration and its defaults.
- `clock`: the monotonic clock.

`app/` holds the program: command line and configuration file, the serial
line, the broker connection, and the rendering of the published entries as
JSON numbers.

Configuration is in TOML:

    [mqtt]
    host = "mqtt.at.home"
    port = 1883 # (optional, default=1883)
    username = "mememe"
    password = "best-kept-secret"
    topic = "my/solar/topic" # (optional, default=vedirect2mqtt)

    [device]
    path = "/dev/ttyUSB0"

    [publish]
    interval = 300 # (optional, default=60)
