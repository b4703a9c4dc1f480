# firmware

Verified core of an ESP32-S3 USB-MIDI controller: a button and a web socket
play MIDI notes over USB, the USB serial port accepts a restart command, and a
Wi-Fi access point serves a small web app with a captive portal.

- `src/` is the library, verified with Verus:
  - `midi`: the USB MIDI packet of a Note On/Off (through `midi-convert` and
    `usbd-midi`), with its byte layout stated and proved.
  - `controller`: the MIDI task's decisions (which pin level to wait for, which
    note to send for a button event or a web-socket request).
  - `web_socket`: what the web-socket session does with each message.
  - `restart`: the serial restart command and USB endpoint faults.
  - `net`: the captive-portal URL handed out by the DHCP server.
  - `types`, `utils`: the note request type and the raced-task result.
- `app/` is the firmware around it: hardware set-up, USB, Wi-Fi, DHCP, DNS and
  HTTP I/O, and the async loops that feed events to the library.
- `tests/` runs the library on concrete values.
