# garden_wifi

Firmware logic for an ESP32-C3 garden controller: a soil-moisture sensor and
a Wi-Fi bring-up that either joins a network as a station, or offers an
access point (`esp-wifi`, `192.168.2.1/24`) with a one-page web server while
joining a network.

- `src/` is the library, written in Verus and verified:
  - `garden::garden_types`: the calibrated moisture reading `Humidity` and
    `GardenError`.
  - `garden::gardener`: what a sensor read becomes, and the counts behind the
    moisture percentage.
  - `wifi_control::controller`: `WifiController`, the route each mode takes,
    the station credentials, the dotted-decimal address parser and the
    access point's addressing.
  - `wifi_control::ip_text`: the address text model and its proofs.
  - `wifi_control::bounded_text`: the fixed-capacity name and password
    buffers of the radio configuration (heapless).
  - `wifi_control::station_link`: the decisions of joining a network.
  - `wifi_control::web_server`: receiving and answering a request.
- `tests/` exercises the library on concrete values.
- `app/` is the firmware around it: ADC set-up and reads, radio and socket
  calls, printing, and the floating-point percentage.
